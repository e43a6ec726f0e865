use vstd::prelude::*;
use crate::assets::AnimationID;
use crate::graphics::DrawCall;
use crate::physics::{resolve, update_physics_entity};
use crate::player::{PlayerView, TICK_MILLIS};
use crate::screens::ScreenUpdateContext;
use crate::tilemap::{Tilemap, TilemapView};
use crate::utils::{
    clamped, div_floor, div_round, magnitude, scale, scaled, tile_round, unit_floor, Point, Vec2,
    AIR_DRAG, GROUND_FRICTION, SPEED_LIMIT, TILE_SIZE, UNIT, WORLD_LIMIT,
};

verus! {

/// Distance from the player, in steps, below which an enemy strikes
/// instead of chasing: one cell.
pub const MELEE_RANGE: i64 = 8000;

/// Health that one strike takes, in thousandths.
pub const MELEE_DAMAGE: i64 = 10_000;

/// Impulse of an enemy's jump.
pub const ENEMY_JUMP: i64 = 8500;

/// Largest chasing speed that an enemy can be given, in steps per tick.
pub const ENEMY_SPEED_LIMIT: i64 = 0x10_0000;

/// Marker under an enemy's feet: jump whenever you chase.
pub const HINT_JUMP: usize = 1;

/// Marker under an enemy's feet: jump if the player is to the left.
pub const HINT_JUMP_LEFT: usize = 2;

/// Marker under an enemy's feet: jump if the player is to the right.
pub const HINT_JUMP_RIGHT: usize = 3;

/// Health after one strike. Health has no floor but the smallest number
/// that fits.
pub open spec fn struck(health: int) -> int {
    if health - MELEE_DAMAGE < i64::MIN {
        i64::MIN as int
    } else {
        health - MELEE_DAMAGE
    }
}

/// An actor of a screen that is not the player.
pub trait NonPlayerEntity: View + Sized {
    /// The actor can take part in a tick.
    spec fn wf(v: Self::V) -> bool;

    /// The actor after a tick on `map`, with the player as it was before
    /// the tick.
    spec fn step(v: Self::V, map: TilemapView, player: PlayerView) -> Self::V;

    /// The player after the actor's tick.
    spec fn strike(v: Self::V, map: TilemapView, player: PlayerView) -> PlayerView;

    /// The instruction that paints the actor.
    spec fn draw_call(v: Self::V) -> DrawCall;

    /// Moves the actor by one tick. The actor may change the player's
    /// health and nothing else of the context.
    fn update(&mut self, map: &Tilemap, ctx: &mut ScreenUpdateContext)
        requires
            Self::wf(old(self)@),
            old(ctx).player@.wf(),
        ensures
            final(self)@ == Self::step(old(self)@, map@, old(ctx).player@),
            Self::wf(final(self)@),
            final(ctx).player@ == Self::strike(old(self)@, map@, old(ctx).player@),
            final(ctx).player@.wf(),
            *final(ctx).render_layers == *old(ctx).render_layers,
            final(ctx).input == old(ctx).input,
            *final(final(ctx).player) == *final(old(ctx).player),
            *final(final(ctx).render_layers) == *final(old(ctx).render_layers),
    ;

    /// Adds the instruction that paints the actor to the layer of the
    /// actors.
    fn draw(&self, ctx: &mut ScreenUpdateContext)
        requires
            Self::wf(self@),
        ensures
            final(ctx).render_layers.entities.calls@ == old(ctx).render_layers.entities.calls@.push(
                Self::draw_call(self@),
            ),
            final(ctx).render_layers.world == old(ctx).render_layers.world,
            final(ctx).render_layers.world_foreground == old(ctx).render_layers.world_foreground,
            final(ctx).render_layers.ui == old(ctx).render_layers.ui,
            *final(ctx).player == *old(ctx).player,
            final(ctx).input == old(ctx).input,
            *final(final(ctx).player) == *final(old(ctx).player),
            *final(final(ctx).render_layers) == *final(old(ctx).render_layers),
    ;
}

/// A pursuer as the specifications see it.
pub struct HumanoidEnemyView {
    pub pos: Point,
    pub velocity: Point,
    pub anim_frame: nat,
    pub animation: AnimationID,
    pub on_ground: bool,
    pub speed: int,
}

/// An enemy that walks toward the player, jumps where a marker tells it
/// to, and strikes when it is close.
pub struct HumanoidEnemy {
    pub pos: Vec2,
    pub velocity: Vec2,
    pub anim_frame: u32,
    pub animation: AnimationID,
    pub on_ground: bool,
    pub speed: i64,
}

impl View for HumanoidEnemy {
    type V = HumanoidEnemyView;

    open spec fn view(&self) -> HumanoidEnemyView {
        HumanoidEnemyView {
            pos: self.pos@,
            velocity: self.velocity@,
            anim_frame: self.anim_frame as nat,
            animation: self.animation,
            on_ground: self.on_ground,
            speed: self.speed as int,
        }
    }
}

impl HumanoidEnemyView {
    /// Whether the player is out of reach: a cell or more away.
    pub open spec fn chases(self, player: PlayerView) -> bool {
        let dx = player.pos.x - self.pos.x;
        let dy = player.pos.y - self.pos.y;
        dx * dx + dy * dy >= MELEE_RANGE * MELEE_RANGE
    }

    /// Whether the marker under the enemy's feet tells it to jump toward
    /// the player.
    pub open spec fn hinted(self, map: TilemapView, player: PlayerView) -> bool {
        let dx = player.pos.x - self.pos.x;
        let hint = map.special_at(
            div_round(self.pos.x, TILE_SIZE as int),
            div_round(self.pos.y, TILE_SIZE as int),
        );
        ||| hint == HINT_JUMP
        ||| (hint == HINT_JUMP_LEFT && dx < 0)
        ||| (hint == HINT_JUMP_RIGHT && dx > 0)
    }

    /// The force of the coming tick: toward the player at no more than the
    /// enemy's speed while it chases, upward where a marker says so and the
    /// enemy is on the ground, less the drag.
    pub open spec fn force(self, map: TilemapView, player: PlayerView) -> Point {
        let dx = player.pos.x - self.pos.x;
        let drag = scaled(
            self.velocity.x,
            if self.on_ground {
                GROUND_FRICTION as int
            } else {
                AIR_DRAG as int
            },
        );
        if self.chases(player) {
            Point {
                x: scaled(clamped(dx, UNIT as int), self.speed) - drag,
                y: if self.hinted(map, player) && self.on_ground {
                    -ENEMY_JUMP as int
                } else {
                    0
                },
            }
        } else {
            Point { x: -drag, y: 0 }
        }
    }
}

impl HumanoidEnemy {
    /// An enemy at rest at `pos`.
    pub fn new(pos: Vec2, animation: AnimationID, speed: i64) -> (enemy: HumanoidEnemy)
        ensures
            enemy@ == (HumanoidEnemyView {
                pos: pos@,
                velocity: Point { x: 0, y: 0 },
                anim_frame: 0,
                animation,
                on_ground: false,
                speed: speed as int,
            }),
    {
        HumanoidEnemy { pos, velocity: Vec2::zero(), anim_frame: 0, animation, on_ground: false, speed }
    }
}

/// Whether a displacement is a cell or more long.
fn out_of_reach(dx: i64, dy: i64) -> (far: bool)
    ensures
        far == (dx * dx + dy * dy >= MELEE_RANGE * MELEE_RANGE),
{
    if dx >= MELEE_RANGE || dx <= -MELEE_RANGE || dy >= MELEE_RANGE || dy <= -MELEE_RANGE {
        assert(dx * dx + dy * dy >= MELEE_RANGE * MELEE_RANGE) by (nonlinear_arith)
            requires
                magnitude(dx as int) >= MELEE_RANGE || magnitude(dy as int) >= MELEE_RANGE,
        ;
        true
    } else {
        assert(0 <= dx * dx <= MELEE_RANGE * MELEE_RANGE && 0 <= dy * dy <= MELEE_RANGE
            * MELEE_RANGE) by (nonlinear_arith)
            requires
                -MELEE_RANGE < dx < MELEE_RANGE,
                -MELEE_RANGE < dy < MELEE_RANGE,
        ;
        dx * dx + dy * dy >= MELEE_RANGE * MELEE_RANGE
    }
}

impl HumanoidEnemy {
    /// Whether the enemy is inside the world, slow enough for a tick, and
    /// given a speed within the limit.
    pub fn is_valid(&self) -> (valid: bool)
        ensures
            valid == <HumanoidEnemy as NonPlayerEntity>::wf(self@),
    {
        -WORLD_LIMIT <= self.pos.x && self.pos.x <= WORLD_LIMIT && -WORLD_LIMIT <= self.pos.y
            && self.pos.y <= WORLD_LIMIT && -SPEED_LIMIT <= self.velocity.x && self.velocity.x
            <= SPEED_LIMIT && -SPEED_LIMIT <= self.velocity.y && self.velocity.y <= SPEED_LIMIT
            && -ENEMY_SPEED_LIMIT <= self.speed && self.speed <= ENEMY_SPEED_LIMIT
    }
}

impl NonPlayerEntity for HumanoidEnemy {
    /// The enemy is inside the world, and neither faster than anything can
    /// be nor given a speed beyond the limit.
    open spec fn wf(v: HumanoidEnemyView) -> bool {
        &&& v.pos.within(WORLD_LIMIT as int)
        &&& v.velocity.within(SPEED_LIMIT as int)
        &&& -ENEMY_SPEED_LIMIT <= v.speed <= ENEMY_SPEED_LIMIT
    }

    open spec fn step(v: HumanoidEnemyView, map: TilemapView, player: PlayerView) -> HumanoidEnemyView {
        let moved = resolve(map, v.pos, v.force(map, player), v.velocity, true);
        HumanoidEnemyView {
            pos: moved.pos,
            velocity: moved.velocity,
            anim_frame: ((v.anim_frame + TICK_MILLIS) % 0x1_0000_0000) as nat,
            on_ground: moved.grounded,
            ..v
        }
    }

    open spec fn strike(v: HumanoidEnemyView, map: TilemapView, player: PlayerView) -> PlayerView {
        if v.chases(player) {
            player
        } else {
            PlayerView { health: struck(player.health), ..player }
        }
    }

    open spec fn draw_call(v: HumanoidEnemyView) -> DrawCall {
        DrawCall::Animation(
            v.animation,
            v.anim_frame as u32,
            (div_floor(v.pos.x, UNIT as int) * UNIT - TILE_SIZE / 2) as i64,
            (div_floor(v.pos.y, UNIT as int) * UNIT - TILE_SIZE) as i64,
            v.velocity.x < 0,
        )
    }

    fn update(&mut self, map: &Tilemap, ctx: &mut ScreenUpdateContext) {
        self.anim_frame = self.anim_frame.wrapping_add(TICK_MILLIS);
        let mut forces = Vec2::zero();
        let dx: i64 = ctx.player.pos.x - self.pos.x;
        let dy: i64 = ctx.player.pos.y - self.pos.y;

        if out_of_reach(dx, dy) {
            let toward: i64 = if dx < -UNIT {
                -UNIT
            } else if dx > UNIT {
                UNIT
            } else {
                dx
            };
            forces.x = scale(toward, self.speed);
            assert(magnitude(forces.x as int) <= ENEMY_SPEED_LIMIT) by (nonlinear_arith)
                requires
                    forces.x == scaled(toward as int, self.speed as int),
                    -UNIT <= toward <= UNIT,
                    UNIT == 1000,
                    -ENEMY_SPEED_LIMIT <= self.speed <= ENEMY_SPEED_LIMIT,
            ;

            let hint = map.get_special_tile(tile_round(self.pos.x), tile_round(self.pos.y));
            let hinted = hint == HINT_JUMP || (hint == HINT_JUMP_LEFT && dx < 0) || (hint
                == HINT_JUMP_RIGHT && dx > 0);
            if hinted && self.on_ground {
                forces.y = forces.y - ENEMY_JUMP;
            }
        } else {
            ctx.player.health = if ctx.player.health < i64::MIN + MELEE_DAMAGE {
                i64::MIN
            } else {
                ctx.player.health - MELEE_DAMAGE
            };
        }
        forces.x = forces.x - scale(
            self.velocity.x,
            if self.on_ground {
                GROUND_FRICTION
            } else {
                AIR_DRAG
            },
        );

        let result = update_physics_entity(
            &mut self.pos,
            &mut forces,
            &mut self.velocity,
            true,
            map,
        );
        self.on_ground = result.0;
    }

    fn draw(&self, ctx: &mut ScreenUpdateContext) {
        ctx.render_layers.entities.calls.push(
            DrawCall::Animation(
                self.animation,
                self.anim_frame,
                unit_floor(self.pos.x) - TILE_SIZE / 2,
                unit_floor(self.pos.y) - TILE_SIZE,
                self.velocity.x < 0,
            ),
        );
    }
}

} // verus!
