use vstd::prelude::*;
use crate::assets::AnimationID;
use crate::graphics::{DrawCall, RenderLayer};
use crate::physics::{resolve, update_physics_entity};
use crate::tilemap::{Tilemap, TilemapView};
use crate::utils::{
    clamped, div_floor, magnitude, scale, scaled, unit_floor, Point, Vec2, AIR_DRAG,
    GROUND_FRICTION, MAX_RUN_VELOCITY, PLAYER_SPEED, SPEED_LIMIT, TILE_SIZE, UNIT, WORLD_LIMIT,
};

verus! {

/// Milliseconds of animation per tick.
pub const TICK_MILLIS: u32 = 16;

/// Share of its horizontal speed, in thousandths, that a sliding player
/// loses per tick.
pub const SLIDE_DRAG: i64 = 20;

/// Force that keeps a player creeping under a low ceiling, and the speed
/// below which it sets in.
pub const CREEP: i64 = 500;

/// Impulse of a jump from the ground.
pub const JUMP_IMPULSE: i64 = 3500;

/// What each tick of a held jump adds, per tick that is still to come.
pub const JUMP_CHARGE: i64 = 600;

/// Ticks after which a held jump adds nothing more.
pub const JUMP_TICKS: u8 = 5;

/// Horizontal speed at which a sliding jump has its full height.
pub const FULL_JUMP_SPEED: i64 = 2000;

/// Horizontal speed above which a slide that lands is launched forward.
pub const LAUNCH_SPEED: i64 = 1000;

/// What a launch adds whatever the speed of the landing.
pub const LAUNCH_BASE: i64 = 2000;

/// One world unit times one world unit: the launch adds this, divided by
/// the vertical speed of the landing.
pub const LAUNCH_RATIO: i64 = 1_000_000;

/// How far the player may drift from the camera's height before the camera
/// follows: three cells.
pub const CAMERA_SLACK: i64 = 24_000;

/// The camera stays within this distance of the origin on both axes.
pub const CAMERA_LIMIT: i64 = 8_000_024_000;

/// Health of a fresh player, in thousandths.
pub const FULL_HEALTH: i64 = 100_000;

/// The keys that the player holds during one tick.
#[derive(Clone, Copy, Debug, PartialEq, Eq, Structural)]
pub struct Input {
    pub left: bool,
    pub right: bool,
    pub jump: bool,
    pub crouch: bool,
}

/// The player as the specifications see it.
pub struct PlayerView {
    pub pos: Point,
    pub camera_pos: Point,
    pub velocity: Point,
    pub anim_frame: nat,
    pub facing_right: bool,
    pub on_ground: bool,
    pub head_covered: bool,
    pub jump_frames: nat,
    pub standing: bool,
    pub health: int,
    pub max_health: int,
}

/// The player: where it is, how it moves, and the mode it is in.
pub struct Player {
    pub pos: Vec2,
    pub camera_pos: Vec2,
    pub velocity: Vec2,
    pub anim_frame: u32,
    pub facing_right: bool,
    pub on_ground: bool,
    pub head_covered: bool,
    pub jump_frames: u8,
    pub standing: bool,
    pub health: i64,
    pub max_health: i64,
}

impl View for Player {
    type V = PlayerView;

    open spec fn view(&self) -> PlayerView {
        PlayerView {
            pos: self.pos@,
            camera_pos: self.camera_pos@,
            velocity: self.velocity@,
            anim_frame: self.anim_frame as nat,
            facing_right: self.facing_right,
            on_ground: self.on_ground,
            head_covered: self.head_covered,
            jump_frames: self.jump_frames as nat,
            standing: self.standing,
            health: self.health as int,
            max_health: self.max_health as int,
        }
    }
}

/// One for a player that faces right, minus one for one that faces left.
pub open spec fn heading(facing_right: bool) -> int {
    if facing_right {
        1
    } else {
        -1
    }
}

impl PlayerView {
    /// The player is inside the world and not faster than anything can be.
    pub open spec fn wf(self) -> bool {
        &&& self.pos.within(WORLD_LIMIT as int)
        &&& self.velocity.within(SPEED_LIMIT as int)
        &&& self.camera_pos.within(CAMERA_LIMIT as int)
    }

    /// Whether the player stands during the coming tick. A standing player
    /// goes into a slide when crouch is held; a sliding player gets up when
    /// crouch is released and nothing is over its head.
    pub open spec fn stands(self, input: Input) -> bool {
        if self.standing {
            !input.crouch
        } else {
            !input.crouch && !self.head_covered
        }
    }

    /// The force of a direction key during the coming tick: half as much
    /// again on the tick that starts a slide, nothing for a player that was
    /// sliding.
    pub open spec fn run_force(self, input: Input) -> int {
        if !self.standing {
            0
        } else if input.crouch {
            PLAYER_SPEED + PLAYER_SPEED / 2
        } else {
            PLAYER_SPEED as int
        }
    }

    /// Which way the player faces after the keys are read: the way of the
    /// key that is held, right if both are.
    pub open spec fn faces_right(self, input: Input) -> bool {
        if self.run_force(input) > 0 && input.right {
            true
        } else if self.run_force(input) > 0 && input.left {
            false
        } else {
            self.facing_right
        }
    }

    /// The push that keeps a slow sliding player moving under a ceiling.
    pub open spec fn creep_force(self) -> int {
        if !self.standing && magnitude(self.velocity.x) < CREEP && self.head_covered {
            CREEP * heading(self.facing_right)
        } else {
            0
        }
    }

    /// The horizontal force of the keys.
    pub open spec fn steer_force(self, input: Input) -> int {
        (if input.right {
            self.run_force(input)
        } else {
            0
        }) - (if input.left {
            self.run_force(input)
        } else {
            0
        })
    }

    /// Ticks of the current jump that are used up when the tick begins: none
    /// for a player on the ground.
    pub open spec fn charge(self) -> nat {
        if self.on_ground {
            0
        } else {
            self.jump_frames
        }
    }

    /// Whether the coming tick adds to a jump: the key is held, and the
    /// player is on the ground or in the first ticks of a jump.
    pub open spec fn jumps(self, input: Input) -> bool {
        input.jump && (self.on_ground || (0 < self.charge() < JUMP_TICKS))
    }

    /// The upward impulse of the coming tick. It shrinks with every tick of
    /// the jump, and a sliding player gets the share of it that its
    /// horizontal speed is of the full-jump speed.
    pub open spec fn jump_impulse(self, input: Input) -> int {
        let base = if self.charge() == 0 {
            JUMP_IMPULSE as int
        } else {
            JUMP_CHARGE * (JUMP_TICKS - self.charge())
        };
        if !self.jumps(input) {
            0
        } else if self.stands(input) {
            base
        } else if magnitude(self.velocity.x) >= FULL_JUMP_SPEED {
            base
        } else {
            base * magnitude(self.velocity.x) / (FULL_JUMP_SPEED as int)
        }
    }

    /// The share of the horizontal speed, in thousandths, that the coming
    /// tick takes away.
    pub open spec fn drag(self, input: Input) -> int {
        if !self.stands(input) {
            SLIDE_DRAG as int
        } else if self.on_ground {
            GROUND_FRICTION as int
        } else {
            AIR_DRAG as int
        }
    }

    /// The force that the coming tick hands to the resolver.
    pub open spec fn force(self, input: Input) -> Point {
        Point {
            x: self.creep_force() + self.steer_force(input) - scaled(
                self.velocity.x,
                self.drag(input),
            ),
            y: -self.jump_impulse(input),
        }
    }

    /// Whether the coming tick ends with a launch: a sliding player lands,
    /// fast enough and from a fall.
    pub open spec fn launches(self, map: TilemapView, input: Input) -> bool {
        let moved = resolve(map, self.pos, self.force(input), self.velocity, self.stands(input));
        &&& !self.on_ground
        &&& moved.grounded
        &&& !self.stands(input)
        &&& magnitude(moved.velocity.x) > LAUNCH_SPEED
        &&& self.velocity.y > 0
    }

    /// The horizontal speed after the coming tick: what the resolver left,
    /// plus the launch, kept within the run speed while standing.
    pub open spec fn next_speed(self, map: TilemapView, input: Input) -> int {
        let moved = resolve(map, self.pos, self.force(input), self.velocity, self.stands(input));
        let launched = if self.launches(map, input) {
            moved.velocity.x + ((LAUNCH_RATIO as int) / self.velocity.y + LAUNCH_BASE) * heading(
                self.faces_right(input),
            )
        } else {
            moved.velocity.x
        };
        if self.stands(input) {
            clamped(launched, MAX_RUN_VELOCITY as int)
        } else {
            launched
        }
    }

    /// The height of the camera after the player has moved to height `y`:
    /// unchanged while the player is within the slack, else at the slack's
    /// distance from the player, on the side it was on.
    pub open spec fn next_camera_y(self, y: int) -> int {
        let feet = div_floor(y, UNIT as int) * UNIT;
        let delta = self.camera_pos.y - feet;
        if magnitude(delta) < CAMERA_SLACK {
            self.camera_pos.y
        } else if delta < 0 {
            feet - CAMERA_SLACK
        } else {
            feet + CAMERA_SLACK
        }
    }

    /// The player after one tick on `map` with the keys of `input`.
    pub open spec fn step(self, map: TilemapView, input: Input) -> PlayerView {
        let moved = resolve(map, self.pos, self.force(input), self.velocity, self.stands(input));
        PlayerView {
            pos: moved.pos,
            camera_pos: Point {
                x: div_floor(moved.pos.x, UNIT as int) * UNIT,
                y: self.next_camera_y(moved.pos.y),
            },
            velocity: Point { x: self.next_speed(map, input), y: moved.velocity.y },
            anim_frame: ((self.anim_frame + TICK_MILLIS) % 0x1_0000_0000) as nat,
            facing_right: self.faces_right(input),
            on_ground: moved.grounded,
            head_covered: moved.head_covered,
            jump_frames: if self.jumps(input) {
                self.charge() + 1
            } else {
                self.charge()
            },
            standing: self.stands(input),
            health: self.health,
            max_health: self.max_health,
        }
    }

    /// Which animation shows the player: the slide while sliding, the
    /// sprint while moving, else the idle one.
    pub open spec fn animation(self) -> AnimationID {
        if !self.standing {
            AnimationID::PlayerSlide
        } else if self.velocity.x != 0 || self.velocity.y != 0 {
            AnimationID::PlayerSprint
        } else {
            AnimationID::PlayerIdle
        }
    }

    /// The instruction that paints the player: its animation, half a cell
    /// left of and a cell above the whole unit it stands on, mirrored when
    /// it faces left.
    pub open spec fn draw_call(self) -> DrawCall {
        DrawCall::Animation(
            self.animation(),
            self.anim_frame as u32,
            (div_floor(self.pos.x, UNIT as int) * UNIT - TILE_SIZE / 2) as i64,
            (div_floor(self.pos.y, UNIT as int) * UNIT - TILE_SIZE) as i64,
            !self.facing_right,
        )
    }
}

impl Player {
    /// A fresh player: at the origin, at rest, standing, facing right, in
    /// full health.
    pub fn new() -> (player: Player)
        ensures
            player@.wf(),
            player@ == (PlayerView {
                pos: Point { x: 0, y: 0 },
                camera_pos: Point { x: 0, y: 0 },
                velocity: Point { x: 0, y: 0 },
                anim_frame: 0,
                facing_right: true,
                on_ground: false,
                head_covered: false,
                jump_frames: 0,
                standing: true,
                health: FULL_HEALTH as int,
                max_health: FULL_HEALTH as int,
            }),
    {
        Player {
            pos: Vec2::zero(),
            camera_pos: Vec2::zero(),
            velocity: Vec2::zero(),
            max_health: FULL_HEALTH,
            health: FULL_HEALTH,
            anim_frame: 0,
            jump_frames: 0,
            facing_right: true,
            on_ground: false,
            head_covered: false,
            standing: true,
        }
    }

    /// Whether the player is inside the world and slow enough for a tick.
    pub fn is_valid(&self) -> (valid: bool)
        ensures
            valid == self@.wf(),
    {
        -WORLD_LIMIT <= self.pos.x && self.pos.x <= WORLD_LIMIT && -WORLD_LIMIT <= self.pos.y
            && self.pos.y <= WORLD_LIMIT && -SPEED_LIMIT <= self.velocity.x && self.velocity.x
            <= SPEED_LIMIT && -SPEED_LIMIT <= self.velocity.y && self.velocity.y <= SPEED_LIMIT
            && -CAMERA_LIMIT <= self.camera_pos.x && self.camera_pos.x <= CAMERA_LIMIT
            && -CAMERA_LIMIT <= self.camera_pos.y && self.camera_pos.y <= CAMERA_LIMIT
    }

    /// Whether the player may go into a slide: always.
    pub fn can_slide(&self) -> (can: bool)
        ensures
            can,
    {
        true
    }

    /// Reads the keys: settles the mode, the heading and the jump counter
    /// of the coming tick, and returns the force that the keys and the drag
    /// put on the player.
    fn steer(&mut self, input: Input) -> (forces: Vec2)
        requires
            old(self)@.wf(),
        ensures
            forces@ == old(self)@.force(input),
            forces@.within(SPEED_LIMIT as int),
            final(self)@ == (PlayerView {
                anim_frame: ((old(self)@.anim_frame + TICK_MILLIS) % 0x1_0000_0000) as nat,
                facing_right: old(self)@.faces_right(input),
                jump_frames: if old(self)@.jumps(input) {
                    old(self)@.charge() + 1
                } else {
                    old(self)@.charge()
                },
                standing: old(self)@.stands(input),
                ..old(self)@
            }),
    {
        self.anim_frame = self.anim_frame.wrapping_add(TICK_MILLIS);

        let mut forces = Vec2::zero();

        let mut speed: i64 = PLAYER_SPEED;
        let can_slide = self.can_slide();

        if self.standing {
            if input.crouch && can_slide {
                self.standing = false;
                speed = speed + speed / 2;
            }
        } else {
            if !input.crouch && !self.head_covered {
                self.standing = true;
            }
            speed = 0;
            if self.velocity.x > -CREEP && self.velocity.x < CREEP && self.head_covered {
                forces.x = forces.x + if self.facing_right {
                    CREEP
                } else {
                    -CREEP
                };
            }
        }

        if speed > 0 {
            if input.left {
                forces.x = forces.x - speed;
                self.facing_right = false;
            }
            if input.right {
                forces.x = forces.x + speed;
                self.facing_right = true;
            }
        }

        if self.on_ground {
            self.jump_frames = 0;
        }
        if input.jump && (self.on_ground || (self.jump_frames > 0 && self.jump_frames < JUMP_TICKS)) {
            let base: i64 = if self.jump_frames == 0 {
                JUMP_IMPULSE
            } else {
                JUMP_CHARGE * ((JUMP_TICKS - self.jump_frames) as i64)
            };
            let run: i64 = if self.velocity.x < 0 {
                -self.velocity.x
            } else {
                self.velocity.x
            };
            let impulse: i64 = if !self.standing && run < FULL_JUMP_SPEED {
                assert(0 <= base * run <= JUMP_IMPULSE * FULL_JUMP_SPEED) by (nonlinear_arith)
                    requires
                        0 <= base <= JUMP_IMPULSE,
                        0 <= run < FULL_JUMP_SPEED,
                ;
                base * run / FULL_JUMP_SPEED
            } else {
                base
            };
            forces.y = forces.y - impulse;
            self.jump_frames = self.jump_frames + 1;
        }

        let drag: i64 = if !self.standing {
            SLIDE_DRAG
        } else if self.on_ground {
            GROUND_FRICTION
        } else {
            AIR_DRAG
        };
        forces.x = forces.x - scale(self.velocity.x, drag);
        forces
    }

    /// Lets the camera follow: sideways at once, up and down only as far
    /// as the slack makes it.
    fn follow(&mut self)
        requires
            old(self)@.pos.within(WORLD_LIMIT as int),
            old(self)@.camera_pos.within(CAMERA_LIMIT as int),
        ensures
            final(self)@ == (PlayerView {
                camera_pos: Point {
                    x: div_floor(old(self)@.pos.x, UNIT as int) * UNIT,
                    y: old(self)@.next_camera_y(old(self)@.pos.y),
                },
                ..old(self)@
            }),
            final(self)@.camera_pos.within(CAMERA_LIMIT as int),
    {
        self.camera_pos.x = unit_floor(self.pos.x);
        let feet: i64 = unit_floor(self.pos.y);
        let delta: i64 = self.camera_pos.y - feet;
        if delta <= -CAMERA_SLACK {
            self.camera_pos.y = feet - CAMERA_SLACK;
        } else if delta >= CAMERA_SLACK {
            self.camera_pos.y = feet + CAMERA_SLACK;
        }
    }

    /// Moves the player by one tick: reads the keys, lets the resolver move
    /// it against the walls of `map`, and lets the camera follow.
    pub fn update(&mut self, map: &Tilemap, input: Input)
        requires
            old(self)@.wf(),
        ensures
            final(self)@ == old(self)@.step(map@, input),
            final(self)@.wf(),
    {
        let was_on_ground = self.on_ground;
        let old_velocity = self.velocity;
        let mut forces = self.steer(input);
        let (on_ground, head_covered) = update_physics_entity(
            &mut self.pos,
            &mut forces,
            &mut self.velocity,
            self.standing,
            map,
        );
        if !was_on_ground && on_ground && !self.standing && (self.velocity.x > LAUNCH_SPEED
            || self.velocity.x < -LAUNCH_SPEED) && old_velocity.y > 0 {
            let boost: i64 = LAUNCH_RATIO / old_velocity.y + LAUNCH_BASE;
            if self.facing_right {
                self.velocity.x = self.velocity.x + boost;
            } else {
                self.velocity.x = self.velocity.x - boost;
            }
        }
        if self.standing {
            if self.velocity.x < -MAX_RUN_VELOCITY {
                self.velocity.x = -MAX_RUN_VELOCITY;
            } else if self.velocity.x > MAX_RUN_VELOCITY {
                self.velocity.x = MAX_RUN_VELOCITY;
            }
        }
        self.on_ground = on_ground;
        self.head_covered = head_covered;
        self.follow();
    }

    /// Adds the instruction that paints the player to `layer`.
    pub fn draw(&self, layer: &mut RenderLayer)
        requires
            self@.pos.within(WORLD_LIMIT as int),
        ensures
            final(layer).calls@ == old(layer).calls@.push(self@.draw_call()),
    {
        let animation = if !self.standing {
            AnimationID::PlayerSlide
        } else if self.velocity.x != 0 || self.velocity.y != 0 {
            AnimationID::PlayerSprint
        } else {
            AnimationID::PlayerIdle
        };
        layer.calls.push(
            DrawCall::Animation(
                animation,
                self.anim_frame,
                unit_floor(self.pos.x) - TILE_SIZE / 2,
                unit_floor(self.pos.y) - TILE_SIZE,
                !self.facing_right,
            ),
        );
    }
}

} // verus!
