use vstd::prelude::*;
use crate::tilemap::{Tilemap, TilemapView};
use crate::utils::{
    ceil_g, div_away, div_ceil, div_floor, div_trunc, magnitude, tile_ceil, tile_floor,
    tile_trunc, Point, Vec2, DEAD_ZONE, GRAVITY, MAP_HEIGHT, MAP_WIDTH, SPEED_LIMIT, TILE_SIZE,
    WORLD_LIMIT,
};

verus! {

/// What one tick of the resolver makes of an actor.
pub struct Motion {
    pub pos: Point,
    pub velocity: Point,
    pub force: Point,
    pub grounded: bool,
    pub head_covered: bool,
}

/// Whether the body of an actor placed at (`x`, `y`) touches a wall.
///
/// The body is probed at the two columns that `x` straddles, in the row that
/// `y` enters and the row it is in; a tall actor is probed one row higher as
/// well. A move that is blocked ends at the same place whichever of these
/// cells blocks it, so only whether one of them does is of any account.
pub open spec fn body_blocked(map: TilemapView, x: int, y: int, tall: bool) -> bool {
    let near = div_trunc(x, TILE_SIZE as int);
    let far = div_away(x, TILE_SIZE as int);
    let entered = div_away(y, TILE_SIZE as int);
    let current = div_trunc(y, TILE_SIZE as int);
    ||| map.solid_at(near, entered)
    ||| map.solid_at(far, entered)
    ||| map.solid_at(near, current)
    ||| map.solid_at(far, current)
    ||| (tall && map.solid_at(near, current - 1))
    ||| (tall && map.solid_at(far, current - 1))
}

/// Whether there is a wall right above an actor at (`x`, `y`): one row up
/// for a short actor, two rows up for a tall one.
pub open spec fn head_blocked(map: TilemapView, x: int, y: int, tall: bool) -> bool {
    let near = div_trunc(x, TILE_SIZE as int);
    let far = div_away(x, TILE_SIZE as int);
    let above = div_away(y, TILE_SIZE as int) - if tall {
        2int
    } else {
        1int
    };
    map.solid_at(near, above) || map.solid_at(far, above)
}

/// Where a blocked move along one axis ends: on the cell boundary behind
/// the coordinate `from` that the move started at.
pub open spec fn snapped(from: int, speed: int) -> int {
    if speed < 0 {
        div_floor(from, TILE_SIZE as int) * TILE_SIZE
    } else {
        div_ceil(from, TILE_SIZE as int) * TILE_SIZE
    }
}

/// One tick of motion: gravity joins the force, the force joins the
/// velocity, and the velocity moves the actor, first along y, then along x.
/// A move that would put the body into a wall ends on the cell boundary it
/// started from and loses its speed; a blocked move that was not upward
/// grounds the actor. Slow horizontal motion is stopped.
pub open spec fn resolve(
    map: TilemapView,
    pos: Point,
    force: Point,
    velocity: Point,
    tall: bool,
) -> Motion {
    let force = Point { x: force.x, y: force.y + GRAVITY };
    let vx = velocity.x + force.x;
    let vy = velocity.y + force.y;
    let y_blocked = body_blocked(map, pos.x, pos.y + vy, tall);
    let y = if y_blocked {
        snapped(pos.y, vy)
    } else {
        pos.y + vy
    };
    let x_blocked = body_blocked(map, pos.x + vx, y, tall);
    let x = if x_blocked {
        snapped(pos.x, vx)
    } else {
        pos.x + vx
    };
    Motion {
        pos: Point { x, y },
        velocity: Point {
            x: if x_blocked || magnitude(vx) <= DEAD_ZONE {
                0
            } else {
                vx
            },
            y: if y_blocked {
                0
            } else {
                vy
            },
        },
        force,
        grounded: y_blocked && vy >= 0,
        head_covered: head_blocked(map, x, y, tall),
    }
}

/// Whether the cell in column `tx`, row `ty` is a wall.
fn probe(map: &Tilemap, tx: i64, ty: i64) -> (solid: bool)
    ensures
        solid == map@.solid_at(tx as int, ty as int),
{
    map.get_collision_tile(tx, ty) != 0
}

/// Probes the body of an actor at (`x`, `y`), cell by cell, and stops at
/// the first wall.
fn probe_body(map: &Tilemap, x: i64, y: i64, tall: bool) -> (blocked: bool)
    ensures
        blocked == body_blocked(map@, x as int, y as int, tall),
{
    let near: i64 = tile_trunc(x);
    let far: i64 = ceil_g(x);
    let entered: i64 = ceil_g(y);
    let current: i64 = tile_trunc(y);
    let mut cells: Vec<(i64, i64)> = Vec::new();
    cells.push((near, entered));
    cells.push((far, entered));
    cells.push((near, current));
    cells.push((far, current));
    if tall {
        cells.push((near, current - 1));
        cells.push((far, current - 1));
    }
    let mut i: usize = 0;
    while i < cells.len()
        invariant
            i <= cells.len(),
            cells.len() == if tall {
                6int
            } else {
                4int
            },
            cells[0] == (near, entered),
            cells[1] == (far, entered),
            cells[2] == (near, current),
            cells[3] == (far, current),
            tall ==> cells[4] == (near, (current - 1) as i64),
            tall ==> cells[5] == (far, (current - 1) as i64),
            near == div_trunc(x as int, TILE_SIZE as int),
            far == div_away(x as int, TILE_SIZE as int),
            entered == div_away(y as int, TILE_SIZE as int),
            current == div_trunc(y as int, TILE_SIZE as int),
            forall|j: int| 0 <= j < i ==> !map@.solid_at(cells[j].0 as int, cells[j].1 as int),
        decreases cells.len() - i,
    {
        let (tx, ty) = cells[i];
        if probe(map, tx, ty) {
            return true;
        }
        i += 1;
    }
    proof {
        assert(!map@.solid_at(cells[0].0 as int, cells[0].1 as int));
        assert(!map@.solid_at(cells[1].0 as int, cells[1].1 as int));
        assert(!map@.solid_at(cells[2].0 as int, cells[2].1 as int));
        assert(!map@.solid_at(cells[3].0 as int, cells[3].1 as int));
        if tall {
            assert(!map@.solid_at(cells[4].0 as int, cells[4].1 as int));
            assert(!map@.solid_at(cells[5].0 as int, cells[5].1 as int));
        }
    }
    false
}

/// Where a blocked move that started at `from` ends.
fn snap(from: i64, speed: i64) -> (to: i64)
    requires
        -WORLD_LIMIT <= from <= WORLD_LIMIT,
    ensures
        to == snapped(from as int, speed as int),
        -WORLD_LIMIT <= to <= WORLD_LIMIT,
{
    if speed < 0 {
        tile_floor(from) * TILE_SIZE
    } else {
        tile_ceil(from) * TILE_SIZE
    }
}

/// Moves an actor by one tick against the walls of `map`.
///
/// Gravity is added to `forces`, `forces` to `velocity`, and `velocity` to
/// `pos`, each axis stopping at the walls as [`resolve`] says. Returns
/// whether the actor stands on ground and whether there is a wall over its
/// head.
pub fn update_physics_entity(
    pos: &mut Vec2,
    forces: &mut Vec2,
    velocity: &mut Vec2,
    tall: bool,
    map: &Tilemap,
) -> (flags: (bool, bool))
    requires
        old(pos)@.within(WORLD_LIMIT as int),
        old(forces)@.within(SPEED_LIMIT as int),
        old(velocity)@.within(SPEED_LIMIT as int),
    ensures
        final(pos)@ == resolve(map@, old(pos)@, old(forces)@, old(velocity)@, tall).pos,
        final(velocity)@ == resolve(map@, old(pos)@, old(forces)@, old(velocity)@, tall).velocity,
        final(forces)@ == resolve(map@, old(pos)@, old(forces)@, old(velocity)@, tall).force,
        flags.0 == resolve(map@, old(pos)@, old(forces)@, old(velocity)@, tall).grounded,
        flags.1 == resolve(map@, old(pos)@, old(forces)@, old(velocity)@, tall).head_covered,
        final(pos)@.within(WORLD_LIMIT as int),
        final(velocity)@.within(WORLD_LIMIT + MAP_WIDTH * TILE_SIZE),
{
    forces.y = forces.y + GRAVITY;
    velocity.x = velocity.x + forces.x;
    velocity.y = velocity.y + forces.y;

    let mut new = Vec2 { x: pos.x + velocity.x, y: pos.y + velocity.y };

    let mut on_ground = false;
    if probe_body(map, pos.x, new.y, tall) {
        if velocity.y >= 0 {
            on_ground = true;
        }
        new.y = snap(pos.y, velocity.y);
        velocity.y = 0;
    }
    if probe_body(map, new.x, new.y, tall) {
        new.x = snap(pos.x, velocity.x);
        velocity.x = 0;
    }

    let above: i64 = ceil_g(new.y) - if tall {
        2
    } else {
        1
    };
    let mut head_covered = false;
    if probe(map, tile_trunc(new.x), above) {
        head_covered = true;
    }
    if probe(map, ceil_g(new.x), above) {
        head_covered = true;
    }

    if velocity.x >= -DEAD_ZONE && velocity.x <= DEAD_ZONE {
        velocity.x = 0;
    }
    *pos = new;

    (on_ground, head_covered)
}

/// An actor at `pos` rests on a floor: its feet are on a cell boundary and
/// the cell right below, in one of the two columns that it straddles, is a
/// wall.
pub open spec fn on_floor(map: TilemapView, pos: Point) -> bool {
    let below = pos.y / (TILE_SIZE as int) + 1;
    &&& pos.y % (TILE_SIZE as int) == 0
    &&& (map.solid_at(div_trunc(pos.x, TILE_SIZE as int), below) || map.solid_at(
        div_away(pos.x, TILE_SIZE as int),
        below,
    ))
}

/// No force and no motion.
pub open spec fn still() -> Point {
    Point { x: 0, y: 0 }
}

/// An actor that rests on a floor, without velocity and without force, is
/// grounded after one tick, has no velocity, and has not sunk.
pub proof fn lemma_rest_on_floor(map: TilemapView, pos: Point, tall: bool)
    requires
        on_floor(map, pos),
    ensures
        resolve(map, pos, still(), still(), tall).grounded,
        resolve(map, pos, still(), still(), tall).velocity == still(),
        resolve(map, pos, still(), still(), tall).pos.y == pos.y,
{
}

/// An actor is at rest at `pos`: its feet are on a cell boundary from
/// which gravity cannot move it, and it is in line with the columns or
/// clear of the walls.
pub open spec fn rests(map: TilemapView, pos: Point, tall: bool) -> bool {
    &&& pos.y % (TILE_SIZE as int) == 0
    &&& body_blocked(map, pos.x, pos.y + GRAVITY, tall)
    &&& (pos.x % (TILE_SIZE as int) == 0 || !body_blocked(map, pos.x, pos.y, tall))
}

/// An actor on a floor that is in line with the columns or clear of the
/// walls is at rest.
pub proof fn lemma_floor_gives_rest(map: TilemapView, pos: Point, tall: bool)
    requires
        on_floor(map, pos),
        pos.x % (TILE_SIZE as int) == 0 || !body_blocked(map, pos.x, pos.y, tall),
    ensures
        rests(map, pos, tall),
{
}

/// Rest is the fixed point of the resolver. A tick without force leaves an
/// actor without velocity where it is exactly if the actor is at rest; it
/// then reports the actor grounded and without velocity, and a second tick
/// on what the first one left changes nothing.
pub proof fn lemma_rest_is_fixed_point(map: TilemapView, pos: Point, tall: bool)
    ensures
        rests(map, pos, tall) <==> resolve(map, pos, still(), still(), tall).pos == pos,
        rests(map, pos, tall) ==> resolve(map, pos, still(), still(), tall).velocity == still(),
        rests(map, pos, tall) ==> resolve(map, pos, still(), still(), tall).grounded,
        rests(map, pos, tall) ==> ({
            let once = resolve(map, pos, still(), still(), tall);
            resolve(map, once.pos, still(), once.velocity, tall) == once
        }),
{
}

/// `pos` is a place on the map: not left of or above the first cell, and
/// not right of or below the last.
pub open spec fn on_map(pos: Point) -> bool {
    &&& 0 <= pos.x <= (MAP_WIDTH - 1) * TILE_SIZE
    &&& 0 <= pos.y <= (MAP_HEIGHT - 1) * TILE_SIZE
}

/// Nothing leaves the map: whatever its velocity and the force on it, an
/// actor that is on the map is on the map after the tick, and one that was
/// not blocked is on the map wherever it came from.
pub proof fn lemma_map_holds_actors(
    map: TilemapView,
    pos: Point,
    force: Point,
    velocity: Point,
    tall: bool,
)
    ensures
        on_map(pos) ==> on_map(resolve(map, pos, force, velocity, tall).pos),
        resolve(map, pos, force, velocity, tall).velocity.x != 0 && resolve(
            map,
            pos,
            force,
            velocity,
            tall,
        ).velocity.y != 0 ==> on_map(resolve(map, pos, force, velocity, tall).pos),
{
}

/// Horizontal speed never ends a tick inside the dead zone: it is zero or
/// larger than the threshold, and a speed that enters the tick at or below
/// the threshold, force included, leaves it as zero.
pub proof fn lemma_dead_zone(
    map: TilemapView,
    pos: Point,
    force: Point,
    velocity: Point,
    tall: bool,
)
    ensures
        magnitude(velocity.x + force.x) <= DEAD_ZONE ==> resolve(
            map,
            pos,
            force,
            velocity,
            tall,
        ).velocity.x == 0,
        resolve(map, pos, force, velocity, tall).velocity.x == 0 || magnitude(
            resolve(map, pos, force, velocity, tall).velocity.x,
        ) > DEAD_ZONE,
{
}

/// The actor after `ticks` ticks without any force but gravity.
pub open spec fn drift(
    map: TilemapView,
    pos: Point,
    velocity: Point,
    tall: bool,
    ticks: nat,
) -> Motion
    decreases ticks,
{
    if ticks == 0 {
        Motion { pos, velocity, force: still(), grounded: false, head_covered: false }
    } else {
        let before = drift(map, pos, velocity, tall, (ticks - 1) as nat);
        resolve(map, before.pos, still(), before.velocity, tall)
    }
}

/// None of the first `ticks` ticks of a drift is blocked along y.
pub open spec fn falls_freely(
    map: TilemapView,
    pos: Point,
    velocity: Point,
    tall: bool,
    ticks: nat,
) -> bool
    decreases ticks,
{
    ticks > 0 ==> {
        let before = drift(map, pos, velocity, tall, (ticks - 1) as nat);
        &&& falls_freely(map, pos, velocity, tall, (ticks - 1) as nat)
        &&& !body_blocked(map, before.pos.x, before.pos.y + before.velocity.y + GRAVITY, tall)
    }
}

/// While nothing blocks a fall, the vertical speed grows by gravity every
/// tick and the height is the sum of the speeds so far: after `n` ticks from
/// speed `v` the speed is `v + n * g` and the actor is
/// `n * v + g * n * (n + 1) / 2` further down.
pub proof fn lemma_free_fall(
    map: TilemapView,
    pos: Point,
    velocity: Point,
    tall: bool,
    ticks: nat,
)
    requires
        falls_freely(map, pos, velocity, tall, ticks),
    ensures
        drift(map, pos, velocity, tall, ticks).velocity.y == velocity.y + ticks * GRAVITY,
        2 * drift(map, pos, velocity, tall, ticks).pos.y == 2 * pos.y + 2 * ticks * velocity.y
            + GRAVITY * ticks * (ticks + 1),
    decreases ticks,
{
    if ticks > 0 {
        let n = (ticks - 1) as nat;
        lemma_free_fall(map, pos, velocity, tall, n);
        let before = drift(map, pos, velocity, tall, n);
        assert(before.velocity.y == velocity.y + n * GRAVITY);
        assert(2 * before.pos.y == 2 * pos.y + 2 * n * velocity.y + GRAVITY * n * (n + 1));
        let after = drift(map, pos, velocity, tall, ticks);
        assert(after.velocity.y == before.velocity.y + GRAVITY);
        assert(after.pos.y == before.pos.y + after.velocity.y);
        assert(2 * after.pos.y == 2 * pos.y + 2 * ticks * velocity.y + GRAVITY * ticks * (ticks
            + 1)) by (nonlinear_arith)
            requires
                ticks == n + 1,
                2 * before.pos.y == 2 * pos.y + 2 * n * velocity.y + GRAVITY * n * (n + 1),
                after.pos.y == before.pos.y + velocity.y + n * GRAVITY + GRAVITY,
        ;
    } else {
        assert(2 * ticks * velocity.y + GRAVITY * ticks * (ticks + 1) == 0) by (nonlinear_arith)
            requires
                ticks == 0,
        ;
    }
}

} // verus!
