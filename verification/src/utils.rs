use vstd::prelude::*;

verus! {

/// Number of fixed-point steps in one world unit: every length, speed and
/// force of the simulation is a whole number of thousandths of a unit.
pub const UNIT: i64 = 1000;

/// Edge of one map cell, in steps (eight world units).
pub const TILE_SIZE: i64 = 8000;

/// Cells in one row of a map.
pub const MAP_WIDTH: i64 = 48;

/// Rows of a map.
pub const MAP_HEIGHT: i64 = 27;

/// Width of the visible screen, in steps.
pub const SCREEN_WIDTH: i64 = 384_000;

/// Height of the visible screen, in steps.
pub const SCREEN_HEIGHT: i64 = 216_000;

/// Largest horizontal speed of a standing player, in steps per tick.
pub const MAX_RUN_VELOCITY: i64 = 2200;

/// Share of its horizontal speed, in thousandths, that an actor on the ground
/// loses per tick.
pub const GROUND_FRICTION: i64 = 210;

/// Force of a held direction key, in steps per tick.
pub const PLAYER_SPEED: i64 = 2000;

/// Share of its horizontal speed, in thousandths, that an airborne actor
/// loses per tick.
pub const AIR_DRAG: i64 = 70;

/// Downward acceleration, in steps per tick per tick.
pub const GRAVITY: i64 = 900;

/// Horizontal speeds at or below this magnitude are snapped to rest.
pub const DEAD_ZONE: i64 = 300;

/// Positions stay within this distance of the origin on both axes: a
/// million cells, far beyond any map.
pub const WORLD_LIMIT: i64 = 8_000_000_000;

/// Speeds and forces stay within this magnitude on both axes.
pub const SPEED_LIMIT: i64 = 16_000_000_000;

/// A point or a displacement of the plane, as the specifications see it.
pub struct Point {
    pub x: int,
    pub y: int,
}

/// A point or a displacement in fixed-point steps.
#[derive(Clone, Copy, Debug, PartialEq, Eq, Structural)]
pub struct Vec2 {
    pub x: i64,
    pub y: i64,
}

impl View for Vec2 {
    type V = Point;

    open spec fn view(&self) -> Point {
        Point { x: self.x as int, y: self.y as int }
    }
}

impl Point {
    /// Both coordinates lie within `limit` of zero.
    pub open spec fn within(self, limit: int) -> bool {
        &&& -limit <= self.x <= limit
        &&& -limit <= self.y <= limit
    }
}

impl Vec2 {
    pub fn new(x: i64, y: i64) -> (v: Vec2)
        ensures
            v.x == x,
            v.y == y,
    {
        Vec2 { x, y }
    }

    /// The origin.
    pub fn zero() -> (v: Vec2)
        ensures
            v.x == 0,
            v.y == 0,
    {
        Vec2 { x: 0, y: 0 }
    }
}

/// Quotient rounded toward negative infinity.
pub open spec fn div_floor(a: int, d: int) -> int
    recommends
        d > 0,
{
    a / d
}

/// Quotient rounded toward positive infinity.
pub open spec fn div_ceil(a: int, d: int) -> int
    recommends
        d > 0,
{
    -((-a) / d)
}

/// Quotient rounded toward zero.
pub open spec fn div_trunc(a: int, d: int) -> int
    recommends
        d > 0,
{
    if a >= 0 {
        a / d
    } else {
        -((-a) / d)
    }
}

/// Quotient rounded away from zero: negative values go down, positive
/// values go up.
pub open spec fn div_away(a: int, d: int) -> int
    recommends
        d > 0,
{
    if a < 0 {
        a / d
    } else {
        -((-a) / d)
    }
}

/// Quotient rounded to the nearest integer, halves away from zero.
pub open spec fn div_round(a: int, d: int) -> int
    recommends
        d > 0,
        d % 2 == 0,
{
    if a >= 0 {
        (a + d / 2) / d
    } else {
        -((-a + d / 2) / d)
    }
}

/// The magnitude of `a`.
pub open spec fn magnitude(a: int) -> int {
    if a < 0 {
        -a
    } else {
        a
    }
}

/// `a` kept between `-limit` and `limit`.
pub open spec fn clamped(a: int, limit: int) -> int {
    if a < -limit {
        -limit
    } else if a > limit {
        limit
    } else {
        a
    }
}

/// `v` times `k` thousandths, rounded toward zero.
pub open spec fn scaled(v: int, k: int) -> int {
    div_trunc(v * k, UNIT as int)
}

/// Index of the cell row or column that holds coordinate `a`.
pub fn tile_floor(a: i64) -> (q: i64)
    ensures
        q == div_floor(a as int, TILE_SIZE as int),
{
    let q: i64 = a / TILE_SIZE;
    if a % TILE_SIZE < 0 {
        q - 1
    } else {
        q
    }
}

/// Index of the first cell boundary at or after coordinate `a`.
pub fn tile_ceil(a: i64) -> (q: i64)
    ensures
        q == div_ceil(a as int, TILE_SIZE as int),
{
    let q: i64 = a / TILE_SIZE;
    if a % TILE_SIZE > 0 {
        q + 1
    } else {
        q
    }
}

/// Cell index of coordinate `a`, rounded toward zero.
pub fn tile_trunc(a: i64) -> (q: i64)
    ensures
        q == div_trunc(a as int, TILE_SIZE as int),
{
    a / TILE_SIZE
}

/// Cell index of coordinate `a`, rounded away from zero.
pub fn ceil_g(a: i64) -> (q: i64)
    ensures
        q == div_away(a as int, TILE_SIZE as int),
{
    if a < 0 {
        tile_floor(a)
    } else {
        tile_ceil(a)
    }
}

/// Index of the cell whose corner is nearest to coordinate `a`, halves
/// away from zero.
pub fn tile_round(a: i64) -> (q: i64)
    ensures
        q == div_round(a as int, TILE_SIZE as int),
{
    let q: i64 = a / TILE_SIZE;
    let r: i64 = a % TILE_SIZE;
    if r >= TILE_SIZE / 2 {
        q + 1
    } else if r <= -(TILE_SIZE / 2) {
        q - 1
    } else {
        q
    }
}

/// Coordinate `a` rounded down to a whole world unit.
pub fn unit_floor(a: i64) -> (r: i64)
    requires
        a >= i64::MIN + UNIT,
    ensures
        r == div_floor(a as int, UNIT as int) * UNIT,
        a - UNIT < r <= a,
        -WORLD_LIMIT <= a <= WORLD_LIMIT ==> -WORLD_LIMIT <= r <= WORLD_LIMIT,
{
    let q: i64 = a / UNIT;
    if a % UNIT < 0 {
        (q - 1) * UNIT
    } else {
        q * UNIT
    }
}

/// `v` times `k` thousandths, rounded toward zero.
pub fn scale(v: i64, k: i64) -> (r: i64)
    requires
        -4 * SPEED_LIMIT <= v <= 4 * SPEED_LIMIT,
        -0x10_0000 <= k <= 0x10_0000,
    ensures
        r == scaled(v as int, k as int),
        magnitude(k as int) <= UNIT ==> magnitude(r as int) <= magnitude(v as int),
        2 * magnitude(k as int) <= UNIT ==> 2 * magnitude(r as int) <= magnitude(v as int),
{
    assert(-4 * SPEED_LIMIT * 0x10_0000 <= v * k <= 4 * SPEED_LIMIT * 0x10_0000) by (nonlinear_arith)
        requires
            -4 * SPEED_LIMIT <= v <= 4 * SPEED_LIMIT,
            -0x10_0000 <= k <= 0x10_0000,
    ;
    assert(magnitude(k as int) <= UNIT ==> magnitude(v * k) <= magnitude(v as int) * UNIT)
        by (nonlinear_arith);
    assert(2 * magnitude(k as int) <= UNIT ==> 2 * magnitude(v * k) <= magnitude(v as int) * UNIT)
        by (nonlinear_arith);
    (v * k) / UNIT
}

} // verus!
