//! Fixed-point quantities, time stepping and the circle-against-box test.

use vstd::prelude::*;

verus! {

/// Micro-units per world unit; also microseconds per second and
/// micro-degrees per degree.
pub const UNIT: i64 = 1_000_000;

/// Every position stays within `[-POSITION_LIMIT, POSITION_LIMIT]`.
pub const POSITION_LIMIT: i64 = 1_000_000_000_000_000_000;

/// The largest game height, in micro-units, that the world accepts.
pub const GAME_HEIGHT_LIMIT: i64 = 1_000_000_000_000_000;

/// The largest magnitude of a per-second rate that `scaled_step` accepts.
pub const RATE_LIMIT: i64 = 2_000_000_000;

/// The largest magnitude of a coordinate that `circle_touches_box` accepts.
pub const COORD_LIMIT: i64 = 4_000_000_000_000_000_000;

/// The largest circle radius that `circle_touches_box` accepts.
pub const RADIUS_LIMIT: i64 = 2_000_000_000;

/// A point or a displacement in micro-units.
#[derive(Clone, Copy, Debug, PartialEq, Eq, Structural)]
pub struct Vec2 {
    pub x: i64,
    pub y: i64,
}

/// A circle given by its center and radius.
#[derive(Clone, Copy, Debug, PartialEq, Eq, Structural)]
pub struct Circle {
    pub center: Vec2,
    pub radius: i64,
}

/// An axis-aligned box given by its lowest and highest corners.
#[derive(Clone, Copy, Debug, PartialEq, Eq, Structural)]
pub struct Aabb {
    pub min: Vec2,
    pub max: Vec2,
}

/// A value moved into the world's bounds.
pub open spec fn clamp_position(v: int) -> int {
    if v < -POSITION_LIMIT {
        -POSITION_LIMIT as int
    } else if v > POSITION_LIMIT {
        POSITION_LIMIT as int
    } else {
        v
    }
}

pub open spec fn within_world(v: int) -> bool {
    -POSITION_LIMIT <= v <= POSITION_LIMIT
}

/// How much a quantity changing at `rate` per second changes over `dt_us`
/// microseconds, rounded down.
pub open spec fn step_of(rate: int, dt_us: int) -> int {
    (rate * dt_us) / (UNIT as int)
}

/// Distance along one axis from `v` to the interval `[lo, hi]`.
pub open spec fn axis_gap(v: int, lo: int, hi: int) -> int {
    if v < lo {
        lo - v
    } else if v > hi {
        v - hi
    } else {
        0
    }
}

/// The circle overlaps or touches the box: the distance from the box to the
/// circle's center is at most the radius.
pub open spec fn touches(c: Circle, b: Aabb) -> bool {
    let dx = axis_gap(c.center.x as int, b.min.x as int, b.max.x as int);
    let dy = axis_gap(c.center.y as int, b.min.y as int, b.max.y as int);
    dx * dx + dy * dy <= c.radius * c.radius
}

pub open spec fn coord_ok(v: i64) -> bool {
    -COORD_LIMIT <= v <= COORD_LIMIT
}

pub open spec fn box_in_range(b: Aabb) -> bool {
    coord_ok(b.min.x) && coord_ok(b.min.y) && coord_ok(b.max.x) && coord_ok(b.max.y)
}

pub open spec fn circle_in_range(c: Circle) -> bool {
    coord_ok(c.center.x) && coord_ok(c.center.y) && 0 <= c.radius <= RADIUS_LIMIT
}

/// `v` moved into the world's bounds.
pub fn clamp_to_world(v: i64) -> (r: i64)
    ensures
        r == clamp_position(v as int),
{
    if v < -POSITION_LIMIT {
        -POSITION_LIMIT
    } else if v > POSITION_LIMIT {
        POSITION_LIMIT
    } else {
        v
    }
}

/// The position `p` moved by `d`, kept within the world's bounds.
pub fn offset_position(p: i64, d: i64) -> (r: i64)
    requires
        within_world(p as int),
    ensures
        r == clamp_position(p + d),
{
    if d >= 0 {
        if p > POSITION_LIMIT - d {
            POSITION_LIMIT
        } else {
            p + d
        }
    } else {
        if p < -POSITION_LIMIT - d {
            -POSITION_LIMIT
        } else {
            p + d
        }
    }
}

/// The change over `dt_us` microseconds of a quantity that changes at `rate`
/// per second, rounded down.
pub fn scaled_step(rate: i64, dt_us: u32) -> (r: i64)
    requires
        -RATE_LIMIT <= rate <= RATE_LIMIT,
    ensures
        r == step_of(rate as int, dt_us as int),
        rate >= 0 ==> 0 <= r <= rate * 4295,
        rate <= 0 ==> rate * 4295 <= r <= 0,
{
    let dt = dt_us as i64;
    assert(-RATE_LIMIT * 4_294_967_295 <= rate * dt <= RATE_LIMIT * 4_294_967_295) by (nonlinear_arith)
        requires
            -RATE_LIMIT <= rate <= RATE_LIMIT,
            0 <= dt <= 4_294_967_295,
    ;
    let product = rate * dt;
    assert(rate >= 0 ==> 0 <= product <= rate * 4_294_967_295) by (nonlinear_arith)
        requires
            product == rate * dt,
            0 <= dt <= 4_294_967_295,
    ;
    assert(rate <= 0 ==> rate * 4_294_967_295 <= product <= 0) by (nonlinear_arith)
        requires
            product == rate * dt,
            0 <= dt <= 4_294_967_295,
    ;
    proof {
        vstd::arithmetic::div_mod::lemma_fundamental_div_mod(product as int, UNIT as int);
    }
    match product.checked_div_euclid(UNIT) {
        Some(q) => q,
        None => 0,
    }
}

/// Distance along one axis from `v` to `[lo, hi]`.
fn gap_along(v: i64, lo: i64, hi: i64) -> (r: i64)
    requires
        coord_ok(v),
        coord_ok(lo),
        coord_ok(hi),
    ensures
        r == axis_gap(v as int, lo as int, hi as int),
        r >= 0,
{
    if v < lo {
        lo - v
    } else if v > hi {
        v - hi
    } else {
        0
    }
}

/// Whether the circle overlaps or touches the box (their distance is zero).
pub fn circle_touches_box(c: &Circle, b: &Aabb) -> (r: bool)
    requires
        circle_in_range(*c),
        box_in_range(*b),
    ensures
        r == touches(*c, *b),
{
    let dx = gap_along(c.center.x, b.min.x, b.max.x);
    let dy = gap_along(c.center.y, b.min.y, b.max.y);
    let rad = c.radius;
    if dx > rad || dy > rad {
        assert(dx * dx + dy * dy > rad * rad) by (nonlinear_arith)
            requires
                dx >= 0,
                dy >= 0,
                rad >= 0,
                dx > rad || dy > rad,
        ;
        false
    } else {
        assert(dx * dx <= rad * rad && dy * dy <= rad * rad) by (nonlinear_arith)
            requires
                0 <= dx <= rad,
                0 <= dy <= rad,
        ;
        assert(rad * rad <= RADIUS_LIMIT * RADIUS_LIMIT) by (nonlinear_arith)
            requires
                0 <= rad <= RADIUS_LIMIT,
        ;
        dx * dx + dy * dy <= rad * rad
    }
}

} // verus!
