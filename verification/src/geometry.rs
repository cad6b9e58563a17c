//! Points, viewport bounds, fixed-point scaling and the proximity test.

use vstd::prelude::*;

verus! {

/// Length units per pixel.
pub const UNITS_PER_PIXEL: i64 = 1000;

/// The fixed-point value that stands for the fraction 1 (2^32).
pub const FRACTION_ONE: i64 = 4294967296;

/// The component of a unit diagonal: the largest `d` with `2 * d * d <= FRACTION_ONE^2`.
pub const FRACTION_DIAGONAL: i64 = 3037000499;

/// Nanoseconds per second.
pub const NANOS_PER_SECOND: u64 = 1000000000;

/// Largest magnitude of a coordinate that the movement rules accept (2^62).
pub const COORD_LIMIT: i64 = 4611686018427387904;

/// Largest speed, in length units per second, that `displacement` accepts (2^20).
pub const SPEED_LIMIT: i64 = 1048576;

/// A pair of fixed-point numbers: a position in length units, or a direction
/// in fraction units.
#[derive(Clone, Copy, Debug, PartialEq, Eq, Structural)]
pub struct Vec2 {
    pub x: i64,
    pub y: i64,
}

/// The visible play area, in length units.
#[derive(Clone, Copy, Debug, PartialEq, Eq, Structural)]
pub struct Viewport {
    pub width: i64,
    pub height: i64,
}

impl Viewport {
    /// Both dimensions are positive and within the coordinate limit.
    pub open spec fn valid(&self) -> bool {
        0 < self.width <= COORD_LIMIT && 0 < self.height <= COORD_LIMIT
    }

    /// Whether both dimensions are positive and within the coordinate limit.
    pub fn is_valid(&self) -> (ok: bool)
        ensures
            ok == self.valid(),
    {
        0 < self.width && self.width <= COORD_LIMIT && 0 < self.height && self.height
            <= COORD_LIMIT
    }
}

/// Whether both coordinates of `p` lie within the coordinate limit.
pub open spec fn in_range(p: Vec2) -> bool {
    -COORD_LIMIT <= p.x <= COORD_LIMIT && -COORD_LIMIT <= p.y <= COORD_LIMIT
}

/// The quotient `n / d` rounded toward zero.
pub open spec fn div_toward_zero(n: int, d: int) -> int
    recommends
        d > 0,
{
    if n >= 0 {
        n / d
    } else {
        -((-n) / d)
    }
}

/// One coordinate held inside `[half, extent - half]`: the upper bound is
/// tested first, then the lower one.
pub open spec fn clamp_axis_spec(value: int, half: int, extent: int) -> int {
    if value > extent - half {
        extent - half
    } else if value < half {
        half
    } else {
        value
    }
}

/// Holds one coordinate inside `[half, extent - half]`.
pub fn clamp_axis(value: i64, half: i64, extent: i64) -> (r: i64)
    requires
        0 <= half <= COORD_LIMIT,
        0 < extent <= COORD_LIMIT,
    ensures
        r == clamp_axis_spec(value as int, half as int, extent as int),
{
    let upper: i64 = extent - half;
    if value > upper {
        upper
    } else if value < half {
        half
    } else {
        value
    }
}

/// Whether a coordinate lies outside `[half, extent - half]`.
pub open spec fn outside_axis(value: int, half: int, extent: int) -> bool {
    value > extent - half || value < half
}

/// The distance travelled along one axis: `direction / 2^32` of `speed` length
/// units per second for `delta` nanoseconds, rounded toward zero.
pub open spec fn displacement_spec(direction: int, speed: int, delta: int) -> int {
    div_toward_zero(direction * speed * delta, FRACTION_ONE as int * NANOS_PER_SECOND as int)
}

/// Computes the distance travelled along one axis.
pub fn displacement(direction: i64, speed: i64, delta: u64) -> (d: i64)
    requires
        -FRACTION_ONE <= direction <= FRACTION_ONE,
        0 <= speed <= SPEED_LIMIT,
    ensures
        d == displacement_spec(direction as int, speed as int, delta as int),
        -COORD_LIMIT < d < COORD_LIMIT,
{
    assert(-0x1_0000_0000 * 0x10_0000 <= direction * speed <= 0x1_0000_0000 * 0x10_0000)
        by (nonlinear_arith)
        requires
            -0x1_0000_0000 <= direction <= 0x1_0000_0000,
            0 <= speed <= 0x10_0000,
    ;
    let ds: i128 = (direction as i128) * (speed as i128);
    assert(-0x10_0000_0000_0000 * 0x1_0000_0000_0000_0000 <= ds * delta
        <= 0x10_0000_0000_0000 * 0x1_0000_0000_0000_0000) by (nonlinear_arith)
        requires
            -0x10_0000_0000_0000 <= ds <= 0x10_0000_0000_0000,
            0 <= delta < 0x1_0000_0000_0000_0000,
    ;
    let product: i128 = ds * (delta as i128);
    let divisor: i128 = 4294967296000000000;
    if product >= 0 {
        let q: i128 = product / divisor;
        q as i64
    } else {
        let q: i128 = (-product) / divisor;
        (-q) as i64
    }
}

/// A coordinate drawn inside the margins: `size / 2` plus the fraction
/// `fraction / 2^32` of `extent - size`, rounded toward zero.
pub open spec fn spawn_coordinate_spec(extent: int, size: int, fraction: int) -> int {
    size / 2 + div_toward_zero((extent - size) * fraction, FRACTION_ONE as int)
}

/// Places a coordinate inside the margins of one axis from a drawn fraction.
pub fn spawn_coordinate(extent: i64, size: i64, fraction: u32) -> (c: i64)
    requires
        0 < extent <= COORD_LIMIT,
        0 <= size <= COORD_LIMIT,
    ensures
        c == spawn_coordinate_spec(extent as int, size as int, fraction as int),
        size <= extent ==> size / 2 <= c <= extent - size / 2,
        in_range(Vec2 { x: c, y: c }),
{
    let span: i128 = (extent as i128) - (size as i128);
    let f: i128 = fraction as i128;
    assert(-0x4000_0000_0000_0000 * 0x1_0000_0000 <= span * f <= 0x4000_0000_0000_0000
        * 0x1_0000_0000) by (nonlinear_arith)
        requires
            -0x4000_0000_0000_0000 <= span <= 0x4000_0000_0000_0000,
            0 <= f < 0x1_0000_0000,
    ;
    let product: i128 = span * f;
    let half: i64 = size / 2;
    if product >= 0 {
        let q: i128 = product / 4294967296;
        assert(q == 0 || (span >= 0 && q <= span)) by (nonlinear_arith)
            requires
                q == (span * f) / 4294967296,
                0 <= f < 4294967296,
                span * f >= 0,
        ;
        half + (q as i64)
    } else {
        let q: i128 = (-product) / 4294967296;
        assert(q <= -span) by (nonlinear_arith)
            requires
                q == (-(span * f)) / 4294967296,
                0 <= f < 4294967296,
                span * f < 0,
        ;
        half - (q as i64)
    }
}

/// Whether two centres lie no farther apart than `reach`: the squared
/// Euclidean distance is at most the squared reach.
pub open spec fn within_reach_spec(a: Vec2, b: Vec2, reach: int) -> bool {
    (a.x - b.x) * (a.x - b.x) + (a.y - b.y) * (a.y - b.y) <= reach * reach
}

/// Tests whether two centres lie no farther apart than `reach`.
pub fn within_reach(a: Vec2, b: Vec2, reach: i64) -> (hit: bool)
    requires
        0 <= reach <= COORD_LIMIT,
    ensures
        hit == within_reach_spec(a, b, reach as int),
{
    let dx: i128 = (a.x as i128) - (b.x as i128);
    let dy: i128 = (a.y as i128) - (b.y as i128);
    let r: i128 = reach as i128;
    if dx > r || dx < -r || dy > r || dy < -r {
        assert(dx * dx + dy * dy > r * r) by (nonlinear_arith)
            requires
                r >= 0,
                dx > r || dx < -r || dy > r || dy < -r,
        ;
        false
    } else {
        assert(0 <= dx * dx <= r * r && 0 <= dy * dy <= r * r && r * r
            <= 0x4000_0000_0000_0000 * 0x4000_0000_0000_0000) by (nonlinear_arith)
            requires
                0 <= r <= 0x4000_0000_0000_0000,
                -r <= dx <= r,
                -r <= dy <= r,
        ;
        dx * dx + dy * dy <= r * r
    }
}

} // verus!
