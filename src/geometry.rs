//! Plane geometry on fixed-point coordinates.
//!
//! World coordinates are measured in thousandths of a world unit and stored
//! as `i32`, so one world unit is `1000`. A direction is a vector whose
//! length is about `UNIT` (a unit vector in thousandths). Positions saturate
//! at the bounds of `i32` rather than wrap.
use vstd::prelude::*;

verus! {

/// Thousandths per world unit, and the length of a direction vector.
pub const UNIT: i32 = 1000;

/// Microseconds per second: every duration is counted in microseconds.
pub const MICROS_PER_SECOND: u64 = 1_000_000;

/// A point or a vector of the plane, in thousandths of a world unit.
#[derive(Clone, Copy, Debug, PartialEq, Eq, Structural)]
pub struct Pos {
    pub x: i32,
    pub y: i32,
}

impl Pos {
    pub fn new(x: i32, y: i32) -> (r: Pos)
        ensures
            r == (Pos { x, y }),
    {
        Pos { x, y }
    }
}

pub open spec fn abs(v: int) -> int {
    if v < 0 { -v } else { v }
}

/// Truncating division, the way Rust divides signed integers.
pub open spec fn div_toward_zero(n: int, d: int) -> int {
    if n >= 0 { n / d } else { -((-n) / d) }
}

/// `v` pulled into the range of `i32`.
pub open spec fn clamp_i32(v: int) -> i32 {
    if v < i32::MIN { i32::MIN } else if v > i32::MAX { i32::MAX } else { v as i32 }
}

/// Two axis-aligned boxes, each given by its center and its half extents,
/// intersect; boxes that only touch count as intersecting.
pub open spec fn boxes_overlap(center_a: Pos, half_a: Pos, center_b: Pos, half_b: Pos) -> bool {
    &&& center_a.x - half_a.x <= center_b.x + half_b.x
    &&& center_a.x + half_a.x >= center_b.x - half_b.x
    &&& center_a.y - half_a.y <= center_b.y + half_b.y
    &&& center_a.y + half_a.y >= center_b.y - half_b.y
}

/// The square of the Euclidean distance between two points.
pub open spec fn dist_sq(a: Pos, b: Pos) -> int {
    (a.x - b.x) * (a.x - b.x) + (a.y - b.y) * (a.y - b.y)
}

pub open spec fn is_floor_sqrt(n: int, r: int) -> bool {
    0 <= r && r * r <= n < (r + 1) * (r + 1)
}

/// The largest integer whose square does not exceed `n`.
pub open spec fn floor_sqrt(n: int) -> int {
    choose|r: int| is_floor_sqrt(n, r)
}

pub open spec fn is_floor_cbrt(n: int, r: int) -> bool {
    0 <= r && r * r * r <= n < (r + 1) * (r + 1) * (r + 1)
}

/// The largest integer whose cube does not exceed `n`.
pub open spec fn floor_cbrt(n: int) -> int {
    choose|r: int| is_floor_cbrt(n, r)
}

/// The direction from `from` to `to` as a vector of length about `UNIT`:
/// the difference, scaled by `UNIT`, times `UNIT`, divided by the scaled
/// difference's length rounded down, truncated toward zero. The zero vector
/// when the two points coincide.
pub open spec fn unit_toward(from: Pos, to: Pos) -> Pos {
    let dx = (to.x - from.x) * UNIT;
    let dy = (to.y - from.y) * UNIT;
    let len = floor_sqrt(dx * dx + dy * dy);
    if dx == 0 && dy == 0 {
        Pos { x: 0, y: 0 }
    } else {
        Pos {
            x: div_toward_zero(dx * UNIT, len) as i32,
            y: div_toward_zero(dy * UNIT, len) as i32,
        }
    }
}

/// How far, in thousandths, a coordinate moves along direction component `d`
/// (thousandths of the unit vector) at `speed` units per second during
/// `delta` microseconds.
pub open spec fn displacement(d: int, speed: int, delta: int) -> int {
    div_toward_zero(d * speed * delta, MICROS_PER_SECOND as int)
}

/// `pos` moved along `dir` at `speed` for `delta` microseconds, each
/// coordinate saturating at the bounds of `i32`.
pub open spec fn advanced(pos: Pos, dir: Pos, speed: i32, delta: u64) -> Pos {
    Pos {
        x: clamp_i32(pos.x + displacement(dir.x as int, speed as int, delta as int)),
        y: clamp_i32(pos.y + displacement(dir.y as int, speed as int, delta as int)),
    }
}

/// `pos + offset`, each coordinate saturating at the bounds of `i32`.
pub open spec fn offset_by(pos: Pos, offset: Pos) -> Pos {
    Pos { x: clamp_i32(pos.x + offset.x), y: clamp_i32(pos.y + offset.y) }
}

/// `v` pulled into the range of `i32`.
pub fn clamp_to_i32(v: i128) -> (r: i32)
    ensures
        r == clamp_i32(v as int),
{
    if v < i32::MIN as i128 {
        i32::MIN
    } else if v > i32::MAX as i128 {
        i32::MAX
    } else {
        v as i32
    }
}

/// Axis-aligned bounding-box intersection, touching edges included.
pub fn overlaps(center_a: Pos, half_a: Pos, center_b: Pos, half_b: Pos) -> (r: bool)
    ensures
        r == boxes_overlap(center_a, half_a, center_b, half_b),
{
    let (ax, ay) = (center_a.x as i64, center_a.y as i64);
    let (bx, by) = (center_b.x as i64, center_b.y as i64);
    let (hax, hay) = (half_a.x as i64, half_a.y as i64);
    let (hbx, hby) = (half_b.x as i64, half_b.y as i64);
    let x_overlaps = ax - hax <= bx + hbx && ax + hax >= bx - hbx;
    let y_overlaps = ay - hay <= by + hby && ay + hay >= by - hby;
    x_overlaps && y_overlaps
}

/// The square of the Euclidean distance between two points, exactly.
pub fn distance_sq(a: Pos, b: Pos) -> (r: i128)
    ensures
        r == dist_sq(a, b),
{
    let dx = a.x as i128 - b.x as i128;
    let dy = a.y as i128 - b.y as i128;
    assert(0 <= dx * dx <= 0x1_0000_0000_0000_0000) by (nonlinear_arith)
        requires
            -0x1_0000_0000 <= dx <= 0x1_0000_0000,
    ;
    assert(0 <= dy * dy <= 0x1_0000_0000_0000_0000) by (nonlinear_arith)
        requires
            -0x1_0000_0000 <= dy <= 0x1_0000_0000,
    ;
    dx * dx + dy * dy
}

pub proof fn lemma_floor_sqrt_unique(n: int, r: int)
    requires
        is_floor_sqrt(n, r),
    ensures
        floor_sqrt(n) == r,
{
    let c = floor_sqrt(n);
    assert(is_floor_sqrt(n, c));
    if c < r {
        assert((c + 1) * (c + 1) <= r * r) by (nonlinear_arith)
            requires
                0 <= c < r,
        ;
    } else if r < c {
        assert((r + 1) * (r + 1) <= c * c) by (nonlinear_arith)
            requires
                0 <= r < c,
        ;
    }
}

pub proof fn lemma_floor_cbrt_unique(n: int, r: int)
    requires
        is_floor_cbrt(n, r),
    ensures
        floor_cbrt(n) == r,
{
    let c = floor_cbrt(n);
    assert(is_floor_cbrt(n, c));
    if c < r {
        assert((c + 1) * (c + 1) * (c + 1) <= r * r * r) by (nonlinear_arith)
            requires
                0 <= c < r,
        ;
    } else if r < c {
        assert((r + 1) * (r + 1) * (r + 1) <= c * c * c) by (nonlinear_arith)
            requires
                0 <= r < c,
        ;
    }
}

/// Integer square root, rounded down.
pub fn isqrt(n: u128) -> (r: u128)
    ensures
        is_floor_sqrt(n as int, r as int),
        r == floor_sqrt(n as int),
        r < 0x1_0000_0000_0000_0000,
{
    let mut lo: u128 = 0;
    let mut hi: u128 = 0x1_0000_0000_0000_0000;
    assert(n < hi * hi) by (nonlinear_arith)
        requires
            n < 0x1_0000_0000_0000_0000_0000_0000_0000_0000,
            hi == 0x1_0000_0000_0000_0000,
    ;
    while hi - lo > 1
        invariant
            lo < hi <= 0x1_0000_0000_0000_0000,
            lo * lo <= n,
            n < hi * hi,
        decreases hi - lo,
    {
        let mid = lo + (hi - lo) / 2;
        assert(mid * mid < 0x1_0000_0000_0000_0000_0000_0000_0000_0000) by (nonlinear_arith)
            requires
                mid < 0x1_0000_0000_0000_0000,
        ;
        if mid * mid <= n {
            lo = mid;
        } else {
            hi = mid;
        }
    }
    assert(hi == lo + 1);
    proof {
        lemma_floor_sqrt_unique(n as int, lo as int);
    }
    lo
}

/// Integer cube root, rounded down.
pub fn icbrt(n: u64) -> (r: u64)
    ensures
        is_floor_cbrt(n as int, r as int),
        r == floor_cbrt(n as int),
{
    let mut lo: u128 = 0;
    let mut hi: u128 = 0x40_0000;
    assert(n < hi * hi * hi) by (nonlinear_arith)
        requires
            n < 0x1_0000_0000_0000_0000,
            hi == 0x40_0000,
    ;
    let n128 = n as u128;
    while hi - lo > 1
        invariant
            lo < hi <= 0x40_0000,
            lo * lo * lo <= n128,
            n128 == n,
            n128 < hi * hi * hi,
        decreases hi - lo,
    {
        let mid = lo + (hi - lo) / 2;
        assert(mid * mid < 0x1_0000_0000_0000 && mid * mid * mid < 0x1_0000_0000_0000_0000_0000_0000)
            by (nonlinear_arith)
            requires
                mid < 0x40_0000,
        ;
        if mid * mid * mid <= n128 {
            lo = mid;
        } else {
            hi = mid;
        }
    }
    assert(hi == lo + 1);
    proof {
        lemma_floor_cbrt_unique(n as int, lo as int);
    }
    lo as u64
}

/// Truncating division by a positive divisor.
pub fn div_trunc(n: i128, d: i128) -> (r: i128)
    requires
        d > 0,
    ensures
        r == div_toward_zero(n as int, d as int),
{
    n / d
}

/// The direction from `from` toward `to` as a vector of length about `UNIT`;
/// coincident points give the zero vector instead of a division by zero.
pub fn direction_toward(from: Pos, to: Pos) -> (r: Pos)
    ensures
        r == unit_toward(from, to),
        -UNIT <= r.x <= UNIT,
        -UNIT <= r.y <= UNIT,
{
    let dx = (to.x as i128 - from.x as i128) * 1000;
    let dy = (to.y as i128 - from.y as i128) * 1000;
    if dx == 0 && dy == 0 {
        return Pos { x: 0, y: 0 };
    }
    assert(0 <= dx * dx <= 0x10_0000_0000_0000_0000_0000 && 0 <= dy * dy
        <= 0x10_0000_0000_0000_0000_0000) by (nonlinear_arith)
        requires
            -0x400_0000_0000 <= dx <= 0x400_0000_0000,
            -0x400_0000_0000 <= dy <= 0x400_0000_0000,
    ;
    let sq = dx * dx + dy * dy;
    let len = isqrt(sq as u128) as i128;
    proof {
        assert(len >= 1) by (nonlinear_arith)
            requires
                len * len <= sq < (len + 1) * (len + 1),
                sq == dx * dx + dy * dy,
                dx != 0 || dy != 0,
                len >= 0,
        ;
        lemma_component_bound(dx as int, len as int, sq as int);
        lemma_component_bound(dy as int, len as int, sq as int);
    }
    let x = div_trunc(dx * 1000, len);
    let y = div_trunc(dy * 1000, len);
    Pos { x: x as i32, y: y as i32 }
}

/// A component of a vector, times `UNIT`, divided by the vector's floor
/// length, lies within `[-UNIT, UNIT]`.
proof fn lemma_component_bound(d: int, len: int, sq: int)
    requires
        len >= 1,
        d * d <= sq,
        sq < (len + 1) * (len + 1),
    ensures
        -1000 <= div_toward_zero(d * 1000, len) <= 1000,
{
    let a = abs(d);
    assert(a * a == d * d) by (nonlinear_arith)
        requires
            a == abs(d),
    ;
    assert(a <= len) by (nonlinear_arith)
        requires
            a >= 0,
            len >= 1,
            a * a < (len + 1) * (len + 1),
    ;
    assert(a * 1000 / len <= 1000) by (nonlinear_arith)
        requires
            0 <= a <= len,
            len >= 1,
    ;
    assert(a * 1000 / len >= 0) by (nonlinear_arith)
        requires
            0 <= a,
            len >= 1,
    ;
    if d >= 0 {
        assert(d * 1000 == a * 1000);
    } else {
        assert(-(d * 1000) == a * 1000);
    }
}

/// `pos` moved along `dir` at `speed` units per second for `delta`
/// microseconds; each coordinate saturates at the bounds of `i32`.
pub fn advance(pos: Pos, dir: Pos, speed: i32, delta: u64) -> (r: Pos)
    ensures
        r == advanced(pos, dir, speed, delta),
{
    let dt = delta as i128;
    let s = speed as i128;
    let dx = dir.x as i128;
    let dy = dir.y as i128;
    proof {
        lemma_product_fits(dx as int, s as int, dt as int);
        lemma_product_fits(dy as int, s as int, dt as int);
    }
    let mx = div_trunc(dx * s * dt, 1_000_000);
    let my = div_trunc(dy * s * dt, 1_000_000);
    proof {
        lemma_div_bound(dx * s * dt, 1_000_000);
        lemma_div_bound(dy * s * dt, 1_000_000);
    }
    Pos { x: clamp_to_i32(pos.x as i128 + mx), y: clamp_to_i32(pos.y as i128 + my) }
}

proof fn lemma_product_fits(d: int, s: int, t: int)
    requires
        -0x8000_0000 <= d < 0x8000_0000,
        -0x8000_0000 <= s < 0x8000_0000,
        0 <= t < 0x1_0000_0000_0000_0000,
    ensures
        abs(d * s) <= 0x4000_0000_0000_0000,
        abs(d * s * t) <= 0x4000_0000_0000_0000_0000_0000_0000_0000,
{
    let ad = abs(d);
    let as_ = abs(s);
    assert(abs(d * s) == ad * as_) by (nonlinear_arith)
        requires
            ad == abs(d),
            as_ == abs(s),
    ;
    assert(ad * as_ <= 0x4000_0000_0000_0000) by (nonlinear_arith)
        requires
            0 <= ad <= 0x8000_0000,
            0 <= as_ <= 0x8000_0000,
    ;
    assert(abs(d * s * t) == abs(d * s) * t) by (nonlinear_arith)
        requires
            t >= 0,
    ;
    assert(abs(d * s) * t <= 0x4000_0000_0000_0000_0000_0000_0000_0000) by (nonlinear_arith)
        requires
            0 <= abs(d * s) <= 0x4000_0000_0000_0000,
            0 <= t < 0x1_0000_0000_0000_0000,
    ;
}

proof fn lemma_div_bound(n: int, d: int)
    requires
        d >= 1,
        abs(n) <= 0x4000_0000_0000_0000_0000_0000_0000_0000,
    ensures
        abs(div_toward_zero(n, d)) <= 0x4000_0000_0000_0000_0000_0000_0000_0000,
{
    if n >= 0 {
        assert(0 <= n / d <= n) by (nonlinear_arith)
            requires
                n >= 0,
                d >= 1,
        ;
    } else {
        assert(0 <= (-n) / d <= -n) by (nonlinear_arith)
            requires
                -n >= 0,
                d >= 1,
        ;
    }
}

/// `pos + offset`, each coordinate saturating at the bounds of `i32`.
pub fn offset(pos: Pos, off: Pos) -> (r: Pos)
    ensures
        r == offset_by(pos, off),
{
    Pos {
        x: clamp_to_i32(pos.x as i128 + off.x as i128),
        y: clamp_to_i32(pos.y as i128 + off.y as i128),
    }
}

} // verus!
