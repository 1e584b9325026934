//! Where enemies appear: a random point of the ring around the player.
//!
//! The distance from the player is the spawn radius times the cube root of a
//! uniform sample of `[0.2, 1]`, which biases enemies toward the outer edge;
//! the direction is uniform. Both are drawn as integers: the radius as the
//! cube root of a uniform sample of `[0.2 * R^3, R^3]`, the direction as a
//! point of a square kept only inside a ring, then scaled.
use vstd::prelude::*;

use rand::Rng;

use crate::geometry::{
    dist_sq, div_toward_zero, div_trunc, floor_cbrt, floor_sqrt, icbrt, isqrt, Pos,
};

verus! {

/// The outer radius of the spawn ring, in thousandths.
pub const SPAWN_RADIUS: i64 = 400_000;

/// No enemy appears closer than this, 233.8 units. The cube root of 0.2
/// times the spawn radius is about 233.92 units; the bound leaves a margin
/// below it for the rounding of the integer offsets.
pub const SPAWN_MIN_RADIUS: i64 = 233_800;

/// `SPAWN_RADIUS` cubed.
pub const SPAWN_RADIUS_CUBED: i64 = 64_000_000_000_000_000;

/// A fifth of `SPAWN_RADIUS_CUBED`.
pub const SPAWN_INNER_CUBED: i64 = 12_800_000_000_000_000;

/// Half the side of the square that direction samples are drawn from.
pub const DIRECTION_SCALE: i64 = 1_048_576;

/// How many samples are drawn before falling back to a fixed point of the
/// outer edge.
pub const SPAWN_ATTEMPTS: u32 = 64;

/// Relies on `rand::Rng::gen_range` over `rand::thread_rng()`: the value
/// lies in the inclusive range `lo..=hi`, which is not empty.
#[verifier::external_body]
fn random_in(lo: i64, hi: i64) -> (r: i64)
    requires
        lo <= hi,
    ensures
        lo <= r <= hi,
{
    rand::thread_rng().gen_range(lo..=hi)
}

/// `off` lies in the spawn ring around the origin.
pub open spec fn in_spawn_ring(off: Pos) -> bool {
    let d = dist_sq(off, Pos { x: 0, y: 0 });
    SPAWN_MIN_RADIUS * SPAWN_MIN_RADIUS <= d <= SPAWN_RADIUS * SPAWN_RADIUS
}

/// The offset made of direction sample `(a, b)` and radius sample `u`: the
/// direction scaled to length `floor_cbrt(u)`, truncated toward zero. `None`
/// when the direction sample lies outside its ring (half the scale to the
/// full scale) or the offset outside the spawn ring.
pub open spec fn ring_offset(a: int, b: int, u: int) -> Option<Pos> {
    let s = a * a + b * b;
    let scale = DIRECTION_SCALE as int;
    if s < scale * scale / 4 || s > scale * scale {
        None
    } else {
        let len = floor_sqrt(s);
        let r = floor_cbrt(u);
        let off = Pos { x: div_toward_zero(a * r, len) as i32, y: div_toward_zero(b * r, len) as i32 };
        if in_spawn_ring(off) {
            Some(off)
        } else {
            None
        }
    }
}

/// Turns one direction sample and one radius sample into a spawn offset;
/// see `ring_offset`.
pub fn spawn_offset_from(a: i64, b: i64, u: i64) -> (r: Option<Pos>)
    requires
        -DIRECTION_SCALE <= a <= DIRECTION_SCALE,
        -DIRECTION_SCALE <= b <= DIRECTION_SCALE,
        0 <= u <= SPAWN_RADIUS_CUBED,
    ensures
        r == ring_offset(a as int, b as int, u as int),
        r matches Some(off) ==> in_spawn_ring(off),
{
    let a = a as i128;
    let b = b as i128;
    assert(0 <= a * a <= 0x100_0000_0000 && 0 <= b * b <= 0x100_0000_0000) by (nonlinear_arith)
        requires
            -0x10_0000 <= a <= 0x10_0000,
            -0x10_0000 <= b <= 0x10_0000,
    ;
    let s = a * a + b * b;
    let scale = DIRECTION_SCALE as i128;
    if s < scale * scale / 4 || s > scale * scale {
        return None;
    }
    let len = isqrt(s as u128) as i128;
    let r = icbrt(u as u64) as i128;
    proof {
        assert(len >= 1) by (nonlinear_arith)
            requires
                s < (len + 1) * (len + 1),
                s >= 0x40_0000_0000,
                len >= 0,
        ;
        assert(r <= 400_000) by (nonlinear_arith)
            requires
                r * r * r <= u,
                u <= 64_000_000_000_000_000,
                r >= 0,
        ;
        assert(-0x10_0000 * 400_000 <= a * r <= 0x10_0000 * 400_000) by (nonlinear_arith)
            requires
                -0x10_0000 <= a <= 0x10_0000,
                0 <= r <= 400_000,
        ;
        assert(-0x10_0000 * 400_000 <= b * r <= 0x10_0000 * 400_000) by (nonlinear_arith)
            requires
                -0x10_0000 <= b <= 0x10_0000,
                0 <= r <= 400_000,
        ;
    }
    let x = div_trunc(a * r, len);
    let y = div_trunc(b * r, len);
    proof {
        assert(a * a <= s && b * b <= s) by (nonlinear_arith)
            requires
                s == a * a + b * b,
        ;
        lemma_scaled_component(a as int, r as int, len as int, s as int);
        lemma_scaled_component(b as int, r as int, len as int, s as int);
        assert(0 <= x * x <= 160_000_000_000 && 0 <= y * y <= 160_000_000_000) by (nonlinear_arith)
            requires
                -400_000 <= x <= 400_000,
                -400_000 <= y <= 400_000,
        ;
    }
    let off = Pos { x: x as i32, y: y as i32 };
    let d = x * x + y * y;
    if SPAWN_MIN_RADIUS as i128 * SPAWN_MIN_RADIUS as i128 <= d && d <= SPAWN_RADIUS as i128
        * SPAWN_RADIUS as i128 {
        Some(off)
    } else {
        None
    }
}

/// A random spawn offset; it always lies in the spawn ring.
pub fn spawn_offset() -> (r: Pos)
    ensures
        in_spawn_ring(r),
{
    let mut attempt: u32 = 0;
    while attempt < SPAWN_ATTEMPTS
        decreases SPAWN_ATTEMPTS - attempt,
    {
        let a = random_in(-DIRECTION_SCALE, DIRECTION_SCALE);
        let b = random_in(-DIRECTION_SCALE, DIRECTION_SCALE);
        let u = random_in(SPAWN_INNER_CUBED, SPAWN_RADIUS_CUBED);
        if let Some(off) = spawn_offset_from(a, b, u) {
            return off;
        }
        attempt = attempt + 1;
    }
    let edge = Pos { x: 400_000, y: 0 };
    assert(dist_sq(edge, Pos { x: 0, y: 0 }) == 160_000_000_000) by (nonlinear_arith)
        requires
            edge.x == 400_000,
            edge.y == 0,
    ;
    edge
}

/// A component of a direction sample, scaled by `r` and divided by the
/// sample's floor length, stays within `[-r, r]`.
proof fn lemma_scaled_component(a: int, r: int, len: int, s: int)
    requires
        len >= 1,
        0 <= r,
        a * a <= s,
        s < (len + 1) * (len + 1),
    ensures
        -r <= div_toward_zero(a * r, len) <= r,
{
    let m = if a < 0 { -a } else { a };
    assert(m * m == a * a) by (nonlinear_arith)
        requires
            m == a || m == -a,
    ;
    assert(m <= len) by (nonlinear_arith)
        requires
            m >= 0,
            len >= 1,
            m * m < (len + 1) * (len + 1),
    ;
    assert(0 <= m * r / len <= r) by (nonlinear_arith)
        requires
            0 <= m <= len,
            len >= 1,
            r >= 0,
    ;
    if a >= 0 {
        assert(a * r == m * r);
    } else {
        assert(-(a * r) == m * r) by (nonlinear_arith)
            requires
                m == -a,
        ;
    }
}

} // verus!
