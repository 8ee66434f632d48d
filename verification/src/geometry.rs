//! Points and directions of the plane in fixed-point thousandths.

use vstd::prelude::*;
use crate::fixed::{
    clamp_i32, int_sqrt, is_sqrt, isqrt, lemma_product_bound, lemma_square_monotonic,
    saturate_i32, signed_mul_div, signed_mul_div_spec,
};

verus! {

/// A point or displacement, each coordinate in thousandths of a world unit;
/// as a direction, a vector whose length is about one thousand, or zero.
#[derive(Clone, Copy, Debug, PartialEq, Eq, Structural)]
pub struct Vector {
    pub x: i32,
    pub y: i32,
}

/// The squared Euclidean distance between two points.
pub open spec fn dist_sq_spec(a: Vector, b: Vector) -> int {
    (a.x - b.x) * (a.x - b.x) + (a.y - b.y) * (a.y - b.y)
}

/// The squared length of the vector with the given coordinates.
pub open spec fn norm_sq(x: int, y: int) -> int {
    x * x + y * y
}

/// The vector of length one thousand that points along `(x, y)`, each
/// coordinate rounded toward zero; the zero vector where `(x, y)` is shorter
/// than one.
pub open spec fn normalize_plain(x: int, y: int) -> Vector {
    let len = int_sqrt(norm_sq(x, y));
    if len == 0 {
        Vector { x: 0, y: 0 }
    } else {
        Vector {
            x: signed_mul_div_spec(x, 1000, len) as i32,
            y: signed_mul_div_spec(y, 1000, len) as i32,
        }
    }
}

/// Whether both coordinates are small enough to be taken a million times as
/// large.
pub open spec fn is_short(x: int, y: int) -> bool {
    -0x8000_0000 < x < 0x8000_0000 && -0x8000_0000 < y < 0x8000_0000
}

/// The vector of length one thousand that points along `(x, y)`, and the
/// zero vector for the zero vector. A vector with short coordinates is first
/// taken a million times as large, so that even the shortest keeps its
/// direction to the last digit.
pub open spec fn normalize_spec(x: int, y: int) -> Vector {
    if is_short(x, y) {
        normalize_plain(x * 1_000_000, y * 1_000_000)
    } else {
        normalize_plain(x, y)
    }
}

/// The displacement from `from` to `to`, normalized.
pub open spec fn direction_to_spec(from: Vector, to: Vector) -> Vector {
    normalize_spec(to.x - from.x, to.y - from.y)
}

/// The direction a fraction `t` (in thousandths) of the way from `current` to
/// `desired`, normalized again.
pub open spec fn blend_spec(current: Vector, desired: Vector, t: int) -> Vector {
    normalize_spec(
        current.x * (1000 - t) + desired.x * t,
        current.y * (1000 - t) + desired.y * t,
    )
}

/// The point reached from `position` after `dt` milliseconds at `speed`
/// (thousandths of a unit per second) along `direction`, each coordinate
/// saturating at the edge of the representable plane.
pub open spec fn advance_spec(position: Vector, direction: Vector, speed: int, dt: int) -> Vector {
    Vector {
        x: clamp_i32(position.x + signed_mul_div_spec(direction.x as int, speed * dt, 1_000_000)) as i32,
        y: clamp_i32(position.y + signed_mul_div_spec(direction.y as int, speed * dt, 1_000_000)) as i32,
    }
}

/// Whether the vector is a heading: the zero vector, for what is at rest,
/// or a vector whose length is one thousand within rounding, at least 998
/// and at most a hair above one thousand.
pub open spec fn is_heading(v: Vector) -> bool {
    (v.x == 0 && v.y == 0) || 998 * 998 <= norm_sq(v.x as int, v.y as int) <= 1_000_002
}

/// A strictly larger natural has a strictly larger square.
proof fn lemma_square_strict(a: int, b: int)
    by (nonlinear_arith)
    requires
        0 <= a < b,
    ensures
        a * a < b * b,
{
}

/// The quotient of `a * 1000` by `len`, times `len`, is within `len` of
/// `a * 1000`; so the same holds of their squares.
proof fn lemma_scaled_quotient(a: int, len: int)
    requires
        a >= 0,
        len > 0,
    ensures
        ({
            let q = a * 1000 / len;
            &&& q >= 0
            &&& len * len * (q * q) <= 1_000_000 * (a * a)
            &&& 1_000_000 * (a * a) < len * len * ((q + 1) * (q + 1))
        }),
{
    let q = a * 1000 / len;
    let u = a * 1000;
    assert(q >= 0 && len * q <= u < len * q + len) by (nonlinear_arith)
        requires
            q == u / len,
            u >= 0,
            len > 0,
    ;
    assert(len * q >= 0) by (nonlinear_arith)
        requires
            len > 0,
            q >= 0,
    ;
    lemma_square_monotonic(len * q, u);
    assert(len * q + len == len * (q + 1)) by (nonlinear_arith);
    lemma_square_strict(u, len * (q + 1));
    assert((len * q) * (len * q) == len * len * (q * q)) by (nonlinear_arith);
    assert((len * (q + 1)) * (len * (q + 1)) == len * len * ((q + 1) * (q + 1))) by (nonlinear_arith);
    assert(u * u == 1_000_000 * (a * a)) by (nonlinear_arith)
        requires
            u == a * 1000,
    ;
}

/// A vector whose length is at least a million comes out of the scaling to
/// one thousand with a length of one thousand within rounding.
proof fn lemma_normalized_length(x: int, y: int, len: int)
    requires
        is_sqrt(norm_sq(x, y), len),
        len >= 1_000_000,
    ensures
        ({
            let rx = signed_mul_div_spec(x, 1000, len);
            let ry = signed_mul_div_spec(y, 1000, len);
            998 * 998 <= rx * rx + ry * ry <= 1_000_002
        }),
{
    let a = if x >= 0 { x } else { -x };
    let b = if y >= 0 { y } else { -y };
    let p = a * 1000 / len;
    let q = b * 1000 / len;
    let rx = signed_mul_div_spec(x, 1000, len);
    let ry = signed_mul_div_spec(y, 1000, len);
    assert(rx == p || rx == -p);
    assert(ry == q || ry == -q);
    assert(rx * rx == p * p) by (nonlinear_arith)
        requires
            rx == p || rx == -p,
    ;
    assert(ry * ry == q * q) by (nonlinear_arith)
        requires
            ry == q || ry == -q,
    ;
    assert(a * a == x * x) by (nonlinear_arith)
        requires
            a == x || a == -x,
    ;
    assert(b * b == y * y) by (nonlinear_arith)
        requires
            b == y || b == -y,
    ;
    lemma_scaled_quotient(a, len);
    lemma_scaled_quotient(b, len);
    let n = a * a + b * b;
    let sq = len * len;
    let s = p * p + q * q;
    let t = (p + 1) * (p + 1) + (q + 1) * (q + 1);
    assert(sq <= n < (len + 1) * (len + 1));
    assert(sq * s <= 1_000_000 * n) by (nonlinear_arith)
        requires
            sq * (p * p) <= 1_000_000 * (a * a),
            sq * (q * q) <= 1_000_000 * (b * b),
            s == p * p + q * q,
            n == a * a + b * b,
    ;
    assert(1_000_000 * n < sq * t) by (nonlinear_arith)
        requires
            1_000_000 * (a * a) < sq * ((p + 1) * (p + 1)),
            1_000_000 * (b * b) < sq * ((q + 1) * (q + 1)),
            t == (p + 1) * (p + 1) + (q + 1) * (q + 1),
            n == a * a + b * b,
    ;
    assert(s <= 1_000_002) by (nonlinear_arith)
        requires
            sq * s <= 1_000_000 * n,
            n < (len + 1) * (len + 1),
            sq == len * len,
            len >= 1_000_000,
    ;
    assert(t > 1_000_000) by (nonlinear_arith)
        requires
            1_000_000 * n < sq * t,
            sq <= n,
            sq == len * len,
            len >= 1_000_000,
    ;
    assert((p + q) * (p + q) <= 2 * s) by (nonlinear_arith)
        requires
            s == p * p + q * q,
    ;
    if p + q >= 1415 {
        lemma_square_monotonic(1415, p + q);
    }
    assert(t == s + 2 * (p + q) + 2) by (nonlinear_arith)
        requires
            s == p * p + q * q,
            t == (p + 1) * (p + 1) + (q + 1) * (q + 1),
    ;
}

/// Normalizing gives a heading: the zero vector for the zero vector and for
/// no other, and else a vector of length one thousand within rounding.
pub proof fn lemma_normalized_is_heading(x: int, y: int)
    ensures
        is_heading(normalize_spec(x, y)),
        -1000 <= normalize_spec(x, y).x <= 1000,
        -1000 <= normalize_spec(x, y).y <= 1000,
        normalize_spec(x, y) == (Vector { x: 0, y: 0 }) <==> x == 0 && y == 0,
{
    if x == 0 && y == 0 {
        assert(is_sqrt(0, 0));
        crate::fixed::lemma_sqrt_is(0, 0);
        assert(norm_sq(0, 0) == 0);
    } else {
        let wide_x = if is_short(x, y) { x * 1_000_000 } else { x };
        let wide_y = if is_short(x, y) { y * 1_000_000 } else { y };
        let n = norm_sq(wide_x, wide_y);
        assert(n >= 1_000_000_000_000) by (nonlinear_arith)
            requires
                n == wide_x * wide_x + wide_y * wide_y,
                wide_x >= 1_000_000 || wide_x <= -1_000_000 || wide_y >= 1_000_000 || wide_y
                    <= -1_000_000,
        ;
        crate::fixed::lemma_sqrt_exists(n);
        let len = int_sqrt(n);
        if len < 1_000_000 {
            lemma_square_monotonic(len + 1, 1_000_000);
        }
        lemma_normalized_length(wide_x, wide_y, len);
        lemma_normalized_coordinate(wide_x, wide_y, len);
        assert(norm_sq(wide_y, wide_x) == norm_sq(wide_x, wide_y));
        lemma_normalized_coordinate(wide_y, wide_x, len);
        let r = normalize_spec(x, y);
        assert(r == normalize_plain(wide_x, wide_y));
        assert(r.x == signed_mul_div_spec(wide_x, 1000, len));
        assert(r.y == signed_mul_div_spec(wide_y, 1000, len));
    }
}

proof fn lemma_square_bound(d: int, bound: int)
    by (nonlinear_arith)
    requires
        -bound <= d <= bound,
    ensures
        0 <= d * d <= bound * bound,
{
}

/// A coordinate is never longer than the vector it belongs to, so a
/// normalized coordinate lies between minus and plus one thousand.
pub proof fn lemma_normalized_coordinate(x: int, y: int, len: int)
    requires
        is_sqrt(norm_sq(x, y), len),
        len > 0,
    ensures
        -1000 <= signed_mul_div_spec(x, 1000, len) <= 1000,
{
    let mag = if x >= 0 { x } else { -x };
    assert(mag * mag == x * x) by (nonlinear_arith)
        requires
            mag == x || mag == -x,
    ;
    assert(y * y >= 0) by (nonlinear_arith);
    if mag > len {
        lemma_square_monotonic(len + 1, mag);
    }
    assert(mag <= len);
    assert(0 <= mag * 1000 / len <= 1000) by (nonlinear_arith)
        requires
            0 <= mag <= len,
            len > 0,
    ;
}

/// The squared distance between two points; it fits in 65 bits.
pub fn dist_sq(a: Vector, b: Vector) -> (r: u128)
    ensures
        r == dist_sq_spec(a, b),
        r <= 0x1_FFFF_FFFC_0000_0002,
{
    let dx: i128 = (a.x as i128) - (b.x as i128);
    let dy: i128 = (a.y as i128) - (b.y as i128);
    proof {
        lemma_square_bound(dx as int, 0xFFFF_FFFF);
        lemma_square_bound(dy as int, 0xFFFF_FFFF);
    }
    (dx * dx + dy * dy) as u128
}

/// Scales `(x, y)` to length one thousand, as it stands.
fn normalize_as_is(x: i64, y: i64) -> (r: Vector)
    ensures
        r == normalize_plain(x as int, y as int),
        -1000 <= r.x <= 1000,
        -1000 <= r.y <= 1000,
{
    let ax: u128 = if x >= 0 { x as u128 } else { (-(x as i128)) as u128 };
    let ay: u128 = if y >= 0 { y as u128 } else { (-(y as i128)) as u128 };
    proof {
        lemma_square_bound(ax as int, 0x8000_0000_0000_0000);
        lemma_square_bound(ay as int, 0x8000_0000_0000_0000);
        assert(ax * ax == x * x) by (nonlinear_arith)
            requires
                ax == x || ax == -x,
        ;
        assert(ay * ay == y * y) by (nonlinear_arith)
            requires
                ay == y || ay == -y,
        ;
    }
    let n: u128 = ax * ax + ay * ay;
    let len: u64 = isqrt(n);
    if len == 0 {
        Vector { x: 0, y: 0 }
    } else {
        proof {
            lemma_normalized_coordinate(x as int, y as int, len as int);
            assert(norm_sq(y as int, x as int) == norm_sq(x as int, y as int));
            lemma_normalized_coordinate(y as int, x as int, len as int);
        }
        let nx: i128 = signed_mul_div(x, 1000, len);
        let ny: i128 = signed_mul_div(y, 1000, len);
        Vector { x: nx as i32, y: ny as i32 }
    }
}

/// Scales `(x, y)` to length one thousand within rounding; the zero vector
/// stays the zero vector.
pub fn normalize_or_zero(x: i64, y: i64) -> (r: Vector)
    ensures
        r == normalize_spec(x as int, y as int),
        -1000 <= r.x <= 1000,
        -1000 <= r.y <= 1000,
        is_heading(r),
{
    proof {
        lemma_normalized_is_heading(x as int, y as int);
    }
    if -0x8000_0000 < x && x < 0x8000_0000 && -0x8000_0000 < y && y < 0x8000_0000 {
        normalize_as_is(x * 1_000_000, y * 1_000_000)
    } else {
        normalize_as_is(x, y)
    }
}

/// The normalized direction from one point toward another.
pub fn direction_to(from: Vector, to: Vector) -> (r: Vector)
    ensures
        r == direction_to_spec(from, to),
        -1000 <= r.x <= 1000,
        -1000 <= r.y <= 1000,
        is_heading(r),
{
    normalize_or_zero((to.x as i64) - (from.x as i64), (to.y as i64) - (from.y as i64))
}

/// Turns `current` toward `desired` by the fraction `t`, in thousandths and
/// at most one thousand, and normalizes.
pub fn blend(current: Vector, desired: Vector, t: u32) -> (r: Vector)
    ensures
        r == blend_spec(current, desired, if t > 1000 { 1000 } else { t as int }),
        -1000 <= r.x <= 1000,
        -1000 <= r.y <= 1000,
        is_heading(r),
{
    let take: i64 = if t > 1000 { 1000 } else { t as i64 };
    let keep: i64 = 1000 - take;
    proof {
        lemma_blend_bound(current.x as int, keep as int);
        lemma_blend_bound(desired.x as int, take as int);
        lemma_blend_bound(current.y as int, keep as int);
        lemma_blend_bound(desired.y as int, take as int);
    }
    let bx: i64 = (current.x as i64) * keep + (desired.x as i64) * take;
    let by: i64 = (current.y as i64) * keep + (desired.y as i64) * take;
    normalize_or_zero(bx, by)
}

proof fn lemma_blend_bound(c: int, w: int)
    by (nonlinear_arith)
    requires
        -0x8000_0000 <= c <= 0x7FFF_FFFF,
        0 <= w <= 1000,
    ensures
        -0x8000_0000 * 1000 <= c * w <= 0x7FFF_FFFF * 1000,
{
}

/// Moves `position` along `direction` for `dt` milliseconds at `speed`.
pub fn advance(position: Vector, direction: Vector, speed: u32, dt: u32) -> (r: Vector)
    ensures
        r == advance_spec(position, direction, speed as int, dt as int),
{
    proof {
        lemma_product_bound(speed as int, dt as int, u32::MAX as int, u32::MAX as int);
    }
    let reach: u64 = (speed as u64) * (dt as u64);
    let dx: i128 = signed_mul_div(direction.x as i64, reach, 1_000_000);
    let dy: i128 = signed_mul_div(direction.y as i64, reach, 1_000_000);
    proof {
        lemma_step_bound(direction.x as int, reach as int);
        lemma_step_bound(direction.y as int, reach as int);
    }
    Vector {
        x: saturate_i32((position.x as i128) + dx),
        y: saturate_i32((position.y as i128) + dy),
    }
}

proof fn lemma_step_bound(c: int, m: int)
    requires
        -0x8000_0000 <= c <= 0x7FFF_FFFF,
        0 <= m <= u64::MAX,
    ensures
        -0x8000_0000 * 0x1_0000_0000_0000_0000 <= signed_mul_div_spec(c, m, 1_000_000)
            <= 0x8000_0000 * 0x1_0000_0000_0000_0000,
{
    let mag = if c >= 0 { c } else { -c };
    lemma_product_bound(mag, m, 0x8000_0000, u64::MAX as int);
    assert(0 <= (mag * m) / 1_000_000 <= mag * m) by (nonlinear_arith)
        requires
            0 <= mag * m,
    ;
}

} // verus!
