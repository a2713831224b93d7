//! Two-dimensional integer vectors and unit directions.

use vstd::prelude::*;
use vstd::arithmetic::div_mod::{
    lemma_fundamental_div_mod, lemma_fundamental_div_mod_converse, lemma_mod_pos_bound,
};
use crate::numeric::{
    clamp_i64, floor_sqrt, isqrt, lemma_floor_sqrt_exists, magnitude, saturate_i64,
};

verus! {

/// A pair of coordinates. What unit they are in depends on what the vector stands for.
#[derive(Clone, Copy, Debug, PartialEq, Eq, Structural)]
pub struct Vector {
    pub x: i64,
    pub y: i64,
}

/// The scale of a direction: a component of this size stands for 1.
pub const DIRECTION_SCALE: i64 = 1_000_000;

impl Vector {
    /// The vector with both coordinates zero.
    pub open spec fn zero() -> Vector {
        Vector { x: 0, y: 0 }
    }

    pub fn new(x: i64, y: i64) -> (v: Vector)
        ensures
            v == (Vector { x, y }),
    {
        Vector { x, y }
    }

    /// The vector with both coordinates zero.
    pub fn origin() -> (v: Vector)
        ensures
            v == Vector::zero(),
    {
        Vector { x: 0, y: 0 }
    }
}

/// The square of the length of the vector `(dx, dy)`.
pub open spec fn squared_length(dx: int, dy: int) -> int {
    dx * dx + dy * dy
}

/// The size of the part `c` of the vector `(dx, dy)` after scaling that vector
/// to length [`DIRECTION_SCALE`]: the integer part of `|c| * DIRECTION_SCALE`
/// divided by the exact length of `(dx, dy)`. That quotient is the square root
/// of `(c * DIRECTION_SCALE)² / (dx² + dy²)`, and the integer part of a square
/// root is that of the root of the integer part.
pub open spec fn unit_size(c: int, dx: int, dy: int) -> nat {
    floor_sqrt(
        ((c * DIRECTION_SCALE) * (c * DIRECTION_SCALE) / squared_length(dx, dy)) as nat,
    )
}

/// The part `c` of the vector `(dx, dy)` after scaling that vector to length
/// [`DIRECTION_SCALE`], rounded toward zero; 0 for the zero vector.
pub open spec fn unit_component(c: int, dx: int, dy: int) -> int {
    if squared_length(dx, dy) == 0 {
        0
    } else if c < 0 {
        -(unit_size(c, dx, dy) as int)
    } else {
        unit_size(c, dx, dy) as int
    }
}

/// The direction from `from` to `to`, as a vector of length [`DIRECTION_SCALE`]
/// with each part rounded toward zero (or zero when the two points coincide).
/// The difference of the two points is narrowed to 64 bits first.
pub open spec fn direction_between(from: Vector, to: Vector) -> Vector {
    let dx = clamp_i64(to.x - from.x);
    let dy = clamp_i64(to.y - from.y);
    Vector { x: unit_component(dx, dx, dy) as i64, y: unit_component(dy, dx, dy) as i64 }
}

/// The size of a part of a direction is the integer part of the exact
/// quotient: it is the one number `q` with
/// `q * |v| <= |c| * DIRECTION_SCALE < (q + 1) * |v|`, stated here in squares.
pub proof fn lemma_unit_size_is_integer_part(c: int, dx: int, dy: int)
    requires
        squared_length(dx, dy) > 0,
    ensures
        unit_size(c, dx, dy) * unit_size(c, dx, dy) * squared_length(dx, dy) <= (c
            * DIRECTION_SCALE) * (c * DIRECTION_SCALE),
        (c * DIRECTION_SCALE) * (c * DIRECTION_SCALE) < (unit_size(c, dx, dy) + 1) * (unit_size(
            c,
            dx,
            dy,
        ) + 1) * squared_length(dx, dy),
{
    let n = squared_length(dx, dy);
    let a = c * DIRECTION_SCALE;
    assert(a * a >= 0) by (nonlinear_arith);
    let t = (a * a) / n;
    lemma_fundamental_div_mod(a * a, n);
    lemma_mod_pos_bound(a * a, n);
    assert(t >= 0) by (nonlinear_arith)
        requires
            a * a == n * t + (a * a) % n,
            0 <= (a * a) % n < n,
            a * a >= 0,
            n > 0,
    ;
    lemma_floor_sqrt_exists(t as nat);
    let q = unit_size(c, dx, dy) as int;
    assert(q * q * n <= a * a) by (nonlinear_arith)
        requires
            q * q <= t,
            a * a == n * t + (a * a) % n,
            0 <= (a * a) % n,
            n > 0,
    ;
    assert(a * a < (q + 1) * (q + 1) * n) by (nonlinear_arith)
        requires
            t + 1 <= (q + 1) * (q + 1),
            a * a == n * t + (a * a) % n,
            (a * a) % n < n,
            n > 0,
    ;
}

/// No component of a direction exceeds the scale, and each has the sign of
/// the part it stands for.
pub proof fn lemma_unit_component_bounded(c: int, dx: int, dy: int)
    requires
        c == dx || c == dy,
    ensures
        -DIRECTION_SCALE <= unit_component(c, dx, dy) <= DIRECTION_SCALE,
        c >= 0 ==> unit_component(c, dx, dy) >= 0,
        c <= 0 ==> unit_component(c, dx, dy) <= 0,
{
    let n = squared_length(dx, dy);
    assert(dx * dx >= 0 && dy * dy >= 0) by (nonlinear_arith);
    if n != 0 {
        lemma_unit_size_is_integer_part(c, dx, dy);
        let q = unit_size(c, dx, dy) as int;
        let a = c * DIRECTION_SCALE;
        assert(a * a <= DIRECTION_SCALE * DIRECTION_SCALE * n) by (nonlinear_arith)
            requires
                a == c * DIRECTION_SCALE,
                c * c <= n,
        ;
        assert(q <= DIRECTION_SCALE) by (nonlinear_arith)
            requires
                q * q * n <= a * a,
                a * a <= DIRECTION_SCALE * DIRECTION_SCALE * n,
                n > 0,
                q >= 0,
                DIRECTION_SCALE == 1_000_000,
        ;
        if c == 0 {
            assert(q == 0) by (nonlinear_arith)
                requires
                    q * q * n <= a * a,
                    a == 0 * DIRECTION_SCALE,
                    n > 0,
                    q >= 0,
            ;
        }
    }
}

/// A direction is a unit vector, as nearly as its whole parts allow: unless
/// the two points coincide, its length is at most the scale and falls short of
/// it by less than 2.
pub proof fn lemma_direction_has_unit_length(from: Vector, to: Vector)
    requires
        from != to,
    ensures
        (DIRECTION_SCALE - 2) * (DIRECTION_SCALE - 2) <= direction_between(from, to).x
            * direction_between(from, to).x + direction_between(from, to).y * direction_between(
            from,
            to,
        ).y <= DIRECTION_SCALE * DIRECTION_SCALE,
        direction_between(from, to) != Vector::zero(),
{
    let dx = clamp_i64(to.x - from.x);
    let dy = clamp_i64(to.y - from.y);
    let n = squared_length(dx, dy);
    assert(n > 0) by (nonlinear_arith)
        requires
            n == dx * dx + dy * dy,
            dx != 0 || dy != 0,
    ;
    lemma_unit_component_bounded(dx, dx, dy);
    lemma_unit_component_bounded(dy, dx, dy);
    lemma_unit_size_is_integer_part(dx, dx, dy);
    lemma_unit_size_is_integer_part(dy, dx, dy);
    let x = unit_size(dx, dx, dy) as int;
    let y = unit_size(dy, dx, dy) as int;
    let s = DIRECTION_SCALE as int;
    let ax = dx * s;
    let ay = dy * s;
    assert(ax * ax + ay * ay == s * s * n) by (nonlinear_arith)
        requires
            ax == dx * s,
            ay == dy * s,
            n == dx * dx + dy * dy,
    ;
    assert((x * x + y * y) * n <= s * s * n) by (nonlinear_arith)
        requires
            x * x * n <= ax * ax,
            y * y * n <= ay * ay,
            ax * ax + ay * ay == s * s * n,
    ;
    assert(x * x + y * y <= s * s) by (nonlinear_arith)
        requires
            (x * x + y * y) * n <= s * s * n,
            n > 0,
    ;
    assert(s * s * n < ((x + 1) * (x + 1) + (y + 1) * (y + 1)) * n) by (nonlinear_arith)
        requires
            ax * ax < (x + 1) * (x + 1) * n,
            ay * ay < (y + 1) * (y + 1) * n,
            ax * ax + ay * ay == s * s * n,
    ;
    assert(s * s < (x + 1) * (x + 1) + (y + 1) * (y + 1)) by (nonlinear_arith)
        requires
            s * s * n < ((x + 1) * (x + 1) + (y + 1) * (y + 1)) * n,
            n > 0,
    ;
    assert(x + y <= 2 * s - 3) by (nonlinear_arith)
        requires
            x * x + y * y <= s * s,
            0 <= x <= s,
            0 <= y <= s,
            s == 1_000_000,
    ;
    assert((s - 2) * (s - 2) <= x * x + y * y) by (nonlinear_arith)
        requires
            s * s < (x + 1) * (x + 1) + (y + 1) * (y + 1),
            x + y <= 2 * s - 3,
    ;
    let d = direction_between(from, to);
    assert(d.x * d.x == x * x) by (nonlinear_arith)
        requires
            d.x == x || d.x == -x,
    ;
    assert(d.y * d.y == y * y) by (nonlinear_arith)
        requires
            d.y == y || d.y == -y,
    ;
    assert((s - 2) * (s - 2) > 0) by (nonlinear_arith)
        requires
            s == 1_000_000,
    ;
    if d == Vector::zero() {
        assert(d.x * d.x + d.y * d.y == 0) by (nonlinear_arith)
            requires
                d.x == 0,
                d.y == 0,
        ;
    }
}

/// `factor * part`, divided by `whole` with remainder.
fn scaled_parts(factor: u64, part: u128, whole: u128) -> (r: (u128, u128))
    requires
        part <= whole,
        0 < whole <= 0x8000_0000_0000_0000_0000_0000_0000_0000,
    ensures
        r.0 * whole + r.1 == factor * part,
        r.1 < whole,
        r.0 <= factor,
    decreases factor,
{
    if factor == 0 {
        assert(0 * whole + 0 == 0 * part) by (nonlinear_arith);
        return (0, 0);
    }
    let half = factor / 2;
    let (q, r) = scaled_parts(half, part, whole);
    let mut quotient: u128 = q + q;
    let mut rest: u128 = r + r;
    if rest >= whole {
        rest = rest - whole;
        quotient = quotient + 1;
    }
    assert(quotient * whole + rest == (2 * half) * part) by (nonlinear_arith)
        requires
            q * whole + r == half * part,
            (quotient == q + q && rest == r + r) || (quotient == q + q + 1 && rest == r + r
                - whole),
    ;
    let ghost doubled = quotient as int;
    let ghost left = rest as int;
    if factor % 2 == 1 {
        rest = rest + part;
        if rest >= whole {
            rest = rest - whole;
            quotient = quotient + 1;
        }
    }
    assert(quotient * whole + rest == factor * part) by (nonlinear_arith)
        requires
            doubled * whole + left == (2 * half) * part,
            (factor == 2 * half && quotient == doubled && rest == left) || (factor == 2 * half + 1
                && ((quotient == doubled && rest == left + part) || (quotient == doubled + 1
                && rest == left + part - whole))),
    ;
    assert(quotient <= factor) by (nonlinear_arith)
        requires
            quotient * whole + rest == factor * part,
            part <= whole,
            rest >= 0,
            whole > 0,
            factor >= 0,
            quotient >= 0,
    ;
    (quotient, rest)
}

/// One component of the direction along the vector `(dx, dy)`.
fn unit_part(c: i64, dx: i64, dy: i64) -> (r: i64)
    requires
        c == dx || c == dy,
        dx != 0 || dy != 0,
    ensures
        r == unit_component(c as int, dx as int, dy as int),
        -DIRECTION_SCALE <= r <= DIRECTION_SCALE,
{
    let size = magnitude(c) as u128;
    let size_x = magnitude(dx) as u128;
    let size_y = magnitude(dy) as u128;
    assert(size_x * size_x == dx * dx && size_x * size_x <= 0x8000_0000_0000_0000
        * 0x8000_0000_0000_0000) by (nonlinear_arith)
        requires
            size_x == dx || size_x == -dx,
            0 <= size_x <= 0x8000_0000_0000_0000,
    ;
    assert(size_y * size_y == dy * dy && size_y * size_y <= 0x8000_0000_0000_0000
        * 0x8000_0000_0000_0000) by (nonlinear_arith)
        requires
            size_y == dy || size_y == -dy,
            0 <= size_y <= 0x8000_0000_0000_0000,
    ;
    let whole: u128 = size_x * size_x + size_y * size_y;
    assert(whole > 0) by (nonlinear_arith)
        requires
            whole == dx * dx + dy * dy,
            dx != 0 || dy != 0,
    ;
    let part: u128 = size * size;
    let (quotient, rest) = scaled_parts(1_000_000_000_000, part, whole);
    let root = isqrt(quotient);
    proof {
        let a = c * DIRECTION_SCALE;
        assert(a * a == 1_000_000_000_000 * part) by (nonlinear_arith)
            requires
                a == c * DIRECTION_SCALE,
                DIRECTION_SCALE == 1_000_000,
                part == size * size,
                size == c || size == -c,
        ;
        assert(quotient * whole == whole * quotient) by (nonlinear_arith);
        lemma_fundamental_div_mod_converse(a * a, whole as int, quotient as int, rest as int);
        lemma_unit_component_bounded(c as int, dx as int, dy as int);
    }
    if c < 0 {
        -(root as i64)
    } else {
        root as i64
    }
}

/// The direction from `from` to `to`.
pub fn direction_toward(from: Vector, to: Vector) -> (d: Vector)
    ensures
        d == direction_between(from, to),
        -DIRECTION_SCALE <= d.x <= DIRECTION_SCALE,
        -DIRECTION_SCALE <= d.y <= DIRECTION_SCALE,
{
    let dx: i64 = saturate_i64(to.x as i128 - from.x as i128);
    let dy: i64 = saturate_i64(to.y as i128 - from.y as i128);
    if dx == 0 && dy == 0 {
        Vector { x: 0, y: 0 }
    } else {
        Vector { x: unit_part(dx, dx, dy), y: unit_part(dy, dx, dy) }
    }
}

} // verus!
