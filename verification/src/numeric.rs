//! Saturating fixed-point arithmetic and an integer square root.

use vstd::prelude::*;

verus! {

/// The nearest value to `x` that an `i64` can hold.
pub open spec fn clamp_i64(x: int) -> int {
    if x < i64::MIN {
        i64::MIN as int
    } else if x > i64::MAX {
        i64::MAX as int
    } else {
        x
    }
}

/// The nearest value to `x` that an `i32` can hold.
pub open spec fn clamp_i32(x: int) -> int {
    if x < i32::MIN {
        i32::MIN as int
    } else if x > i32::MAX {
        i32::MAX as int
    } else {
        x
    }
}

/// Narrows a wide intermediate result to 64 bits, stopping at the ends of the range.
pub fn saturate_i64(x: i128) -> (r: i64)
    ensures
        r == clamp_i64(x as int),
{
    if x < i64::MIN as i128 {
        i64::MIN
    } else if x > i64::MAX as i128 {
        i64::MAX
    } else {
        x as i64
    }
}

/// Narrows a wide intermediate result to 32 bits, stopping at the ends of the range.
pub fn saturate_i32(x: i128) -> (r: i32)
    ensures
        r == clamp_i32(x as int),
{
    if x < i32::MIN as i128 {
        i32::MIN
    } else if x > i32::MAX as i128 {
        i32::MAX
    } else {
        x as i32
    }
}

/// A product of a 64-bit and a 32-bit factor stays far inside 128 bits.
pub proof fn lemma_product_fits(a: int, b: int)
    requires
        i64::MIN <= a <= i64::MAX,
        0 <= b <= u32::MAX,
    ensures
        -0x8000_0000_0000_0000_0000_0000 <= a * b <= 0x8000_0000_0000_0000_0000_0000,
{
    assert(a * b <= 0x8000_0000_0000_0000 * 0x1_0000_0000) by (nonlinear_arith)
        requires
            a <= 0x8000_0000_0000_0000,
            0 <= b <= 0x1_0000_0000,
    ;
    assert(a * b >= -0x8000_0000_0000_0000 * 0x1_0000_0000) by (nonlinear_arith)
        requires
            a >= -0x8000_0000_0000_0000,
            0 <= b <= 0x1_0000_0000,
    ;
}

/// `base + rate * elapsed`, computed exactly and then narrowed to 64 bits.
pub fn advance(base: i64, rate: i64, elapsed: u32) -> (r: i64)
    ensures
        r == clamp_i64(base + rate * elapsed),
{
    proof {
        lemma_product_fits(rate as int, elapsed as int);
    }
    let step: i128 = (rate as i128) * (elapsed as i128);
    saturate_i64(base as i128 + step)
}

/// `base + rate * factor * elapsed`, computed exactly and then narrowed to 64 bits.
pub fn advance_scaled(base: i64, rate: i64, factor: u32, elapsed: u32) -> (r: i64)
    ensures
        r == clamp_i64(base + rate * factor * elapsed),
{
    proof {
        lemma_product_fits(rate as int, factor as int);
    }
    let scaled: i128 = (rate as i128) * (factor as i128);
    assert(-0x8000_0000_0000_0000_0000_0000 * 0xFFFF_FFFF <= scaled * elapsed
        <= 0x8000_0000_0000_0000_0000_0000 * 0xFFFF_FFFF) by (nonlinear_arith)
        requires
            -0x8000_0000_0000_0000_0000_0000 <= scaled <= 0x8000_0000_0000_0000_0000_0000,
            0 <= elapsed <= 0xFFFF_FFFF,
    ;
    let step: i128 = scaled * (elapsed as i128);
    saturate_i64(base as i128 + step)
}

/// `base - step * times`, computed exactly and then narrowed to 64 bits.
pub fn retreat(base: i64, step: i64, times: u64) -> (r: i64)
    ensures
        r == clamp_i64(base - step * times),
{
    assert(-0x8000_0000_0000_0000 * 0xFFFF_FFFF_FFFF_FFFF <= step * times <= 0x7FFF_FFFF_FFFF_FFFF
        * 0xFFFF_FFFF_FFFF_FFFF) by (nonlinear_arith)
        requires
            -0x8000_0000_0000_0000 <= step <= 0x7FFF_FFFF_FFFF_FFFF,
            0 <= times <= 0xFFFF_FFFF_FFFF_FFFF,
    ;
    let product: i128 = (step as i128) * (times as i128);
    saturate_i64(base as i128 - product)
}

/// Whether `r` is the integer part of the square root of `n`.
pub open spec fn is_floor_sqrt(n: nat, r: nat) -> bool {
    r * r <= n < (r + 1) * (r + 1)
}

/// The integer part of the square root of `n`.
pub open spec fn floor_sqrt(n: nat) -> nat {
    choose|r: nat| is_floor_sqrt(n, r)
}

/// Every number has an integer square root.
pub proof fn lemma_floor_sqrt_exists(n: nat)
    ensures
        is_floor_sqrt(n, floor_sqrt(n)),
    decreases n,
{
    if n == 0 {
        assert(is_floor_sqrt(0, 0)) by (nonlinear_arith);
    } else {
        lemma_floor_sqrt_exists((n - 1) as nat);
        let r = floor_sqrt((n - 1) as nat);
        if (r + 1) * (r + 1) <= n {
            assert((r + 1) * (r + 1) == n);
            assert(n < (r + 2) * (r + 2)) by (nonlinear_arith)
                requires
                    (r + 1) * (r + 1) == n,
            ;
            assert(is_floor_sqrt(n, r + 1));
        } else {
            assert(is_floor_sqrt(n, r));
        }
    }
}

/// Only one number has its square at or below `n` and its successor's square above.
pub proof fn lemma_floor_sqrt_unique(n: nat, r: nat)
    requires
        is_floor_sqrt(n, r),
    ensures
        floor_sqrt(n) == r,
{
    let s = floor_sqrt(n);
    assert(is_floor_sqrt(n, s));
    if s < r {
        assert((s + 1) * (s + 1) <= r * r) by (nonlinear_arith)
            requires
                s + 1 <= r,
        ;
    }
    if r < s {
        assert((r + 1) * (r + 1) <= s * s) by (nonlinear_arith)
            requires
                r + 1 <= s,
        ;
    }
}

/// The integer part of the square root, found by bisection.
pub fn isqrt(n: u128) -> (r: u64)
    ensures
        r == floor_sqrt(n as nat),
        is_floor_sqrt(n as nat, r as nat),
{
    let mut lo: u128 = 0;
    let mut hi: u128 = 0x1_0000_0000_0000_0000;
    assert(n < hi * hi) by (nonlinear_arith)
        requires
            hi == 0x1_0000_0000_0000_0000,
            n <= u128::MAX,
    ;
    while hi - lo > 1
        invariant
            lo < hi <= 0x1_0000_0000_0000_0000,
            lo * lo <= n < hi * hi,
        decreases hi - lo,
    {
        let mid: u128 = lo + (hi - lo) / 2;
        assert(mid * mid <= 0xFFFF_FFFF_FFFF_FFFF * 0xFFFF_FFFF_FFFF_FFFF) by (nonlinear_arith)
            requires
                0 <= mid <= 0xFFFF_FFFF_FFFF_FFFF,
        ;
        if mid * mid <= n {
            lo = mid;
        } else {
            hi = mid;
        }
    }
    proof {
        lemma_floor_sqrt_unique(n as nat, lo as nat);
    }
    lo as u64
}

/// The quotient of `n` by a positive `d`, rounded toward zero.
pub open spec fn truncated_div(n: int, d: int) -> int {
    if n >= 0 {
        n / d
    } else {
        -((-n) / d)
    }
}

/// The quotient of `n` by `d`, rounded toward zero; 0 where `d` is 0.
pub open spec fn signed_ratio(n: int, d: int) -> int {
    if d > 0 {
        truncated_div(n, d)
    } else if d < 0 {
        truncated_div(-n, -d)
    } else {
        0
    }
}

/// `value * scale / divisor`, the quotient rounded toward zero and narrowed to
/// 64 bits; 0 where `divisor` is 0.
pub fn scaled_ratio(value: i64, scale: u32, divisor: i64) -> (r: i64)
    ensures
        r == clamp_i64(signed_ratio(value * scale, divisor as int)),
{
    if divisor == 0 {
        return 0;
    }
    proof {
        lemma_product_fits(value as int, scale as int);
    }
    let n: i128 = (value as i128) * (scale as i128);
    let size_n: u128 = if n >= 0 {
        n as u128
    } else {
        (-n) as u128
    };
    let size_d: u128 = magnitude(divisor) as u128;
    let q: u128 = size_n / size_d;
    assert(q <= size_n) by (nonlinear_arith)
        requires
            q == size_n / size_d,
            size_d > 0,
    ;
    if (n >= 0) == (divisor > 0) {
        saturate_i64(q as i128)
    } else {
        saturate_i64(-(q as i128))
    }
}

/// The size of `x` without its sign.
pub fn magnitude(x: i64) -> (r: u64)
    ensures
        r == (if x >= 0 { x as int } else { -(x as int) }),
{
    if x >= 0 {
        x as u64
    } else {
        (-(x as i128)) as u64
    }
}

} // verus!
