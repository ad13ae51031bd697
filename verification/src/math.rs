//! Widened multiply-then-divide arithmetic on 64-bit amounts.
//!
//! Every product is formed in 128 bits, so it never overflows before the
//! division. A quotient that does not fit in 64 bits keeps its low 64 bits.

use vstd::prelude::*;

verus! {

/// The number of values of a 64-bit amount, 2^64.
pub const WORD: u128 = 0x1_0000_0000_0000_0000;

/// The low 64 bits of a non-negative integer.
pub open spec fn low64(x: int) -> int {
    x % 0x1_0000_0000_0000_0000
}

/// `a * b / c`, rounded down.
pub open spec fn mul_div(a: int, b: int, c: int) -> int {
    (a * b) / c
}

/// `a * b / c`, rounded up.
pub open spec fn mul_div_ceil(a: int, b: int, c: int) -> int {
    (a * b + c - 1) / c
}

/// The product of two 64-bit values fits in 128 bits, with room for one more
/// 64-bit value on top.
pub proof fn lemma_product_fits(a: u64, b: u64)
    ensures
        0 <= a * b <= 0xFFFF_FFFF_FFFF_FFFE_0000_0000_0000_0001,
        a * b + 0xFFFF_FFFF_FFFF_FFFF <= u128::MAX,
{
    assert(0 <= a * b <= 0xFFFF_FFFF_FFFF_FFFF * 0xFFFF_FFFF_FFFF_FFFF) by (nonlinear_arith)
        requires
            0 <= a <= 0xFFFF_FFFF_FFFF_FFFF,
            0 <= b <= 0xFFFF_FFFF_FFFF_FFFF,
    ;
}

/// A part never exceeds the whole: `a * num / den <= a` when `num <= den`.
pub proof fn lemma_mul_div_le(a: int, num: int, den: int)
    requires
        0 <= a,
        0 <= num <= den,
        0 < den,
    ensures
        0 <= mul_div(a, num, den) <= a,
{
    assert(0 <= a * num <= a * den) by (nonlinear_arith)
        requires
            0 <= a,
            0 <= num <= den,
    ;
    vstd::arithmetic::div_mod::lemma_div_is_ordered(a * num, a * den, den);
    vstd::arithmetic::div_mod::lemma_div_multiples_vanish(a, den);
    assert(a * den == den * a) by (nonlinear_arith);
}

/// `mul_div` grows with its second factor.
pub proof fn lemma_mul_div_monotonic_right(a: int, b1: int, b2: int, c: int)
    requires
        0 <= a,
        0 <= b1 <= b2,
        0 < c,
    ensures
        0 <= mul_div(a, b1, c) <= mul_div(a, b2, c),
{
    assert(0 <= a * b1 <= a * b2) by (nonlinear_arith)
        requires
            0 <= a,
            0 <= b1 <= b2,
    ;
    vstd::arithmetic::div_mod::lemma_div_is_ordered(a * b1, a * b2, c);
}

/// The quotient and remainder of a floored division by a positive divisor.
pub proof fn lemma_floor_bounds(n: int, d: int)
    requires
        0 < d,
    ensures
        d * (n / d) <= n < d * (n / d) + d,
        n == d * (n / d) + n % d,
        0 <= n % d < d,
{
    vstd::arithmetic::div_mod::lemma_fundamental_div_mod(n, d);
}

/// Rounding up adds one to the floored quotient exactly when the division
/// leaves a remainder.
pub proof fn lemma_ceil_is_floor_plus_carry(n: int, d: int)
    requires
        0 <= n,
        0 < d,
    ensures
        (n + d - 1) / d == n / d + (if n % d == 0 { 0int } else { 1int }),
        d * ((n + d - 1) / d) >= n,
{
    lemma_floor_bounds(n, d);
    let q = n / d;
    let r = n % d;
    assert(d * q == q * d) by (nonlinear_arith);
    if r == 0 {
        vstd::arithmetic::div_mod::lemma_fundamental_div_mod_converse(n + d - 1, d, q, d - 1);
    } else {
        assert((q + 1) * d == q * d + d) by (nonlinear_arith);
        vstd::arithmetic::div_mod::lemma_fundamental_div_mod_converse(n + d - 1, d, q + 1, r - 1);
    }
}

/// Any integer `q` with `q * d <= n` is at most the floored quotient.
pub proof fn lemma_floor_is_greatest(n: int, d: int, q: int)
    requires
        0 < d,
        q * d <= n,
    ensures
        q <= n / d,
{
    lemma_floor_bounds(n, d);
    if q > n / d {
        assert(q * d >= (n / d + 1) * d) by (nonlinear_arith)
            requires
                q >= n / d + 1,
                0 < d,
        ;
        assert((n / d + 1) * d == d * (n / d) + d) by (nonlinear_arith);
    }
}

/// A value below 2^64 is its own low 64 bits, and the low 64 bits of any
/// non-negative value never exceed it.
pub proof fn lemma_low64(x: int)
    requires
        0 <= x,
    ensures
        0 <= low64(x) <= x,
        low64(x) <= u64::MAX,
        x <= u64::MAX ==> low64(x) == x,
{
}

/// Keeps the low 64 bits of a 128-bit value.
pub fn narrow(x: u128) -> (r: u64)
    ensures
        r == low64(x as int),
{
    let low: u128 = x % WORD;
    low as u64
}

/// `a * b / c` rounded down, in 128 bits, then narrowed to 64 bits.
pub fn mul_div_u64(a: u64, b: u64, c: u64) -> (r: u64)
    requires
        c != 0,
    ensures
        r == low64(mul_div(a as int, b as int, c as int)),
{
    proof {
        lemma_product_fits(a, b);
    }
    let product: u128 = (a as u128) * (b as u128);
    narrow(product / (c as u128))
}

/// `a * b / c` rounded up, in 128 bits, then narrowed to 64 bits.
pub fn mul_div_ceil_u64(a: u64, b: u64, c: u64) -> (r: u64)
    requires
        c != 0,
    ensures
        r == low64(mul_div_ceil(a as int, b as int, c as int)),
{
    proof {
        lemma_product_fits(a, b);
    }
    let product: u128 = (a as u128) * (b as u128);
    let padded: u128 = product + ((c - 1) as u128);
    narrow(padded / (c as u128))
}

/// The share `num / den` of an amount, rounded down. With `num <= den` the
/// result never exceeds the amount, so nothing is lost in narrowing.
pub fn share(a: u64, num: u64, den: u64) -> (r: u64)
    requires
        den != 0,
        num <= den,
    ensures
        r == mul_div(a as int, num as int, den as int),
        r <= a,
{
    proof {
        lemma_product_fits(a, num);
        lemma_mul_div_le(a as int, num as int, den as int);
    }
    let product: u128 = (a as u128) * (num as u128);
    let q: u128 = product / (den as u128);
    q as u64
}

} // verus!
