//! Arithmetic on grid shapes and buffer sizes.
use vstd::prelude::*;

verus! {

/// The least number of groups of `b` that hold `a` items.
pub open spec fn ceil_div(a: int, b: int) -> int {
    (a + b - 1) / b
}

/// The lesser of two numbers.
pub open spec fn lesser(a: int, b: int) -> int {
    if a <= b {
        a
    } else {
        b
    }
}

/// The greater of two numbers.
pub open spec fn greater(a: int, b: int) -> int {
    if a >= b {
        a
    } else {
        b
    }
}

/// Whether `a` is a multiple of `b`; of the multiples of zero there is only zero.
pub open spec fn divides(b: int, a: int) -> bool {
    if b == 0 {
        a == 0
    } else {
        a % b == 0
    }
}

/// What is left of `x` in 32 bits.
pub open spec fn low_word(x: int) -> int {
    x % 0x1_0000_0000
}

/// Enough groups of `b` items hold `a` items, and one group less does not.
pub proof fn lemma_ceil_div(a: int, b: int)
    requires
        a >= 0,
        b > 0,
    ensures
        ceil_div(a, b) >= 0,
        ceil_div(a, b) * b >= a,
        ceil_div(a, b) * b < a + b,
        a > 0 ==> ceil_div(a, b) > 0,
        ceil_div(a, b) <= a,
{
    let q = (a + b - 1) / b;
    let r = (a + b - 1) % b;
    assert(a + b - 1 == b * q + r && 0 <= r < b) by (nonlinear_arith)
        requires
            b > 0,
            q == (a + b - 1) / b,
            r == (a + b - 1) % b,
    ;
    assert(q * b == b * q) by (nonlinear_arith);
    assert(q >= 0 && (a > 0 ==> q > 0) && q <= a) by (nonlinear_arith)
        requires
            a >= 0,
            b > 0,
            a + b - 1 == b * q + r,
            0 <= r < b,
    ;
}

/// Rounds the quotient up.
pub fn div_ceil(a: u32, b: u32) -> (r: u32)
    requires
        b > 0,
    ensures
        r == ceil_div(a as int, b as int),
{
    let q: u32 = a / b;
    let rest: u32 = a % b;
    proof {
        lemma_ceil_div(a as int, b as int);
        assert((a + b - 1) / (b as int) == q + if rest == 0 { 0int } else { 1int })
            by (nonlinear_arith)
            requires
                b > 0,
                q == a / b,
                rest == a % b,
        ;
    }
    if rest == 0 {
        q
    } else {
        q + 1
    }
}

/// The lesser of two numbers.
pub fn lesser_of(a: u32, b: u32) -> (r: u32)
    ensures
        r == lesser(a as int, b as int),
{
    if a <= b {
        a
    } else {
        b
    }
}

/// The greater of two numbers.
pub fn greater_of(a: u32, b: u32) -> (r: u32)
    ensures
        r == greater(a as int, b as int),
{
    if a >= b {
        a
    } else {
        b
    }
}

/// The product of two 32-bit numbers, which always fits in 64 bits.
pub fn product(a: u32, b: u32) -> (r: u64)
    ensures
        r == a * b,
{
    assert(0 <= a * b <= u64::MAX) by (nonlinear_arith)
        requires
            a <= u32::MAX,
            b <= u32::MAX,
    ;
    a as u64 * b as u64
}

/// The product of three 32-bit numbers, which always fits in 128 bits.
pub fn triple_product(a: u32, b: u32, c: u32) -> (r: u128)
    ensures
        r == a * b * c,
{
    let ab: u64 = product(a, b);
    assert(0 <= ab as u128 * c as u128 <= u128::MAX) by (nonlinear_arith)
        requires
            ab <= u64::MAX,
            c <= u32::MAX,
    ;
    ab as u128 * c as u128
}

/// Drops the upper 32 bits.
pub fn truncate(x: u64) -> (r: u32)
    ensures
        r == low_word(x as int),
{
    assert(x as u32 == x % 0x1_0000_0000) by (bit_vector);
    #[verifier::truncate]
    (x as u32)
}

} // verus!
