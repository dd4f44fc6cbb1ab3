//! Whole-number arithmetic that the conversions between seconds, ticks and
//! frames share: sizes without sign, quotients cut toward zero, and values held
//! within the range of a machine integer.

use vstd::prelude::*;

verus! {

/// The size of an integer without its sign.
pub open spec fn magnitude(x: int) -> nat {
    if x < 0 {
        ( -x ) as nat
    } else {
        x as nat
    }
}

/// The size of a 32-bit integer without its sign.
pub fn magnitude_of(x: i32) -> (m: u64)
    ensures
        m == magnitude(x as int),
        m <= 0x8000_0000,
{
    if x < 0 {
        ( -( x as i64 ) ) as u64
    } else {
        x as u64
    }
}

/// The size of a 64-bit integer without its sign.
pub fn magnitude_of_i64(x: i64) -> (m: u64)
    ensures
        m == magnitude(x as int),
        m <= 0x8000_0000_0000_0000,
{
    if x < 0 {
        ( -( x as i128 ) ) as u64
    } else {
        x as u64
    }
}

/// The quotient of `a` by `b` with its fraction cut off, that is, rounded
/// toward zero. Zero where `b` is zero.
pub open spec fn truncated_quotient(a: int, b: int) -> int {
    if b == 0 {
        0
    } else if (a < 0) == (b < 0) {
        (magnitude(a) / magnitude(b)) as int
    } else {
        -((magnitude(a) / magnitude(b)) as int)
    }
}

/// The nearest `i64` to `x`.
pub open spec fn clamp_i64(x: int) -> int {
    if x > i64::MAX {
        i64::MAX as int
    } else if x < i64::MIN {
        i64::MIN as int
    } else {
        x
    }
}

/// The smaller of `x` and the largest `i64`.
pub open spec fn at_most_i64(x: int) -> int {
    if x > i64::MAX {
        i64::MAX as int
    } else {
        x
    }
}

/// The smaller of `x` and the largest `u64`.
pub open spec fn at_most_u64(x: int) -> int {
    if x > u64::MAX {
        u64::MAX as int
    } else {
        x
    }
}

/// The product of two integers has the product of their sizes as its size,
/// and the sign that their signs give.
pub proof fn lemma_product_magnitude(a: int, b: int)
    ensures
        magnitude(a * b) == magnitude(a) * magnitude(b),
        a * b < 0 <==> (a != 0 && b != 0 && ((a < 0) != (b < 0))),
        a * b == 0 <==> (a == 0 || b == 0),
{
    assert(magnitude(a * b) == magnitude(a) * magnitude(b)) by (nonlinear_arith)
        requires
            magnitude(a) == (if a < 0 { -a } else { a }),
            magnitude(b) == (if b < 0 { -b } else { b }),
            magnitude(a * b) == (if a * b < 0 { -(a * b) } else { a * b }),
    ;
    assert(a * b < 0 <==> (a != 0 && b != 0 && ((a < 0) != (b < 0)))) by (nonlinear_arith);
    assert(a * b == 0 <==> (a == 0 || b == 0)) by (nonlinear_arith);
}

} // verus!
