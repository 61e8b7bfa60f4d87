//! Single-precision numbers held as their IEEE 754 bit patterns, and their order.
use vstd::prelude::*;

verus! {

/// The bit pattern of positive zero.
pub const ZERO: u32 = 0;

/// The bit pattern of one: the biased exponent 127, no mantissa bit.
pub const ONE: u32 = 0x3f80_0000;

/// The bit pattern in which only the sign bit is set (negative zero).
pub const SIGN: u32 = 0x8000_0000;

/// The bit pattern of positive infinity: every exponent bit set, no mantissa bit.
pub const INFINITY: u32 = 0x7f80_0000;

/// The pattern without its sign bit.
pub open spec fn magnitude(bits: u32) -> int {
    if bits < SIGN {
        bits as int
    } else {
        bits - SIGN
    }
}

/// A pattern stands for no number when its exponent bits are all set and a
/// mantissa bit is set as well.
pub open spec fn is_nan(bits: u32) -> bool {
    magnitude(bits) > INFINITY
}

/// The place of a number in the order of all numbers: patterns of numbers
/// compare as their ranks do. Both zeros have rank 0.
pub open spec fn rank(bits: u32) -> int {
    if bits < SIGN {
        magnitude(bits)
    } else {
        -magnitude(bits)
    }
}

/// `a < b` as IEEE 754 defines it: false when either side is no number.
pub open spec fn less(a: u32, b: u32) -> bool {
    !is_nan(a) && !is_nan(b) && rank(a) < rank(b)
}

/// `0 < a` as IEEE 754 defines it.
pub open spec fn positive(a: u32) -> bool {
    less(ZERO, a)
}

/// Tells whether the pattern stands for no number.
pub fn nan(bits: u32) -> (r: bool)
    ensures
        r == is_nan(bits),
{
    if bits < SIGN {
        bits > INFINITY
    } else {
        bits - SIGN > INFINITY
    }
}

/// The rank of a pattern, as a machine integer.
pub fn rank_of(bits: u32) -> (r: i64)
    ensures
        r == rank(bits),
        -0x8000_0000 < r < 0x8000_0000,
{
    if bits < SIGN {
        bits as i64
    } else {
        let m: u32 = bits - SIGN;
        0i64 - (m as i64)
    }
}

/// Compares two numbers: `a < b`.
pub fn lt(a: u32, b: u32) -> (r: bool)
    ensures
        r == less(a, b),
{
    !nan(a) && !nan(b) && rank_of(a) < rank_of(b)
}

/// Tests a number's sign: `0 < a`.
pub fn is_positive(a: u32) -> (r: bool)
    ensures
        r == positive(a),
        r == (0 < a <= INFINITY),
{
    lt(ZERO, a)
}

/// `less` is a strict order: nothing is below itself, and it is transitive.
pub proof fn less_is_strict_order(a: u32, b: u32, c: u32)
    ensures
        !less(a, a),
        less(a, b) ==> !less(b, a),
        less(a, b) && less(b, c) ==> less(a, c),
{
}

/// Among numbers, exactly one of `a < b`, `b < a` and equal rank holds; the
/// two zeros are the only distinct patterns of equal rank.
pub proof fn less_is_total_on_numbers(a: u32, b: u32)
    requires
        !is_nan(a),
        !is_nan(b),
    ensures
        less(a, b) || less(b, a) || rank(a) == rank(b),
        rank(a) == rank(b) ==> a == b || magnitude(a) == 0 && magnitude(b) == 0,
{
}

} // verus!
