//! The order of IEEE 754 binary32 values, read off their bit patterns.
//!
//! A pattern has a sign bit, eight exponent bits and twenty-three fraction
//! bits. Patterns with all exponent bits set and a fraction that is not zero
//! are NaN: a NaN is neither above nor below anything. Every other pattern
//! is a number, and the numbers are ordered by their magnitude bits, read as
//! an integer and negated where the sign bit is set; the two zeros are
//! equal.

use vstd::prelude::*;

verus! {

/// The bits of a pattern without its sign.
pub open spec fn magnitude(bits: u32) -> u32 {
    bits & 0x7fff_ffff
}

/// The pattern is a NaN.
pub open spec fn spec_is_nan(bits: u32) -> bool {
    magnitude(bits) > 0x7f80_0000
}

/// An integer that orders the patterns that are no NaN as their values are
/// ordered.
pub open spec fn rank(bits: u32) -> int {
    if bits & 0x8000_0000 == 0 {
        magnitude(bits) as int
    } else {
        -(magnitude(bits) as int)
    }
}

/// The value of pattern `a` is greater than the value of pattern `b`.
pub open spec fn spec_greater(a: u32, b: u32) -> bool {
    !spec_is_nan(a) && !spec_is_nan(b) && rank(a) > rank(b)
}

/// The sign of the value of a pattern: 1 above zero, -1 below zero, and 0
/// for the two zeros and for a NaN.
pub open spec fn spec_sign(bits: u32) -> int {
    if spec_is_nan(bits) || rank(bits) == 0 {
        0
    } else if rank(bits) > 0 {
        1
    } else {
        -1
    }
}

/// Tells whether a pattern is a NaN.
pub fn is_nan(bits: u32) -> (r: bool)
    ensures
        r == spec_is_nan(bits),
{
    (bits & 0x7fff_ffff) > 0x7f80_0000
}

/// The integer that orders a pattern among those that are no NaN.
fn rank_of(bits: u32) -> (r: i64)
    ensures
        r == rank(bits),
{
    let magnitude: u32 = bits & 0x7fff_ffff;
    if bits & 0x8000_0000 == 0 {
        magnitude as i64
    } else {
        -(magnitude as i64)
    }
}

/// Tells whether the value of pattern `a` is greater than the value of
/// pattern `b`.
pub fn greater(a: u32, b: u32) -> (r: bool)
    ensures
        r == spec_greater(a, b),
{
    !is_nan(a) && !is_nan(b) && rank_of(a) > rank_of(b)
}

/// The sign of the value of a pattern: 1 above zero, -1 below zero, and 0
/// for the two zeros and for a NaN.
pub fn sign(bits: u32) -> (r: i8)
    ensures
        r == spec_sign(bits),
{
    if is_nan(bits) {
        return 0;
    }
    let rank: i64 = rank_of(bits);
    if rank > 0 {
        1
    } else if rank < 0 {
        -1
    } else {
        0
    }
}

/// Among numbers, being greater is a strict order in which any two values
/// that are not equal are comparable, and the sign says on which side of
/// zero a value lies.
pub proof fn lemma_order(a: u32, b: u32, c: u32)
    ensures
        !spec_greater(a, a),
        spec_greater(a, b) ==> !spec_greater(b, a),
        spec_greater(a, b) && spec_greater(b, c) ==> spec_greater(a, c),
        !spec_is_nan(a) && !spec_is_nan(b) ==> (spec_greater(a, b) || spec_greater(b, a) || rank(a)
            == rank(b)),
        spec_sign(a) == 1 <==> spec_greater(a, 0),
        spec_sign(a) == -1 <==> spec_greater(0, a),
{
    assert(magnitude(0u32) == 0 && 0u32 & 0x8000_0000 == 0) by (bit_vector)
        requires
            magnitude(0u32) == 0u32 & 0x7fff_ffff,
    ;
}

} // verus!
