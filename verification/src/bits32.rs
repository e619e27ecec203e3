//! IEEE 754 single-precision values, handled as bit patterns.
//!
//! Everything that depends only on the order and the sign of such a value
//! (comparison, minimum, maximum, clamping, absolute value, negation) is exact
//! on the pattern itself, so it is decided here. Arithmetic on the values is
//! the caller's: it hands over the patterns of its results.

use vstd::prelude::*;

verus! {

/// The sign bit.
pub const SIGN: u32 = 0x8000_0000;

/// The pattern of positive infinity; a larger magnitude is a NaN.
pub const INFINITY: u32 = 0x7f80_0000;

/// The pattern of positive zero.
pub const ZERO: u32 = 0;

/// The pattern of one.
pub const ONE: u32 = 0x3f80_0000;

/// The pattern of minus one.
pub const MINUS_ONE: u32 = 0xbf80_0000;

/// Whether the sign bit is set.
pub open spec fn negative(a: u32) -> bool {
    a >= SIGN
}

/// The pattern without its sign bit, as a number.
pub open spec fn magnitude(a: u32) -> int {
    if negative(a) {
        a - SIGN
    } else {
        a as int
    }
}

/// Whether the pattern is not a number.
pub open spec fn is_nan(a: u32) -> bool {
    magnitude(a) > INFINITY
}

/// The place of a value among all values that are numbers: both zeros are at
/// zero, and a larger value has a larger rank.
pub open spec fn rank(a: u32) -> int {
    if negative(a) {
        -magnitude(a)
    } else {
        magnitude(a)
    }
}

/// `a < b` on the values; false when either is not a number.
pub open spec fn less(a: u32, b: u32) -> bool {
    !is_nan(a) && !is_nan(b) && rank(a) < rank(b)
}

/// `a <= b` on the values; false when either is not a number.
pub open spec fn at_most(a: u32, b: u32) -> bool {
    !is_nan(a) && !is_nan(b) && rank(a) <= rank(b)
}

/// `a == b` on the values; false when either is not a number.
pub open spec fn same(a: u32, b: u32) -> bool {
    !is_nan(a) && !is_nan(b) && rank(a) == rank(b)
}

/// The value with the opposite sign.
pub open spec fn flipped(a: u32) -> u32 {
    if negative(a) {
        (a - SIGN) as u32
    } else {
        (a + SIGN) as u32
    }
}

/// The value with the sign dropped.
pub open spec fn unsigned(a: u32) -> u32 {
    magnitude(a) as u32
}

/// The smaller of two values; the other one when one is not a number.
pub open spec fn lesser(a: u32, b: u32) -> u32 {
    if is_nan(a) || less(b, a) {
        b
    } else {
        a
    }
}

/// The larger of two values; the other one when one is not a number.
pub open spec fn greater(a: u32, b: u32) -> u32 {
    if is_nan(a) || less(a, b) {
        b
    } else {
        a
    }
}

/// The value moved into `lo..=hi`; something that is not a number stays.
pub open spec fn clamped(a: u32, lo: u32, hi: u32) -> u32 {
    if less(a, lo) {
        lo
    } else if less(hi, a) {
        hi
    } else {
        a
    }
}

/// One with the sign of the value; something that is not a number stays.
pub open spec fn sign_unit(a: u32) -> u32 {
    if is_nan(a) {
        a
    } else if negative(a) {
        MINUS_ONE
    } else {
        ONE
    }
}

/// Whether `a` is not a number.
pub fn nan(a: u32) -> (r: bool)
    ensures
        r == is_nan(a),
{
    if a >= SIGN {
        a - SIGN > INFINITY
    } else {
        a > INFINITY
    }
}

/// The rank of `a`.
fn signed(a: u32) -> (r: i32)
    ensures
        r == rank(a),
{
    if a >= SIGN {
        let m: i32 = (a - SIGN) as i32;
        -m
    } else {
        a as i32
    }
}

/// `a < b` on the values.
pub fn lt(a: u32, b: u32) -> (r: bool)
    ensures
        r == less(a, b),
{
    !nan(a) && !nan(b) && signed(a) < signed(b)
}

/// `a <= b` on the values.
pub fn le(a: u32, b: u32) -> (r: bool)
    ensures
        r == at_most(a, b),
{
    !nan(a) && !nan(b) && signed(a) <= signed(b)
}

/// `a == b` on the values.
pub fn eq(a: u32, b: u32) -> (r: bool)
    ensures
        r == same(a, b),
{
    !nan(a) && !nan(b) && signed(a) == signed(b)
}

/// `-a`.
pub fn neg(a: u32) -> (r: u32)
    ensures
        r == flipped(a),
{
    if a >= SIGN {
        a - SIGN
    } else {
        a + SIGN
    }
}

/// `|a|`.
pub fn abs(a: u32) -> (r: u32)
    ensures
        r == unsigned(a),
{
    if a >= SIGN {
        a - SIGN
    } else {
        a
    }
}

/// The smaller of `a` and `b`.
pub fn min(a: u32, b: u32) -> (r: u32)
    ensures
        r == lesser(a, b),
{
    if nan(a) || lt(b, a) {
        b
    } else {
        a
    }
}

/// The larger of `a` and `b`.
pub fn max(a: u32, b: u32) -> (r: u32)
    ensures
        r == greater(a, b),
{
    if nan(a) || lt(a, b) {
        b
    } else {
        a
    }
}

/// `a` moved into `lo..=hi`.
pub fn clamp(a: u32, lo: u32, hi: u32) -> (r: u32)
    requires
        at_most(lo, hi),
    ensures
        r == clamped(a, lo, hi),
{
    if lt(a, lo) {
        lo
    } else if lt(hi, a) {
        hi
    } else {
        a
    }
}

/// One with the sign of `a`.
pub fn signum(a: u32) -> (r: u32)
    ensures
        r == sign_unit(a),
{
    if nan(a) {
        a
    } else if a >= SIGN {
        MINUS_ONE
    } else {
        ONE
    }
}

/// Two values that are numbers are in exactly one of the three relations.
pub proof fn trichotomy(a: u32, b: u32)
    requires
        !is_nan(a),
        !is_nan(b),
    ensures
        less(a, b) || same(a, b) || less(b, a),
        !(less(a, b) && same(a, b)),
        !(less(a, b) && less(b, a)),
        at_most(a, b) <==> !less(b, a),
{
}

/// A clamped number lies between the bounds, and one that already did is kept.
pub proof fn clamp_in_range(a: u32, lo: u32, hi: u32)
    requires
        !is_nan(a),
        at_most(lo, hi),
    ensures
        at_most(lo, clamped(a, lo, hi)),
        at_most(clamped(a, lo, hi), hi),
        at_most(lo, a) && at_most(a, hi) ==> clamped(a, lo, hi) == a,
{
}

/// Negation turns the order round, undoes itself and keeps the magnitude.
pub proof fn flip_reverses(a: u32, b: u32)
    ensures
        less(a, b) <==> less(flipped(b), flipped(a)),
        flipped(flipped(a)) == a,
        unsigned(flipped(a)) == unsigned(a),
{
}

/// The patterns themselves are in order: from positive zero up to infinity a
/// larger pattern is a larger value, from negative zero down to minus infinity a
/// larger pattern is a smaller one, and every pattern with a sign is below every
/// one without, but that the two zeros are equal. Beyond the infinities there
/// are no numbers, and nothing compares.
pub proof fn patterns_are_in_order(a: u32, b: u32)
    ensures
        a <= 0x7f80_0000 && b <= 0x7f80_0000 ==> (less(a, b) <==> a < b),
        0x8000_0000 <= a <= 0xff80_0000 && 0x8000_0000 <= b <= 0xff80_0000 ==> (less(a, b) <==> b < a),
        0x8000_0000 <= a <= 0xff80_0000 && b <= 0x7f80_0000 ==> !less(b, a) && (less(a, b) <==> !(a
            == 0x8000_0000 && b == 0)),
        0x7f80_0000 < a < 0x8000_0000 || 0xff80_0000 < a ==> !less(a, b) && !less(b, a) && is_nan(a),
        a <= 0x7f80_0000 || 0x8000_0000 <= a <= 0xff80_0000 ==> !is_nan(a),
{
}

/// The three relations belong together: at most is less or the same, and two
/// values are the same just when their patterns are, or when both are zeros.
pub proof fn relations_belong_together(a: u32, b: u32)
    ensures
        at_most(a, b) <==> less(a, b) || same(a, b),
        same(a, b) <==> !is_nan(a) && !is_nan(b) && (a == b || ((a == 0 || a == 0x8000_0000) && (b == 0
            || b == 0x8000_0000))),
        is_nan(a) || is_nan(b) ==> !at_most(a, b),
{
}

/// The smaller and the larger of two values are among the two, on either side of
/// both, and a number if there is one.
pub proof fn smaller_and_larger(a: u32, b: u32)
    ensures
        lesser(a, b) == a || lesser(a, b) == b,
        greater(a, b) == a || greater(a, b) == b,
        !is_nan(a) ==> at_most(lesser(a, b), a) && at_most(a, greater(a, b)),
        !is_nan(b) ==> at_most(lesser(a, b), b) && at_most(b, greater(a, b)),
        is_nan(a) ==> lesser(a, b) == b && greater(a, b) == b,
        is_nan(b) && !is_nan(a) ==> lesser(a, b) == a && greater(a, b) == a,
{
}

/// What lies below a range goes to its lower end, what lies above it to its
/// upper end, and nothing else is moved.
pub proof fn clamp_moves_what_is_outside(a: u32, lo: u32, hi: u32)
    requires
        at_most(lo, hi),
    ensures
        less(a, lo) ==> clamped(a, lo, hi) == lo,
        less(hi, a) ==> clamped(a, lo, hi) == hi,
        !less(a, lo) && !less(hi, a) ==> clamped(a, lo, hi) == a,
{
}

/// Only the topmost bit is the sign: negation changes it, the absolute value
/// clears it.
pub proof fn sign_is_the_topmost_bit(a: u32)
    ensures
        a < 0x8000_0000 ==> flipped(a) == a + 0x8000_0000 && unsigned(a) == a,
        a >= 0x8000_0000 ==> flipped(a) == a - 0x8000_0000 && unsigned(a) == a - 0x8000_0000,
{
}

/// The sign unit is one or minus one, by the topmost bit; what is not a number
/// stays.
pub proof fn sign_unit_has_the_sign(a: u32)
    ensures
        !is_nan(a) && a < 0x8000_0000 ==> sign_unit(a) == 0x3f80_0000,
        !is_nan(a) && a >= 0x8000_0000 ==> sign_unit(a) == 0xbf80_0000,
        is_nan(a) ==> sign_unit(a) == a,
{
}

} // verus!
