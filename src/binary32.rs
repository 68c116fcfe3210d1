//! Single-precision numbers handled through their IEEE-754 bit patterns.
//!
//! Every real-valued quantity of the library (a curve time, an angle, a
//! clamp bound) is carried as the `u32` bit pattern of an IEEE-754 binary32
//! number. The operations here are the ones that binary32 defines exactly on
//! those patterns: comparison, negation, absolute value and clamping. The
//! comparison rests on the layout of the format: for patterns that are not
//! NaN, the numeric order is the order of `rank` below, where both zeros
//! have rank zero.
use vstd::prelude::*;

verus! {

/// The sign bit of a binary32 pattern.
pub const SIGN_BIT: u32 = 0x8000_0000;

/// The largest magnitude field that is not a NaN (the pattern of infinity).
pub const INFINITY: u32 = 0x7F80_0000;

/// The pattern of `0.0`.
pub const ZERO: u32 = 0;

/// The pattern of `1.0`.
pub const ONE: u32 = 0x3F80_0000;

/// The pattern with the sign bit cleared.
pub open spec fn magnitude(b: u32) -> int {
    (b % SIGN_BIT) as int
}

/// Whether the sign bit is set.
pub open spec fn is_negative(b: u32) -> bool {
    b >= SIGN_BIT
}

/// Whether the pattern encodes a NaN.
pub open spec fn is_nan(b: u32) -> bool {
    magnitude(b) > INFINITY as int
}

/// The position of a pattern in the numeric order: the magnitude, negated
/// for negative numbers. Both zeros have rank zero.
pub open spec fn rank(b: u32) -> int {
    if is_negative(b) {
        -magnitude(b)
    } else {
        magnitude(b)
    }
}

/// IEEE-754 `a < b`: false as soon as one side is NaN.
pub open spec fn lt(a: u32, b: u32) -> bool {
    !is_nan(a) && !is_nan(b) && rank(a) < rank(b)
}

/// IEEE-754 `a <= b`: false as soon as one side is NaN.
pub open spec fn le(a: u32, b: u32) -> bool {
    !is_nan(a) && !is_nan(b) && rank(a) <= rank(b)
}

/// The pattern with its sign bit flipped, which is IEEE-754 negation.
pub open spec fn neg(b: u32) -> u32 {
    if is_negative(b) {
        (b - SIGN_BIT) as u32
    } else {
        (b + SIGN_BIT) as u32
    }
}

/// The pattern with its sign bit cleared, which is IEEE-754 absolute value.
pub open spec fn abs(b: u32) -> u32 {
    (b % SIGN_BIT) as u32
}

/// `x.clamp(min, max)` as std defines it: `min` when `x < min`, `max` when
/// `x > max`, else `x` itself (a NaN stays NaN).
pub open spec fn clamp(x: u32, min: u32, max: u32) -> u32 {
    if lt(x, min) {
        min
    } else if lt(max, x) {
        max
    } else {
        x
    }
}

/// The bounds that `clamp` accepts: neither is NaN and `min <= max`.
pub open spec fn valid_bounds(min: u32, max: u32) -> bool {
    le(min, max)
}

/// Whether the pattern encodes a NaN.
pub fn nan(b: u32) -> (r: bool)
    ensures
        r == is_nan(b),
{
    b % SIGN_BIT > INFINITY
}

/// The rank of a pattern, as a machine integer.
pub fn rank_of(b: u32) -> (r: i64)
    ensures
        r == rank(b),
{
    if b >= SIGN_BIT {
        -((b % SIGN_BIT) as i64)
    } else {
        b as i64
    }
}

/// IEEE-754 `a < b`.
pub fn less(a: u32, b: u32) -> (r: bool)
    ensures
        r == lt(a, b),
{
    !nan(a) && !nan(b) && rank_of(a) < rank_of(b)
}

/// IEEE-754 negation.
pub fn negate(b: u32) -> (r: u32)
    ensures
        r == neg(b),
        !is_nan(b) ==> !is_nan(r) && rank(r) == -rank(b),
{
    if b >= SIGN_BIT {
        b - SIGN_BIT
    } else {
        b + SIGN_BIT
    }
}

/// IEEE-754 absolute value.
pub fn absolute(b: u32) -> (r: u32)
    ensures
        r == abs(b),
        !is_nan(b) ==> !is_nan(r) && rank(r) == magnitude(b) && rank(r) >= 0,
{
    b % SIGN_BIT
}

/// `x.clamp(min, max)`.
pub fn clamp_to(x: u32, min: u32, max: u32) -> (r: u32)
    requires
        valid_bounds(min, max),
    ensures
        r == clamp(x, min, max),
        !is_nan(x) ==> le(min, r) && le(r, max),
        is_nan(x) ==> r == x,
{
    if less(x, min) {
        min
    } else if less(max, x) {
        max
    } else {
        x
    }
}

/// Clamping twice to the same bounds gives what clamping once gave.
pub proof fn lemma_clamp_idempotent(x: u32, min: u32, max: u32)
    requires
        valid_bounds(min, max),
    ensures
        clamp(clamp(x, min, max), min, max) == clamp(x, min, max),
{
}

/// For `0 <= c`, the bounds `-c` and `c` are valid.
pub proof fn lemma_symmetric_bounds(c: u32)
    requires
        le(ZERO, c),
    ensures
        valid_bounds(neg(c), c),
{
}

} // verus!
