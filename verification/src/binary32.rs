//! Weights, thresholds and scores are IEEE-754 binary32 values. The library
//! carries each one as its bit pattern (`u32`, the value of `f32::to_bits`)
//! and decides comparisons and clamping on that pattern exactly as IEEE-754
//! orders the values; arithmetic on the values is done by the caller.

use vstd::prelude::*;

verus! {

/// Bit pattern of `0.0`.
pub const ZERO: u32 = 0x0000_0000;

/// Bit pattern of `1.0`.
pub const ONE: u32 = 0x3F80_0000;

/// Bit pattern of `0.5`.
pub const HALF: u32 = 0x3F00_0000;

/// Bit pattern of `0.1` (nearest binary32).
pub const TENTH: u32 = 0x3DCC_CCCD;

/// Bit pattern of `0.01` (nearest binary32).
pub const HUNDREDTH: u32 = 0x3C23_D70A;

/// Bit pattern of `0.9` (nearest binary32).
pub const NINE_TENTHS: u32 = 0x3F66_6666;

/// Bit pattern of `10.0`.
pub const TEN: u32 = 0x4120_0000;

/// Bit pattern of `0.4` (nearest binary32).
pub const TWO_FIFTHS: u32 = 0x3ECC_CCCD;

/// Bit pattern of `0.2` (nearest binary32).
pub const ONE_FIFTH: u32 = 0x3E4C_CCCD;

/// Bit pattern of `0.3` (nearest binary32).
pub const THREE_TENTHS: u32 = 0x3E99_999A;

/// The sign bit.
pub const SIGN_BIT: u32 = 0x8000_0000;

/// The pattern of positive infinity; magnitudes above it are NaN.
pub const INFINITY: u32 = 0x7F80_0000;

/// Magnitude of a pattern: the pattern without its sign bit.
pub open spec fn magnitude(b: u32) -> int {
    if b >= SIGN_BIT { b - SIGN_BIT } else { b as int }
}

/// The pattern encodes a NaN.
pub open spec fn spec_is_nan(b: u32) -> bool {
    magnitude(b) > INFINITY
}

/// An integer that orders non-NaN patterns exactly as IEEE-754 orders their
/// values: non-negative values compare as their patterns do, a negative value
/// is the negation of its magnitude, and both zeros map to `0`.
pub open spec fn order_key(b: u32) -> int {
    if b >= SIGN_BIT { -magnitude(b) } else { b as int }
}

/// IEEE-754 `a < b` (false whenever either side is NaN).
pub open spec fn spec_lt(a: u32, b: u32) -> bool {
    !spec_is_nan(a) && !spec_is_nan(b) && order_key(a) < order_key(b)
}

/// IEEE-754 `a <= b` (false whenever either side is NaN).
pub open spec fn spec_le(a: u32, b: u32) -> bool {
    !spec_is_nan(a) && !spec_is_nan(b) && order_key(a) <= order_key(b)
}

/// The value lies in the closed unit interval `[0.0, 1.0]`.
pub open spec fn in_unit_interval(b: u32) -> bool {
    spec_le(ZERO, b) && spec_le(b, ONE)
}

/// `f32::clamp(x, 0.0, 1.0)`: below zero gives zero, above one gives one,
/// NaN and values already inside (including `-0.0`) are unchanged.
pub open spec fn spec_clamp_unit(b: u32) -> u32 {
    if spec_lt(b, ZERO) {
        ZERO
    } else if spec_lt(ONE, b) {
        ONE
    } else {
        b
    }
}

/// `f32::min(a, b)`: a NaN argument yields the other argument; otherwise
/// the smaller value. For two values that compare equal (`+0.0` and `-0.0`)
/// `f32::min` may return either, and this one returns `a`.
pub open spec fn spec_min(a: u32, b: u32) -> u32 {
    if spec_is_nan(a) {
        b
    } else if spec_is_nan(b) {
        a
    } else if spec_lt(b, a) {
        b
    } else {
        a
    }
}

/// Whether the pattern encodes a NaN.
pub fn is_nan(b: u32) -> (r: bool)
    ensures
        r == spec_is_nan(b),
{
    let m = if b >= SIGN_BIT { b - SIGN_BIT } else { b };
    m > INFINITY
}

fn key(b: u32) -> (k: i64)
    ensures
        k == order_key(b),
{
    if b >= SIGN_BIT {
        -((b - SIGN_BIT) as i64)
    } else {
        b as i64
    }
}

/// IEEE-754 `a < b` on two patterns.
pub fn lt(a: u32, b: u32) -> (r: bool)
    ensures
        r == spec_lt(a, b),
{
    !is_nan(a) && !is_nan(b) && key(a) < key(b)
}

/// IEEE-754 `a <= b` on two patterns.
pub fn le(a: u32, b: u32) -> (r: bool)
    ensures
        r == spec_le(a, b),
{
    !is_nan(a) && !is_nan(b) && key(a) <= key(b)
}

/// `f32::clamp(x, 0.0, 1.0)` on a pattern.
pub fn clamp_unit(b: u32) -> (r: u32)
    ensures
        r == spec_clamp_unit(b),
{
    if lt(b, ZERO) {
        ZERO
    } else if lt(ONE, b) {
        ONE
    } else {
        b
    }
}

/// `f32::min` on two patterns (see `spec_min`).
pub fn min(a: u32, b: u32) -> (r: u32)
    ensures
        r == spec_min(a, b),
{
    if is_nan(a) {
        b
    } else if is_nan(b) {
        a
    } else if lt(b, a) {
        b
    } else {
        a
    }
}

/// Whether the value lies in `[0.0, 1.0]`.
pub fn is_unit(b: u32) -> (r: bool)
    ensures
        r == in_unit_interval(b),
{
    le(ZERO, b) && le(b, ONE)
}

/// Clamping to the unit interval yields a value inside it, unless the input
/// was NaN, which clamping leaves as it is.
pub proof fn lemma_clamp_lands_in_unit(b: u32)
    ensures
        spec_is_nan(b) ==> spec_clamp_unit(b) == b,
        !spec_is_nan(b) ==> in_unit_interval(spec_clamp_unit(b)),
{
}

/// The minimum with a non-NaN bound never exceeds the bound.
pub proof fn lemma_min_within_bound(a: u32, bound: u32)
    ensures
        !spec_is_nan(bound) ==> spec_le(spec_min(a, bound), bound),
        spec_min(a, bound) == a || spec_min(a, bound) == bound,
{
}

/// Clamping is idempotent.
pub proof fn lemma_clamp_idempotent(b: u32)
    ensures
        spec_clamp_unit(spec_clamp_unit(b)) == spec_clamp_unit(b),
{
}

} // verus!
