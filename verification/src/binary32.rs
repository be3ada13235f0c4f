//! Single-precision numbers as their 32-bit patterns.
//!
//! The engine stores and moves concentrations and rates without computing on
//! them; the one thing it decides is their order, when it clamps. The order of
//! two numbers can be read off their bit patterns with integer arithmetic
//! alone, so a number is carried here as the `u32` that holds its sign bit,
//! its 8 exponent bits and its 23 fraction bits.

use vstd::prelude::*;

verus! {

/// The sign bit; the remaining 31 bits are the magnitude.
pub const SIGN_BIT: u32 = 0x8000_0000;

/// The magnitude of an infinity. Larger magnitudes are not numbers.
pub const INFINITY: u32 = 0x7f80_0000;

/// Zero with a clear sign bit.
pub const ZERO: u32 = 0;

/// The number one.
pub const ONE: u32 = 0x3f80_0000;

/// The number minus one.
pub const MINUS_ONE: u32 = 0xbf80_0000;

/// The pattern without its sign bit.
pub open spec fn magnitude(bits: u32) -> int {
    if bits >= SIGN_BIT {
        bits - SIGN_BIT
    } else {
        bits as int
    }
}

/// Whether the pattern stands for no number at all.
pub open spec fn is_nan(bits: u32) -> bool {
    magnitude(bits) > INFINITY
}

/// An integer that orders the patterns of numbers as the numbers themselves
/// are ordered: the magnitude, negated where the sign bit is set. Both zeros
/// get the key 0, as they compare equal.
pub open spec fn order_key(bits: u32) -> int {
    if bits >= SIGN_BIT {
        -(bits - SIGN_BIT)
    } else {
        bits as int
    }
}

/// Bounds that a value can be clamped to: two numbers, the lower not above
/// the upper.
pub open spec fn valid_bounds(low: u32, high: u32) -> bool {
    &&& !is_nan(low)
    &&& !is_nan(high)
    &&& order_key(low) <= order_key(high)
}

/// Whether `v` is a number between `low` and `high`, both included.
pub open spec fn within(v: u32, low: u32, high: u32) -> bool {
    &&& !is_nan(v)
    &&& order_key(low) <= order_key(v) <= order_key(high)
}

/// `v` brought into the range from `low` to `high`: a number inside the
/// range stays as it is, bit for bit; one below becomes `low`, one above
/// becomes `high`. What is not a number becomes `low`.
pub open spec fn clamped(v: u32, low: u32, high: u32) -> u32 {
    if is_nan(v) {
        low
    } else if order_key(v) < order_key(low) {
        low
    } else if order_key(v) > order_key(high) {
        high
    } else {
        v
    }
}

/// Whether the pattern stands for no number.
pub fn is_not_a_number(bits: u32) -> (nan: bool)
    ensures
        nan == is_nan(bits),
{
    let magnitude: u32 = if bits >= SIGN_BIT {
        bits - SIGN_BIT
    } else {
        bits
    };
    magnitude > INFINITY
}

/// The order key of a pattern.
pub fn key_of(bits: u32) -> (key: i64)
    ensures
        key == order_key(bits),
{
    if bits >= SIGN_BIT {
        -((bits - SIGN_BIT) as i64)
    } else {
        bits as i64
    }
}

/// Whether `low` and `high` can bound a range.
pub fn are_valid_bounds(low: u32, high: u32) -> (valid: bool)
    ensures
        valid == valid_bounds(low, high),
{
    !is_not_a_number(low) && !is_not_a_number(high) && key_of(low) <= key_of(high)
}

/// Clamps `v` to the range from `low` to `high`.
pub fn clamp(v: u32, low: u32, high: u32) -> (result: u32)
    requires
        valid_bounds(low, high),
    ensures
        result == clamped(v, low, high),
        within(result, low, high),
{
    if is_not_a_number(v) {
        low
    } else if key_of(v) < key_of(low) {
        low
    } else if key_of(v) > key_of(high) {
        high
    } else {
        v
    }
}

/// Clamps `v` to the range from `low` to `high`, or returns `None` where the
/// two cannot bound a range.
pub fn checked_clamp(v: u32, low: u32, high: u32) -> (result: Option<u32>)
    ensures
        result == if valid_bounds(low, high) {
            Some(clamped(v, low, high))
        } else {
            None
        },
{
    if are_valid_bounds(low, high) {
        Some(clamp(v, low, high))
    } else {
        None
    }
}

/// Clamps a concentration to the range from minus one to one.
pub fn clamp_concentration(v: u32) -> (result: u32)
    ensures
        result == clamped(v, MINUS_ONE, ONE),
        within(result, MINUS_ONE, ONE),
{
    clamp(v, MINUS_ONE, ONE)
}

/// Clamping lands inside the range.
pub proof fn lemma_clamped_is_within(v: u32, low: u32, high: u32)
    requires
        valid_bounds(low, high),
    ensures
        within(clamped(v, low, high), low, high),
{
}

/// Clamping leaves what is inside the range unchanged.
pub proof fn lemma_clamped_keeps_within(v: u32, low: u32, high: u32)
    requires
        within(v, low, high),
    ensures
        clamped(v, low, high) == v,
{
}

/// Clamping is idempotent: a second clamp to the same range changes nothing.
pub proof fn lemma_clamped_idempotent(v: u32, low: u32, high: u32)
    requires
        valid_bounds(low, high),
    ensures
        clamped(clamped(v, low, high), low, high) == clamped(v, low, high),
{
}

} // verus!
