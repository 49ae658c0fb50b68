//! Bit and byte helpers: splitting a byte into an MSB-first bit array and
//! back, and combining or separating 16-bit values and their 8-bit halves.

use vstd::prelude::*;

verus! {

/// The 16-bit value formed by `higher` as the high byte and `lower` as the
/// low byte.
pub open spec fn spec_combine(higher: u8, lower: u8) -> u16 {
    (higher * 256 + lower) as u16
}

/// The high byte of a 16-bit value.
pub open spec fn spec_high(value: u16) -> u8 {
    (value / 256) as u8
}

/// The low byte of a 16-bit value.
pub open spec fn spec_low(value: u16) -> u8 {
    (value % 256) as u8
}

/// Splitting a 16-bit value into its bytes and recombining them is the
/// identity, and combining two bytes then splitting them returns the bytes.
pub proof fn lemma_combine_separate(higher: u8, lower: u8, value: u16)
    ensures
        spec_combine(spec_high(value), spec_low(value)) == value,
        spec_high(spec_combine(higher, lower)) == higher,
        spec_low(spec_combine(higher, lower)) == lower,
{
    assert(spec_combine(spec_high(value), spec_low(value)) == value) by {
        vstd::arithmetic::div_mod::lemma_fundamental_div_mod(value as int, 256);
    };
    assert((higher * 256 + lower) / 256 == higher && (higher * 256 + lower) % 256 == lower) by {
        vstd::arithmetic::div_mod::lemma_fundamental_div_mod_converse(
            higher * 256 + lower,
            256,
            higher as int,
            lower as int,
        );
    };
}

/// The bit of `x` at position `i`, where position 0 is the least significant.
pub open spec fn spec_bit(x: u8, i: u8) -> u8 {
    (x >> i) & 1
}

/// Returns an array of all bits in a byte, with index 0 holding the most
/// significant bit.
pub fn get_bits(x: u8) -> (bits: [u8; 8])
    ensures
        bits[0] == spec_bit(x, 7),
        bits[1] == spec_bit(x, 6),
        bits[2] == spec_bit(x, 5),
        bits[3] == spec_bit(x, 4),
        bits[4] == spec_bit(x, 3),
        bits[5] == spec_bit(x, 2),
        bits[6] == spec_bit(x, 1),
        bits[7] == spec_bit(x, 0),
{
    [
        (x >> 7) & 1,
        (x >> 6) & 1,
        (x >> 5) & 1,
        (x >> 4) & 1,
        (x >> 3) & 1,
        (x >> 2) & 1,
        (x >> 1) & 1,
        (x >> 0) & 1,
    ]
}

/// Turns an array of 8 bits into a byte, with index 0 holding the most
/// significant bit.
pub fn from_bits(bits: [u8; 8]) -> (x: u8)
    requires
        forall|i: int| 0 <= i < 8 ==> bits[i] <= 1,
    ensures
        x == bits[0] * 128 + bits[1] * 64 + bits[2] * 32 + bits[3] * 16 + bits[4] * 8 + bits[5] * 4
            + bits[6] * 2 + bits[7],
{
    let b0 = bits[0];
    let b1 = bits[1];
    let b2 = bits[2];
    let b3 = bits[3];
    let b4 = bits[4];
    let b5 = bits[5];
    let b6 = bits[6];
    let b7 = bits[7];
    b0 * 128 + b1 * 64 + b2 * 32 + b3 * 16 + b4 * 8 + b5 * 4 + b6 * 2 + b7
}

/// Combines two 8-bit values into a single 16-bit value; the first parameter
/// becomes the high byte, as in `(B, C) -> BC`.
pub fn combine_values(higher: u8, lower: u8) -> (value: u16)
    ensures
        value == spec_combine(higher, lower),
{
    (higher as u16) * 256 + (lower as u16)
}

/// The inverse of [`combine_values`]: splits a 16-bit value into its high and
/// low bytes, in that order.
pub fn separate_values(value: u16) -> (halves: (u8, u8))
    ensures
        halves.0 == spec_high(value),
        halves.1 == spec_low(value),
{
    ((value / 256) as u8, (value % 256) as u8)
}

} // verus!
