//! Packing and unpacking of nibbles and of raw 7-bit numbers.

use vstd::prelude::*;
use crate::bit_util::{
    join14, lemma_mask_is_low_half, lemma_shift_mask_is_high_half, lemma_shift_or_is_join,
    split14,
};
use crate::channel::Channel;
use crate::u14::U14;
use crate::u7::SevenBitValue;

verus! {

/// The two nibbles of a byte: bits 7 to 4, then bits 3 to 0.
pub open spec fn split_nibbles(byte: int) -> (int, int) {
    (byte / 16, byte % 16)
}

/// The byte with the given nibbles.
pub open spec fn join_nibbles(high: int, low: int) -> int {
    high * 16 + low
}

/// Splitting a byte and joining the nibbles gives the byte back, and both
/// nibbles fit in 4 bits.
pub proof fn lemma_join_nibbles_split_nibbles(byte: int)
    requires
        0 <= byte <= 255,
    ensures
        0 <= split_nibbles(byte).0 <= 15,
        0 <= split_nibbles(byte).1 <= 15,
        join_nibbles(split_nibbles(byte).0, split_nibbles(byte).1) == byte,
{
}

/// Joining two nibbles and splitting the result gives the nibbles back, and
/// the joined number fits in a byte.
pub proof fn lemma_split_nibbles_join_nibbles(high: int, low: int)
    requires
        0 <= high <= 15,
        0 <= low <= 15,
    ensures
        0 <= join_nibbles(high, low) <= 255,
        split_nibbles(join_nibbles(high, low)) == (high, low),
{
}

/// The upper nibble of a byte.
pub fn extract_high_nibble_from_byte(byte: u8) -> (nibble: Channel)
    ensures
        nibble@ == split_nibbles(byte as int).0,
{
    assert((byte >> 4) & 0x0f == byte / 16) by (bit_vector);
    Channel::new((byte >> 4) & 0x0f)
}

/// The lower nibble of a byte.
pub fn extract_low_nibble_from_byte(byte: u8) -> (nibble: Channel)
    ensures
        nibble@ == split_nibbles(byte as int).1,
{
    assert(byte & 0x0f == byte % 16) by (bit_vector);
    Channel::new(byte & 0x0f)
}

/// The upper 7 bits of a 14-bit value, as a raw number.
pub fn extract_high_7_bit_value_from_14_bit_value(value: U14) -> (high: SevenBitValue)
    ensures
        high == split14(value@).0,
{
    let number: u16 = value.get();
    proof {
        lemma_shift_mask_is_high_half(number);
    }
    ((number >> 7) & 0x7f) as u8
}

/// The lower 7 bits of a 14-bit value, as a raw number.
pub fn extract_low_7_bit_value_from_14_bit_value(value: U14) -> (low: SevenBitValue)
    ensures
        low == split14(value@).1,
{
    let number: u16 = value.get();
    proof {
        lemma_mask_is_low_half(number);
    }
    (number & 0x7f) as u8
}

/// The byte whose upper nibble is `high_nibble` and whose lower nibble is `low_nibble`.
pub fn build_byte_from_nibbles(high_nibble: Channel, low_nibble: Channel) -> (byte: u8)
    ensures
        byte == join_nibbles(high_nibble@, low_nibble@),
{
    let high: u8 = high_nibble.get();
    let low: u8 = low_nibble.get();
    assert((high << 4) | low == high * 16 + low) by (bit_vector)
        requires
            high <= 15,
            low <= 15,
    ;
    (high << 4) | low
}

/// The 14-bit value whose upper 7 bits are `high` and whose lower 7 bits are
/// `low`, from raw numbers that are known to fit in 7 bits.
pub fn build_14_bit_value_from_two_7_bit_values(high: SevenBitValue, low: SevenBitValue) -> (value:
    U14)
    requires
        high <= 0x7f,
        low <= 0x7f,
    ensures
        value@ == join14(high as int, low as int),
{
    let high_number: u16 = high as u16;
    let low_number: u16 = low as u16;
    proof {
        lemma_shift_or_is_join(high_number, low_number);
    }
    U14::new((high_number << 7) | low_number)
}

/// The byte with `low_nibble` merged into it by bitwise OR.
pub fn with_low_nibble_added(byte: u8, low_nibble: Channel) -> (merged: u8)
    ensures
        merged == byte | (low_nibble@ as u8),
{
    byte | low_nibble.get()
}

} // verus!
