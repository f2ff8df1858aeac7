//! Packing and unpacking of 14-bit values and status bytes.
//!
//! The functions work on values whose range is already established, so none of
//! them can fail. What they compute is stated over plain integers: a 14-bit
//! number is `high * 128 + low`, and a status byte is a type byte with a
//! channel number in its low nibble.

use vstd::prelude::*;
use crate::channel::Channel;
use crate::u14::U14;
use crate::u7::U7;

verus! {

/// The two 7-bit halves of a 14-bit number: bits 13 to 7, then bits 6 to 0.
pub open spec fn split14(value: int) -> (int, int) {
    (value / 128, value % 128)
}

/// The 14-bit number with the given 7-bit halves.
pub open spec fn join14(high: int, low: int) -> int {
    high * 128 + low
}

/// The byte that carries `type_byte` with `channel` merged into it by bitwise OR.
pub open spec fn status_byte(type_byte: u8, channel: int) -> u8 {
    type_byte | (channel as u8)
}

/// Splitting a 14-bit number and joining the halves gives the number back, and
/// both halves fit in 7 bits.
pub proof fn lemma_join14_split14(value: int)
    requires
        0 <= value <= 16383,
    ensures
        0 <= split14(value).0 <= 127,
        0 <= split14(value).1 <= 127,
        join14(split14(value).0, split14(value).1) == value,
{
}

/// Joining two 7-bit halves and splitting the result gives the halves back, and
/// the joined number fits in 14 bits.
pub proof fn lemma_split14_join14(high: int, low: int)
    requires
        0 <= high <= 127,
        0 <= low <= 127,
    ensures
        0 <= join14(high, low) <= 16383,
        split14(join14(high, low)) == (high, low),
{
}

/// A type byte whose low nibble is zero and a channel number do not overlap:
/// the status byte is their sum, its low nibble is the channel number and its
/// high nibble is that of the type byte.
pub proof fn lemma_status_byte_keeps_both(type_byte: u8, channel: int)
    requires
        type_byte % 16 == 0,
        0 <= channel <= 15,
    ensures
        status_byte(type_byte, channel) == type_byte + channel,
        status_byte(type_byte, channel) % 16 == channel,
        status_byte(type_byte, channel) / 16 == type_byte / 16,
{
    let nibble = channel as u8;
    assert(type_byte | nibble == type_byte + nibble) by (bit_vector)
        requires
            type_byte % 16 == 0,
            nibble <= 15,
    ;
}

/// Shifting a 14-bit number right by 7 and masking 7 bits takes its upper half.
pub proof fn lemma_shift_mask_is_high_half(number: u16)
    by (bit_vector)
    requires
        number <= 0x3fff,
    ensures
        (number >> 7) & 0x7f == number / 128,
{
}

/// Masking 7 bits takes the remainder modulo 128.
pub proof fn lemma_mask_is_low_half(number: u16)
    by (bit_vector)
    ensures
        number & 0x7f == number % 128,
{
}

/// Shifting one 7-bit number left by 7 and merging another into it by bitwise
/// OR joins them.
pub proof fn lemma_shift_or_is_join(high: u16, low: u16)
    by (bit_vector)
    requires
        high <= 0x7f,
        low <= 0x7f,
    ensures
        (high << 7) | low == high * 128 + low,
{
}

/// The upper 7 bits of a 14-bit value.
pub fn extract_high_7_bit_value_from_14_bit_value(value: U14) -> (high: U7)
    ensures
        high@ == split14(value@).0,
{
    let number: u16 = value.get();
    proof {
        lemma_shift_mask_is_high_half(number);
    }
    U7::new(((number >> 7) & 0x7f) as u8)
}

/// The lower 7 bits of a 14-bit value.
pub fn extract_low_7_bit_value_from_14_bit_value(value: U14) -> (low: U7)
    ensures
        low@ == split14(value@).1,
{
    let number: u16 = value.get();
    proof {
        lemma_mask_is_low_half(number);
    }
    U7::new((number & 0x7f) as u8)
}

/// The 14-bit value whose upper 7 bits are `high` and whose lower 7 bits are `low`.
pub fn build_14_bit_value_from_two_7_bit_values(high: U7, low: U7) -> (value: U14)
    ensures
        value@ == join14(high@, low@),
{
    let high_number: u16 = u16::from(high.get());
    let low_number: u16 = u16::from(low.get());
    proof {
        lemma_shift_or_is_join(high_number, low_number);
    }
    U14::new((high_number << 7) | low_number)
}

/// The status byte of a message of the type `type_byte` on `channel`. A type
/// byte is meant to have a zero low nibble, which the channel number then fills.
pub fn build_status_byte(type_byte: u8, channel: Channel) -> (byte: u8)
    ensures
        byte == status_byte(type_byte, channel@),
        type_byte % 16 == 0 ==> byte == type_byte + channel@,
{
    let number: u8 = channel.get();
    proof {
        if type_byte % 16 == 0 {
            lemma_status_byte_keeps_both(type_byte, number as int);
        }
    }
    type_byte | number
}

/// The channel that a status byte names in its low nibble.
pub fn extract_channel_from_status_byte(byte: u8) -> (channel: Channel)
    ensures
        channel@ == byte % 16,
{
    assert(byte & 0x0f == byte % 16) by (bit_vector);
    Channel::new(byte & 0x0f)
}

} // verus!
