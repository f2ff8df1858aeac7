//! Range-checked MIDI value types, the bit-level codec for short messages,
//! and the Control Change message with 14-bit resolution.
//!
//! The value types ([`Channel`], [`U7`], [`U14`], [`ControllerNumber`]) hold a
//! number that never exceeds their bit width. [`bit_util`] and [`util`] pack
//! and unpack such numbers. [`ControlChange14BitMessage`] is one 14-bit
//! controller value, which goes on the wire as two Control Change messages
//! built by a [`ShortMessageFactory`], such as [`RawShortMessage`].

pub mod bit_util;
pub mod channel;
pub mod control_change_14_bit_message;
pub mod controller_number;
pub mod error;
pub mod raw_short_message;
pub mod short_message_factory;
pub mod u14;
pub mod u7;
pub mod util;

pub use bit_util::{
    build_14_bit_value_from_two_7_bit_values, build_status_byte,
    extract_channel_from_status_byte, extract_high_7_bit_value_from_14_bit_value,
    extract_low_7_bit_value_from_14_bit_value,
};
pub use channel::Channel;
pub use control_change_14_bit_message::ControlChange14BitMessage;
pub use controller_number::ControllerNumber;
pub use error::{OutOfRange, UnpairedControllerNumber};
pub use raw_short_message::RawShortMessage;
pub use short_message_factory::ShortMessageFactory;
pub use u14::U14;
pub use u7::{SevenBitValue, U7};
