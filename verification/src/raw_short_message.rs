//! A short message kept as the three bytes that go on the wire.

use vstd::prelude::*;
use crate::bit_util::{build_status_byte, status_byte};
use crate::channel::Channel;
use crate::controller_number::ControllerNumber;
use crate::short_message_factory::ShortMessageFactory;
use crate::u7::U7;

verus! {

/// The type byte of a Control Change message: the status byte of such a
/// message on channel 0.
pub const CONTROL_CHANGE_TYPE_BYTE: u8 = 0xB0;

/// The three bytes that a Control Change message puts on the wire: the status
/// byte, the controller number and the control value.
pub open spec fn control_change_bytes(
    channel: int,
    controller_number: int,
    control_value: int,
) -> Seq<u8> {
    seq![
        status_byte(CONTROL_CHANGE_TYPE_BYTE, channel),
        controller_number as u8,
        control_value as u8,
    ]
}

/// A short message as a status byte and two data bytes.
#[derive(Clone, Copy, Debug, PartialEq, Eq, Structural, Hash)]
pub struct RawShortMessage {
    status_byte: u8,
    data_byte_1: U7,
    data_byte_2: U7,
}

impl View for RawShortMessage {
    type V = Seq<u8>;

    /// The bytes that this message puts on the wire.
    closed spec fn view(&self) -> Seq<u8> {
        seq![self.status_byte, self.data_byte_1@ as u8, self.data_byte_2@ as u8]
    }
}

impl ShortMessageFactory for RawShortMessage {
    fn control_change(
        channel: Channel,
        controller_number: ControllerNumber,
        control_value: U7,
    ) -> (message: Self)
        ensures
            message@ == control_change_bytes(channel@, controller_number@, control_value@),
    {
        RawShortMessage {
            status_byte: build_status_byte(CONTROL_CHANGE_TYPE_BYTE, channel),
            data_byte_1: U7::new(controller_number.get()),
            data_byte_2: control_value,
        }
    }
}

impl RawShortMessage {
    /// The status byte and the two data bytes of this message.
    pub fn to_bytes(&self) -> (bytes: (u8, U7, U7))
        ensures
            self@.len() == 3,
            self@[0] == bytes.0,
            self@[1] == bytes.1@,
            self@[2] == bytes.2@,
    {
        proof {
            use_type_invariant(&self.data_byte_1);
            use_type_invariant(&self.data_byte_2);
        }
        (self.status_byte, self.data_byte_1, self.data_byte_2)
    }
}

} // verus!
