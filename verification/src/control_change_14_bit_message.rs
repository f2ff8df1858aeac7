//! A Control Change message with 14-bit resolution.

use vstd::prelude::*;
use crate::bit_util::{
    extract_high_7_bit_value_from_14_bit_value, extract_low_7_bit_value_from_14_bit_value,
    join14, lemma_join14_split14, lemma_status_byte_keeps_both, split14,
};
use crate::channel::Channel;
use crate::controller_number::{is_14_bit_msb_controller_number, ControllerNumber};
use crate::error::UnpairedControllerNumber;
use crate::raw_short_message::{
    control_change_bytes, RawShortMessage, CONTROL_CHANGE_TYPE_BYTE,
};
use crate::short_message_factory::{is_control_change_of, ShortMessageFactory};
use crate::u14::U14;

verus! {

/// What a 14-bit Control Change message says, in plain numbers.
pub struct ControlChange14Bit {
    pub channel: int,
    pub msb_controller_number: int,
    pub value: int,
}

impl ControlChange14Bit {
    /// Whether the three numbers can make up a message: a channel number, a
    /// controller number that has a partner for the least significant byte,
    /// and a 14-bit value.
    pub open spec fn is_valid(self) -> bool {
        &&& 0 <= self.channel <= 15
        &&& is_14_bit_msb_controller_number(self.msb_controller_number)
        &&& 0 <= self.value <= 16383
    }

    /// The number of the controller that transmits the least significant byte.
    pub open spec fn lsb_controller_number(self) -> int {
        self.msb_controller_number + 32
    }
}

/// Whether `messages` are the two short messages that encode `message`, in
/// the order in which they are sent: first the Control Change message that
/// carries the upper 7 bits of the value under the controller number of
/// `message`, then the one that carries the lower 7 bits under the partner
/// of that controller number, both on the channel of `message`.
pub open spec fn are_short_messages_of<T: ShortMessageFactory>(
    messages: [T; 2],
    message: ControlChange14Bit,
) -> bool {
    &&& is_control_change_of(
        messages[0],
        message.channel,
        message.msb_controller_number,
        split14(message.value).0,
    )
    &&& is_control_change_of(
        messages[1],
        message.channel,
        message.lsb_controller_number(),
        split14(message.value).1,
    )
}

/// A 14-bit Control Change message.
///
/// It stands for 16384 different values where a single Control Change message
/// has 128. On the wire it is two Control Change messages in a row: the first
/// carries the upper 7 bits of the value under the controller number of the
/// message, the second the lower 7 bits under the controller number 32 higher.
/// Only the controller numbers `0..=31` have such a partner, and a message
/// always holds one of them.
#[derive(Clone, Copy, Debug, PartialEq, Eq, Structural, Hash)]
pub struct ControlChange14BitMessage {
    channel: Channel,
    msb_controller_number: ControllerNumber,
    value: U14,
}

impl View for ControlChange14BitMessage {
    type V = ControlChange14Bit;

    closed spec fn view(&self) -> ControlChange14Bit {
        ControlChange14Bit {
            channel: self.channel@,
            msb_controller_number: self.msb_controller_number@,
            value: self.value@,
        }
    }
}

impl ControlChange14BitMessage {
    /// What holds of every message that a program can have.
    #[verifier::type_invariant]
    pub open spec fn is_valid(self) -> bool {
        self@.is_valid()
    }

    /// Two messages that say the same are the same message.
    pub proof fn lemma_view_injective(a: ControlChange14BitMessage, b: ControlChange14BitMessage)
        requires
            a@ == b@,
        ensures
            a == b,
    {
        Channel::lemma_view_injective(a.channel, b.channel);
        ControllerNumber::lemma_view_injective(a.msb_controller_number, b.msb_controller_number);
        U14::lemma_view_injective(a.value, b.value);
    }

    /// Creates a 14-bit Control Change message from a controller number that
    /// is known to have a partner for the least significant byte.
    pub fn new(channel: Channel, msb_controller_number: ControllerNumber, value: U14) -> (message:
        ControlChange14BitMessage)
        requires
            is_14_bit_msb_controller_number(msb_controller_number@),
        ensures
            message@ == (ControlChange14Bit {
                channel: channel@,
                msb_controller_number: msb_controller_number@,
                value: value@,
            }),
    {
        proof {
            use_type_invariant(&channel);
            use_type_invariant(&value);
        }
        ControlChange14BitMessage { channel, msb_controller_number, value }
    }

    /// Creates a 14-bit Control Change message, or refuses a controller number
    /// that has no partner for the least significant byte.
    pub fn try_new(channel: Channel, msb_controller_number: ControllerNumber, value: U14) -> (result:
        Result<ControlChange14BitMessage, UnpairedControllerNumber>)
        ensures
            match result {
                Ok(message) => is_14_bit_msb_controller_number(msb_controller_number@)
                    && message@ == (ControlChange14Bit {
                    channel: channel@,
                    msb_controller_number: msb_controller_number@,
                    value: value@,
                }),
                Err(_) => !is_14_bit_msb_controller_number(msb_controller_number@),
            },
    {
        if msb_controller_number.corresponding_14_bit_lsb_controller_number().is_some() {
            Ok(ControlChange14BitMessage::new(channel, msb_controller_number, value))
        } else {
            Err(UnpairedControllerNumber)
        }
    }

    /// Returns the channel of this message.
    pub fn channel(&self) -> (channel: Channel)
        ensures
            channel@ == self@.channel,
    {
        self.channel
    }

    /// Returns the controller number for transmitting the most significant byte of this message.
    pub fn msb_controller_number(&self) -> (number: ControllerNumber)
        ensures
            number@ == self@.msb_controller_number,
            is_14_bit_msb_controller_number(number@),
    {
        proof {
            use_type_invariant(self);
        }
        self.msb_controller_number
    }

    /// Returns the controller number for transmitting the least significant byte of this message.
    ///
    /// The number is not stored: each call computes it from the controller
    /// number for the most significant byte.
    pub fn lsb_controller_number(&self) -> (number: ControllerNumber)
        ensures
            number@ == self@.lsb_controller_number(),
    {
        proof {
            use_type_invariant(self);
        }
        self.msb_controller_number.corresponding_14_bit_lsb_controller_number().unwrap()
    }

    /// Returns the 14-bit value of this message.
    pub fn value(&self) -> (value: U14)
        ensures
            value@ == self@.value,
    {
        self.value
    }

    /// Translates this message into 2 short messages, which need to be sent in a row in order to
    /// encode this 14-bit Control Change message.
    pub fn to_short_messages<T: ShortMessageFactory>(&self) -> (messages: [T; 2])
        ensures
            are_short_messages_of(messages, self@),
    {
        [
            T::control_change(
                self.channel,
                self.msb_controller_number(),
                extract_high_7_bit_value_from_14_bit_value(self.value),
            ),
            T::control_change(
                self.channel,
                self.lsb_controller_number(),
                extract_low_7_bit_value_from_14_bit_value(self.value),
            ),
        ]
    }
}

impl<T: ShortMessageFactory> From<ControlChange14BitMessage> for [T; 2] {
    /// The two short messages that encode `msg`, as `to_short_messages` gives them.
    fn from(msg: ControlChange14BitMessage) -> (messages: Self)
        ensures
            are_short_messages_of(messages, msg@),
    {
        msg.to_short_messages()
    }
}

/// A factory may build two different values from the same parts, so no spec
/// function gives the result of the conversion. What the conversion promises
/// is stated at `from`.
impl<T: ShortMessageFactory> vstd::std_specs::convert::FromSpecImpl<ControlChange14BitMessage> for [T; 2] {
    open spec fn obeys_from_spec() -> bool {
        false
    }

    open spec fn from_spec(msg: ControlChange14BitMessage) -> Self {
        arbitrary()
    }
}

/// A message that was created with the controller number `n` for the most
/// significant byte names the controller number `n + 32` for the least
/// significant byte, at every call.
pub proof fn lemma_lsb_controller_number_is_msb_plus_32(
    channel: Channel,
    msb_controller_number: ControllerNumber,
    value: U14,
    message: ControlChange14BitMessage,
    lsb_controller_number: ControllerNumber,
)
    requires
        is_14_bit_msb_controller_number(msb_controller_number@),
        call_ensures(ControlChange14BitMessage::new, (channel, msb_controller_number, value), message),
        call_ensures(
            ControlChange14BitMessage::lsb_controller_number,
            (&message,),
            lsb_controller_number,
        ),
    ensures
        lsb_controller_number@ == msb_controller_number@ + 32,
        32 <= lsb_controller_number@ <= 63,
{
}

/// Whatever two calls of `lsb_controller_number` on one message return, it is
/// the same controller number. The calls take the message by shared
/// reference, so the message is unchanged between them and after them.
pub proof fn lemma_lsb_controller_number_is_determined(
    message: ControlChange14BitMessage,
    first: ControllerNumber,
    second: ControllerNumber,
)
    requires
        call_ensures(ControlChange14BitMessage::lsb_controller_number, (&message,), first),
        call_ensures(ControlChange14BitMessage::lsb_controller_number, (&message,), second),
    ensures
        first == second,
{
    ControllerNumber::lemma_view_injective(first, second);
}

/// The raw short messages of a message are, byte for byte, the two Control
/// Change messages that the wire format asks for.
pub proof fn lemma_raw_short_messages_are_the_wire_format(
    messages: [RawShortMessage; 2],
    message: ControlChange14Bit,
)
    requires
        are_short_messages_of(messages, message),
    ensures
        messages[0]@ == control_change_bytes(
            message.channel,
            message.msb_controller_number,
            split14(message.value).0,
        ),
        messages[1]@ == control_change_bytes(
            message.channel,
            message.lsb_controller_number(),
            split14(message.value).1,
        ),
{
}

/// A receiver that takes the raw short messages of a message in the order in
/// which they were sent gets the message back: both name its channel, their
/// controller numbers are its pair of controller numbers, and their control
/// values join into its value.
pub proof fn lemma_raw_short_messages_carry_the_message(
    messages: [RawShortMessage; 2],
    message: ControlChange14Bit,
)
    requires
        message.is_valid(),
        are_short_messages_of(messages, message),
    ensures
        messages[0]@[0] == CONTROL_CHANGE_TYPE_BYTE + message.channel,
        messages[1]@[0] == CONTROL_CHANGE_TYPE_BYTE + message.channel,
        messages[0]@[1] == message.msb_controller_number,
        messages[1]@[1] == message.lsb_controller_number(),
        join14(messages[0]@[2] as int, messages[1]@[2] as int) == message.value,
{
    lemma_raw_short_messages_are_the_wire_format(messages, message);
    lemma_status_byte_keeps_both(CONTROL_CHANGE_TYPE_BYTE, message.channel);
    lemma_join14_split14(message.value);
}

} // verus!
