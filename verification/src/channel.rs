//! One of the 16 MIDI channels.

use vstd::prelude::*;
use crate::error::OutOfRange;

verus! {

/// A channel number, always in `0..=15`.
#[derive(Clone, Copy, Debug, PartialEq, Eq, Structural, Hash)]
pub struct Channel(u8);

impl View for Channel {
    type V = int;

    closed spec fn view(&self) -> int {
        self.0 as int
    }
}

impl Channel {
    /// The largest channel number.
    pub const MAX: u8 = 15;

    /// What holds of every value of this type that a program can have.
    #[verifier::type_invariant]
    pub open spec fn in_range(self) -> bool {
        0 <= self@ <= Self::MAX
    }

    /// Two channels with the same number are the same channel.
    pub proof fn lemma_view_injective(a: Channel, b: Channel)
        requires
            a@ == b@,
        ensures
            a == b,
    {
    }

    /// Wraps a number that is known to be a channel number.
    pub fn new(number: u8) -> (channel: Channel)
        requires
            number <= Self::MAX,
        ensures
            channel@ == number,
    {
        Channel(number)
    }

    /// Wraps `number` if it is a channel number and refuses it otherwise.
    pub fn try_new(number: u8) -> (result: Result<Channel, OutOfRange>)
        ensures
            match result {
                Ok(channel) => number <= Self::MAX && channel@ == number,
                Err(_) => number > Self::MAX,
            },
    {
        if number <= Self::MAX {
            Ok(Channel(number))
        } else {
            Err(OutOfRange)
        }
    }

    /// The channel number.
    pub fn get(self) -> (number: u8)
        ensures
            number == self@,
            number <= Self::MAX,
    {
        proof {
            use_type_invariant(&self);
        }
        self.0
    }
}

} // verus!
