//! A 7-bit value, the payload of one MIDI data byte.

use vstd::prelude::*;
use crate::error::OutOfRange;

verus! {

/// A 7-bit number that has not been checked yet.
pub type SevenBitValue = u8;

/// A magnitude that fits in 7 bits, always in `0..=127`.
#[derive(Clone, Copy, Debug, PartialEq, Eq, Structural, Hash)]
pub struct U7(u8);

impl View for U7 {
    type V = int;

    closed spec fn view(&self) -> int {
        self.0 as int
    }
}

impl U7 {
    /// The largest 7-bit value.
    pub const MAX: u8 = 127;

    /// What holds of every value of this type that a program can have.
    #[verifier::type_invariant]
    pub open spec fn in_range(self) -> bool {
        0 <= self@ <= Self::MAX
    }

    /// Two 7-bit values with the same number are the same value.
    pub proof fn lemma_view_injective(a: U7, b: U7)
        requires
            a@ == b@,
        ensures
            a == b,
    {
    }

    /// Wraps a number that is known to fit in 7 bits.
    pub fn new(number: u8) -> (value: U7)
        requires
            number <= Self::MAX,
        ensures
            value@ == number,
    {
        U7(number)
    }

    /// Wraps `number` if it fits in 7 bits and refuses it otherwise.
    pub fn try_new(number: u8) -> (result: Result<U7, OutOfRange>)
        ensures
            match result {
                Ok(value) => number <= Self::MAX && value@ == number,
                Err(_) => number > Self::MAX,
            },
    {
        if number <= Self::MAX {
            Ok(U7(number))
        } else {
            Err(OutOfRange)
        }
    }

    /// The number.
    pub fn get(self) -> (number: u8)
        ensures
            number == self@,
            number <= Self::MAX,
    {
        proof {
            use_type_invariant(&self);
        }
        self.0
    }
}

} // verus!
