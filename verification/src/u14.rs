//! A 14-bit value, carried on the wire as two 7-bit halves.

use vstd::prelude::*;
use crate::error::OutOfRange;

verus! {

/// A magnitude that fits in 14 bits, always in `0..=16383`.
#[derive(Clone, Copy, Debug, PartialEq, Eq, Structural, Hash)]
pub struct U14(u16);

impl View for U14 {
    type V = int;

    closed spec fn view(&self) -> int {
        self.0 as int
    }
}

impl U14 {
    /// The largest 14-bit value.
    pub const MAX: u16 = 16383;

    /// What holds of every value of this type that a program can have.
    #[verifier::type_invariant]
    pub open spec fn in_range(self) -> bool {
        0 <= self@ <= Self::MAX
    }

    /// Two 14-bit values with the same number are the same value.
    pub proof fn lemma_view_injective(a: U14, b: U14)
        requires
            a@ == b@,
        ensures
            a == b,
    {
    }

    /// Wraps a number that is known to fit in 14 bits.
    pub fn new(number: u16) -> (value: U14)
        requires
            number <= Self::MAX,
        ensures
            value@ == number,
    {
        U14(number)
    }

    /// Wraps `number` if it fits in 14 bits and refuses it otherwise.
    pub fn try_new(number: u16) -> (result: Result<U14, OutOfRange>)
        ensures
            match result {
                Ok(value) => number <= Self::MAX && value@ == number,
                Err(_) => number > Self::MAX,
            },
    {
        if number <= Self::MAX {
            Ok(U14(number))
        } else {
            Err(OutOfRange)
        }
    }

    /// The number.
    pub fn get(self) -> (number: u16)
        ensures
            number == self@,
            number <= Self::MAX,
    {
        proof {
            use_type_invariant(&self);
        }
        self.0
    }
}

} // verus!
