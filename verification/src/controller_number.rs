//! The address of a controller in a Control Change message.

use vstd::prelude::*;
use crate::error::OutOfRange;

verus! {

/// Whether the controller with this number transmits the most significant byte
/// of a 14-bit Control Change message. The controller numbered 32 higher then
/// transmits the least significant byte.
pub open spec fn is_14_bit_msb_controller_number(number: int) -> bool {
    0 <= number <= 31
}

/// A controller number, always in `0..=127`. It names a controller and is no
/// magnitude, so it is a type of its own beside the 7-bit value.
#[derive(Clone, Copy, Debug, PartialEq, Eq, Structural, Hash)]
pub struct ControllerNumber(u8);

impl View for ControllerNumber {
    type V = int;

    closed spec fn view(&self) -> int {
        self.0 as int
    }
}

impl ControllerNumber {
    /// The largest controller number.
    pub const MAX: u8 = 127;

    /// What holds of every value of this type that a program can have.
    #[verifier::type_invariant]
    pub open spec fn in_range(self) -> bool {
        0 <= self@ <= Self::MAX
    }

    /// Two controller numbers with the same number are the same controller number.
    pub proof fn lemma_view_injective(a: ControllerNumber, b: ControllerNumber)
        requires
            a@ == b@,
        ensures
            a == b,
    {
    }

    /// Wraps a number that is known to be a controller number.
    pub fn new(number: u8) -> (controller_number: ControllerNumber)
        requires
            number <= Self::MAX,
        ensures
            controller_number@ == number,
    {
        ControllerNumber(number)
    }

    /// Wraps `number` if it is a controller number and refuses it otherwise.
    pub fn try_new(number: u8) -> (result: Result<ControllerNumber, OutOfRange>)
        ensures
            match result {
                Ok(controller_number) => number <= Self::MAX && controller_number@ == number,
                Err(_) => number > Self::MAX,
            },
    {
        if number <= Self::MAX {
            Ok(ControllerNumber(number))
        } else {
            Err(OutOfRange)
        }
    }

    /// The number.
    pub fn get(self) -> (number: u8)
        ensures
            number == self@,
            number <= Self::MAX,
    {
        proof {
            use_type_invariant(&self);
        }
        self.0
    }

    /// The controller number that transmits the least significant byte of a
    /// 14-bit Control Change message whose most significant byte this one
    /// transmits, if there is one.
    pub fn corresponding_14_bit_lsb_controller_number(&self) -> (lsb: Option<ControllerNumber>)
        ensures
            match lsb {
                Some(number) => is_14_bit_msb_controller_number(self@) && number@ == self@ + 32,
                None => !is_14_bit_msb_controller_number(self@),
            },
    {
        if self.0 >= 32 {
            return None;
        }
        Some(ControllerNumber(self.0 + 32))
    }
}

} // verus!
