//! The conditions under which a value is refused at construction.

use vstd::prelude::*;

verus! {

/// A raw number exceeds the bit width of the type it was offered to.
#[derive(Clone, Copy, Debug, PartialEq, Eq, Structural, Hash)]
pub struct OutOfRange;

/// A controller number has no partner that could carry the least significant
/// byte of a 14-bit Control Change message.
#[derive(Clone, Copy, Debug, PartialEq, Eq, Structural, Hash)]
pub struct UnpairedControllerNumber;

} // verus!
