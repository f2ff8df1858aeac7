//! What a type must offer so that short messages of it can be built.

use vstd::prelude::*;
use crate::channel::Channel;
use crate::controller_number::ControllerNumber;
use crate::u7::U7;

verus! {

/// A representation of short messages that can be built from their parts,
/// be it a raw byte triple or a structured record.
pub trait ShortMessageFactory: Sized {
    /// Builds a Control Change message.
    fn control_change(
        channel: Channel,
        controller_number: ControllerNumber,
        control_value: U7,
    ) -> Self;
}

/// Whether `message` is what the factory of `T` builds as the Control Change
/// message on the channel numbered `channel`, for the controller numbered
/// `controller_number`, with the control value `control_value`.
pub open spec fn is_control_change_of<T: ShortMessageFactory>(
    message: T,
    channel: int,
    controller_number: int,
    control_value: int,
) -> bool {
    exists|c: Channel, n: ControllerNumber, v: U7|
        c@ == channel && n@ == controller_number && v@ == control_value
            && #[trigger] call_ensures(T::control_change, (c, n, v), message)
}

} // verus!
