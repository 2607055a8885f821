//! The failures that a request can end in.

use vstd::prelude::*;

verus! {

/// Why a request was turned down. Every failure leaves the registry as it was.
#[derive(Clone, Copy, Debug, PartialEq, Eq, Structural)]
pub enum Error {
    /// No room is registered under the requested number.
    RoomNotFound,
    /// The room already holds as many occupants as its capacity allows.
    RoomFull,
    /// The caller already holds a booking in the room.
    RoomAlreadyBooked,
    /// The caller did not create the room.
    NotOwner,
    /// The caller holds no booking in the room.
    NotInRoom,
    /// A room is already registered under the requested number.
    RoomAlreadyExists,
    /// The offered price differs from the room's price per occupant.
    InvalidPrice,
    /// A room must have room for at least one occupant.
    InvalidCapacity,
}

} // verus!
