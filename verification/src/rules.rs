//! The rules of the registry, as functions on its mathematical model: a map
//! from room numbers to room views. For each kind of request one function
//! says why it is turned down, if it is, and one gives the rooms after it.

use vstd::prelude::*;

use crate::error::Error;
use crate::models::{
    BookRoomPayload, CreateRoomPayload, DeleteRoomPayload, Room, RoomView, UnbookRoomPayload,
};

verus! {

/// What holds of the rooms of a registry at all times: each is registered
/// under its own number, and each is valid.
pub open spec fn registry_valid(rooms: Map<u64, RoomView>) -> bool {
    &&& rooms.dom().finite()
    &&& forall|n: u64| #[trigger] rooms.contains_key(n) ==> rooms[n].no == n && rooms[n].valid()
}

/// Why the creation of a room is turned down, if it is: a room needs a
/// positive capacity and a number that no room has yet. The capacity is
/// looked at first.
pub open spec fn create_refusal(rooms: Map<u64, RoomView>, payload: CreateRoomPayload) -> Option<
    Error,
> {
    if payload.capacity == 0 {
        Some(Error::InvalidCapacity)
    } else if rooms.contains_key(payload.number) {
        Some(Error::RoomAlreadyExists)
    } else {
        None
    }
}

/// The rooms after a request to create one: a vacant room owned by the
/// caller is registered if nothing speaks against it, and nothing changes
/// otherwise.
pub open spec fn after_create(
    rooms: Map<u64, RoomView>,
    payload: CreateRoomPayload,
    caller: Seq<char>,
) -> Map<u64, RoomView> {
    if create_refusal(rooms, payload) is None {
        rooms.insert(
            payload.number,
            RoomView::vacant(payload.number, payload.capacity, payload.price_per_occupant, caller),
        )
    } else {
        rooms
    }
}

/// Why a booking is turned down, if it is: the room must exist, have a place
/// left, cost what the caller offers, and not hold the caller already.
pub open spec fn book_refusal(
    rooms: Map<u64, RoomView>,
    payload: BookRoomPayload,
    caller: Seq<char>,
) -> Option<Error> {
    if !rooms.contains_key(payload.number) {
        Some(Error::RoomNotFound)
    } else if rooms[payload.number].is_full() {
        Some(Error::RoomFull)
    } else if payload.price != rooms[payload.number].price_per_occupant {
        Some(Error::InvalidPrice)
    } else {
        rooms[payload.number].refusal(caller)
    }
}

/// The rooms after a booking request: the caller is added to the room if
/// nothing speaks against it, and nothing changes otherwise.
pub open spec fn after_book(
    rooms: Map<u64, RoomView>,
    payload: BookRoomPayload,
    caller: Seq<char>,
) -> Map<u64, RoomView> {
    if book_refusal(rooms, payload, caller) is None {
        rooms.insert(payload.number, rooms[payload.number].with_occupant(caller))
    } else {
        rooms
    }
}

/// Why a request to give up a place is turned down, if it is: the room
/// must exist and hold the caller.
pub open spec fn unbook_refusal(
    rooms: Map<u64, RoomView>,
    payload: UnbookRoomPayload,
    caller: Seq<char>,
) -> Option<Error> {
    if !rooms.contains_key(payload.number) {
        Some(Error::RoomNotFound)
    } else if !rooms[payload.number].holds(caller) {
        Some(Error::NotInRoom)
    } else {
        None
    }
}

/// The rooms after a request to give up a place: the caller is taken out of
/// the room if nothing speaks against it, and nothing changes otherwise.
pub open spec fn after_unbook(
    rooms: Map<u64, RoomView>,
    payload: UnbookRoomPayload,
    caller: Seq<char>,
) -> Map<u64, RoomView> {
    if unbook_refusal(rooms, payload, caller) is None {
        rooms.insert(payload.number, rooms[payload.number].without_occupant(caller))
    } else {
        rooms
    }
}

/// Why a deletion is turned down, if it is: the room must exist and belong
/// to the caller.
pub open spec fn delete_refusal(
    rooms: Map<u64, RoomView>,
    payload: DeleteRoomPayload,
    caller: Seq<char>,
) -> Option<Error> {
    if !rooms.contains_key(payload.number) {
        Some(Error::RoomNotFound)
    } else if rooms[payload.number].owner != caller {
        Some(Error::NotOwner)
    } else {
        None
    }
}

/// The rooms after a request to delete one: the room is gone if nothing
/// speaks against it, and nothing changes otherwise.
pub open spec fn after_delete(
    rooms: Map<u64, RoomView>,
    payload: DeleteRoomPayload,
    caller: Seq<char>,
) -> Map<u64, RoomView> {
    if delete_refusal(rooms, payload, caller) is None {
        rooms.remove(payload.number)
    } else {
        rooms
    }
}

/// The views of a list of rooms, in the same order.
pub open spec fn views(rooms: Seq<Room>) -> Seq<RoomView> {
    rooms.map_values(|room: Room| room@)
}

/// `listed` holds every room of `rooms` once: the room at each position is
/// the one registered under the number at that position of `numbers`, and
/// `numbers` names every registered number once.
pub open spec fn enumerates(
    numbers: Seq<u64>,
    listed: Seq<RoomView>,
    rooms: Map<u64, RoomView>,
) -> bool {
    &&& numbers.no_duplicates()
    &&& numbers.to_set() == rooms.dom()
    &&& listed.len() == numbers.len()
    &&& forall|i: int| 0 <= i < numbers.len() ==> listed[i] == rooms[numbers[i]]
}

/// A request that may change the registry, with the identity of its caller.
pub enum Request {
    Create { payload: CreateRoomPayload, caller: Seq<char> },
    Book { payload: BookRoomPayload, caller: Seq<char> },
    Unbook { payload: UnbookRoomPayload, caller: Seq<char> },
    Delete { payload: DeleteRoomPayload, caller: Seq<char> },
}

/// The rooms after `request`.
pub open spec fn apply(rooms: Map<u64, RoomView>, request: Request) -> Map<u64, RoomView> {
    match request {
        Request::Create { payload, caller } => after_create(rooms, payload, caller),
        Request::Book { payload, caller } => after_book(rooms, payload, caller),
        Request::Unbook { payload, caller } => after_unbook(rooms, payload, caller),
        Request::Delete { payload, caller } => after_delete(rooms, payload, caller),
    }
}

/// The rooms of a registry that started empty and has served `requests` in
/// their order.
pub open spec fn replay(requests: Seq<Request>) -> Map<u64, RoomView>
    decreases requests.len(),
{
    if requests.len() == 0 {
        Map::empty()
    } else {
        apply(replay(requests.drop_last()), requests.last())
    }
}

} // verus!
