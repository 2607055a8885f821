//! What holds of the registry whatever requests it serves, proved from its
//! rules.

use vstd::prelude::*;

use crate::error::Error;
use crate::models::{
    lemma_admission_keeps_valid, lemma_removal_keeps_valid, BookRoomPayload, CreateRoomPayload,
    DeleteRoomPayload, RoomState, RoomView, UnbookRoomPayload,
};
use crate::rules::{
    after_book, after_create, after_delete, after_unbook, book_refusal, create_refusal,
    delete_refusal, enumerates, registry_valid, replay, unbook_refusal, Request,
};

verus! {

/// In a valid room the occupants never exceed the capacity, nobody is there
/// twice, and the state tells how full the room is: full exactly when the
/// occupants are as many as the capacity, vacant exactly when there are
/// none.
pub proof fn lemma_valid_room_state(room: RoomView)
    requires
        room.valid(),
    ensures
        0 <= room.occupants.len() <= room.capacity,
        room.occupants.no_duplicates(),
        room.state == RoomState::Full <==> room.occupants.len() == room.capacity,
        room.state == RoomState::TotallyVacant <==> room.occupants.len() == 0,
{
}

/// Admission into a valid room leaves it full when the newcomer takes the
/// last place, and partially occupied otherwise.
pub proof fn lemma_state_after_admission(room: RoomView, id: Seq<char>)
    requires
        room.valid(),
        room.refusal(id) is None,
    ensures
        room.with_occupant(id).state == if room.occupants.len() + 1 == room.capacity {
            RoomState::Full
        } else {
            RoomState::PartiallyOccupied
        },
{
}

/// Removal from a valid room leaves it vacant when the last occupant goes,
/// and partially occupied otherwise. So a full room becomes vacant where
/// the capacity is one, and partially occupied where it is more.
pub proof fn lemma_state_after_removal(room: RoomView, id: Seq<char>)
    requires
        room.valid(),
        room.holds(id),
    ensures
        room.without_occupant(id).state == if room.occupants.len() == 1 {
            RoomState::TotallyVacant
        } else {
            RoomState::PartiallyOccupied
        },
        room.is_full() ==> (room.without_occupant(id).state == RoomState::TotallyVacant
            <==> room.capacity == 1),
{
    lemma_removal_keeps_valid(room, id);
}

/// Creation keeps the registry valid.
pub proof fn lemma_create_keeps_valid(
    rooms: Map<u64, RoomView>,
    payload: CreateRoomPayload,
    caller: Seq<char>,
)
    ensures
        registry_valid(rooms) ==> registry_valid(after_create(rooms, payload, caller)),
{
}

/// Giving up a place keeps the registry valid.
pub proof fn lemma_unbook_keeps_valid(
    rooms: Map<u64, RoomView>,
    payload: UnbookRoomPayload,
    caller: Seq<char>,
)
    ensures
        registry_valid(rooms) ==> registry_valid(after_unbook(rooms, payload, caller)),
{
    if registry_valid(rooms) && unbook_refusal(rooms, payload, caller) is None {
        lemma_removal_keeps_valid(rooms[payload.number], caller);
    }
}

/// Deletion keeps the registry valid.
pub proof fn lemma_delete_keeps_valid(
    rooms: Map<u64, RoomView>,
    payload: DeleteRoomPayload,
    caller: Seq<char>,
)
    ensures
        registry_valid(rooms) ==> registry_valid(after_delete(rooms, payload, caller)),
{
}

/// Booking keeps the registry valid.
pub proof fn lemma_book_keeps_valid(
    rooms: Map<u64, RoomView>,
    payload: BookRoomPayload,
    caller: Seq<char>,
)
    ensures
        registry_valid(rooms) ==> registry_valid(after_book(rooms, payload, caller)),
{
    if registry_valid(rooms) && book_refusal(rooms, payload, caller) is None {
        lemma_admission_keeps_valid(rooms[payload.number], caller);
    }
}

/// Whatever requests a registry has served since it was empty, it is valid:
/// every room stands under its own number and is valid.
pub proof fn lemma_registry_always_valid(requests: Seq<Request>)
    ensures
        registry_valid(replay(requests)),
    decreases requests.len(),
{
    if requests.len() > 0 {
        let before = replay(requests.drop_last());
        lemma_registry_always_valid(requests.drop_last());
        match requests.last() {
            Request::Create { payload, caller } => lemma_create_keeps_valid(before, payload, caller),
            Request::Book { payload, caller } => lemma_book_keeps_valid(before, payload, caller),
            Request::Unbook { payload, caller } => lemma_unbook_keeps_valid(
                before,
                payload,
                caller,
            ),
            Request::Delete { payload, caller } => lemma_delete_keeps_valid(
                before,
                payload,
                caller,
            ),
        }
    }
}

/// In a listing of a valid registry every room is valid, and stands in the
/// registry under its own number.
pub proof fn lemma_listing_of_valid_registry(
    numbers: Seq<u64>,
    listed: Seq<RoomView>,
    rooms: Map<u64, RoomView>,
)
    requires
        registry_valid(rooms),
        enumerates(numbers, listed, rooms),
    ensures
        listed.len() == rooms.len(),
        forall|i: int|
            0 <= i < listed.len() ==> (#[trigger] listed[i]).valid() && listed[i].no == numbers[i]
                && rooms.contains_key(listed[i].no) && rooms[listed[i].no] == listed[i],
{
    numbers.unique_seq_to_set();
    assert forall|i: int| 0 <= i < listed.len() implies (#[trigger] listed[i]).valid()
        && listed[i].no == numbers[i] && rooms.contains_key(listed[i].no) && rooms[listed[i].no]
        == listed[i] by {
        assert(numbers.to_set().contains(numbers[i]));
    }
}

/// Creating a room under a number that is taken fails with
/// `RoomAlreadyExists` and leaves every room as it was. (A capacity of zero
/// is turned down before the number is looked at.)
pub proof fn lemma_create_taken_number(
    rooms: Map<u64, RoomView>,
    payload: CreateRoomPayload,
    caller: Seq<char>,
)
    requires
        rooms.contains_key(payload.number),
        payload.capacity > 0,
    ensures
        create_refusal(rooms, payload) == Some(Error::RoomAlreadyExists),
        after_create(rooms, payload, caller) == rooms,
{
}

/// Booking a room that holds as many occupants as its capacity fails with
/// `RoomFull`, whatever the price and whoever the caller.
pub proof fn lemma_book_at_capacity(
    rooms: Map<u64, RoomView>,
    payload: BookRoomPayload,
    caller: Seq<char>,
)
    requires
        registry_valid(rooms),
        rooms.contains_key(payload.number),
        rooms[payload.number].occupants.len() == rooms[payload.number].capacity,
    ensures
        book_refusal(rooms, payload, caller) == Some(Error::RoomFull),
        after_book(rooms, payload, caller) == rooms,
{
}

/// Booking a room that has a place left at any price but its own fails with
/// `InvalidPrice`.
pub proof fn lemma_book_wrong_price(
    rooms: Map<u64, RoomView>,
    payload: BookRoomPayload,
    caller: Seq<char>,
)
    requires
        rooms.contains_key(payload.number),
        !rooms[payload.number].is_full(),
        payload.price != rooms[payload.number].price_per_occupant,
    ensures
        book_refusal(rooms, payload, caller) == Some(Error::InvalidPrice),
        after_book(rooms, payload, caller) == rooms,
{
}

/// After a booking has succeeded, no further booking of the same room by
/// the same caller does: it fails and leaves every room as it was, so the
/// caller is never counted twice.
pub proof fn lemma_book_twice_fails(
    rooms: Map<u64, RoomView>,
    first: BookRoomPayload,
    second: BookRoomPayload,
    caller: Seq<char>,
)
    requires
        book_refusal(rooms, first, caller) is None,
        second.number == first.number,
    ensures
        book_refusal(after_book(rooms, first, caller), second, caller) is Some,
        after_book(after_book(rooms, first, caller), second, caller) == after_book(
            rooms,
            first,
            caller,
        ),
{
    let room = rooms[first.number].with_occupant(caller);
    assert(room.occupants[room.occupants.len() - 1] == caller);
}

/// After a booking has succeeded and left a place in the room, a second
/// booking by the same caller at the room's price fails with
/// `RoomAlreadyBooked`, and the number of occupants stays as it was.
pub proof fn lemma_book_twice(
    rooms: Map<u64, RoomView>,
    first: BookRoomPayload,
    second: BookRoomPayload,
    caller: Seq<char>,
)
    requires
        book_refusal(rooms, first, caller) is None,
        second.number == first.number,
        second.price == first.price,
        !after_book(rooms, first, caller)[first.number].is_full(),
    ensures
        book_refusal(after_book(rooms, first, caller), second, caller) == Some(
            Error::RoomAlreadyBooked,
        ),
        after_book(after_book(rooms, first, caller), second, caller) == after_book(
            rooms,
            first,
            caller,
        ),
{
    let room = rooms[first.number].with_occupant(caller);
    assert(room.occupants[room.occupants.len() - 1] == caller);
}

/// Giving up a place that the caller does not hold fails with `NotInRoom`
/// and leaves the occupants as they were.
pub proof fn lemma_unbook_absent(
    rooms: Map<u64, RoomView>,
    payload: UnbookRoomPayload,
    caller: Seq<char>,
)
    requires
        rooms.contains_key(payload.number),
        !rooms[payload.number].holds(caller),
    ensures
        unbook_refusal(rooms, payload, caller) == Some(Error::NotInRoom),
        after_unbook(rooms, payload, caller) == rooms,
{
}

/// Deleting a room that the caller does not own fails with `NotOwner`, and
/// the room stays in the registry.
pub proof fn lemma_delete_by_stranger(
    rooms: Map<u64, RoomView>,
    payload: DeleteRoomPayload,
    caller: Seq<char>,
)
    requires
        rooms.contains_key(payload.number),
        rooms[payload.number].owner != caller,
    ensures
        delete_refusal(rooms, payload, caller) == Some(Error::NotOwner),
        after_delete(rooms, payload, caller) == rooms,
        after_delete(rooms, payload, caller).contains_key(payload.number),
{
}

} // verus!
