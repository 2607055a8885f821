//! The registry: every room under its number, and the requests that callers
//! make of it.

use std::collections::hash_map::Entry;
use std::collections::HashMap;
use vstd::prelude::*;
use vstd::std_specs::hash::*;
use vstd::std_specs::iter::IteratorSpec;

use crate::error::Error;
use crate::laws::{lemma_book_keeps_valid, lemma_unbook_keeps_valid};
use crate::models::{
    BookRoomPayload, CreateRoomPayload, DeleteRoomPayload, GetRoomByNumberPayload, Occupant, Room,
    RoomView, UnbookRoomPayload,
};
use crate::rules::{
    after_book, after_create, after_delete, after_unbook, book_refusal, create_refusal,
    delete_refusal, enumerates, registry_valid, unbook_refusal, views,
};

verus! {

broadcast use vstd::std_specs::hash::group_hash_axioms;

/// The keyed collection of all rooms.
pub struct Registry {
    rooms: HashMap<u64, Room>,
}

impl View for Registry {
    type V = Map<u64, RoomView>;

    closed spec fn view(&self) -> Map<u64, RoomView> {
        self.rooms@.map_values(|room: Room| room@)
    }
}

impl Registry {
    /// A registry without rooms.
    pub fn new() -> (registry: Registry)
        ensures
            registry@ == Map::<u64, RoomView>::empty(),
            registry_valid(registry@),
    {
        let registry = Registry { rooms: HashMap::new() };
        assert(registry@ =~= Map::<u64, RoomView>::empty());
        registry
    }

    /// Every registered room, each once, in no particular order.
    pub fn list(&self) -> (listed: Vec<Room>)
        ensures
            exists|numbers: Seq<u64>| enumerates(numbers, views(listed@), self@),
    {
        let mut listed: Vec<Room> = Vec::new();
        let ghost mut numbers: Seq<u64> = Seq::empty();
        let ghost all = self.rooms.iter().remaining();
        for entry in it: self.rooms.iter()
            invariant
                it.seq() == all,
                all.no_duplicates(),
                listed@.len() == it.index(),
                numbers.len() == it.index(),
                forall|j: int| 0 <= j < it.index() ==> #[trigger] numbers[j] == *it.seq()[j].0,
                forall|j: int| 0 <= j < it.index() ==> (#[trigger] listed@[j])@ == (*it.seq()[j].1)@,
        {
            let room = entry.1.clone();
            listed.push(room);
            proof {
                numbers = numbers.push(*entry.0);
            }
        }
        proof {
            assert forall|i: int, j: int|
                0 <= i < numbers.len() && 0 <= j < numbers.len() && i != j implies numbers[i]
                != numbers[j] by {
                if numbers[i] == numbers[j] {
                    assert(self.rooms@[*all[i].0] == *all[i].1);
                    assert(self.rooms@[*all[j].0] == *all[j].1);
                    assert(all[i] == all[j]);
                }
            }
            assert(numbers.to_set() =~= self@.dom()) by {
                assert forall|n: u64| self@.dom().contains(n) implies numbers.to_set().contains(
                    n,
                ) by {
                    let pair = (&n, &self.rooms@[n]);
                    assert(all.contains(pair));
                    let i = choose|i: int| 0 <= i < all.len() && all[i] == pair;
                    assert(numbers[i] == n);
                }
                assert forall|n: u64| numbers.to_set().contains(n) implies self@.dom().contains(
                    n,
                ) by {
                    let i = choose|i: int| 0 <= i < numbers.len() && numbers[i] == n;
                    assert(self.rooms@.contains_key(*all[i].0));
                }
            }
            assert forall|i: int| 0 <= i < numbers.len() implies views(listed@)[i]
                == self@[numbers[i]] by {
                assert(self.rooms@.contains_key(*all[i].0));
                assert(self.rooms@[*all[i].0] == *all[i].1);
            }
            assert(enumerates(numbers, views(listed@), self@));
        }
        listed
    }

    /// The room registered under `number`.
    pub fn get(&self, number: u64) -> (found: Result<&Room, Error>)
        ensures
            match found {
                Ok(room) => self@.contains_key(number) && room@ == self@[number],
                Err(e) => e == Error::RoomNotFound && !self@.contains_key(number),
            },
    {
        match self.rooms.get(&number) {
            Some(room) => Ok(room),
            None => Err(Error::RoomNotFound),
        }
    }

    /// Registers `room` under its number, unless the number is taken.
    pub fn insert(&mut self, room: Room) -> (outcome: Result<(), Error>)
        ensures
            registry_valid(old(self)@) && room@.valid() ==> registry_valid(final(self)@),
            match outcome {
                Ok(()) => !old(self)@.contains_key(room.no)
                    && final(self)@ == old(self)@.insert(room.no, room@),
                Err(e) => e == Error::RoomAlreadyExists && old(self)@.contains_key(room.no)
                    && final(self)@ == old(self)@,
            },
    {
        if self.rooms.contains_key(&room.no) {
            return Err(Error::RoomAlreadyExists);
        }
        let ghost view = room@;
        let number = room.no;
        self.rooms.insert(number, room);
        assert(self@ =~= old(self)@.insert(number, view));
        Ok(())
    }

    /// Takes the room registered under `number` out of the registry.
    pub fn remove(&mut self, number: u64) -> (outcome: Result<(), Error>)
        ensures
            registry_valid(old(self)@) ==> registry_valid(final(self)@),
            match outcome {
                Ok(()) => old(self)@.contains_key(number)
                    && final(self)@ == old(self)@.remove(number),
                Err(e) => e == Error::RoomNotFound && !old(self)@.contains_key(number)
                    && final(self)@ == old(self)@,
            },
    {
        match self.rooms.remove(&number) {
            Some(_) => {
                assert(self@ =~= old(self)@.remove(number));
                Ok(())
            },
            None => {
                assert(self@ =~= old(self)@);
                Err(Error::RoomNotFound)
            },
        }
    }

    /// Every registered room, as `list` gives them.
    pub fn get_rooms(&self) -> (listed: Vec<Room>)
        ensures
            exists|numbers: Seq<u64>| enumerates(numbers, views(listed@), self@),
    {
        self.list()
    }

    /// A copy of the room that `payload` names.
    pub fn get_room_by_number(&self, payload: GetRoomByNumberPayload) -> (reply: Result<
        Room,
        Error,
    >)
        ensures
            match reply {
                Ok(room) => self@.contains_key(payload.number) && room@ == self@[payload.number],
                Err(e) => e == Error::RoomNotFound && !self@.contains_key(payload.number),
            },
    {
        match self.get(payload.number) {
            Ok(room) => Ok(room.clone()),
            Err(e) => Err(e),
        }
    }

    /// Registers a vacant room that belongs to `caller`.
    pub fn create_room(&mut self, payload: CreateRoomPayload, caller: Occupant) -> (reply: Result<
        String,
        Error,
    >)
        ensures
            final(self)@ == after_create(old(self)@, payload, caller@),
            match reply {
                Ok(message) => create_refusal(old(self)@, payload) is None
                    && message@ == "Room created successfully!"@,
                Err(e) => create_refusal(old(self)@, payload) == Some(e),
            },
            registry_valid(old(self)@) ==> registry_valid(final(self)@),
    {
        if payload.capacity == 0 {
            return Err(Error::InvalidCapacity);
        }
        let room = Room::new(payload.number, payload.capacity, payload.price_per_occupant, caller);
        match self.insert(room) {
            Ok(()) => Ok("Room created successfully!".to_owned()),
            Err(e) => Err(e),
        }
    }

    /// Books a place for `caller` in the room that `payload` names, at the
    /// price that it offers.
    pub fn book_room(&mut self, payload: BookRoomPayload, caller: Occupant) -> (reply: Result<
        String,
        Error,
    >)
        ensures
            final(self)@ == after_book(old(self)@, payload, caller@),
            match reply {
                Ok(message) => book_refusal(old(self)@, payload, caller@) is None
                    && message@ == "Room successfully booked"@,
                Err(e) => book_refusal(old(self)@, payload, caller@) == Some(e),
            },
            registry_valid(old(self)@) ==> registry_valid(final(self)@),
    {
        let ghost id = caller@;
        let reply = match self.rooms.entry(payload.number) {
            Entry::Vacant(_) => Err(Error::RoomNotFound),
            Entry::Occupied(slot) => {
                let room = slot.into_mut();
                if room.is_full() {
                    Err(Error::RoomFull)
                } else if !room.check_price(payload.price) {
                    Err(Error::InvalidPrice)
                } else {
                    match room.add_occupant(caller) {
                        Ok(()) => Ok("Room successfully booked".to_owned()),
                        Err(e) => Err(e),
                    }
                }
            },
        };
        proof {
            assert(self@ =~= after_book(old(self)@, payload, id));
            lemma_book_keeps_valid(old(self)@, payload, id);
        }
        reply
    }

    /// Gives up the place of `caller` in the room that `payload` names.
    pub fn unbook_room(&mut self, payload: UnbookRoomPayload, caller: Occupant) -> (reply: Result<
        String,
        Error,
    >)
        ensures
            final(self)@ == after_unbook(old(self)@, payload, caller@),
            match reply {
                Ok(message) => unbook_refusal(old(self)@, payload, caller@) is None
                    && message@ == "Room unbooked successfully!"@,
                Err(e) => unbook_refusal(old(self)@, payload, caller@) == Some(e),
            },
            registry_valid(old(self)@) ==> registry_valid(final(self)@),
    {
        let ghost id = caller@;
        let reply = match self.rooms.entry(payload.number) {
            Entry::Vacant(_) => Err(Error::RoomNotFound),
            Entry::Occupied(slot) => {
                let room = slot.into_mut();
                match room.has_occupant(caller.clone()) {
                    Some(_) => match room.remove_occupant(caller) {
                        Ok(()) => Ok("Room unbooked successfully!".to_owned()),
                        Err(e) => Err(e),
                    },
                    None => Err(Error::NotInRoom),
                }
            },
        };
        proof {
            assert(self@ =~= after_unbook(old(self)@, payload, id));
            lemma_unbook_keeps_valid(old(self)@, payload, id);
        }
        reply
    }

    /// Takes the room that `payload` names out of the registry, if it
    /// belongs to `caller`.
    pub fn delete_room(&mut self, payload: DeleteRoomPayload, caller: Occupant) -> (reply: Result<
        String,
        Error,
    >)
        ensures
            final(self)@ == after_delete(old(self)@, payload, caller@),
            match reply {
                Ok(message) => delete_refusal(old(self)@, payload, caller@) is None
                    && message@ == "Room deleted successfully!"@,
                Err(e) => delete_refusal(old(self)@, payload, caller@) == Some(e),
            },
            registry_valid(old(self)@) ==> registry_valid(final(self)@),
    {
        let owned = match self.get(payload.number) {
            Ok(room) => room.is_owner(caller),
            Err(e) => {
                return Err(e);
            },
        };
        if !owned {
            return Err(Error::NotOwner);
        }
        match self.remove(payload.number) {
            Ok(()) => Ok("Room deleted successfully!".to_owned()),
            Err(e) => Err(e),
        }
    }
}

} // verus!
