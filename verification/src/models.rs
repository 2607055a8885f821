//! Rooms, their occupants, and the rules by which a room admits and releases
//! an occupant.

use vstd::prelude::*;

use crate::error::Error;
use crate::principal::{principal_text, principal_to_text, MAX_PRINCIPAL_LEN};

verus! {

/// A caller's identity: an opaque string. Two occupants are the same when
/// their strings are equal.
#[derive(Debug)]
pub struct Occupant(pub String);

impl View for Occupant {
    type V = Seq<char>;

    open spec fn view(&self) -> Seq<char> {
        self.0@
    }
}

impl Occupant {
    /// The occupant that stands for the principal made of the bytes `id`.
    pub fn new(id: &[u8]) -> (occupant: Occupant)
        requires
            id@.len() <= MAX_PRINCIPAL_LEN,
        ensures
            occupant@ == principal_text(id@),
    {
        Occupant(principal_to_text(id))
    }
}

impl Clone for Occupant {
    fn clone(&self) -> (copy: Self)
        ensures
            copy == *self,
    {
        Occupant(self.0.clone())
    }
}

impl PartialEq for Occupant {
    fn eq(&self, other: &Self) -> (equal: bool) {
        self.0 == other.0
    }
}

impl Eq for Occupant {

}

impl vstd::std_specs::cmp::PartialEqSpecImpl for Occupant {
    open spec fn obeys_eq_spec() -> bool {
        true
    }

    open spec fn eq_spec(&self, other: &Self) -> bool {
        self@ == other@
    }
}

/// How far a room is filled. Never set by a request: it follows from the
/// number of occupants.
#[derive(Clone, Copy, Debug, PartialEq, Eq, Structural)]
pub enum RoomState {
    /// As many occupants as the capacity allows.
    Full,
    /// At least one occupant, and room for more.
    PartiallyOccupied,
    /// No occupant.
    TotallyVacant,
}

/// The state of a room that holds `count` occupants out of `capacity`.
pub open spec fn state_for(count: nat, capacity: u64) -> RoomState {
    if count == 0 {
        RoomState::TotallyVacant
    } else if count == capacity {
        RoomState::Full
    } else {
        RoomState::PartiallyOccupied
    }
}

/// Whether `i` is the first position of `ids` at which `id` stands.
pub open spec fn first_at(ids: Seq<Seq<char>>, id: Seq<char>, i: int) -> bool {
    &&& 0 <= i < ids.len()
    &&& ids[i] == id
    &&& forall|j: int| 0 <= j < i ==> ids[j] != id
}

/// The mathematical value of a room: its fields, with every identity as a
/// sequence of characters.
pub struct RoomView {
    pub no: u64,
    pub capacity: u64,
    pub price_per_occupant: u64,
    pub state: RoomState,
    pub occupants: Seq<Seq<char>>,
    pub owner: Seq<char>,
}

impl RoomView {
    /// A room as it is right after creation: vacant, with no occupant.
    pub open spec fn vacant(no: u64, capacity: u64, price_per_occupant: u64, owner: Seq<char>) -> RoomView {
        RoomView {
            no,
            capacity,
            price_per_occupant,
            state: RoomState::TotallyVacant,
            occupants: Seq::empty(),
            owner,
        }
    }

    /// What holds of every room that the booking rules produce: a positive
    /// capacity that the occupants do not exceed, no identity twice, and a
    /// state that reflects the number of occupants.
    pub open spec fn valid(self) -> bool {
        &&& self.capacity > 0
        &&& self.occupants.len() <= self.capacity
        &&& self.occupants.no_duplicates()
        &&& self.state == state_for(self.occupants.len(), self.capacity)
    }

    /// Whether the state says that no place is left.
    pub open spec fn is_full(self) -> bool {
        self.state == RoomState::Full
    }

    /// Whether `id` is among the occupants.
    pub open spec fn holds(self, id: Seq<char>) -> bool {
        self.occupants.contains(id)
    }

    /// Why the room turns `id` away, if it does: a full room admits nobody,
    /// and nobody is admitted twice.
    pub open spec fn refusal(self, id: Seq<char>) -> Option<Error> {
        if self.is_full() {
            Some(Error::RoomFull)
        } else if self.holds(id) {
            Some(Error::RoomAlreadyBooked)
        } else {
            None
        }
    }

    /// The room after `id` has been added behind the present occupants.
    pub open spec fn with_occupant(self, id: Seq<char>) -> RoomView {
        let occupants = self.occupants.push(id);
        RoomView {
            occupants,
            state: if occupants.len() == self.capacity {
                RoomState::Full
            } else {
                RoomState::PartiallyOccupied
            },
            ..self
        }
    }

    /// The room after the first occurrence of `id` has been taken out.
    pub open spec fn without_occupant(self, id: Seq<char>) -> RoomView {
        let occupants = self.occupants.remove_value(id);
        RoomView {
            occupants,
            state: if occupants.len() == 0 {
                RoomState::TotallyVacant
            } else {
                RoomState::PartiallyOccupied
            },
            ..self
        }
    }
}

/// A bookable unit with a fixed capacity and a fixed price per occupant.
#[derive(Debug)]
pub struct Room {
    pub no: u64,
    pub capacity: u64,
    pub price_per_occupant: u64,
    pub state: RoomState,
    pub occupants: Vec<Occupant>,
    pub owner: Occupant,
}

/// The identities of a list of occupants, in the same order.
pub open spec fn identities(occupants: Seq<Occupant>) -> Seq<Seq<char>> {
    occupants.map_values(|o: Occupant| o@)
}

impl View for Room {
    type V = RoomView;

    open spec fn view(&self) -> RoomView {
        RoomView {
            no: self.no,
            capacity: self.capacity,
            price_per_occupant: self.price_per_occupant,
            state: self.state,
            occupants: identities(self.occupants@),
            owner: self.owner@,
        }
    }
}

impl Room {
    /// A vacant room. It is valid exactly when its capacity is positive.
    pub fn new(number: u64, capacity: u64, price_per_occupant: u64, owner: Occupant) -> (room: Room)
        ensures
            room@ == RoomView::vacant(number, capacity, price_per_occupant, owner@),
            room@.valid() <==> capacity > 0,
    {
        let room = Room {
            no: number,
            capacity,
            price_per_occupant,
            state: RoomState::TotallyVacant,
            occupants: Vec::new(),
            owner,
        };
        assert(room@.occupants =~= Seq::empty());
        room
    }

    /// Whether `price` is the room's price, to the unit.
    pub fn check_price(&self, price: u64) -> (accepted: bool)
        ensures
            accepted == (price == self@.price_per_occupant),
    {
        price == self.price_per_occupant
    }

    /// Whether the state is `Full`: in a valid room, whether the occupants
    /// are as many as the capacity.
    pub fn is_full(&self) -> (full: bool)
        ensures
            full == self@.is_full(),
            self@.valid() ==> full == (self@.occupants.len() == self@.capacity),
    {
        self.state == RoomState::Full
    }

    /// Whether `owner` is the identity that created the room.
    pub fn is_owner(&self, owner: Occupant) -> (owns: bool)
        ensures
            owns == (owner@ == self@.owner),
    {
        self.owner == owner
    }

    /// The position of the first occupant with the identity of `occupant`,
    /// if there is one.
    pub fn has_occupant(&self, occupant: Occupant) -> (position: Option<usize>)
        ensures
            match position {
                Some(i) => first_at(self@.occupants, occupant@, i as int),
                None => !self@.holds(occupant@),
            },
    {
        let mut i: usize = 0;
        while i < self.occupants.len()
            invariant
                i <= self.occupants.len(),
                forall|j: int| 0 <= j < i ==> self@.occupants[j] != occupant@,
            decreases self.occupants.len() - i,
        {
            if self.occupants[i] == occupant {
                return Some(i);
            }
            i += 1;
        }
        None
    }

    /// Admits `occupant` behind the present occupants, unless the room is
    /// full or holds the identity already, and brings the state up to date.
    pub fn add_occupant(&mut self, occupant: Occupant) -> (outcome: Result<(), Error>)
        ensures
            match outcome {
                Ok(()) => old(self)@.refusal(occupant@) is None
                    && final(self)@ == old(self)@.with_occupant(occupant@),
                Err(e) => old(self)@.refusal(occupant@) == Some(e) && *final(self) == *old(self),
            },
            old(self)@.valid() ==> final(self)@.valid(),
    {
        if self.is_full() {
            return Err(Error::RoomFull);
        }
        match self.has_occupant(occupant.clone()) {
            Some(_) => Err(Error::RoomAlreadyBooked),
            None => {
                proof {
                    if self@.valid() {
                        lemma_admission_keeps_valid(self@, occupant@);
                    }
                }
                self.occupants.push(occupant);
                self.state = if self.occupants.len() as u64 == self.capacity {
                    RoomState::Full
                } else {
                    RoomState::PartiallyOccupied
                };
                assert(self@.occupants =~= old(self)@.occupants.push(occupant@));
                Ok(())
            },
        }
    }

    /// Takes the first occupant with the identity of `occupant` out of the
    /// room, if there is one, and brings the state up to date.
    pub fn remove_occupant(&mut self, occupant: Occupant) -> (outcome: Result<(), Error>)
        ensures
            match outcome {
                Ok(()) => old(self)@.holds(occupant@)
                    && final(self)@ == old(self)@.without_occupant(occupant@),
                Err(e) => e == Error::NotInRoom && !old(self)@.holds(occupant@)
                    && *final(self) == *old(self),
            },
            old(self)@.valid() ==> final(self)@.valid(),
    {
        match self.has_occupant(occupant) {
            Some(index) => {
                proof {
                    lemma_first_index(self@.occupants, occupant@, index as int);
                    if self@.valid() {
                        lemma_removal_keeps_valid(self@, occupant@);
                    }
                }
                self.occupants.remove(index);
                self.state = if self.occupants.len() == 0 {
                    RoomState::TotallyVacant
                } else {
                    RoomState::PartiallyOccupied
                };
                assert(self@.occupants =~= old(self)@.occupants.remove(index as int));
                Ok(())
            },
            None => Err(Error::NotInRoom),
        }
    }
}

impl Clone for Room {
    fn clone(&self) -> (copy: Self)
        ensures
            copy@ == self@,
    {
        let occupants = self.occupants.clone();
        assert(occupants@ =~= self.occupants@);
        Room {
            no: self.no,
            capacity: self.capacity,
            price_per_occupant: self.price_per_occupant,
            state: self.state,
            occupants,
            owner: self.owner.clone(),
        }
    }
}

/// Admission keeps a room valid: a valid room that turns `id` away for no
/// reason is valid again once `id` has been added.
pub proof fn lemma_admission_keeps_valid(room: RoomView, id: Seq<char>)
    requires
        room.valid(),
        room.refusal(id) is None,
    ensures
        room.with_occupant(id).valid(),
        room.with_occupant(id).occupants.len() == room.occupants.len() + 1,
        room.with_occupant(id).holds(id),
{
    let after = room.with_occupant(id).occupants;
    assert(after[room.occupants.len() as int] == id);
}

/// Removal keeps a room valid: a valid room that holds `id` is valid again,
/// with one occupant less and without `id`, once `id` has been taken out.
pub proof fn lemma_removal_keeps_valid(room: RoomView, id: Seq<char>)
    requires
        room.valid(),
        room.holds(id),
    ensures
        room.without_occupant(id).valid(),
        room.without_occupant(id).occupants.len() == room.occupants.len() - 1,
        !room.without_occupant(id).holds(id),
{
    room.occupants.index_of_first_ensures(id);
    let i = room.occupants.index_of_first(id).unwrap();
    room.occupants.remove_ensures(i);
}

/// Where `id` stands first at `i`, `i` is what `index_of_first` finds, and
/// taking `id` out takes out what stands at `i`.
pub proof fn lemma_first_index(ids: Seq<Seq<char>>, id: Seq<char>, i: int)
    requires
        first_at(ids, id, i),
    ensures
        ids.index_of_first(id) == Some(i),
        ids.remove_value(id) == ids.remove(i),
{
    ids.index_of_first_ensures(id);
}

/// A request for the room with a given number.
#[derive(Clone, Copy, Debug)]
pub struct GetRoomByNumberPayload {
    pub number: u64,
}

/// A request to register a new room.
#[derive(Clone, Copy, Debug)]
pub struct CreateRoomPayload {
    pub number: u64,
    pub capacity: u64,
    pub price_per_occupant: u64,
}

/// A request for a place in a room, at an offered price.
#[derive(Clone, Copy, Debug)]
pub struct BookRoomPayload {
    pub number: u64,
    pub price: u64,
}

/// A request to give up the caller's place in a room.
#[derive(Clone, Copy, Debug)]
pub struct UnbookRoomPayload {
    pub number: u64,
}

/// A request to take a room out of the registry.
#[derive(Clone, Copy, Debug)]
pub struct DeleteRoomPayload {
    pub number: u64,
}

} // verus!
