use hostel_manager_backend::error::Error;
use hostel_manager_backend::models::{Occupant, Room, RoomState};
use hostel_manager_backend::principal::MAX_PRINCIPAL_LEN;

fn who(name: &str) -> Occupant {
    Occupant(String::from(name))
}

fn names(room: &Room) -> Vec<String> {
    room.occupants.iter().map(|o| o.0.clone()).collect()
}

#[test]
fn new_room_is_vacant_and_empty() {
    let room = Room::new(7, 3, 250, who("owner"));
    assert_eq!(room.no, 7);
    assert_eq!(room.capacity, 3);
    assert_eq!(room.price_per_occupant, 250);
    assert_eq!(room.state, RoomState::TotallyVacant);
    assert!(room.occupants.is_empty());
    assert_eq!(room.owner, who("owner"));
}

#[test]
fn check_price_wants_the_exact_price() {
    let room = Room::new(1, 2, 100, who("A"));
    assert!(room.check_price(100));
    assert!(!room.check_price(99));
    assert!(!room.check_price(101));
    assert!(!room.check_price(0));
    assert!(!room.check_price(u64::MAX));
}

#[test]
fn is_owner_compares_identities() {
    let room = Room::new(1, 2, 100, who("A"));
    assert!(room.is_owner(who("A")));
    assert!(!room.is_owner(who("B")));
    assert!(!room.is_owner(who("a")));
    assert!(!room.is_owner(who("")));
}

#[test]
fn occupants_are_equal_by_identity() {
    assert_eq!(who("A"), who("A"));
    assert_ne!(who("A"), who("B"));
    assert_eq!(who("A").clone(), who("A"));
}

#[test]
fn state_follows_the_number_of_occupants() {
    let mut room = Room::new(1, 3, 100, who("A"));
    assert_eq!(room.state, RoomState::TotallyVacant);
    assert!(!room.is_full());

    assert_eq!(room.add_occupant(who("B")), Ok(()));
    assert_eq!(room.state, RoomState::PartiallyOccupied);
    assert!(!room.is_full());

    assert_eq!(room.add_occupant(who("C")), Ok(()));
    assert_eq!(room.state, RoomState::PartiallyOccupied);
    assert!(!room.is_full());

    assert_eq!(room.add_occupant(who("D")), Ok(()));
    assert_eq!(room.state, RoomState::Full);
    assert!(room.is_full());
    assert_eq!(room.occupants.len(), 3);

    assert_eq!(room.remove_occupant(who("C")), Ok(()));
    assert_eq!(room.state, RoomState::PartiallyOccupied);
    assert_eq!(room.remove_occupant(who("B")), Ok(()));
    assert_eq!(room.state, RoomState::PartiallyOccupied);
    assert_eq!(room.remove_occupant(who("D")), Ok(()));
    assert_eq!(room.state, RoomState::TotallyVacant);
    assert!(room.occupants.is_empty());
}

#[test]
fn room_for_one_goes_from_vacant_to_full_and_back() {
    let mut room = Room::new(1, 1, 100, who("A"));
    assert_eq!(room.add_occupant(who("B")), Ok(()));
    assert_eq!(room.state, RoomState::Full);
    assert_eq!(room.remove_occupant(who("B")), Ok(()));
    assert_eq!(room.state, RoomState::TotallyVacant);
}

#[test]
fn occupants_keep_the_order_of_their_arrival() {
    let mut room = Room::new(1, 4, 100, who("A"));
    assert_eq!(room.add_occupant(who("x")), Ok(()));
    assert_eq!(room.add_occupant(who("y")), Ok(()));
    assert_eq!(room.add_occupant(who("z")), Ok(()));
    assert_eq!(names(&room), vec!["x", "y", "z"]);
    assert_eq!(room.has_occupant(who("x")), Some(0));
    assert_eq!(room.has_occupant(who("y")), Some(1));
    assert_eq!(room.has_occupant(who("z")), Some(2));
    assert_eq!(room.has_occupant(who("w")), None);

    assert_eq!(room.remove_occupant(who("y")), Ok(()));
    assert_eq!(names(&room), vec!["x", "z"]);
    assert_eq!(room.has_occupant(who("z")), Some(1));
    assert_eq!(room.has_occupant(who("y")), None);

    assert_eq!(room.add_occupant(who("y")), Ok(()));
    assert_eq!(names(&room), vec!["x", "z", "y"]);
}

#[test]
fn has_occupant_finds_the_first_of_equal_identities() {
    let room = Room {
        no: 1,
        capacity: 5,
        price_per_occupant: 1,
        state: RoomState::PartiallyOccupied,
        occupants: vec![who("a"), who("b"), who("b"), who("a")],
        owner: who("o"),
    };
    assert_eq!(room.has_occupant(who("a")), Some(0));
    assert_eq!(room.has_occupant(who("b")), Some(1));
}

#[test]
fn remove_occupant_takes_out_the_first_of_equal_identities() {
    let mut room = Room {
        no: 1,
        capacity: 5,
        price_per_occupant: 1,
        state: RoomState::PartiallyOccupied,
        occupants: vec![who("a"), who("b"), who("c"), who("b")],
        owner: who("o"),
    };
    assert_eq!(room.remove_occupant(who("b")), Ok(()));
    assert_eq!(names(&room), vec!["a", "c", "b"]);
    assert_eq!(room.state, RoomState::PartiallyOccupied);
}

#[test]
fn full_room_turns_everybody_away() {
    let mut room = Room::new(1, 2, 100, who("A"));
    assert_eq!(room.add_occupant(who("B")), Ok(()));
    assert_eq!(room.add_occupant(who("C")), Ok(()));
    assert_eq!(room.add_occupant(who("D")), Err(Error::RoomFull));
    assert_eq!(room.add_occupant(who("B")), Err(Error::RoomFull));
    assert_eq!(names(&room), vec!["B", "C"]);
    assert_eq!(room.state, RoomState::Full);
}

#[test]
fn nobody_is_admitted_twice() {
    let mut room = Room::new(1, 3, 100, who("A"));
    assert_eq!(room.add_occupant(who("B")), Ok(()));
    assert_eq!(room.add_occupant(who("B")), Err(Error::RoomAlreadyBooked));
    assert_eq!(names(&room), vec!["B"]);
    assert_eq!(room.state, RoomState::PartiallyOccupied);
}

#[test]
fn removing_a_stranger_changes_nothing() {
    let mut room = Room::new(1, 3, 100, who("A"));
    assert_eq!(room.remove_occupant(who("B")), Err(Error::NotInRoom));
    assert_eq!(room.state, RoomState::TotallyVacant);
    assert_eq!(room.add_occupant(who("B")), Ok(()));
    assert_eq!(room.remove_occupant(who("C")), Err(Error::NotInRoom));
    assert_eq!(names(&room), vec!["B"]);
    assert_eq!(room.state, RoomState::PartiallyOccupied);
}

#[test]
fn owner_is_no_occupant_until_booked() {
    let mut room = Room::new(1, 2, 100, who("A"));
    assert_eq!(room.has_occupant(who("A")), None);
    assert_eq!(room.add_occupant(who("A")), Ok(()));
    assert_eq!(room.has_occupant(who("A")), Some(0));
    assert!(room.is_owner(who("A")));
}

#[test]
fn clone_copies_every_field() {
    let mut room = Room::new(9, 2, 40, who("A"));
    assert_eq!(room.add_occupant(who("B")), Ok(()));
    let copy = room.clone();
    assert_eq!(copy.no, 9);
    assert_eq!(copy.capacity, 2);
    assert_eq!(copy.price_per_occupant, 40);
    assert_eq!(copy.state, RoomState::PartiallyOccupied);
    assert_eq!(names(&copy), vec!["B"]);
    assert_eq!(copy.owner, who("A"));
    assert_eq!(room.add_occupant(who("C")), Ok(()));
    assert_eq!(names(&copy), vec!["B"]);
}

#[test]
fn occupant_of_the_empty_principal() {
    assert_eq!(Occupant::new(&[]).0, "aaaaa-aa");
}

#[test]
fn occupant_of_the_anonymous_principal() {
    assert_eq!(Occupant::new(&[4]).0, "2vxsx-fae");
}

#[test]
fn occupant_of_a_canister_principal() {
    let bytes = [0xef, 0xcd, 0xab, 0, 0, 0, 0, 0, 1];
    assert_eq!(Occupant::new(&bytes).0, "2chl6-4hpzw-vqaaa-aaaaa-c");
}

#[test]
fn occupant_of_the_longest_principal() {
    let bytes = [0u8; MAX_PRINCIPAL_LEN];
    let text = Occupant::new(&bytes).0;
    assert_eq!(text, candid::Principal::from_slice(&bytes).to_text());
    assert_eq!(candid::Principal::from_text(&text).unwrap().as_slice(), &bytes[..]);
    assert_eq!(MAX_PRINCIPAL_LEN, 29);
}

#[test]
fn occupant_text_is_what_the_principal_prints() {
    let principal = candid::Principal::from_text("rrkah-fqaaa-aaaaa-aaaaq-cai").unwrap();
    let occupant = Occupant::new(principal.as_slice());
    assert_eq!(occupant.0, "rrkah-fqaaa-aaaaa-aaaaq-cai");
    assert_eq!(occupant.0, principal.to_string());
}

#[test]
fn equal_principals_are_the_same_occupant() {
    assert_eq!(Occupant::new(&[1, 2, 3]), Occupant::new(&[1, 2, 3]));
    assert_ne!(Occupant::new(&[1, 2, 3]), Occupant::new(&[1, 2, 4]));
}
