use anchor_lang::solana_program::pubkey::Pubkey;
use crudapp::{
    create_journal_entry, delete_journal_entry, derive_key, update_journal_entry, CreatelEntry,
    DeletelEntry, JournalError, JournalStore, UpdatelEntry, SLOT_SPACE,
};

const PROGRAM: [u8; 32] = [7; 32];
const ALICE: [u8; 32] = [1; 32];
const BOB: [u8; 32] = [2; 32];

fn store() -> JournalStore {
    JournalStore::new(PROGRAM, 100 * SLOT_SPACE)
}

fn create(s: &mut JournalStore, owner: [u8; 32], title: &str, message: &str) -> Result<(), JournalError> {
    create_journal_entry(s, &CreatelEntry { owner }, title.to_string(), message.to_string())
}

fn update(s: &mut JournalStore, owner: [u8; 32], title: &str, message: &str) -> Result<(), JournalError> {
    update_journal_entry(s, &UpdatelEntry { owner }, title.to_string(), message.to_string())
}

fn delete(s: &mut JournalStore, owner: [u8; 32], title: &str) -> Result<(), JournalError> {
    delete_journal_entry(s, &DeletelEntry { owner }, title.to_string())
}

#[test]
fn create_then_get_returns_fields() {
    let mut s = store();
    assert_eq!(create(&mut s, ALICE, "Day1", "hello"), Ok(()));
    let e = s.get(&ALICE, &"Day1".to_string()).unwrap();
    assert_eq!(e.owner, ALICE);
    assert_eq!(e.title, "Day1");
    assert_eq!(e.message, "hello");
}

#[test]
fn create_empty_strings() {
    let mut s = store();
    assert_eq!(create(&mut s, ALICE, "", ""), Ok(()));
    let e = s.get(&ALICE, &String::new()).unwrap();
    assert_eq!(e.title, "");
    assert_eq!(e.message, "");
}

#[test]
fn create_twice_gives_slot_already_exists() {
    let mut s = store();
    assert_eq!(create(&mut s, ALICE, "Day1", "hello"), Ok(()));
    assert_eq!(create(&mut s, ALICE, "Day1", "again"), Err(JournalError::SlotAlreadyExists));
    assert_eq!(s.get(&ALICE, &"Day1".to_string()).unwrap().message, "hello");
}

#[test]
fn same_title_other_owner_is_separate() {
    let mut s = store();
    assert_eq!(create(&mut s, ALICE, "Day1", "alice"), Ok(()));
    assert_eq!(create(&mut s, BOB, "Day1", "bob"), Ok(()));
    assert_eq!(s.get(&ALICE, &"Day1".to_string()).unwrap().message, "alice");
    assert_eq!(s.get(&BOB, &"Day1".to_string()).unwrap().message, "bob");
}

#[test]
fn update_missing_gives_record_not_found() {
    let mut s = store();
    assert_eq!(update(&mut s, ALICE, "Day1", "x"), Err(JournalError::RecordNotFound));
    assert_eq!(create(&mut s, ALICE, "Day1", "hello"), Ok(()));
    assert_eq!(update(&mut s, BOB, "Day1", "x"), Err(JournalError::RecordNotFound));
}

#[test]
fn update_by_non_owner_gives_not_owner() {
    let mut s = store();
    let key = derive_key(&PROGRAM, &"Day1".to_string(), &ALICE).unwrap();
    assert_eq!(s.create_at(key, ALICE, "Day1".to_string(), "hello".to_string()), Ok(()));
    assert_eq!(s.update_at(&key, &BOB, "stolen".to_string()), Err(JournalError::NotOwner));
    let e = s.get_at(&key).unwrap();
    assert_eq!(e.owner, ALICE);
    assert_eq!(e.message, "hello");
    assert_eq!(s.delete_at(&key, &BOB), Err(JournalError::NotOwner));
    assert!(s.get_at(&key).is_ok());
}

#[test]
fn update_message_too_long() {
    let mut s = store();
    assert_eq!(create(&mut s, ALICE, "Day1", "hello"), Ok(()));
    let long = "m".repeat(1001);
    assert_eq!(update(&mut s, ALICE, "Day1", &long), Err(JournalError::FieldTooLong));
    let max = "m".repeat(1000);
    assert_eq!(update(&mut s, ALICE, "Day1", &max), Ok(()));
    assert_eq!(s.get(&ALICE, &"Day1".to_string()).unwrap().message, max);
}

#[test]
fn delete_then_create_is_fresh() {
    let mut s = store();
    assert_eq!(create(&mut s, ALICE, "Day1", "old text"), Ok(()));
    assert_eq!(delete(&mut s, ALICE, "Day1"), Ok(()));
    assert_eq!(create(&mut s, ALICE, "Day1", "new"), Ok(()));
    let e = s.get(&ALICE, &"Day1".to_string()).unwrap();
    assert_eq!(e.owner, ALICE);
    assert_eq!(e.title, "Day1");
    assert_eq!(e.message, "new");
}

#[test]
fn delete_missing_gives_record_not_found() {
    let mut s = store();
    assert_eq!(delete(&mut s, ALICE, "Day1"), Err(JournalError::RecordNotFound));
    assert_eq!(create(&mut s, ALICE, "Day1", "hello"), Ok(()));
    assert_eq!(delete(&mut s, BOB, "Day1"), Err(JournalError::RecordNotFound));
}

#[test]
fn derived_keys_differ_by_owner_and_title() {
    let titles = ["Day1", "Day2", "", "a", "a longer title that spans two seeds!"];
    let owners = [ALICE, BOB, [0; 32], [255; 32]];
    let mut keys = Vec::new();
    for t in titles.iter() {
        for o in owners.iter() {
            let k = derive_key(&PROGRAM, &t.to_string(), o).unwrap();
            assert_eq!(derive_key(&PROGRAM, &t.to_string(), o).unwrap(), k);
            assert!(!keys.contains(&k));
            keys.push(k);
        }
    }
}

#[test]
fn derived_key_matches_program_address() {
    let key = derive_key(&PROGRAM, &"Day1".to_string(), &ALICE).unwrap();
    let (expected, _bump) = Pubkey::find_program_address(
        &[b"Day1", &ALICE],
        &Pubkey::new_from_array(PROGRAM),
    );
    assert_eq!(key, expected.to_bytes());
    assert_ne!(key, ALICE);
    let other = derive_key(&[8; 32], &"Day1".to_string(), &ALICE).unwrap();
    assert_ne!(key, other);
}

#[test]
fn long_title_key_splits_seeds() {
    let title = "t".repeat(40);
    let key = derive_key(&PROGRAM, &title, &ALICE).unwrap();
    let bytes = title.as_bytes();
    let (expected, _bump) = Pubkey::find_program_address(
        &[&bytes[..32], &bytes[32..], &ALICE],
        &Pubkey::new_from_array(PROGRAM),
    );
    assert_eq!(key, expected.to_bytes());
    let prefix = derive_key(&PROGRAM, &"t".repeat(32), &ALICE).unwrap();
    assert_ne!(key, prefix);
}

#[test]
fn derive_key_rejects_long_title() {
    assert_eq!(derive_key(&PROGRAM, &"t".repeat(51), &ALICE), Err(JournalError::InvalidTitle));
    assert!(derive_key(&PROGRAM, &"t".repeat(50), &ALICE).is_ok());
}

#[test]
fn title_boundary() {
    let mut s = store();
    let fifty = "t".repeat(50);
    assert_eq!(create(&mut s, ALICE, &fifty, "m"), Ok(()));
    assert_eq!(s.get(&ALICE, &fifty).unwrap().title, fifty);
    let fifty_one = "t".repeat(51);
    assert_eq!(create(&mut s, ALICE, &fifty_one, "m"), Err(JournalError::FieldTooLong));
}

#[test]
fn title_boundary_counts_bytes() {
    let mut s = store();
    let fifty = "é".repeat(25);
    assert_eq!(create(&mut s, ALICE, &fifty, "m"), Ok(()));
    let fifty_two = "é".repeat(26);
    assert_eq!(create(&mut s, ALICE, &fifty_two, "m"), Err(JournalError::FieldTooLong));
}

#[test]
fn message_boundary() {
    let mut s = store();
    assert_eq!(create(&mut s, ALICE, "a", &"m".repeat(1000)), Ok(()));
    assert_eq!(create(&mut s, ALICE, "b", &"m".repeat(1001)), Err(JournalError::FieldTooLong));
    assert!(s.get(&ALICE, &"b".to_string()).is_err());
}

#[test]
fn allocation_fails_without_room() {
    let mut s = JournalStore::new(PROGRAM, SLOT_SPACE + 10);
    assert_eq!(create(&mut s, ALICE, "Day1", "x"), Ok(()));
    assert_eq!(s.space_left(), 10);
    assert_eq!(create(&mut s, ALICE, "Day2", "x"), Err(JournalError::AllocationFailed));
    assert_eq!(delete(&mut s, ALICE, "Day1"), Ok(()));
    assert_eq!(s.space_left(), SLOT_SPACE + 10);
    assert_eq!(create(&mut s, ALICE, "Day2", "x"), Ok(()));
}

#[test]
fn slot_space_is_fixed() {
    assert_eq!(SLOT_SPACE, 1098);
    let mut s = store();
    assert_eq!(create(&mut s, ALICE, "a", ""), Ok(()));
    assert_eq!(s.space_left(), 99 * SLOT_SPACE);
    assert_eq!(update(&mut s, ALICE, "a", &"m".repeat(1000)), Ok(()));
    assert_eq!(s.space_left(), 99 * SLOT_SPACE);
}

#[test]
fn day_one_scenario() {
    let mut s = store();
    assert_eq!(create(&mut s, ALICE, "Day1", "hello"), Ok(()));
    assert_eq!(update(&mut s, ALICE, "Day1", "hello world"), Ok(()));
    let e = s.get(&ALICE, &"Day1".to_string()).unwrap();
    assert_eq!(e.message, "hello world");
    assert_eq!(e.title, "Day1");
    assert_eq!(e.owner, ALICE);
    assert_eq!(delete(&mut s, ALICE, "Day1"), Ok(()));
    assert_eq!(s.get(&ALICE, &"Day1".to_string()).err(), Some(JournalError::RecordNotFound));
}
