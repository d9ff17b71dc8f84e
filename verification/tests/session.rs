use stickyflow::error::StoreError;
use stickyflow::session::{accept_local_key_file, check_no_orphaned_notes, new_master_key, KeySlot};

#[test]
fn a_new_slot_is_locked() {
    let slot = KeySlot::new();
    assert!(!slot.is_unlocked());
    assert_eq!(slot.current_master_key(), Err(StoreError::Locked));
}

#[test]
fn a_loaded_key_is_handed_back() {
    let mut slot = KeySlot::new();
    assert_eq!(slot.set_master_key(vec![4u8; 32]), Ok(()));
    assert!(slot.is_unlocked());
    assert_eq!(slot.current_master_key(), Ok(vec![4u8; 32]));
    assert_eq!(slot.set_master_key(vec![5u8; 32]), Ok(()));
    assert_eq!(slot.current_master_key(), Ok(vec![5u8; 32]));
}

#[test]
fn a_key_of_the_wrong_length_is_refused_and_the_slot_kept() {
    let mut slot = KeySlot::new();
    assert_eq!(slot.set_master_key(vec![1u8; 31]), Err(StoreError::KeyLength));
    assert_eq!(slot.current_master_key(), Err(StoreError::Locked));
    slot.set_master_key(vec![2u8; 32]).unwrap();
    assert_eq!(slot.set_master_key(vec![3u8; 33]), Err(StoreError::KeyLength));
    assert_eq!(slot.current_master_key(), Ok(vec![2u8; 32]));
}

#[test]
fn clearing_locks_the_session() {
    let mut slot = KeySlot::new();
    slot.set_master_key(vec![9u8; 32]).unwrap();
    slot.clear_master_key();
    assert!(!slot.is_unlocked());
    assert_eq!(slot.current_master_key(), Err(StoreError::Locked));
}

#[test]
fn local_key_file_must_hold_a_full_key() {
    assert_eq!(accept_local_key_file(vec![7u8; 32]), Ok(vec![7u8; 32]));
    assert_eq!(accept_local_key_file(vec![7u8; 31]), Err(StoreError::LocalKeyFileInvalid));
    assert_eq!(accept_local_key_file(Vec::new()), Err(StoreError::LocalKeyFileInvalid));
}

#[test]
fn a_new_local_key_needs_an_empty_store() {
    assert_eq!(check_no_orphaned_notes(0), Ok(()));
    assert_eq!(check_no_orphaned_notes(1), Err(StoreError::LocalKeyMissing));
}

#[test]
fn new_master_keys_are_random_and_full_length() {
    let a = new_master_key().unwrap();
    let b = new_master_key().unwrap();
    assert_eq!(a.len(), 32);
    assert_ne!(a, b);
}
