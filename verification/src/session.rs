use vstd::prelude::*;

use crate::cipher::{generate_random_bytes, random_source_failed, MASTER_KEY_LEN};
use crate::error::StoreError;
use crate::keywrap::wipe;

verus! {

/// The master key of the running session, present while the store is
/// unlocked. A present key always has the master-key length.
pub struct KeySlot {
    master_key: Option<Vec<u8>>,
}

impl View for KeySlot {
    type V = Option<Seq<u8>>;

    closed spec fn view(&self) -> Option<Seq<u8>> {
        match self.master_key {
            Some(key) => Some(key@),
            None => None,
        }
    }
}

impl KeySlot {
    #[verifier::type_invariant]
    spec fn well_formed(self) -> bool {
        match self.master_key {
            Some(key) => key@.len() == MASTER_KEY_LEN,
            None => true,
        }
    }

    /// A locked slot.
    pub fn new() -> (slot: Self)
        ensures
            slot@ is None,
    {
        KeySlot { master_key: None }
    }

    /// Loads a master key, unlocking the session. A key of the wrong length
    /// is refused and the slot is left as it was.
    pub fn set_master_key(&mut self, master_key: Vec<u8>) -> (r: Result<(), StoreError>)
        ensures
            master_key@.len() != MASTER_KEY_LEN ==> (r matches Err(StoreError::KeyLength)
                && final(self)@ == old(self)@),
            master_key@.len() == MASTER_KEY_LEN ==> r is Ok && final(self)@ == Some(master_key@),
    {
        if master_key.len() != MASTER_KEY_LEN {
            return Err(StoreError::KeyLength);
        }
        let mut previous: Option<Vec<u8>> = None;
        std::mem::swap(&mut previous, &mut self.master_key);
        if let Some(mut key) = previous {
            wipe(&mut key);
        }
        self.master_key = Some(master_key);
        Ok(())
    }

    /// Forgets the master key, locking the session; the old key is wiped.
    pub fn clear_master_key(&mut self)
        ensures
            final(self)@ is None,
    {
        let mut previous: Option<Vec<u8>> = None;
        std::mem::swap(&mut previous, &mut self.master_key);
        if let Some(mut key) = previous {
            wipe(&mut key);
        }
    }

    /// A copy of the master key, or `Locked` when none is loaded.
    pub fn current_master_key(&self) -> (r: Result<Vec<u8>, StoreError>)
        ensures
            self@ is None ==> r matches Err(StoreError::Locked),
            self@ matches Some(key) ==> (r matches Ok(copy) && copy@ == key),
            r matches Ok(copy) ==> copy@.len() == MASTER_KEY_LEN,
    {
        proof {
            use_type_invariant(self);
        }
        match &self.master_key {
            Some(key) => Ok(vstd::slice::slice_to_vec(key.as_slice())),
            None => Err(StoreError::Locked),
        }
    }

    /// Whether a master key is loaded.
    pub fn is_unlocked(&self) -> (b: bool)
        ensures
            b == self@ is Some,
    {
        self.master_key.is_some()
    }
}

/// Accepts the contents of the local key file when they have the master-key
/// length.
pub fn accept_local_key_file(contents: Vec<u8>) -> (r: Result<Vec<u8>, StoreError>)
    ensures
        contents@.len() == MASTER_KEY_LEN ==> (r matches Ok(key) && key@ == contents@),
        contents@.len() != MASTER_KEY_LEN ==> r matches Err(StoreError::LocalKeyFileInvalid),
{
    if contents.len() != MASTER_KEY_LEN {
        return Err(StoreError::LocalKeyFileInvalid);
    }
    Ok(contents)
}

/// A new local key may only be created while no encrypted note exists: notes
/// written under a lost key could never be read again.
pub fn check_no_orphaned_notes(note_count: i64) -> (r: Result<(), StoreError>)
    ensures
        note_count > 0 ==> r matches Err(StoreError::LocalKeyMissing),
        note_count <= 0 ==> r is Ok,
{
    if note_count > 0 {
        Err(StoreError::LocalKeyMissing)
    } else {
        Ok(())
    }
}

/// A fresh random master key, unless the operating system's random source
/// fails.
pub fn new_master_key() -> (r: Result<Vec<u8>, StoreError>)
    ensures
        r matches Ok(key) ==> key@.len() == MASTER_KEY_LEN,
        r is Ok || random_source_failed(r),
{
    generate_random_bytes(MASTER_KEY_LEN)
}

} // verus!
