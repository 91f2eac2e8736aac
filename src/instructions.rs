use vstd::prelude::*;

use crate::address::{derive_key, entry_address};
use crate::store::{
    entry_result_view, fetch_spec, fits, insert_spec, remove_spec, rewrite_spec, EntryView,
    JournalEntryState, JournalStore, StoreView,
};
use crate::JournalError;

verus! {

/// Accounts of the instruction that creates an entry: the signer who
/// pays for the slot and owns the entry.
pub struct CreatelEntry {
    pub owner: [u8; 32],
}

/// Accounts of the instruction that rewrites an entry's message: the
/// signer, who must own the entry.
pub struct UpdatelEntry {
    pub owner: [u8; 32],
}

/// Accounts of the instruction that deletes an entry: the signer, who must
/// own the entry and gets its slot's space back.
pub struct DeletelEntry {
    pub owner: [u8; 32],
}

/// Creating an entry: bounds first, then its address, then the slot.
pub open spec fn create_spec(s: StoreView, owner: Seq<u8>, title: Seq<char>, message: Seq<char>) -> (Result<(), JournalError>, StoreView) {
    if !fits(title, message) {
        (Err(JournalError::FieldTooLong), s)
    } else {
        match entry_address(s.program, title, owner) {
            Ok(k) => insert_spec(s, k, owner, title, message),
            Err(e) => (Err(e), s),
        }
    }
}

/// Replacing the message of the entry with this title and owner.
pub open spec fn update_spec(s: StoreView, owner: Seq<u8>, title: Seq<char>, message: Seq<char>) -> (Result<(), JournalError>, StoreView) {
    match entry_address(s.program, title, owner) {
        Ok(k) => rewrite_spec(s, k, owner, message),
        Err(e) => (Err(e), s),
    }
}

/// Deleting the entry with this title and owner.
pub open spec fn delete_spec(s: StoreView, owner: Seq<u8>, title: Seq<char>) -> (Result<(), JournalError>, StoreView) {
    match entry_address(s.program, title, owner) {
        Ok(k) => remove_spec(s, k, owner),
        Err(e) => (Err(e), s),
    }
}

/// Reading the entry with this title and owner.
pub open spec fn lookup_spec(s: StoreView, owner: Seq<u8>, title: Seq<char>) -> Result<EntryView, JournalError> {
    match entry_address(s.program, title, owner) {
        Ok(k) => fetch_spec(s, k),
        Err(e) => Err(e),
    }
}

/// Creates the entry `title` of the signer with `message`, in a slot of
/// fixed size at the address derived from title and signer.
pub fn create_journal_entry(store: &mut JournalStore, ctx: &CreatelEntry, title: String, message: String) -> (r: Result<(), JournalError>)
    requires
        old(store).wf(),
    ensures
        final(store).wf(),
        (r, final(store)@) == create_spec(old(store)@, ctx.owner@, title@, message@),
{
    if title.as_str().as_bytes().len() > crate::address::MAX_TITLE_LEN
        || message.as_str().as_bytes().len() > crate::store::MAX_MESSAGE_LEN {
        return Err(JournalError::FieldTooLong);
    }
    let program_id = store.program_id();
    let key = match derive_key(&program_id, &title, &ctx.owner) {
        Ok(k) => k,
        Err(e) => return Err(e),
    };
    store.create_at(key, ctx.owner, title, message)
}

/// Replaces the message of the signer's entry `title`; the title only
/// locates the entry and is never rewritten.
pub fn update_journal_entry(store: &mut JournalStore, ctx: &UpdatelEntry, title: String, message: String) -> (r: Result<(), JournalError>)
    requires
        old(store).wf(),
    ensures
        final(store).wf(),
        (r, final(store)@) == update_spec(old(store)@, ctx.owner@, title@, message@),
{
    let program_id = store.program_id();
    let key = match derive_key(&program_id, &title, &ctx.owner) {
        Ok(k) => k,
        Err(e) => return Err(e),
    };
    store.update_at(&key, &ctx.owner, message)
}

/// Deletes the signer's entry `title` and frees its slot.
pub fn delete_journal_entry(store: &mut JournalStore, ctx: &DeletelEntry, title: String) -> (r: Result<(), JournalError>)
    requires
        old(store).wf(),
    ensures
        final(store).wf(),
        (r, final(store)@) == delete_spec(old(store)@, ctx.owner@, title@),
{
    let program_id = store.program_id();
    let key = match derive_key(&program_id, &title, &ctx.owner) {
        Ok(k) => k,
        Err(e) => return Err(e),
    };
    store.delete_at(&key, &ctx.owner)
}

impl JournalStore {
    /// A copy of the entry `title` of `owner`.
    pub fn get(&self, owner: &[u8; 32], title: &String) -> (r: Result<JournalEntryState, JournalError>)
        requires
            self.wf(),
        ensures
            entry_result_view(r) == lookup_spec(self@, owner@, title@),
    {
        let program_id = self.program_id();
        let key = match derive_key(&program_id, title, owner) {
            Ok(k) => k,
            Err(e) => return Err(e),
        };
        self.get_at(&key)
    }
}

} // verus!
