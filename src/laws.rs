use vstd::prelude::*;

use crate::address::entry_address;
use crate::instructions::{create_spec, delete_spec, lookup_spec, update_spec};
use crate::store::{fits, EntryView, StoreView};
use crate::JournalError;

verus! {

/// A successful create is read back at once with exactly the fields it was
/// given.
pub proof fn create_then_lookup(s: StoreView, owner: Seq<u8>, title: Seq<char>, message: Seq<char>)
    requires
        fits(title, message),
    ensures
        create_spec(s, owner, title, message).0 is Ok ==> lookup_spec(create_spec(s, owner, title, message).1, owner, title)
            == Ok::<EntryView, JournalError>(EntryView { owner, title, message }),
{
}

/// A second create with the same title and owner, with no delete between,
/// fails with `SlotAlreadyExists` and changes nothing.
pub proof fn create_twice_fails(s: StoreView, owner: Seq<u8>, title: Seq<char>, first: Seq<char>, second: Seq<char>)
    requires
        fits(title, second),
    ensures
        create_spec(s, owner, title, first).0 is Ok ==> create_spec(create_spec(s, owner, title, first).1, owner, title, second)
            == (Err::<(), JournalError>(JournalError::SlotAlreadyExists), create_spec(s, owner, title, first).1),
{
}

/// An update where no entry lives fails with `RecordNotFound`, and one by a
/// caller who does not own the entry found fails with `NotOwner`; neither
/// changes the journal.
pub proof fn update_rejected(s: StoreView, owner: Seq<u8>, title: Seq<char>, message: Seq<char>)
    requires
        entry_address(s.program, title, owner) is Ok,
    ensures
        !s.entries.contains_key(entry_address(s.program, title, owner)->Ok_0)
            ==> update_spec(s, owner, title, message) == (Err::<(), JournalError>(JournalError::RecordNotFound), s),
        s.entries.contains_key(entry_address(s.program, title, owner)->Ok_0)
            && s.entries[entry_address(s.program, title, owner)->Ok_0].owner != owner
            ==> update_spec(s, owner, title, message) == (Err::<(), JournalError>(JournalError::NotOwner), s),
{
}

/// After a successful delete, a create with the same title and owner
/// succeeds, and the entry read back holds only what the new create gave.
pub proof fn delete_then_create(s: StoreView, owner: Seq<u8>, title: Seq<char>, message: Seq<char>)
    requires
        fits(title, message),
    ensures
        delete_spec(s, owner, title).0 is Ok ==> {
            let after = create_spec(delete_spec(s, owner, title).1, owner, title, message);
            &&& after.0 is Ok
            &&& lookup_spec(after.1, owner, title) == Ok::<EntryView, JournalError>(EntryView { owner, title, message })
        },
{
}

} // verus!
