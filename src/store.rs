use vstd::prelude::*;

use crate::address::{byte_len, MAX_TITLE_LEN};
use crate::JournalError;

verus! {

/// Largest message, in UTF-8 bytes.
pub const MAX_MESSAGE_LEN: usize = 1000;

/// Bytes that the host keeps in front of the data of every slot.
pub const HEADER_OVERHEAD: u64 = 8;

/// Largest encoded entry: the owner key, then title and message, each with
/// a four-byte length prefix, at their largest.
pub const MAX_ENTRY_SIZE: u64 = 32 + 4 + 50 + 4 + 1000;

/// Bytes reserved for every slot, whatever its entry holds.
pub const SLOT_SPACE: u64 = HEADER_OVERHEAD + MAX_ENTRY_SIZE;

/// One journal entry.
pub struct JournalEntryState {
    /// Key of the only caller that may change or delete the entry.
    pub owner: [u8; 32],
    pub title: String,
    pub message: String,
}

/// What an entry holds, as values.
pub struct EntryView {
    pub owner: Seq<u8>,
    pub title: Seq<char>,
    pub message: Seq<char>,
}

impl View for JournalEntryState {
    type V = EntryView;

    open spec fn view(&self) -> EntryView {
        EntryView { owner: self.owner@, title: self.title@, message: self.message@ }
    }
}

/// Title and message are within their bounds.
pub open spec fn fits(title: Seq<char>, message: Seq<char>) -> bool {
    byte_len(title) <= MAX_TITLE_LEN && byte_len(message) <= MAX_MESSAGE_LEN
}

/// The journal as values: its program key, its space budget, what is left
/// of it, and the entries by address.
pub struct StoreView {
    pub program: Seq<u8>,
    pub capacity: nat,
    pub space_left: nat,
    pub entries: Map<Seq<u8>, EntryView>,
}

/// Creating an entry at a known address.
pub open spec fn insert_spec(s: StoreView, key: Seq<u8>, owner: Seq<u8>, title: Seq<char>, message: Seq<char>) -> (Result<(), JournalError>, StoreView) {
    if !fits(title, message) {
        (Err(JournalError::FieldTooLong), s)
    } else if s.entries.contains_key(key) {
        (Err(JournalError::SlotAlreadyExists), s)
    } else if s.space_left < SLOT_SPACE {
        (Err(JournalError::AllocationFailed), s)
    } else {
        (Ok(()), StoreView {
            entries: s.entries.insert(key, EntryView { owner, title, message }),
            space_left: (s.space_left - SLOT_SPACE) as nat,
            ..s
        })
    }
}

/// Replacing the message of the entry at a known address.
pub open spec fn rewrite_spec(s: StoreView, key: Seq<u8>, owner: Seq<u8>, message: Seq<char>) -> (Result<(), JournalError>, StoreView) {
    if !s.entries.contains_key(key) {
        (Err(JournalError::RecordNotFound), s)
    } else if s.entries[key].owner != owner {
        (Err(JournalError::NotOwner), s)
    } else if byte_len(message) > MAX_MESSAGE_LEN {
        (Err(JournalError::FieldTooLong), s)
    } else {
        (Ok(()), StoreView {
            entries: s.entries.insert(key, EntryView { message, ..s.entries[key] }),
            ..s
        })
    }
}

/// Deleting the entry at a known address; its slot's space comes back.
pub open spec fn remove_spec(s: StoreView, key: Seq<u8>, owner: Seq<u8>) -> (Result<(), JournalError>, StoreView) {
    if !s.entries.contains_key(key) {
        (Err(JournalError::RecordNotFound), s)
    } else if s.entries[key].owner != owner {
        (Err(JournalError::NotOwner), s)
    } else {
        (Ok(()), StoreView {
            entries: s.entries.remove(key),
            space_left: (s.space_left + SLOT_SPACE) as nat,
            ..s
        })
    }
}

/// Reading the entry at a known address.
pub open spec fn fetch_spec(s: StoreView, key: Seq<u8>) -> Result<EntryView, JournalError> {
    if s.entries.contains_key(key) {
        Ok(s.entries[key])
    } else {
        Err(JournalError::RecordNotFound)
    }
}

/// A read entry, or the error, as values.
pub open spec fn entry_result_view(r: Result<JournalEntryState, JournalError>) -> Result<EntryView, JournalError> {
    match r {
        Ok(e) => Ok(e@),
        Err(e) => Err(e),
    }
}

struct Slot {
    address: [u8; 32],
    entry: JournalEntryState,
}

/// Entries held in slots of fixed size, each at its own address, within a
/// budget of bytes.
pub struct JournalStore {
    program_id: [u8; 32],
    capacity: u64,
    space_left: u64,
    slots: Vec<Slot>,
    entries: Ghost<Map<Seq<u8>, EntryView>>,
}

/// Whether two keys hold the same bytes.
fn same_key(a: &[u8; 32], b: &[u8; 32]) -> (r: bool)
    ensures
        r == (a@ == b@),
{
    let mut i: usize = 0;
    while i < 32
        invariant
            i <= 32,
            a@.len() == 32,
            b@.len() == 32,
            forall|j: int| 0 <= j < i ==> a@[j] == b@[j],
        decreases 32 - i,
    {
        if a[i] != b[i] {
            return false;
        }
        i = i + 1;
    }
    assert(a@ =~= b@);
    true
}

impl View for JournalStore {
    type V = StoreView;

    closed spec fn view(&self) -> StoreView {
        StoreView {
            program: self.program_id@,
            capacity: self.capacity as nat,
            space_left: self.space_left as nat,
            entries: self.entries@,
        }
    }
}

impl JournalStore {
    /// The slots and the entries agree, each address holds one slot, every
    /// entry is within its bounds, and the budget counts every slot.
    pub closed spec fn wf(&self) -> bool {
        &&& self.space_left + self.slots@.len() * SLOT_SPACE == self.capacity
        &&& forall|i: int| 0 <= i < self.slots@.len() ==> {
            &&& self.entries@.contains_key(#[trigger] self.slots@[i].address@)
            &&& self.entries@[self.slots@[i].address@] == self.slots@[i].entry@
        }
        &&& forall|i: int, j: int| 0 <= i < self.slots@.len() && 0 <= j < self.slots@.len() && i != j
            ==> #[trigger] self.slots@[i].address@ != #[trigger] self.slots@[j].address@
        &&& forall|k: Seq<u8>| #[trigger] self.entries@.contains_key(k)
            ==> exists|i: int| 0 <= i < self.slots@.len() && #[trigger] self.slots@[i].address@ == k
        &&& forall|k: Seq<u8>| #[trigger] self.entries@.contains_key(k)
            ==> fits(self.entries@[k].title, self.entries@[k].message)
    }

    /// An empty journal for the program `program_id`, with `capacity` bytes
    /// for slots.
    pub fn new(program_id: [u8; 32], capacity: u64) -> (r: JournalStore)
        ensures
            r.wf(),
            r@ == (StoreView { program: program_id@, capacity: capacity as nat, space_left: capacity as nat, entries: Map::empty() }),
    {
        JournalStore { program_id, capacity, space_left: capacity, slots: Vec::new(), entries: Ghost(Map::empty()) }
    }

    /// The key of the program whose addresses the journal uses.
    pub fn program_id(&self) -> (r: [u8; 32])
        ensures
            r@ == self@.program,
    {
        self.program_id
    }

    /// Bytes of the budget not taken by slots.
    pub fn space_left(&self) -> (r: u64)
        ensures
            r == self@.space_left,
    {
        self.space_left
    }

    /// The slot at `key`, if any.
    fn find(&self, key: &[u8; 32]) -> (r: Option<usize>)
        requires
            self.wf(),
        ensures
            r matches Some(i) ==> i < self.slots@.len() && self.slots@[i as int].address@ == key@,
            r is None ==> !self@.entries.contains_key(key@),
    {
        let mut i: usize = 0;
        while i < self.slots.len()
            invariant
                self.wf(),
                i <= self.slots@.len(),
                forall|j: int| 0 <= j < i ==> #[trigger] self.slots@[j].address@ != key@,
            decreases self.slots@.len() - i,
        {
            if same_key(&self.slots[i].address, key) {
                return Some(i);
            }
            i = i + 1;
        }
        None
    }

    /// Creates the entry at `key`: fails with `FieldTooLong` for a title or
    /// message over its bound, with `SlotAlreadyExists` where an entry
    /// already lives at `key`, and with `AllocationFailed` where the budget
    /// has no room for another slot.
    pub fn create_at(&mut self, key: [u8; 32], owner: [u8; 32], title: String, message: String) -> (r: Result<(), JournalError>)
        requires
            old(self).wf(),
        ensures
            final(self).wf(),
            (r, final(self)@) == insert_spec(old(self)@, key@, owner@, title@, message@),
    {
        if title.as_str().as_bytes().len() > MAX_TITLE_LEN || message.as_str().as_bytes().len() > MAX_MESSAGE_LEN {
            return Err(JournalError::FieldTooLong);
        }
        if self.find(&key).is_some() {
            return Err(JournalError::SlotAlreadyExists);
        }
        if self.space_left < SLOT_SPACE {
            return Err(JournalError::AllocationFailed);
        }
        let ghost old_slots = self.slots@;
        let ghost view = EntryView { owner: owner@, title: title@, message: message@ };
        self.slots.push(Slot { address: key, entry: JournalEntryState { owner, title, message } });
        self.space_left = self.space_left - SLOT_SPACE;
        self.entries = Ghost(self.entries@.insert(key@, view));
        proof {
            let n = old_slots.len() as int;
            assert((n + 1) * SLOT_SPACE == n * SLOT_SPACE + SLOT_SPACE) by (nonlinear_arith);
            assert forall|k: Seq<u8>| #[trigger] self.entries@.contains_key(k)
                implies exists|i: int| 0 <= i < self.slots@.len() && #[trigger] self.slots@[i].address@ == k by {
                if k == key@ {
                    assert(self.slots@[n].address@ == k);
                } else {
                    let i = choose|i: int| 0 <= i < old_slots.len() && #[trigger] old_slots[i].address@ == k;
                    assert(self.slots@[i] == old_slots[i]);
                }
            }
            assert forall|i: int| 0 <= i < self.slots@.len() && i != n implies self.slots@[i].address@ != key@ by {
                assert(self.slots@[i] == old_slots[i]);
            }
        }
        Ok(())
    }

    /// Replaces the message of the entry at `key`: fails with
    /// `RecordNotFound` where no entry lives there, with `NotOwner` where
    /// `owner` does not own it, and with `FieldTooLong` for a message over
    /// its bound. Owner and title stay as they were.
    pub fn update_at(&mut self, key: &[u8; 32], owner: &[u8; 32], message: String) -> (r: Result<(), JournalError>)
        requires
            old(self).wf(),
        ensures
            final(self).wf(),
            (r, final(self)@) == rewrite_spec(old(self)@, key@, owner@, message@),
    {
        let i = match self.find(key) {
            Some(i) => i,
            None => return Err(JournalError::RecordNotFound),
        };
        if !same_key(&self.slots[i].entry.owner, owner) {
            return Err(JournalError::NotOwner);
        }
        if message.as_str().as_bytes().len() > MAX_MESSAGE_LEN {
            return Err(JournalError::FieldTooLong);
        }
        let ghost old_slots = self.slots@;
        assert(self.entries@[key@] == self.slots@[i as int].entry@);
        let entry = JournalEntryState {
            owner: self.slots[i].entry.owner,
            title: self.slots[i].entry.title.clone(),
            message,
        };
        let ghost view = entry@;
        self.slots.set(i, Slot { address: *key, entry });
        self.entries = Ghost(self.entries@.insert(key@, view));
        proof {
            assert forall|k: Seq<u8>| #[trigger] self.entries@.contains_key(k)
                implies exists|j: int| 0 <= j < self.slots@.len() && #[trigger] self.slots@[j].address@ == k by {
                if k == key@ {
                    assert(self.slots@[i as int].address@ == k);
                } else {
                    let j = choose|j: int| 0 <= j < old_slots.len() && #[trigger] old_slots[j].address@ == k;
                    assert(self.slots@[j] == old_slots[j]);
                }
            }
            assert forall|j: int| 0 <= j < self.slots@.len() && j != i implies self.slots@[j] == old_slots[j] by {}
            assert(self.entries@ == rewrite_spec(old(self)@, key@, owner@, message@).1.entries);
        }
        Ok(())
    }

    /// Deletes the entry at `key` and gives its slot's space back to the
    /// budget: fails with `RecordNotFound` where no entry lives there, and
    /// with `NotOwner` where `owner` does not own it.
    pub fn delete_at(&mut self, key: &[u8; 32], owner: &[u8; 32]) -> (r: Result<(), JournalError>)
        requires
            old(self).wf(),
        ensures
            final(self).wf(),
            (r, final(self)@) == remove_spec(old(self)@, key@, owner@),
    {
        let i = match self.find(key) {
            Some(i) => i,
            None => return Err(JournalError::RecordNotFound),
        };
        if !same_key(&self.slots[i].entry.owner, owner) {
            return Err(JournalError::NotOwner);
        }
        let ghost old_slots = self.slots@;
        proof {
            let n = old_slots.len() as int;
            assert(n * SLOT_SPACE == (n - 1) * SLOT_SPACE + SLOT_SPACE) by (nonlinear_arith);
            assert((n - 1) * SLOT_SPACE >= 0) by (nonlinear_arith) requires n >= 1;
        }
        let _freed = self.slots.remove(i);
        self.space_left = self.space_left + SLOT_SPACE;
        self.entries = Ghost(self.entries@.remove(key@));
        proof {
            let ii = i as int;
            assert forall|j: int| 0 <= j < self.slots@.len() implies #[trigger] self.slots@[j] == (if j < ii { old_slots[j] } else { old_slots[j + 1] }) by {}
            assert forall|k: Seq<u8>| #[trigger] self.entries@.contains_key(k)
                implies exists|j: int| 0 <= j < self.slots@.len() && #[trigger] self.slots@[j].address@ == k by {
                let j = choose|j: int| 0 <= j < old_slots.len() && #[trigger] old_slots[j].address@ == k;
                assert(j != ii);
                if j < ii {
                    assert(self.slots@[j] == old_slots[j]);
                } else {
                    assert(self.slots@[j - 1] == old_slots[j]);
                }
            }
            assert forall|j: int| 0 <= j < self.slots@.len() implies self.slots@[j].address@ != key@ by {
                if j < ii {
                    assert(self.slots@[j] == old_slots[j]);
                } else {
                    assert(self.slots@[j] == old_slots[j + 1]);
                }
            }
        }
        Ok(())
    }

    /// A copy of the entry at `key`, or `RecordNotFound`.
    pub fn get_at(&self, key: &[u8; 32]) -> (r: Result<JournalEntryState, JournalError>)
        requires
            self.wf(),
        ensures
            entry_result_view(r) == fetch_spec(self@, key@),
    {
        match self.find(key) {
            Some(i) => {
                let e = &self.slots[i].entry;
                Ok(JournalEntryState { owner: e.owner, title: e.title.clone(), message: e.message.clone() })
            },
            None => Err(JournalError::RecordNotFound),
        }
    }
}

} // verus!
