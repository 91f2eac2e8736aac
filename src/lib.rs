//! A content-keyed journal: each entry lives at a program-derived address
//! computed from its title and its owner's key, in a slot of fixed capacity.

mod address;
mod error;
mod instructions;
mod laws;
mod store;

pub use address::{
    address_view, byte_len, derive_key, entry_address, entry_seeds, key_view, program_address,
    MAX_SEED_LEN, MAX_TITLE_LEN,
};
pub use error::JournalError;
pub use instructions::{
    create_journal_entry, create_spec, delete_journal_entry, delete_spec, lookup_spec,
    update_journal_entry, update_spec, CreatelEntry, DeletelEntry, UpdatelEntry,
};
pub use laws::{create_then_lookup, create_twice_fails, delete_then_create, update_rejected};
pub use store::{
    entry_result_view, fetch_spec, fits, insert_spec, remove_spec, rewrite_spec, EntryView,
    JournalEntryState, JournalStore, StoreView, HEADER_OVERHEAD, MAX_ENTRY_SIZE, MAX_MESSAGE_LEN,
    SLOT_SPACE,
};
