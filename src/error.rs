use vstd::prelude::*;

verus! {

/// Why an operation on the journal failed. Every check runs before any
/// change, so a failed operation leaves the journal as it was.
#[derive(Debug, Clone, Copy, PartialEq, Eq, Structural)]
pub enum JournalError {
    /// A title or message is longer than its bound.
    FieldTooLong,
    /// An entry already lives at the derived address.
    SlotAlreadyExists,
    /// No entry lives at the derived address.
    RecordNotFound,
    /// The caller does not own the entry.
    NotOwner,
    /// The journal has no room left for another slot.
    AllocationFailed,
    /// A title handed to address derivation is over the size limit.
    InvalidTitle,
    /// Address derivation found no usable address for the seeds.
    NoViableAddress,
}

} // verus!
