use vstd::prelude::*;
use vstd::slice::slice_subrange;
use vstd::slice::slice_to_vec;
use vstd::utf8::encode_utf8;

use crate::JournalError;

use anchor_lang::solana_program::pubkey::Pubkey;

verus! {

/// Largest title, in UTF-8 bytes.
pub const MAX_TITLE_LEN: usize = 50;

/// Longest single seed that address derivation accepts.
pub const MAX_SEED_LEN: usize = 32;

/// Length of a text in UTF-8 bytes.
pub open spec fn byte_len(s: Seq<char>) -> nat {
    encode_utf8(s).len()
}

/// The address that `Pubkey::try_find_program_address` finds for `seeds`
/// under `program_id`, or `None` where it finds none.
pub uninterp spec fn program_address(seeds: Seq<Seq<u8>>, program_id: Seq<u8>) -> Option<Seq<u8>>;

/// The seeds of an entry: its title bytes, then its owner's key.
/// A title too long for a single seed is split into two seeds; the
/// derivation hashes the seeds one after another, so the split leaves the
/// address as it would be for the title as a whole.
pub open spec fn entry_seeds(title: Seq<u8>, owner: Seq<u8>) -> Seq<Seq<u8>> {
    if title.len() <= MAX_SEED_LEN {
        seq![title, owner]
    } else {
        seq![title.subrange(0, MAX_SEED_LEN as int), title.subrange(MAX_SEED_LEN as int, title.len() as int), owner]
    }
}

/// An optional key as bytes.
pub open spec fn address_view(r: Option<[u8; 32]>) -> Option<Seq<u8>> {
    match r {
        Some(a) => Some(a@),
        None => None,
    }
}

/// The address of the entry with this title and owner under `program`.
pub open spec fn entry_address(program: Seq<u8>, title: Seq<char>, owner: Seq<u8>) -> Result<Seq<u8>, JournalError> {
    if byte_len(title) > MAX_TITLE_LEN {
        Err(JournalError::InvalidTitle)
    } else {
        match program_address(entry_seeds(encode_utf8(title), owner), program) {
            Some(a) => Ok(a),
            None => Err(JournalError::NoViableAddress),
        }
    }
}

/// A derived key, or the error, as values.
pub open spec fn key_view(r: Result<[u8; 32], JournalError>) -> Result<Seq<u8>, JournalError> {
    match r {
        Ok(k) => Ok(k@),
        Err(e) => Err(e),
    }
}

/// Relies on solana_program's `Pubkey::try_find_program_address`: the first
/// off-curve address, searching bump seeds downwards, for the given seeds
/// and program; the bump seed found is not kept.
#[verifier::external_body]
fn find_address(seeds: &Vec<Vec<u8>>, program_id: &[u8; 32]) -> (r: Option<[u8; 32]>)
    ensures
        address_view(r) == program_address(seeds.deep_view(), program_id@),
{
    let seeds: Vec<&[u8]> = seeds.iter().map(|s| s.as_slice()).collect();
    Pubkey::try_find_program_address(&seeds, &Pubkey::new_from_array(*program_id)).map(
        |(address, _bump)| address.to_bytes(),
    )
}

/// The address of the entry with this title and owner under `program_id`.
/// Fails with `InvalidTitle` for a title over the size limit, and with
/// `NoViableAddress` where the derivation finds no address.
pub fn derive_key(program_id: &[u8; 32], title: &String, owner: &[u8; 32]) -> (r: Result<[u8; 32], JournalError>)
    ensures
        key_view(r) == entry_address(program_id@, title@, owner@),
{
    let bytes = title.as_str().as_bytes();
    if bytes.len() > MAX_TITLE_LEN {
        return Err(JournalError::InvalidTitle);
    }
    let owner_seed = slice_to_vec(owner.as_slice());
    let mut seeds: Vec<Vec<u8>> = Vec::new();
    if bytes.len() <= MAX_SEED_LEN {
        seeds.push(slice_to_vec(bytes));
    } else {
        seeds.push(slice_to_vec(slice_subrange(bytes, 0, MAX_SEED_LEN)));
        seeds.push(slice_to_vec(slice_subrange(bytes, MAX_SEED_LEN, bytes.len())));
    }
    seeds.push(owner_seed);
    proof {
        let sv = seeds.deep_view();
        let want = entry_seeds(encode_utf8(title@), owner@);
        assert(sv.len() == want.len());
        assert forall|i: int| 0 <= i < sv.len() implies sv[i] =~= want[i] by {
            assert(sv[i] == seeds@[i].deep_view());
        }
        assert(sv =~= want);
    }
    match find_address(&seeds, program_id) {
        Some(a) => Ok(a),
        None => Err(JournalError::NoViableAddress),
    }
}

} // verus!
