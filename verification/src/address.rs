//! Deterministic addresses for lock records.
//!
//! A lock record lives at an address computed from a domain-separation tag,
//! the owner's identity and, under owner-and-amount keying, the locked amount.
//! No index is kept: whoever knows the inputs can compute the address again.
//! The hashing itself is done by the ledger's own program-address search.

use crate::identity::Identity;
use anchor_lang::prelude::Pubkey;
use vstd::bytes::spec_u64_to_le_bytes;
use vstd::bytes::u64_to_le_bytes;
use vstd::prelude::*;
use vstd::slice::slice_to_vec;

verus! {

/// What `Pubkey::try_find_program_address` returns for the given seeds and
/// program id: the derived address with its bump seed, or `None` where the
/// search finds no address. Only that it is a function of its arguments is
/// known here.
pub uninterp spec fn program_address(seeds: Seq<Seq<u8>>, program_id: Seq<u8>) -> Option<
    (Seq<u8>, u8),
>;

/// The byte strings that a list of seeds holds.
pub open spec fn seed_bytes(seeds: Seq<Vec<u8>>) -> Seq<Seq<u8>> {
    seeds.map_values(|seed: Vec<u8>| seed@)
}

/// The address found for a search result, as plain values.
pub open spec fn found_view(found: Option<([u8; 32], u8)>) -> Option<(Seq<u8>, u8)> {
    match found {
        Some((address, bump)) => Some((address@, bump)),
        None => None,
    }
}

/// Calls `Pubkey::try_find_program_address` of the ledger's SDK. The contract
/// claims only that the outcome is the one that [`program_address`] names for
/// these seeds and this program id, so that equal inputs give equal outcomes.
/// Nothing of the hash is stated.
#[verifier::external_body]
fn try_find_program_address(seeds: &Vec<Vec<u8>>, program_id: &[u8; 32]) -> (found: Option<
    ([u8; 32], u8),
>)
    ensures
        found_view(found) == program_address(seed_bytes(seeds@), program_id@),
{
    let slices: Vec<&[u8]> = seeds.iter().map(|seed| seed.as_slice()).collect();
    let found = Pubkey::try_find_program_address(&slices, &Pubkey::new_from_array(*program_id));
    found.map(|(address, bump)| (address.to_bytes(), bump))
}

/// The tag that separates lock addresses from every other derivation:
/// the ASCII bytes of `time_lock`.
pub open spec fn lock_tag() -> Seq<u8> {
    seq![116u8, 105u8, 109u8, 101u8, 95u8, 108u8, 111u8, 99u8, 107u8]
}

/// The seeds of a derivation: the tag, the owner's bytes and, if the amount is
/// part of the key, its eight little-endian bytes.
pub open spec fn derivation_seeds(tag: Seq<u8>, owner: Identity, amount: Option<u64>) -> Seq<
    Seq<u8>,
> {
    match amount {
        Some(a) => seq![tag, owner@, spec_u64_to_le_bytes(a)],
        None => seq![tag, owner@],
    }
}

/// The address at which a lock is kept, with the bump seed that the search
/// settled on.
#[derive(Clone, Copy, Debug, PartialEq, Eq)]
pub struct LockAddress {
    pub key: Identity,
    pub bump: u8,
}

impl View for LockAddress {
    type V = (Seq<u8>, u8);

    open spec fn view(&self) -> (Seq<u8>, u8) {
        (self.key@, self.bump)
    }
}

/// The address view of an optional address.
pub open spec fn address_view(address: Option<LockAddress>) -> Option<(Seq<u8>, u8)> {
    match address {
        Some(a) => Some(a@),
        None => None,
    }
}

/// Builds the executable tag.
pub fn lock_tag_bytes() -> (tag: Vec<u8>)
    ensures
        tag@ == lock_tag(),
{
    let mut tag: Vec<u8> = Vec::new();
    tag.push(116u8);
    tag.push(105u8);
    tag.push(109u8);
    tag.push(101u8);
    tag.push(95u8);
    tag.push(108u8);
    tag.push(111u8);
    tag.push(99u8);
    tag.push(107u8);
    assert(tag@ =~= lock_tag());
    tag
}

/// Derives the address of a record from a tag, an owner and, optionally, an
/// amount, under the program `program_id`. The result depends on these inputs
/// alone; `None` means that the search found no address for them.
pub fn derive_address(
    program_id: &Identity,
    owner: &Identity,
    tag: &Vec<u8>,
    amount: Option<u64>,
) -> (address: Option<LockAddress>)
    ensures
        address_view(address) == program_address(
            derivation_seeds(tag@, *owner, amount),
            program_id@,
        ),
{
    let mut seeds: Vec<Vec<u8>> = Vec::new();
    seeds.push(tag.clone());
    seeds.push(slice_to_vec(owner.bytes.as_slice()));
    match amount {
        Some(a) => {
            seeds.push(u64_to_le_bytes(a));
        },
        None => {},
    }
    assert(seed_bytes(seeds@) =~= derivation_seeds(tag@, *owner, amount));
    match try_find_program_address(&seeds, &program_id.bytes) {
        Some((bytes, bump)) => Some(LockAddress { key: Identity { bytes }, bump }),
        None => None,
    }
}

/// Derives the address of the lock that `owner` holds over `amount`: the
/// derivation under [`lock_tag`] with the amount as part of the key. An owner
/// may therefore hold several locks at once, but no two of the same amount.
pub fn lock_address(program_id: &Identity, owner: &Identity, amount: u64) -> (address: Option<
    LockAddress,
>)
    ensures
        address_view(address) == program_address(
            derivation_seeds(lock_tag(), *owner, Some(amount)),
            program_id@,
        ),
{
    let tag = lock_tag_bytes();
    derive_address(program_id, owner, &tag, Some(amount))
}

} // verus!
