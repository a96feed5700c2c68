//! Addresses and deterministic address derivation.
//!
//! A record that the program controls lives at an address derived from a
//! label, possibly the owner's address, and a one-byte bump. The hash behind
//! the derivation is computed by `anchor_lang`'s `Pubkey`; this module names
//! its results and builds the seed lists.

use anchor_lang::prelude::Pubkey;
use vstd::prelude::*;
use vstd::slice::slice_to_vec;

verus! {

/// A 32-byte ledger address: the identity of a principal or the location of a record.
#[derive(Clone, Copy, Debug, Eq)]
pub struct Address {
    pub bytes: [u8; 32],
}

impl View for Address {
    type V = Seq<u8>;

    open spec fn view(&self) -> Seq<u8> {
        self.bytes@
    }
}

impl PartialEq for Address {
    fn eq(&self, other: &Address) -> (r: bool) {
        let mut i: usize = 0;
        while i < 32
            invariant
                i <= 32,
                forall|j: int| 0 <= j < i ==> self.bytes@[j] == other.bytes@[j],
            decreases 32 - i,
        {
            if self.bytes[i] != other.bytes[i] {
                return false;
            }
            i += 1;
        }
        assert(self.bytes@ =~= other.bytes@);
        true
    }
}

impl vstd::std_specs::cmp::PartialEqSpecImpl for Address {
    open spec fn obeys_eq_spec() -> bool {
        true
    }

    open spec fn eq_spec(&self, other: &Address) -> bool {
        self@ == other@
    }
}

impl Address {
    /// Wraps 32 bytes as an address.
    pub fn new(bytes: [u8; 32]) -> (a: Address)
        ensures
            a.bytes == bytes,
            a@ == bytes@,
    {
        Address { bytes }
    }

    /// The address as a byte vector, in order.
    pub fn to_vec(&self) -> (v: Vec<u8>)
        ensures
            v@ == self@,
    {
        slice_to_vec(self.bytes.as_slice())
    }
}

/// The bytes of a derived address, given by view.
pub open spec fn derived_view(r: Option<Address>) -> Option<Seq<u8>> {
    match r {
        Some(a) => Some(a@),
        None => None,
    }
}

/// The bytes and bump of a found address, given by view.
pub open spec fn found_view(r: Option<(Address, u8)>) -> Option<(Seq<u8>, u8)> {
    match r {
        Some((a, bump)) => Some((a@, bump)),
        None => None,
    }
}

/// The seed list of a vault: the label `vault`, then the owner's address.
pub open spec fn vault_seeds(owner: Seq<u8>) -> Seq<Seq<u8>> {
    seq![seq![118u8, 97u8, 117u8, 108u8, 116u8], owner]
}

/// The seed list of the program state: the label `state` alone.
pub open spec fn state_seeds() -> Seq<Seq<u8>> {
    seq![seq![115u8, 116u8, 97u8, 116u8, 101u8]]
}

/// A seed list with the bump appended as a last seed of one byte.
pub open spec fn with_bump(seeds: Seq<Seq<u8>>, bump: u8) -> Seq<Seq<u8>> {
    seeds.push(seq![bump])
}

/// The address that `Pubkey::create_program_address` gives for a seed list
/// under a program, or `None` where it gives none (the hash lies on the
/// curve, or a seed is too long, or there are too many).
pub uninterp spec fn program_address(seeds: Seq<Seq<u8>>, program_id: Seq<u8>) -> Option<Seq<u8>>;

/// The address and bump that `Pubkey::try_find_program_address` gives for a
/// seed list under a program, or `None` where no bump yields an address.
pub uninterp spec fn found_program_address(seeds: Seq<Seq<u8>>, program_id: Seq<u8>) -> Option<
    (Seq<u8>, u8),
>;

/// Calls `Pubkey::create_program_address` on the seeds and the program id.
/// Trusted: the result is the one named by [`program_address`]; every error
/// of the outside function is reported as `None`.
#[verifier::external_body]
fn create_program_address(seeds: &Vec<Vec<u8>>, program_id: &Address) -> (r: Option<Address>)
    ensures
        derived_view(r) == program_address(seeds.deep_view(), program_id@),
{
    let parts: Vec<&[u8]> = seeds.iter().map(|s| s.as_slice()).collect();
    match Pubkey::create_program_address(&parts, &Pubkey::new_from_array(program_id.bytes)) {
        Ok(key) => Some(Address { bytes: key.to_bytes() }),
        Err(_) => None,
    }
}

/// Calls `Pubkey::try_find_program_address` on the seeds and the program id.
/// Trusted: the result is the one named by [`found_program_address`], and
/// an address that is found is the one that `Pubkey::create_program_address`
/// gives for the same seeds followed by the found bump.
#[verifier::external_body]
fn try_find_program_address(seeds: &Vec<Vec<u8>>, program_id: &Address) -> (r: Option<
    (Address, u8),
>)
    ensures
        found_view(r) == found_program_address(seeds.deep_view(), program_id@),
        r matches Some((a, bump)) ==> program_address(
            with_bump(seeds.deep_view(), bump),
            program_id@,
        ) == Some(a@),
{
    let parts: Vec<&[u8]> = seeds.iter().map(|s| s.as_slice()).collect();
    match Pubkey::try_find_program_address(&parts, &Pubkey::new_from_array(program_id.bytes)) {
        Some((key, bump)) => Some((Address { bytes: key.to_bytes() }, bump)),
        None => None,
    }
}

/// Builds the seed list of the vault of `owner`.
fn build_vault_seeds(owner: &Address) -> (seeds: Vec<Vec<u8>>)
    ensures
        seeds.deep_view() == vault_seeds(owner@),
{
    let label: Vec<u8> = vec![118u8, 97u8, 117u8, 108u8, 116u8];
    let seeds: Vec<Vec<u8>> = vec![label, owner.to_vec()];
    assert(seeds.deep_view() =~~= vault_seeds(owner@));
    seeds
}

/// Builds the seed list of the program state.
fn build_state_seeds() -> (seeds: Vec<Vec<u8>>)
    ensures
        seeds.deep_view() == state_seeds(),
{
    let label: Vec<u8> = vec![115u8, 116u8, 97u8, 116u8, 101u8];
    let seeds: Vec<Vec<u8>> = vec![label];
    assert(seeds.deep_view() =~~= state_seeds());
    seeds
}

/// Searches the address of the vault of `owner` under `program_id`, with its bump.
pub fn find_vault_address(program_id: &Address, owner: &Address) -> (r: Option<(Address, u8)>)
    ensures
        found_view(r) == found_program_address(vault_seeds(owner@), program_id@),
        r matches Some((a, bump)) ==> program_address(
            with_bump(vault_seeds(owner@), bump),
            program_id@,
        ) == Some(a@),
{
    let seeds = build_vault_seeds(owner);
    try_find_program_address(&seeds, program_id)
}

/// Recomputes the address of the vault of `owner` under `program_id` from a stored bump.
pub fn vault_address(program_id: &Address, owner: &Address, bump: u8) -> (r: Option<Address>)
    ensures
        derived_view(r) == program_address(with_bump(vault_seeds(owner@), bump), program_id@),
{
    let mut seeds = build_vault_seeds(owner);
    let last: Vec<u8> = vec![bump];
    seeds.push(last);
    assert(seeds.deep_view() =~~= with_bump(vault_seeds(owner@), bump));
    create_program_address(&seeds, program_id)
}

/// Searches the address of the program state under `program_id`, with its bump.
pub fn find_state_address(program_id: &Address) -> (r: Option<(Address, u8)>)
    ensures
        found_view(r) == found_program_address(state_seeds(), program_id@),
        r matches Some((a, bump)) ==> program_address(
            with_bump(state_seeds(), bump),
            program_id@,
        ) == Some(a@),
{
    let seeds = build_state_seeds();
    try_find_program_address(&seeds, program_id)
}

} // verus!
