//! Program-derived addresses of contributor accounts.

use vstd::prelude::*;

verus! {

/// The address `pinocchio_pubkey::derive_address_const` computes from `seeds`,
/// an optional bump and a program id: the SHA-256 digest of the seeds, the
/// bump, the program id and the PDA marker.
pub uninterp spec fn spec_derive_address(seeds: Seq<Seq<u8>>, bump: Option<u8>, program_id: Seq<u8>) -> Seq<u8>;

/// The first seed of a contributor account's address: the bytes of
/// `"contributor"`.
pub const CONTRIBUTOR_SEED: [u8; 11] = [99, 111, 110, 116, 114, 105, 98, 117, 116, 111, 114];

/// Calls `pinocchio_pubkey::derive_address_const` with three seeds.
///
/// The contract claims only that the result is the address named by
/// `spec_derive_address` for these seeds, bump and program id: the digest is
/// computed in the crate's own code on every target, and depends on nothing
/// else.
#[verifier::external_body]
fn derive_address_3(seed0: &[u8], seed1: &[u8], seed2: &[u8], bump: Option<u8>, program_id: &[u8; 32]) -> (address: [u8; 32])
    ensures
        address@ == spec_derive_address(seq![seed0@, seed1@, seed2@], bump, program_id@),
{
    pinocchio_pubkey::derive_address_const(&[seed0, seed1, seed2], bump, program_id)
}

/// The address of the contributor account of `contributor` for `bump`: its
/// seeds are `"contributor"`, the contributor's address and the bump byte.
pub open spec fn spec_contributor_pda(contributor: Seq<u8>, bump: u8, program_id: Seq<u8>) -> Seq<u8> {
    spec_derive_address(seq![CONTRIBUTOR_SEED@, contributor, seq![bump]], None, program_id)
}

/// Derives the address of the contributor account of `contributor` for `bump`.
pub fn derive_contributor_address(contributor: &[u8; 32], bump: u8, program_id: &[u8; 32]) -> (pda: [u8; 32])
    ensures
        pda@ == spec_contributor_pda(contributor@, bump, program_id@),
{
    let seed = CONTRIBUTOR_SEED;
    let bump_seed: [u8; 1] = [bump];
    assert(bump_seed@ =~= seq![bump]);
    derive_address_3(seed.as_slice(), contributor.as_slice(), bump_seed.as_slice(), None, program_id)
}

} // verus!
