//! The authorization and derivation layer.
//!
//! Every offer's vaults are controlled by an authority derived
//! deterministically — and one-way, with no private key anywhere — from a
//! fixed namespace tag, the producer's identity and the offer's id.  Any
//! party who knows `(producer, id)` can re-derive it and locate the vaults;
//! only the protocol's own transitions can produce a valid authorization
//! proof for it.  The seed layout is built and specified here exactly; the
//! derivation itself is the address-derivation function of the host chain's
//! SDK, called through a trusted wrapper.

use crate::state::AccountId;
use vstd::bytes::{spec_u64_to_le_bytes, u64_to_le_bytes};
use vstd::prelude::*;

verus! {

/// The fixed namespace tag of the derivation seed: the bytes of `"offer"`.
pub open spec fn offer_tag() -> Seq<u8> {
    seq![111u8, 102u8, 102u8, 101u8, 114u8]
}

/// The derivation seed of an offer's authority: the namespace tag, the
/// producer's identity bytes, and the id as eight little-endian bytes.
pub open spec fn offer_seeds(producer: AccountId, id: u64) -> Seq<Seq<u8>> {
    seq![offer_tag(), spec_u64_to_le_bytes(producer.0), spec_u64_to_le_bytes(id)]
}

/// What the chain SDK's program-address derivation returns for a program and
/// a seed list: a 32-byte address with its bump salt, or nothing in the
/// statistically improbable event that no salt yields a valid address.  The
/// result depends on the arguments alone.
pub uninterp spec fn program_address(program: Seq<u8>, seeds: Seq<Seq<u8>>) -> Option<
    (Seq<u8>, u8),
>;

/// Relies on `Pubkey::try_find_program_address` (anchor_lang's re-export of
/// the Solana address type): a deterministic, one-way derivation of a
/// program-controlled address and bump salt from the seeds and the program
/// id, with no corresponding private key; it returns `None` only when no
/// valid derivation exists for these inputs.
#[verifier::external_body]
fn try_derive_address(program: &[u8; 32], seeds: &Vec<Vec<u8>>) -> (r: Option<([u8; 32], u8)>)
    ensures
        (match r {
            Some(p) => Some((p.0@, p.1)),
            None => None::<(Seq<u8>, u8)>,
        }) == program_address(program@, seeds@.map_values(|v: Vec<u8>| v@)),
{
    let key = anchor_lang::prelude::Pubkey::new_from_array(*program);
    let seed_slices: Vec<&[u8]> = seeds.iter().map(|s| s.as_slice()).collect();
    anchor_lang::prelude::Pubkey::try_find_program_address(&seed_slices, &key)
        .map(|(address, bump)| (address.to_bytes(), bump))
}

/// The seed list of an offer's authority as byte vectors, exactly
/// [`offer_seeds`].
pub fn offer_seed_bytes(producer: AccountId, id: u64) -> (s: Vec<Vec<u8>>)
    ensures
        s@.map_values(|v: Vec<u8>| v@) == offer_seeds(producer, id),
{
    let mut tag: Vec<u8> = Vec::new();
    tag.push(111);
    tag.push(102);
    tag.push(102);
    tag.push(101);
    tag.push(114);
    let mut seeds: Vec<Vec<u8>> = Vec::new();
    seeds.push(tag);
    seeds.push(u64_to_le_bytes(producer.0));
    seeds.push(u64_to_le_bytes(id));
    proof {
        assert(seeds@.map_values(|v: Vec<u8>| v@) =~~= offer_seeds(producer, id));
    }
    seeds
}

/// The salted seed list with which a transition re-derives its authority at
/// execution time: [`offer_seeds`] followed by the one-byte salt stored on
/// the offer at creation.  Only code holding the offer record can rebuild
/// this list, which is what makes the authority keyless yet unforgeable.
pub open spec fn offer_signer_seeds(producer: AccountId, id: u64, bump: u8) -> Seq<Seq<u8>> {
    offer_seeds(producer, id).push(seq![bump])
}

/// The signer seed list of an offer's authority as byte vectors, exactly
/// [`offer_signer_seeds`].
pub fn offer_signer_seed_bytes(producer: AccountId, id: u64, bump: u8) -> (s: Vec<Vec<u8>>)
    ensures
        s@.map_values(|v: Vec<u8>| v@) == offer_signer_seeds(producer, id, bump),
{
    let mut seeds = offer_seed_bytes(producer, id);
    let mut salt: Vec<u8> = Vec::new();
    salt.push(bump);
    seeds.push(salt);
    proof {
        assert(seeds@.map_values(|v: Vec<u8>| v@) =~~= offer_signer_seeds(producer, id, bump));
    }
    seeds
}

/// The authority controlling the vaults of the offer `(producer, id)` under
/// the given program: its 32-byte address and the bump salt that makes the
/// derivation valid.  Reproducible by any party from public data alone.
pub fn offer_authority(program_id: &[u8; 32], producer: AccountId, id: u64) -> (r: Option<
    ([u8; 32], u8),
>)
    ensures
        (match r {
            Some(p) => Some((p.0@, p.1)),
            None => None::<(Seq<u8>, u8)>,
        }) == program_address(program_id@, offer_seeds(producer, id)),
{
    let seeds = offer_seed_bytes(producer, id);
    try_derive_address(program_id, &seeds)
}

} // verus!
