//! Where the policy record of a collection lives.
//!
//! The record is not addressed by a key of anybody's choosing: its address
//! is derived from a fixed tag, the collection's identity and the program
//! that owns the record, so a collection has one place for its record and
//! no second one.

use crate::address::Address;
use vstd::prelude::*;

verus! {

/// The program-derived address for `seeds` under `program_id`, with its bump
/// seed, as the runtime library derives it; `None` where it derives none.
pub uninterp spec fn program_address(seeds: Seq<Seq<u8>>, program_id: Seq<u8>) -> Option<
    (Seq<u8>, u8),
>;

/// The contents of each seed.
pub open spec fn seed_views(seeds: Seq<Vec<u8>>) -> Seq<Seq<u8>> {
    Seq::new(seeds.len(), |i: int| seeds[i]@)
}

/// The tag under which policy records are derived: the bytes of "state".
pub open spec fn state_tag() -> Seq<u8> {
    seq![0x73u8, 0x74u8, 0x61u8, 0x74u8, 0x65u8]
}

/// The seeds of the policy record of `collection`: the tag, then the
/// collection's identity.
pub open spec fn policy_seeds(collection: Address) -> Seq<Seq<u8>> {
    seq![state_tag(), collection.bytes@]
}

/// Calls `Pubkey::try_find_program_address` of the runtime library on the
/// seeds and the program's identity. Trusted: the result is the address and
/// bump seed that this derivation gives for these bytes, which depends on
/// nothing else; the call fails for no input, it returns `None` instead.
#[verifier::external_body]
fn find_program_address(seeds: &Vec<Vec<u8>>, program_id: &[u8; 32]) -> (r: Option<([u8; 32], u8)>)
    ensures
        match r {
            Some((key, bump)) => program_address(seed_views(seeds@), program_id@) == Some(
                (key@, bump),
            ),
            None => program_address(seed_views(seeds@), program_id@) is None,
        },
{
    let parts: Vec<&[u8]> = seeds.iter().map(|s| s.as_slice()).collect();
    let program = anchor_lang::prelude::Pubkey::new_from_array(*program_id);
    match anchor_lang::prelude::Pubkey::try_find_program_address(&parts, &program) {
        Some((key, bump)) => Some((key.to_bytes(), bump)),
        None => None,
    }
}

/// The bytes of "state".
fn tag_bytes() -> (tag: Vec<u8>)
    ensures
        tag@ == state_tag(),
{
    let mut tag: Vec<u8> = Vec::new();
    tag.push(0x73u8);
    tag.push(0x74u8);
    tag.push(0x61u8);
    tag.push(0x74u8);
    tag.push(0x65u8);
    proof {
        assert(tag@ =~= state_tag());
    }
    tag
}

/// The address of the policy record of `collection` under the program
/// `program_id`, with the bump seed that completes the derivation, or `None`
/// where the derivation finds no address.
pub fn policy_address(program_id: &Address, collection: &Address) -> (r: Option<(Address, u8)>)
    ensures
        match r {
            Some((address, bump)) => program_address(policy_seeds(*collection), program_id.bytes@)
                == Some((address.bytes@, bump)),
            None => program_address(policy_seeds(*collection), program_id.bytes@) is None,
        },
{
    let mut seeds: Vec<Vec<u8>> = Vec::new();
    seeds.push(tag_bytes());
    seeds.push(collection.to_vec());
    proof {
        assert(seed_views(seeds@) =~= policy_seeds(*collection));
    }
    match find_program_address(&seeds, &program_id.bytes) {
        Some((key, bump)) => Some((Address::new(key), bump)),
        None => None,
    }
}

} // verus!
