//! Where the records of a supply live: addresses derived from seeds.
//!
//! The address of a provenance record, of a token metadata record and of a
//! holder's ownership account is not chosen by the caller. It is derived from
//! seeds that name the supply, under the program that owns the record. The
//! seeds are this crate's; the derivation is the runtime's.

use vstd::prelude::*;
use crate::address::Address;
use crate::text::{ascii, ascii_bytes};

verus! {

/// The identities that are fixed for a deployment: the programs that the
/// operations work with, and the account of the rent rules.
#[derive(Clone, Copy, Debug)]
pub struct ProgramIds {
    /// The program that runs the operation and owns its records.
    pub program: Address,
    /// The token program, which owns supply records and ownership accounts.
    pub token_program: Address,
    /// The program that owns the derivation of ownership accounts.
    pub associated_token_program: Address,
    /// The program of the registry of descriptive metadata.
    pub token_metadata_program: Address,
    /// The program that creates accounts.
    pub system_program: Address,
    /// The account that holds the rent rules.
    pub rent: Address,
}

/// The address that the runtime derives from `seeds` under the program with
/// the bytes `program_id`, and the bump seed that it found for it; `None`
/// where it derives no address.
pub uninterp spec fn program_address(seeds: Seq<Seq<u8>>, program_id: Seq<u8>) -> Option<
    (Seq<u8>, u8),
>;

/// What a list of seeds holds.
pub open spec fn seed_bytes(seeds: Seq<Vec<u8>>) -> Seq<Seq<u8>> {
    Seq::new(seeds.len(), |i: int| seeds[i]@)
}

/// The address derived from `seeds` under `program`, without the bump seed.
pub open spec fn derived_address(seeds: Seq<Seq<u8>>, program: Address) -> Option<Address> {
    match program_address(seeds, program.bytes@) {
        Some((bytes, _)) => Some(Address::from_seq(bytes)),
        None => None,
    }
}

/// The seeds of the provenance record of the supply at `mint`.
pub open spec fn roast_data_seeds(mint: Address) -> Seq<Seq<u8>> {
    seq![ascii("roast"@), mint.bytes@]
}

/// The seeds of the token metadata record of the supply at `mint`.
pub open spec fn token_metadata_seeds(mint: Address) -> Seq<Seq<u8>> {
    seq![ascii("metadata"@), mint.bytes@]
}

/// The seeds of the ownership account of `owner` for the supply at `mint`.
pub open spec fn associated_token_seeds(owner: Address, token_program: Address, mint: Address)
    -> Seq<Seq<u8>> {
    seq![owner.bytes@, token_program.bytes@, mint.bytes@]
}

/// What a list of borrowed seeds holds.
pub open spec fn slice_bytes(seeds: Seq<&[u8]>) -> Seq<Seq<u8>> {
    Seq::new(seeds.len(), |i: int| seeds[i]@)
}

/// What was found, with the address as its bytes.
pub open spec fn found_bytes(found: Option<([u8; 32], u8)>) -> Option<(Seq<u8>, u8)> {
    match found {
        Some((address, bump)) => Some((address@, bump)),
        None => None,
    }
}

/// Calls `Pubkey::try_find_program_address` of `solana_program`, which
/// `anchor_lang` hands on. The contract claims that what it returns depends
/// on the seeds and the program's bytes alone: it is `program_address` of
/// them. It claims nothing about which address that is.
#[verifier::external_body]
fn try_find_program_address(seeds: &Vec<&[u8]>, program: &[u8; 32]) -> (found: Option<
    ([u8; 32], u8),
>)
    ensures
        found_bytes(found) == program_address(slice_bytes(seeds@), program@),
{
    let program_id = anchor_lang::prelude::Pubkey::new_from_array(*program);
    match anchor_lang::prelude::Pubkey::try_find_program_address(seeds, &program_id) {
        Some((key, bump)) => Some((key.to_bytes(), bump)),
        None => None,
    }
}

/// The address derived from `seeds` under `program`, and the bump seed that
/// signs for it.
pub fn find_program_address(seeds: &Vec<Vec<u8>>, program: &Address) -> (found: Option<
    (Address, u8),
>)
    ensures
        match found {
            Some((address, bump)) => program_address(seed_bytes(seeds@), program.bytes@) == Some(
                (address.bytes@, bump),
            ) && derived_address(seed_bytes(seeds@), *program) == Some(address),
            None => program_address(seed_bytes(seeds@), program.bytes@) is None && derived_address(
                seed_bytes(seeds@),
                *program,
            ) is None,
        },
{
    let mut parts: Vec<&[u8]> = Vec::new();
    let mut i: usize = 0;
    while i < seeds.len()
        invariant
            i <= seeds.len(),
            parts@.len() == i,
            forall|k: int| 0 <= k < i ==> parts@[k]@ == seeds@[k]@,
        decreases seeds.len() - i,
    {
        parts.push(seeds[i].as_slice());
        i = i + 1;
    }
    assert(slice_bytes(parts@) =~= seed_bytes(seeds@));
    match try_find_program_address(&parts, &program.bytes) {
        Some((bytes, bump)) => {
            let address: Address = Address::new(bytes);
            proof {
                address.lemma_from_seq();
            }
            Some((address, bump))
        },
        None => None,
    }
}

/// The address derived from `seeds` under `program`.
pub fn derive_address(seeds: &Vec<Vec<u8>>, program: &Address) -> (derived: Option<Address>)
    ensures
        derived == derived_address(seed_bytes(seeds@), *program),
{
    match find_program_address(seeds, program) {
        Some((address, _)) => Some(address),
        None => None,
    }
}

/// The seeds of the provenance record of the supply at `mint`: the salt
/// `roast` and the supply's identity.
pub fn roast_data_seed_list(mint: &Address) -> (seeds: Vec<Vec<u8>>)
    ensures
        seed_bytes(seeds@) == roast_data_seeds(*mint),
{
    proof {
        reveal_strlit("roast");
    }
    let mut seeds: Vec<Vec<u8>> = Vec::new();
    seeds.push(ascii_bytes("roast"));
    seeds.push(mint.to_vec());
    seeds
}

/// The seeds of the token metadata record of the supply at `mint`: the salt
/// `metadata` and the supply's identity.
pub fn token_metadata_seed_list(mint: &Address) -> (seeds: Vec<Vec<u8>>)
    ensures
        seed_bytes(seeds@) == token_metadata_seeds(*mint),
{
    proof {
        reveal_strlit("metadata");
    }
    let mut seeds: Vec<Vec<u8>> = Vec::new();
    seeds.push(ascii_bytes("metadata"));
    seeds.push(mint.to_vec());
    seeds
}

/// The seeds of the ownership account of `owner` for the supply at `mint`:
/// the holder, the token program and the supply.
pub fn associated_token_seed_list(
    owner: &Address,
    token_program: &Address,
    mint: &Address,
) -> (seeds: Vec<Vec<u8>>)
    ensures
        seed_bytes(seeds@) == associated_token_seeds(*owner, *token_program, *mint),
{
    let mut seeds: Vec<Vec<u8>> = Vec::new();
    seeds.push(owner.to_vec());
    seeds.push(token_program.to_vec());
    seeds.push(mint.to_vec());
    seeds
}

/// The address of the provenance record of the supply at `mint`, under
/// `program`.
pub fn roast_data_address(program: &Address, mint: &Address) -> (derived: Option<Address>)
    ensures
        derived == derived_address(roast_data_seeds(*mint), *program),
{
    derive_address(&roast_data_seed_list(mint), program)
}

/// The address of the token metadata record of the supply at `mint`, under
/// `program`.
pub fn token_metadata_address(program: &Address, mint: &Address) -> (derived: Option<Address>)
    ensures
        derived == derived_address(token_metadata_seeds(*mint), *program),
{
    derive_address(&token_metadata_seed_list(mint), program)
}

/// The address of the ownership account of `owner` for the supply at `mint`.
pub fn associated_token_address(
    programs: &ProgramIds,
    owner: &Address,
    mint: &Address,
) -> (derived: Option<Address>)
    ensures
        derived == derived_address(
            associated_token_seeds(*owner, programs.token_program, *mint),
            programs.associated_token_program,
        ),
{
    derive_address(
        &associated_token_seed_list(owner, &programs.token_program, mint),
        &programs.associated_token_program,
    )
}

/// Two supplies never share the seeds of their provenance records, of their
/// token metadata records, or of a holder's ownership accounts.
pub proof fn lemma_seeds_tell_supplies_apart(first: Address, second: Address)
    requires
        first != second,
    ensures
        roast_data_seeds(first) != roast_data_seeds(second),
        token_metadata_seeds(first) != token_metadata_seeds(second),
        forall|owner: Address, token_program: Address|
            associated_token_seeds(owner, token_program, first) != #[trigger] associated_token_seeds(
                owner,
                token_program,
                second,
            ),
{
    assert(first.bytes@ != second.bytes@) by {
        if first.bytes@ == second.bytes@ {
            first.lemma_same_bytes(second);
        }
    }
    assert(roast_data_seeds(first)[1] == first.bytes@);
    assert(roast_data_seeds(second)[1] == second.bytes@);
    assert(token_metadata_seeds(first)[1] == first.bytes@);
    assert(token_metadata_seeds(second)[1] == second.bytes@);
    assert forall|owner: Address, token_program: Address|
        associated_token_seeds(owner, token_program, first) != #[trigger] associated_token_seeds(
            owner,
            token_program,
            second,
        ) by {
        assert(associated_token_seeds(owner, token_program, first)[2] == first.bytes@);
        assert(associated_token_seeds(owner, token_program, second)[2] == second.bytes@);
    }
}

} // verus!
