use crate::pubkey::{lemma_pubkey_by_bytes, Pubkey};
use crate::state::{CLAIM_PREFIX, PREFIX};
use anchor_lang::solana_program::pubkey::Pubkey as Address;
use vstd::bytes::*;
use vstd::prelude::*;
use vstd::slice::*;
use vstd::string::*;
use vstd::utf8::*;

verus! {

/// The address that a program derives from seeds, where they give one.
pub uninterp spec fn program_address(seeds: Seq<Seq<u8>>, program_id: Seq<u8>) -> Option<Seq<u8>>;

/// The seeds as sequences of bytes.
pub open spec fn seeds_plain(seeds: Seq<Vec<u8>>) -> Seq<Seq<u8>> {
    seeds.map_values(|seed: Vec<u8>| seed@)
}

/// `Pubkey::create_program_address` of solana_program: the address that the
/// program `program_id` derives from the seeds. It gives none where the
/// seeds are too many or too long, or where what they give is a point of the
/// curve; what it gives depends on the seeds and the program alone.
#[verifier::external_body]
pub(crate) fn create_program_address(seeds: &Vec<Vec<u8>>, program_id: &Pubkey) -> (derived: Option<Pubkey>)
    ensures
        match derived {
            Some(key) => program_address(seeds_plain(seeds@), program_id@) == Some(key@),
            None => program_address(seeds_plain(seeds@), program_id@) is None,
        },
{
    let slices: Vec<&[u8]> = seeds.iter().map(|seed| seed.as_slice()).collect();
    let made = Address::create_program_address(&slices, &Address::new_from_array(program_id.bytes));
    Some(Pubkey { bytes: made.ok()?.to_bytes() })
}

/// The seeds under which a candy machine signs, and from which its own
/// address is derived: the prefix, the address of its line store, its
/// identifier and its bump.
pub open spec fn authority_seeds_spec(config: Pubkey, uuid: Seq<char>, bump: u8) -> Seq<Seq<u8>> {
    seq![encode_utf8(PREFIX@), config@, encode_utf8(uuid), seq![bump]]
}

/// The seeds from which the address of a claim record is derived: the
/// prefix, the index of the item in eight bytes, lowest first, the address of
/// the candy machine and the bump.
pub open spec fn claim_seeds_spec(token_index: u64, candy_machine: Pubkey, bump: u8) -> Seq<Seq<u8>> {
    seq![
        encode_utf8(CLAIM_PREFIX@),
        spec_u64_to_le_bytes(token_index),
        candy_machine@,
        seq![bump],
    ]
}

/// Builds the seeds under which a candy machine signs.
pub fn authority_seeds(config: &Pubkey, uuid: &String, bump: u8) -> (seeds: Vec<Vec<u8>>)
    ensures
        seeds_plain(seeds@) == authority_seeds_spec(*config, uuid@, bump),
{
    let mut last: Vec<u8> = Vec::new();
    last.push(bump);
    let mut seeds: Vec<Vec<u8>> = Vec::new();
    seeds.push(slice_to_vec(PREFIX.as_bytes()));
    seeds.push(config.to_vec());
    seeds.push(slice_to_vec(uuid.as_str().as_bytes()));
    seeds.push(last);
    assert(seeds_plain(seeds@) =~= authority_seeds_spec(*config, uuid@, bump));
    seeds
}

/// Builds the seeds from which the address of a claim record is derived.
pub fn claim_seeds(token_index: u64, candy_machine: &Pubkey, bump: u8) -> (seeds: Vec<Vec<u8>>)
    ensures
        seeds_plain(seeds@) == claim_seeds_spec(token_index, *candy_machine, bump),
{
    let mut last: Vec<u8> = Vec::new();
    last.push(bump);
    let mut seeds: Vec<Vec<u8>> = Vec::new();
    seeds.push(slice_to_vec(CLAIM_PREFIX.as_bytes()));
    seeds.push(u64_to_le_bytes(token_index));
    seeds.push(candy_machine.to_vec());
    seeds.push(last);
    assert(seeds_plain(seeds@) =~= claim_seeds_spec(token_index, *candy_machine, bump));
    seeds
}

/// Whether `key` is the address that the program derives from the seeds.
pub open spec fn is_derived(key: Pubkey, seeds: Seq<Seq<u8>>, program_id: Pubkey) -> bool {
    program_address(seeds, program_id@) == Some(key@)
}

/// Tells whether `key` is the address that the program derives from the
/// seeds.
pub fn check_derived(key: &Pubkey, seeds: &Vec<Vec<u8>>, program_id: &Pubkey) -> (derived: bool)
    ensures
        derived == is_derived(*key, seeds_plain(seeds@), *program_id),
{
    match create_program_address(seeds, program_id) {
        None => false,
        Some(made) => {
            proof {
                lemma_pubkey_by_bytes(made, *key);
            }
            made == *key
        },
    }
}

} // verus!
