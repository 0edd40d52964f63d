use vstd::prelude::*;
use vstd::string::StringSliceAdditionalSpecFns;
use crate::pda::{find_program_address, key_bytes, lemma_seed_strings, program_address, seeds_view, str_bytes};
use crate::pubkey::Pubkey;

pub use crate::pda::{master_edition, metadata};

verus! {

pub const CONFIG_SEED: &'static str = "config";

pub const CHILL_METADATA_SEED: &'static str = "chill-metadata";

/// The configuration account of `mint` under `program_id`, with its bump.
pub fn config(mint: &Pubkey, program_id: &Pubkey) -> (r: (Pubkey, u8))
    ensures
        (r.0@, r.1) == program_address(seq!["config".spec_bytes(), mint@], program_id@),
{
    let mut seeds: Vec<Vec<u8>> = Vec::new();
    seeds.push(str_bytes("config"));
    seeds.push(key_bytes(mint));
    proof {
        lemma_seed_strings();
        assert(seeds_view(seeds@) =~= seq!["config".spec_bytes(), mint@]);
    }
    find_program_address(&seeds, program_id)
}

/// The account of an NFT's Chill metadata, with its bump.
pub fn chill_metadata(mint: &Pubkey, program_id: &Pubkey) -> (r: (Pubkey, u8))
    ensures
        (r.0@, r.1) == program_address(seq!["chill-metadata".spec_bytes(), mint@], program_id@),
{
    let mut seeds: Vec<Vec<u8>> = Vec::new();
    seeds.push(str_bytes("chill-metadata"));
    seeds.push(key_bytes(mint));
    proof {
        lemma_seed_strings();
        assert(seeds_view(seeds@) =~= seq!["chill-metadata".spec_bytes(), mint@]);
    }
    find_program_address(&seeds, program_id)
}

} // verus!
