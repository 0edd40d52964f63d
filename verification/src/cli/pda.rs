use vstd::prelude::*;
use vstd::string::StringSliceAdditionalSpecFns;
use crate::pda::{
    find_program_address, key_bytes, lemma_seed_strings, program_address,
    seeds_view, str_bytes,
};
use crate::pubkey::Pubkey;

pub use crate::pda::{master_edition, metadata};

verus! {

/// The authority of a staking interval's token account.
pub fn staking_token_authority(staking_info: Pubkey, program_id: Pubkey) -> (r: Pubkey)
    ensures
        r@ == program_address(seq![staking_info@], program_id@).0,
{
    let mut seeds: Vec<Vec<u8>> = Vec::new();
    seeds.push(key_bytes(&staking_info));
    proof {
        assert(seeds_view(seeds@) =~= seq![staking_info@]);
    }
    find_program_address(&seeds, &program_id).0
}

/// The NFT program's configuration account of `mint`.
pub fn config(mint: Pubkey, program_id: Pubkey) -> (r: Pubkey)
    ensures
        r@ == program_address(seq!["config".spec_bytes(), mint@], program_id@).0,
{
    let mut seeds: Vec<Vec<u8>> = Vec::new();
    seeds.push(str_bytes("config"));
    seeds.push(key_bytes(&mint));
    proof {
        lemma_seed_strings();
        assert(seeds_view(seeds@) =~= seq!["config".spec_bytes(), mint@]);
    }
    find_program_address(&seeds, &program_id).0
}

/// The account of an NFT's Chill metadata.
pub fn chill_metadata(mint: Pubkey, program_id: Pubkey) -> (r: Pubkey)
    ensures
        r@ == program_address(seq!["chill-metadata".spec_bytes(), mint@], program_id@).0,
{
    let mut seeds: Vec<Vec<u8>> = Vec::new();
    seeds.push(str_bytes("chill-metadata"));
    seeds.push(key_bytes(&mint));
    proof {
        lemma_seed_strings();
        assert(seeds_view(seeds@) =~= seq!["chill-metadata".spec_bytes(), mint@]);
    }
    find_program_address(&seeds, &program_id).0
}

/// The proxy wallet of `user` under `primary_wallet`.
pub fn proxy_wallet(user: Pubkey, primary_wallet: Pubkey, program_id: Pubkey) -> (r: Pubkey)
    ensures
        r@ == program_address(
            seq!["wallet".spec_bytes(), user@, primary_wallet@],
            program_id@,
        ).0,
{
    let mut seeds: Vec<Vec<u8>> = Vec::new();
    seeds.push(str_bytes("wallet"));
    seeds.push(key_bytes(&user));
    seeds.push(key_bytes(&primary_wallet));
    proof {
        lemma_seed_strings();
        assert(seeds_view(seeds@) =~= seq!["wallet".spec_bytes(), user@, primary_wallet@]);
    }
    find_program_address(&seeds, &program_id).0
}

} // verus!
