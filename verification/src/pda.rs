use vstd::prelude::*;
use vstd::string::StringSliceAdditionalSpecFns;
use crate::pubkey::Pubkey;

verus! {

/// The address and bump seed that `Pubkey::find_program_address` derives
/// from `seeds` for `program_id`.
pub uninterp spec fn program_address(seeds: Seq<Seq<u8>>, program_id: Seq<u8>) -> (Seq<u8>, u8);

/// Calls `solana_program::pubkey::Pubkey::find_program_address`, which
/// searches the bump seeds from 255 down for the first one whose hash of the
/// seeds, the bump, the program id and the PDA marker is off the ed25519
/// curve. The contract claims only that the result is a function of the
/// seeds and the program id. It panics where there are more than 15
/// seeds or a seed longer than 32 bytes, which `requires` excludes, and where
/// no bump gives an address off the curve, which is left unsaid.
#[verifier::external_body]
pub fn find_program_address(seeds: &Vec<Vec<u8>>, program_id: &Pubkey) -> (r: (Pubkey, u8))
    requires
        seeds@.len() <= 15,
        forall|i: int| 0 <= i < seeds@.len() ==> (#[trigger] seeds@[i])@.len() <= 32,
    ensures
        (r.0@, r.1) == program_address(seeds@.map_values(|s: Vec<u8>| s@), program_id@),
{
    let refs: Vec<&[u8]> = seeds.iter().map(|s| s.as_slice()).collect();
    let program = solana_program::pubkey::Pubkey::new_from_array(program_id.0);
    let (address, bump) = solana_program::pubkey::Pubkey::find_program_address(&refs, &program);
    (Pubkey(address.to_bytes()), bump)
}

/// The address of the SPL Token program, `spl_token::ID`
/// (`TokenkegQfeZyiNwAJbNbGKPFXCWuBvf9Ss623VQ5DA`); the contract states its
/// bytes.
#[verifier::external_body]
pub fn spl_token_id() -> (r: Pubkey)
    ensures
        r@ == spl_token_id_bytes(),
{
    Pubkey(spl_token::ID.to_bytes())
}

/// The address of the System program, `solana_program::system_program::ID`
/// (`11111111111111111111111111111111`): 32 zero bytes.
#[verifier::external_body]
pub fn system_program_id() -> (r: Pubkey)
    ensures
        r@ == Pubkey::zero_bytes(),
{
    Pubkey(solana_program::system_program::ID.to_bytes())
}

/// The address of the rent sysvar, `solana_program::sysvar::rent::ID`
/// (`SysvarRent111111111111111111111111111111111`); the contract states its
/// bytes.
#[verifier::external_body]
pub fn rent_sysvar_id() -> (r: Pubkey)
    ensures
        r@ == rent_sysvar_id_bytes(),
{
    Pubkey(solana_program::sysvar::rent::ID.to_bytes())
}

/// The bytes of the rent sysvar's address.
pub open spec fn rent_sysvar_id_bytes() -> Seq<u8> {
    seq![6u8, 167, 213, 23, 25, 44, 92, 81, 33, 140, 201, 76, 61, 74, 241, 127, 88, 218, 238, 8, 155, 161, 253, 68, 227, 219, 217, 138, 0, 0, 0, 0]
}

/// The address of the Metaplex Token Metadata program,
/// `mpl_token_metadata::ID` (`metaqbxxUerdq28cj1RbAWkYQm3ybzjb6a8bt518x1s`);
/// the contract states its bytes.
#[verifier::external_body]
pub fn token_metadata_program_id() -> (r: Pubkey)
    ensures
        r@ == token_metadata_program_id_bytes(),
{
    Pubkey(mpl_token_metadata::ID.to_bytes())
}

/// The address of the NFT program, `E9Zy6VNmQNXj4MiCLjgzJ2png3zfQfosdxRiQ5bornAM`.
pub fn nft_program_id() -> (r: Pubkey)
    ensures
        r@ == seq![195u8, 89, 218, 67, 76, 95, 234, 240, 107, 224, 56, 63, 246, 41, 231, 130, 251, 65, 100, 15, 50, 213, 123, 51, 145, 221, 115, 179, 150, 76, 74, 186],
{
    let r = Pubkey([195u8, 89, 218, 67, 76, 95, 234, 240, 107, 224, 56, 63, 246, 41, 231, 130, 251, 65, 100, 15, 50, 213, 123, 51, 145, 221, 115, 179, 150, 76, 74, 186]);
    assert(r@ =~= seq![195u8, 89, 218, 67, 76, 95, 234, 240, 107, 224, 56, 63, 246, 41, 231, 130, 251, 65, 100, 15, 50, 213, 123, 51, 145, 221, 115, 179, 150, 76, 74, 186]);
    r
}

/// The address of the staking program, `7EbJfNdsRx1VgHbQgFCZsZZJBm2eDQC3PkKxTSjiabHm`.
pub fn staking_program_id() -> (r: Pubkey)
    ensures
        r@ == seq![92u8, 161, 117, 214, 218, 205, 174, 151, 68, 13, 165, 82, 132, 35, 110, 26, 223, 190, 138, 31, 65, 183, 90, 171, 98, 16, 22, 235, 40, 29, 121, 204],
{
    let r = Pubkey([92u8, 161, 117, 214, 218, 205, 174, 151, 68, 13, 165, 82, 132, 35, 110, 26, 223, 190, 138, 31, 65, 183, 90, 171, 98, 16, 22, 235, 40, 29, 121, 204]);
    assert(r@ =~= seq![92u8, 161, 117, 214, 218, 205, 174, 151, 68, 13, 165, 82, 132, 35, 110, 26, 223, 190, 138, 31, 65, 183, 90, 171, 98, 16, 22, 235, 40, 29, 121, 204]);
    r
}

/// The address of the wallet program, `9HjUbHc9JmSwEa9vkATjJCoaAhJYbkcqXE64CafXDrPt`.
pub fn wallet_program_id() -> (r: Pubkey)
    ensures
        r@ == wallet_program_id_bytes(),
{
    let r = Pubkey([123u8, 38, 208, 215, 219, 91, 102, 250, 238, 41, 156, 236, 166, 58, 165, 174, 122, 104, 208, 1, 19, 133, 229, 201, 220, 117, 21, 238, 116, 153, 171, 83]);
    assert(r@ =~= seq![123u8, 38, 208, 215, 219, 91, 102, 250, 238, 41, 156, 236, 166, 58, 165, 174, 122, 104, 208, 1, 19, 133, 229, 201, 220, 117, 21, 238, 116, 153, 171, 83]);
    r
}

/// The address of the configuration program, `64GbC4BYC6iSvrsoMtdYj7pTzLBUraCWQJMwX2srbVfk`.
pub fn config_program_id() -> (r: Pubkey)
    ensures
        r@ == seq![75u8, 32, 205, 221, 27, 10, 196, 253, 42, 14, 241, 56, 148, 101, 240, 66, 153, 71, 231, 220, 150, 76, 62, 240, 22, 209, 212, 9, 215, 42, 214, 151],
{
    let r = Pubkey([75u8, 32, 205, 221, 27, 10, 196, 253, 42, 14, 241, 56, 148, 101, 240, 66, 153, 71, 231, 220, 150, 76, 62, 240, 22, 209, 212, 9, 215, 42, 214, 151]);
    assert(r@ =~= seq![75u8, 32, 205, 221, 27, 10, 196, 253, 42, 14, 241, 56, 148, 101, 240, 66, 153, 71, 231, 220, 150, 76, 62, 240, 22, 209, 212, 9, 215, 42, 214, 151]);
    r
}

/// The seed of a Token Metadata account.
pub const METADATA_PREFIX: &'static str = "metadata";

/// The seed of a Token Metadata master edition account.
pub const EDITION: &'static str = "edition";

/// Seeds made of byte strings, each no longer than 32 bytes.
pub open spec fn seeds_fit(seeds: Seq<Seq<u8>>) -> bool {
    &&& seeds.len() <= 15
    &&& forall|i: int| 0 <= i < seeds.len() ==> (#[trigger] seeds[i]).len() <= 32
}

/// The bytes of a string.
pub fn str_bytes(s: &str) -> (r: Vec<u8>)
    ensures
        r@ == s.spec_bytes(),
{
    vstd::string::StrSliceExecFns::as_bytes_vec(s)
}

/// The bytes of an address.
pub fn key_bytes(key: &Pubkey) -> (r: Vec<u8>)
    ensures
        r@ == key@,
{
    let mut r: Vec<u8> = Vec::new();
    crate::bytes::push_pubkey(&mut r, key);
    assert(r@ =~= key@);
    r
}

/// The view of a list of seeds.
pub open spec fn seeds_view(seeds: Seq<Vec<u8>>) -> Seq<Seq<u8>> {
    seeds.map_values(|s: Vec<u8>| s@)
}

/// The Token Metadata account of `mint`.
pub open spec fn spec_metadata_address(mint: Seq<u8>, metadata_program: Seq<u8>) -> Seq<u8> {
    program_address(
        seq!["metadata".spec_bytes(), metadata_program, mint],
        metadata_program,
    ).0
}

/// The Token Metadata master edition account of `mint`.
pub open spec fn spec_master_edition_address(mint: Seq<u8>, metadata_program: Seq<u8>) -> Seq<
    u8,
> {
    program_address(
        seq!["metadata".spec_bytes(), metadata_program, mint, "edition".spec_bytes()],
        metadata_program,
    ).0
}

/// The seed strings are short ASCII.
pub proof fn lemma_seed_strings()
    ensures
        "metadata".spec_bytes().len() == 8,
        "edition".spec_bytes().len() == 7,
        "config".spec_bytes().len() == 6,
        "chill-metadata".spec_bytes().len() == 14,
        "wallet".spec_bytes().len() == 6,
{
    broadcast use vstd::string::is_ascii_spec_bytes;
    reveal_strlit("metadata");
    reveal_strlit("edition");
    reveal_strlit("config");
    reveal_strlit("chill-metadata");
    reveal_strlit("wallet");
    assert(vstd::string::is_ascii("metadata"));
    assert(vstd::string::is_ascii("edition"));
    assert(vstd::string::is_ascii("config"));
    assert(vstd::string::is_ascii("chill-metadata"));
    assert(vstd::string::is_ascii("wallet"));
}

/// The Token Metadata account of `mint`.
pub fn metadata(mint: &Pubkey) -> (r: Pubkey)
    ensures
        r@ == spec_metadata_address(mint@, token_metadata_program_id_bytes()),
{
    let program = token_metadata_program_id();
    let mut seeds: Vec<Vec<u8>> = Vec::new();
    seeds.push(str_bytes("metadata"));
    seeds.push(key_bytes(&program));
    seeds.push(key_bytes(mint));
    proof {
        lemma_seed_strings();
        assert(seeds_view(seeds@) =~= seq!["metadata".spec_bytes(), program@, mint@]);
    }
    find_program_address(&seeds, &program).0
}

/// The Token Metadata master edition account of `mint`.
pub fn master_edition(mint: &Pubkey) -> (r: Pubkey)
    ensures
        r@ == spec_master_edition_address(mint@, token_metadata_program_id_bytes()),
{
    let program = token_metadata_program_id();
    let mut seeds: Vec<Vec<u8>> = Vec::new();
    seeds.push(str_bytes("metadata"));
    seeds.push(key_bytes(&program));
    seeds.push(key_bytes(mint));
    seeds.push(str_bytes("edition"));
    proof {
        lemma_seed_strings();
        assert(seeds_view(seeds@) =~= seq![
            "metadata".spec_bytes(),
            program@,
            mint@,
            "edition".spec_bytes(),
        ]);
    }
    find_program_address(&seeds, &program).0
}

/// The bytes of the Token Metadata program's address.
pub open spec fn token_metadata_program_id_bytes() -> Seq<u8> {
    seq![11u8, 112, 101, 177, 227, 209, 124, 69, 56, 157, 82, 127, 107, 4, 195, 205, 88, 184, 108, 115, 26, 160, 253, 181, 73, 182, 209, 188, 3, 248, 41, 70]
}

/// The bytes of the SPL Token program's address.
pub open spec fn spl_token_id_bytes() -> Seq<u8> {
    seq![6u8, 221, 246, 225, 215, 101, 161, 147, 217, 203, 225, 70, 206, 235, 121, 172, 28, 180, 133, 237, 95, 91, 55, 145, 58, 140, 245, 133, 126, 255, 0, 169]
}

/// The bytes of the wallet program's address.
pub open spec fn wallet_program_id_bytes() -> Seq<u8> {
    seq![123u8, 38, 208, 215, 219, 91, 102, 250, 238, 41, 156, 236, 166, 58, 165, 174, 122, 104, 208, 1, 19, 133, 229, 201, 220, 117, 21, 238, 116, 153, 171, 83]
}

} // verus!
