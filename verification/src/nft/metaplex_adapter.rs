use vstd::prelude::*;
use vstd::utf8::encode_utf8;
use crate::instruction::{metas_view, AccountMeta, Instruction};
use crate::nft::program::creator_view;
use crate::nft::utils::Creator;
use crate::pda::{token_metadata_program_id, token_metadata_program_id_bytes};
use crate::pubkey::Pubkey;
use mpl_token_metadata::instructions::{
    CreateMetadataAccountV3 as MplCreate, CreateMetadataAccountV3InstructionArgs as MplCreateArgs,
    UpdateMetadataAccountV2 as MplUpdate, UpdateMetadataAccountV2InstructionArgs as MplUpdateArgs,
};
use mpl_token_metadata::types::{
    Collection as MplCollection, Creator as MplCreator, DataV2 as MplData, UseMethod as MplUse,
    Uses as MplUses,
};

verus! {

/// The Metaplex Token Metadata program, as a program that instructions name.
#[derive(Clone, Copy, Debug)]
pub struct TokenMetadataProgram;

impl TokenMetadataProgram {
    /// The program's address.
    pub fn id() -> (r: Pubkey)
        ensures
            r@ == token_metadata_program_id_bytes(),
    {
        token_metadata_program_id()
    }
}

/// How an NFT may be used.
#[derive(Clone, Copy, Debug, PartialEq, Eq, Structural)]
pub enum UseMethod {
    Burn,
    Multiple,
    Single,
}

/// The collection that an NFT belongs to, and whether that is verified.
#[derive(Clone, Copy, Debug)]
pub struct Collection {
    pub verified: bool,
    pub key: Pubkey,
}

/// How an NFT may be used, and how many uses are left of how many.
#[derive(Clone, Copy, Debug)]
pub struct Uses {
    pub use_method: UseMethod,
    pub remaining: u64,
    pub total: u64,
}

/// The data of an NFT's metadata that its update authority may replace, as
/// values: name, symbol, URI, seller fee, creators, collection and uses.
pub struct DataV2View {
    pub name: Seq<char>,
    pub symbol: Seq<char>,
    pub uri: Seq<char>,
    pub seller_fee_basis_points: u16,
    pub creators: Option<Seq<(Seq<u8>, bool, u8)>>,
    pub collection: Option<(bool, Seq<u8>)>,
    pub uses: Option<(UseMethod, u64, u64)>,
}

/// The Borsh encoding of the arguments of Token Metadata's
/// `UpdateMetadataAccountV2` instruction: the new data, update authority,
/// primary-sale flag and mutability, each where given.
pub uninterp spec fn update_metadata_accounts_v2_args(
    data: Option<DataV2View>,
    new_update_authority: Option<Seq<u8>>,
    primary_sale_happened: Option<bool>,
    is_mutable: Option<bool>,
) -> Seq<u8>;

/// The values of a list of creators given as tuples of address, signed and
/// share.
pub open spec fn creator_tuples_view(cs: Seq<([u8; 32], bool, u8)>) -> Seq<(Seq<u8>, bool, u8)> {
    cs.map_values(|c: ([u8; 32], bool, u8)| (c.0@, c.1, c.2))
}

/// The optional collection given as a tuple, as values.
pub open spec fn collection_tuple_view(c: Option<(bool, [u8; 32])>) -> Option<(bool, Seq<u8>)> {
    match c {
        Some(c) => Some((c.0, c.1@)),
        None => None,
    }
}

/// Calls `mpl_token_metadata::instructions::UpdateMetadataAccountV2::instruction`,
/// which builds the Token Metadata instruction that replaces a metadata
/// account's data, update authority, primary-sale flag and mutability, and
/// gives back its data: as the source shows, the discriminator 15 followed by
/// the Borsh encoding of the arguments, which is named here. The arguments
/// are the new data (the given name, symbol, URI, seller fee, creators,
/// collection and uses), no new update authority, the given primary-sale
/// flag and no change of mutability. The instruction also names the metadata
/// account, written, and the update authority, signing; those two are not
/// handed back. The encoding panics only where a string or the creators'
/// list is longer than a `u32` counts, which `requires` excludes.
#[verifier::external_body]
pub(crate) fn update_metadata_accounts_v2_data(
    metadata: [u8; 32],
    update_authority: [u8; 32],
    name: String,
    symbol: String,
    uri: String,
    seller_fee_basis_points: u16,
    creators: Option<Vec<([u8; 32], bool, u8)>>,
    collection: Option<(bool, [u8; 32])>,
    uses: Option<(UseMethod, u64, u64)>,
    primary_sale_happened: Option<bool>,
) -> (r: Vec<u8>)
    requires
        encode_utf8(name@).len() <= u32::MAX,
        encode_utf8(symbol@).len() <= u32::MAX,
        encode_utf8(uri@).len() <= u32::MAX,
        creators matches Some(cs) ==> cs@.len() <= u32::MAX,
    ensures
        r@ == seq![15u8] + update_metadata_accounts_v2_args(
            Some(
                DataV2View {
                    name: name@,
                    symbol: symbol@,
                    uri: uri@,
                    seller_fee_basis_points,
                    creators: match creators {
                        Some(cs) => Some(creator_tuples_view(cs@)),
                        None => None,
                    },
                    collection: collection_tuple_view(collection),
                    uses,
                },
            ),
            None,
            primary_sale_happened,
            None,
        ),
{
    let data = MplData {
        name, symbol, uri, seller_fee_basis_points,
        creators: creators.map(|cs| cs.into_iter().map(|(a, v, s)| MplCreator { address: a.into(), verified: v, share: s }).collect()),
        collection: collection.map(|(verified, k)| MplCollection { verified, key: k.into() }),
        uses: uses.map(|(m, remaining, total)| MplUses { use_method: [MplUse::Burn, MplUse::Multiple, MplUse::Single][m as usize].clone(), remaining, total }),
    };
    MplUpdate { metadata: metadata.into(), update_authority: update_authority.into() }
        .instruction(MplUpdateArgs { data: Some(data), new_update_authority: None, primary_sale_happened, is_mutable: None }).data
}

/// An instruction's accounts given as tuples of address, signing and
/// written, as values.
pub open spec fn meta_tuples_view(ms: Seq<([u8; 32], bool, bool)>) -> Seq<(Seq<u8>, bool, bool)> {
    ms.map_values(|m: ([u8; 32], bool, bool)| (m.0@, m.1, m.2))
}

/// The Borsh encoding of the arguments of Token Metadata's
/// `CreateMetadataAccountV3` instruction: the new metadata's data, whether it
/// stays mutable, and no collection details.
pub uninterp spec fn create_metadata_accounts_v3_args(data: DataV2View, is_mutable: bool) -> Seq<u8>;

/// Calls `mpl_token_metadata::instructions::CreateMetadataAccountV3::instruction`,
/// which builds the Token Metadata instruction that creates the metadata
/// account of a mint, with no collection details, and hands back its
/// accounts and data. As the source shows, the accounts are the metadata,
/// written; the mint; the mint authority, signing; the payer, signing and
/// written; the update authority, signing where asked; the System program;
/// and the rent sysvar where given. The data is the discriminator 33
/// followed by the Borsh encoding of the arguments, which is named here; the
/// encoding panics only where a string or the creators' list is longer than
/// a `u32` counts, which `requires` excludes.
#[verifier::external_body]
pub(crate) fn create_metadata_accounts_v3(
    metadata: [u8; 32],
    mint: [u8; 32],
    mint_authority: [u8; 32],
    payer: [u8; 32],
    update_authority: [u8; 32],
    update_authority_signs: bool,
    system_program: [u8; 32],
    rent: Option<[u8; 32]>,
    name: String,
    symbol: String,
    uri: String,
    seller_fee_basis_points: u16,
    creators: Option<Vec<([u8; 32], bool, u8)>>,
    is_mutable: bool,
) -> (r: (Vec<([u8; 32], bool, bool)>, Vec<u8>))
    requires
        encode_utf8(name@).len() <= u32::MAX,
        encode_utf8(symbol@).len() <= u32::MAX,
        encode_utf8(uri@).len() <= u32::MAX,
        creators matches Some(cs) ==> cs@.len() <= u32::MAX,
    ensures
        meta_tuples_view(r.0@) == seq![
            (metadata@, false, true),
            (mint@, false, false),
            (mint_authority@, true, false),
            (payer@, true, true),
            (update_authority@, update_authority_signs, false),
            (system_program@, false, false),
        ] + match rent {
            Some(k) => seq![(k@, false, false)],
            None => Seq::empty(),
        },
        r.1@ == seq![33u8] + create_metadata_accounts_v3_args(
            DataV2View {
                name: name@,
                symbol: symbol@,
                uri: uri@,
                seller_fee_basis_points,
                creators: match creators {
                    Some(cs) => Some(creator_tuples_view(cs@)),
                    None => None,
                },
                collection: None,
                uses: None,
            },
            is_mutable,
        ),
{
    let creators = creators.map(|cs| cs.into_iter().map(|(a, v, s)| MplCreator { address: a.into(), verified: v, share: s }).collect());
    let ix = MplCreate {
        metadata: metadata.into(), mint: mint.into(), mint_authority: mint_authority.into(), payer: payer.into(),
        update_authority: (update_authority.into(), update_authority_signs), system_program: system_program.into(), rent: rent.map(Into::into),
    }
    .instruction(MplCreateArgs { data: MplData { name, symbol, uri, seller_fee_basis_points, creators, collection: None, uses: None }, is_mutable, collection_details: None });
    (ix.accounts.iter().map(|m| (m.pubkey.to_bytes(), m.is_signer, m.is_writable)).collect(), ix.data)
}

/// The creators as tuples of address, signed and share.
pub fn creator_tuples(creators: &Vec<Creator>) -> (r: Vec<([u8; 32], bool, u8)>)
    ensures
        creator_tuples_view(r@) == creators@.map_values(|c: Creator| creator_view(c)),
{
    let mut tuples: Vec<([u8; 32], bool, u8)> = Vec::new();
    let mut i: usize = 0;
    while i < creators.len()
        invariant
            i <= creators@.len(),
            creator_tuples_view(tuples@) == creators@.subrange(0, i as int).map_values(
                |c: Creator| creator_view(c),
            ),
        decreases creators@.len() - i,
    {
        let c = creators[i];
        let ghost before = tuples@;
        tuples.push((c.address.0, c.verified, c.share));
        assert(creator_tuples_view(tuples@) =~= creator_tuples_view(before).push(creator_view(c)));
        assert(creators@.subrange(0, i + 1).map_values(|c: Creator| creator_view(c))
            =~= creators@.subrange(0, i as int).map_values(|c: Creator| creator_view(c)).push(
            creator_view(c),
        ));
        i = i + 1;
    }
    assert(creators@.subrange(0, i as int) =~= creators@);
    tuples
}

/// An instruction to the Token Metadata program with the given accounts and
/// data.
pub fn token_metadata_instruction(accounts: Vec<([u8; 32], bool, bool)>, data: Vec<u8>) -> (r: Instruction)
    ensures
        r.program_id@ == token_metadata_program_id_bytes(),
        metas_view(r.accounts@) == meta_tuples_view(accounts@),
        r.data == data,
{
    let mut metas: Vec<AccountMeta> = Vec::new();
    let mut i: usize = 0;
    while i < accounts.len()
        invariant
            i <= accounts@.len(),
            metas_view(metas@) == meta_tuples_view(accounts@.subrange(0, i as int)),
        decreases accounts@.len() - i,
    {
        let (k, signs, written) = accounts[i];
        let ghost before = metas@;
        metas.push(AccountMeta { pubkey: Pubkey(k), is_signer: signs, is_writable: written });
        assert(metas_view(metas@) =~= metas_view(before).push((k@, signs, written)));
        assert(meta_tuples_view(accounts@.subrange(0, i + 1)) =~= meta_tuples_view(
            accounts@.subrange(0, i as int),
        ).push((k@, signs, written)));
        i = i + 1;
    }
    assert(accounts@.subrange(0, i as int) =~= accounts@);
    Instruction { program_id: token_metadata_program_id(), accounts: metas, data }
}

} // verus!
