use vstd::prelude::*;
use crate::nft::program::{creator_view, nft_creators, spec_creators};
use crate::instruction::{metas_view, AccountMeta, Instruction};
use crate::nft::metaplex_adapter::{
    creator_tuples, creator_tuples_view, update_metadata_accounts_v2_args, update_metadata_accounts_v2_data,
    Collection, DataV2View, Uses,
};
use crate::cli::cli::Cluster;
use crate::cli::keys::CliErrorCode;
use crate::nft::utils::Creator;
use crate::pda::{
    metadata, spec_metadata_address, token_metadata_program_id, token_metadata_program_id_bytes,
};
use crate::pubkey::Pubkey;
use vstd::utf8::encode_utf8;

verus! {

/// The token account to use of those that an owner holds of a mint: none
/// where it holds none, its associated token account where that is among
/// them, else the first.
pub fn find_token_address(token_accounts: &[Pubkey], associated: &Pubkey) -> (r: Option<Pubkey>)
    ensures
        token_accounts@.len() == 0 ==> r is None,
        token_accounts@.len() > 0 && (exists|i: int|
            0 <= i < token_accounts@.len() && (#[trigger] token_accounts@[i])@ == associated@)
            ==> r == Some(*associated),
        token_accounts@.len() > 0 && !(exists|i: int|
            0 <= i < token_accounts@.len() && (#[trigger] token_accounts@[i])@ == associated@)
            ==> r == Some(token_accounts@[0]),
{
    if token_accounts.len() == 0 {
        return None;
    }
    let mut i: usize = 0;
    while i < token_accounts.len()
        invariant
            i <= token_accounts@.len(),
            forall|j: int| 0 <= j < i ==> (#[trigger] token_accounts@[j])@ != associated@,
        decreases token_accounts@.len() - i,
    {
        if token_accounts[i].same(associated) {
            return Some(*associated);
        }
        i = i + 1;
    }
    Some(token_accounts[0])
}

/// The sum of a list of token amounts.
pub open spec fn balance_sum(amounts: Seq<u64>) -> int
    decreases amounts.len(),
{
    if amounts.len() == 0 {
        0
    } else {
        balance_sum(amounts.drop_last()) + amounts.last()
    }
}

proof fn lemma_balance_sum_prefix(amounts: Seq<u64>, i: int)
    requires
        0 <= i <= amounts.len(),
    ensures
        0 <= balance_sum(amounts.take(i)) <= balance_sum(amounts),
    decreases amounts.len(),
{
    if i < amounts.len() {
        assert(amounts.drop_last().take(i) =~= amounts.take(i));
        lemma_balance_sum_prefix(amounts.drop_last(), i);
    } else {
        assert(amounts.take(i) =~= amounts);
        if amounts.len() > 0 {
            lemma_balance_sum_prefix(amounts.drop_last(), amounts.len() - 1);
            assert(amounts.drop_last().take(amounts.len() - 1) =~= amounts.drop_last());
        }
    }
}

/// An owner's balance of a mint: the amounts of its token accounts added up,
/// which must fit in 64 bits (the tool panics otherwise).
pub fn token_balance(amounts: &[u64]) -> (r: u64)
    requires
        balance_sum(amounts@) <= u64::MAX,
    ensures
        r == balance_sum(amounts@),
{
    let mut balance: u64 = 0;
    let mut i: usize = 0;
    while i < amounts.len()
        invariant
            i <= amounts@.len(),
            balance_sum(amounts@) <= u64::MAX,
            balance == balance_sum(amounts@.take(i as int)),
        decreases amounts@.len() - i,
    {
        proof {
            assert(amounts@.take(i + 1).drop_last() =~= amounts@.take(i as int));
            lemma_balance_sum_prefix(amounts@, i + 1);
        }
        balance = balance + amounts[i];
        i = i + 1;
    }
    proof {
        assert(amounts@.take(i as int) =~= amounts@);
    }
    balance
}

/// Whether giving an NFT to `recipient` first makes the recipient one of its
/// creators and marks its primary sale: only for a non-fungible token whose
/// update authority is the giver, given to someone else, before its primary
/// sale.
pub open spec fn updates_primary_sale(
    non_fungible: bool,
    update_authority: Seq<u8>,
    primary_sale_happened: bool,
    authority: Seq<u8>,
    recipient: Seq<u8>,
) -> bool {
    non_fungible && authority != recipient && update_authority == authority && !primary_sale_happened
}

/// The creators that an NFT gets when its update authority first gives it
/// away: the giver with 2 percent, signed, and the recipient with 98; `None`
/// where the gift changes nothing (see `updates_primary_sale`).
pub fn primary_sale_creators(
    non_fungible: bool,
    update_authority: &Pubkey,
    primary_sale_happened: bool,
    authority: &Pubkey,
    recipient: &Pubkey,
) -> (r: Option<Vec<Creator>>)
    ensures
        r is Some <==> updates_primary_sale(
            non_fungible,
            update_authority@,
            primary_sale_happened,
            authority@,
            recipient@,
        ),
        r matches Some(cs) ==> cs@.map_values(|c: Creator| creator_view(c)) == seq![
            (authority@, true, 2u8),
            (recipient@, false, 98u8),
        ],
{
    if !non_fungible || authority.same(recipient) || !update_authority.same(authority)
        || primary_sale_happened {
        return None;
    }
    let creators = nft_creators(authority, Some(*recipient));
    assert(spec_creators(authority@, Some(*recipient)) =~= seq![
        (authority@, true, 2u8),
        (recipient@, false, 98u8),
    ]);
    Some(creators)
}

/// An NFT's metadata account as the tool reads it: the update authority,
/// whether the token standard is non-fungible, whether the primary sale has
/// happened, and the data that an update carries over.
#[derive(Clone, Debug)]
pub struct NftMetadata {
    pub update_authority: Pubkey,
    pub non_fungible: bool,
    pub primary_sale_happened: bool,
    pub name: String,
    pub symbol: String,
    pub uri: String,
    pub seller_fee_basis_points: u16,
    pub collection: Option<Collection>,
    pub uses: Option<Uses>,
}

/// The data of the metadata update that gives an NFT away for the first
/// time: the name, symbol, URI, seller fee, collection and uses kept, and the
/// giver with 2 percent, signed, and the recipient with 98 as creators.
pub open spec fn primary_sale_data(m: NftMetadata, authority: Seq<u8>, recipient: Seq<u8>) -> DataV2View {
    DataV2View {
        name: m.name@,
        symbol: m.symbol@,
        uri: m.uri@,
        seller_fee_basis_points: m.seller_fee_basis_points,
        creators: Some(seq![(authority, true, 2u8), (recipient, false, 98u8)]),
        collection: match m.collection {
            Some(c) => Some((c.verified, c.key@)),
            None => None,
        },
        uses: match m.uses {
            Some(u) => Some((u.use_method, u.remaining, u.total)),
            None => None,
        },
    }
}

/// The instruction that, before `authority` gives the NFT of `nft_mint` to
/// `recipient`, makes the recipient one of its creators and marks its primary
/// sale: none where its metadata could not be read or where the gift changes
/// nothing (see `updates_primary_sale`); otherwise Token Metadata's update of
/// the NFT's metadata account, signed by the authority, with the data of
/// `primary_sale_data`, no new update authority, the primary sale marked, and
/// the mutability kept.
pub fn try_set_primary_sale_and_update_creators_ix(
    metadata_account: Option<NftMetadata>,
    authority: &Pubkey,
    nft_mint: &Pubkey,
    recipient: &Pubkey,
) -> (r: Option<Instruction>)
    requires
        metadata_account matches Some(m) ==> {
            &&& encode_utf8(m.name@).len() <= u32::MAX
            &&& encode_utf8(m.symbol@).len() <= u32::MAX
            &&& encode_utf8(m.uri@).len() <= u32::MAX
        },
    ensures
        r is Some <==> (metadata_account matches Some(m) && updates_primary_sale(
            m.non_fungible,
            m.update_authority@,
            m.primary_sale_happened,
            authority@,
            recipient@,
        )),
        r matches Some(ix) ==> {
            &&& ix.program_id@ == token_metadata_program_id_bytes()
            &&& metas_view(ix.accounts@) == seq![
                (spec_metadata_address(nft_mint@, token_metadata_program_id_bytes()), false, true),
                (authority@, true, false),
            ]
            &&& ix.data@ == seq![15u8] + update_metadata_accounts_v2_args(
                Some(primary_sale_data(metadata_account->Some_0, authority@, recipient@)),
                None,
                Some(true),
                None,
            )
        },
{
    let m = match metadata_account {
        Some(m) => m,
        None => {
            return None;
        },
    };
    let ghost gm = m;
    let creators = match primary_sale_creators(
        m.non_fungible,
        &m.update_authority,
        m.primary_sale_happened,
        authority,
        recipient,
    ) {
        Some(cs) => cs,
        None => {
            return None;
        },
    };
    let tuples = creator_tuples(&creators);
    assert(creators@.map_values(|c: Creator| creator_view(c)).len() == 2);
    assert(creator_tuples_view(tuples@).len() == tuples@.len());
    let collection = match m.collection {
        Some(c) => Some((c.verified, c.key.0)),
        None => None,
    };
    let uses = match m.uses {
        Some(u) => Some((u.use_method, u.remaining, u.total)),
        None => None,
    };
    let address = metadata(nft_mint);
    let data = update_metadata_accounts_v2_data(
        address.0,
        authority.0,
        m.name,
        m.symbol,
        m.uri,
        m.seller_fee_basis_points,
        Some(tuples),
        collection,
        uses,
        Some(true),
    );
    let mut accounts: Vec<AccountMeta> = Vec::new();
    accounts.push(AccountMeta::new(address, false));
    accounts.push(AccountMeta::new_readonly(*authority, true));
    proof {
        assert(metas_view(accounts@) =~= seq![
            (spec_metadata_address(nft_mint@, token_metadata_program_id_bytes()), false, true),
            (authority@, true, false),
        ]);
    }
    Some(Instruction { program_id: token_metadata_program_id(), accounts, data })
}

/// Refuses to transfer more tokens than the owner's token accounts hold
/// together.
pub fn check_transfer_amount(amount: u64, balance: u64) -> (r: Result<(), CliErrorCode>)
    ensures
        r is Ok <==> amount <= balance,
        r is Err ==> r == Err::<(), CliErrorCode>(CliErrorCode::NotEnoughTokens),
{
    if amount > balance {
        Err(CliErrorCode::NotEnoughTokens)
    } else {
        Ok(())
    }
}

/// The lamports that an empty account is given off mainnet: one SOL.
pub const AIRDROP_LAMPORTS: u64 = 1_000_000_000;

/// What the tool does about the balance of an account that is to pay.
#[derive(Clone, Copy, Debug, PartialEq, Eq, Structural)]
pub enum AirdropAction {
    /// The account holds lamports: nothing.
    Nothing,
    /// An empty account on mainnet: the user is told to top it up, and the
    /// tool stops.
    TopUp,
    /// An empty account elsewhere: this many lamports are requested for it.
    Airdrop(u64),
}

/// What the tool does about a paying account with `balance` lamports on
/// `cluster`.
pub fn airdrop_action(balance: u64, cluster: &Cluster) -> (r: AirdropAction)
    ensures
        balance != 0 ==> r == AirdropAction::Nothing,
        balance == 0 && cluster is Mainnet ==> r == AirdropAction::TopUp,
        balance == 0 && !(cluster is Mainnet) ==> r == AirdropAction::Airdrop(AIRDROP_LAMPORTS),
{
    if balance != 0 {
        return AirdropAction::Nothing;
    }
    match cluster {
        Cluster::Mainnet => AirdropAction::TopUp,
        _ => AirdropAction::Airdrop(AIRDROP_LAMPORTS),
    }
}

} // verus!
