use vstd::prelude::*;
use vstd::string::StringSliceAdditionalSpecFns;
use crate::api::pda::{chill_metadata, config as config_address};
use crate::api::state::{mint_share_sum, sum_mint_shares, sum_transaction_shares, transaction_share_sum};
use crate::nft::error::{nft_error, ErrorCode};
use crate::nft::state::{
    addresses_distinct, recipients_valid, ChillNftMetadata, Config, Fees, NftType, Recipient,
    AUTHORITY_SHARE,
};
use crate::nft::utils::{
    calculate_amounts, check_recipients, chill_transfers, lemma_checked_accounts_split_fee,
    spec_amounts, spec_check_recipients, spec_transfers, transfers_view, Creator, NftArgs,
    TokenBuilder,
};
use crate::instruction::{metas_view, AccountMeta, Instruction};
use crate::nft::metaplex_adapter::{
    create_metadata_accounts_v3, create_metadata_accounts_v3_args, creator_tuples,
    creator_tuples_view, token_metadata_instruction, update_metadata_accounts_v2_args,
    update_metadata_accounts_v2_data, Collection, DataV2View, Uses,
};
use crate::pda::{
    metadata, program_address, rent_sysvar_id, rent_sysvar_id_bytes, spec_metadata_address,
    system_program_id, token_metadata_program_id, token_metadata_program_id_bytes,
};
use vstd::utf8::encode_utf8;
use crate::program_error::ProgramErrorCode;
use crate::pubkey::Pubkey;
use crate::token::AccountInfo;

verus! {

/// Why `initialize` refuses a list of recipients, checked in order:
/// duplicate addresses, more than three recipients, or shares that do not
/// each add up to 100.
pub open spec fn initialize_error(rs: Seq<Recipient>) -> Option<ProgramErrorCode> {
    if !addresses_distinct(rs) {
        Some(nft_error(ErrorCode::DuplicateRecipients))
    } else if rs.len() > Config::MAX_RECIPIENT_NUMBER {
        Some(nft_error(ErrorCode::MaximumRecipientsNumberExceeded))
    } else if rs.len() > 0 && (mint_share_sum(rs) != 100 || transaction_share_sum(rs) != 100) {
        Some(nft_error(ErrorCode::InvalidShares))
    } else {
        None
    }
}

/// Whether two recipients share an address.
pub fn has_duplicate_addresses(recipients: &Vec<Recipient>) -> (r: bool)
    ensures
        r == !addresses_distinct(recipients@),
{
    let mut i: usize = 0;
    while i < recipients.len()
        invariant
            i <= recipients@.len(),
            forall|a: int, b: int|
                0 <= a < i && 0 <= b < i && a != b ==> #[trigger] recipients@[a].address@
                    != #[trigger] recipients@[b].address@,
        decreases recipients@.len() - i,
    {
        let mut j: usize = 0;
        while j < i
            invariant
                j <= i < recipients@.len(),
                forall|b: int| 0 <= b < j ==> #[trigger] recipients@[b].address@ != recipients@[i as int].address@,
            decreases i - j,
        {
            if recipients[j].address.same(&recipients[i].address) {
                return true;
            }
            j = j + 1;
        }
        i = i + 1;
    }
    false
}

/// Sets up the NFT program's configuration for `chill_mint`: the fees, the
/// primary wallet and the recipients of mint fees, which must have distinct
/// addresses, be at most three, and, where there are any, have mint shares
/// and transaction shares that each add up to 100. The bump is that of the
/// configuration's address under `program_id`.
pub fn initialize(
    program_id: &Pubkey,
    primary_wallet: &Pubkey,
    chill_mint: &Pubkey,
    fees: Fees,
    recipients: Vec<Recipient>,
) -> (r: Result<Config, ProgramErrorCode>)
    ensures
        initialize_error(recipients@) matches Some(e) ==> r == Err::<Config, ProgramErrorCode>(e),
        initialize_error(recipients@) is None ==> r is Ok,
        r matches Ok(c) ==> {
            &&& c.bump == program_address(seq!["config".spec_bytes(), chill_mint@], program_id@).1
            &&& c.mint@ == chill_mint@
            &&& c.primary_wallet@ == primary_wallet@
            &&& c.fees == fees
            &&& c.recipients@ == recipients@
            &&& recipients_valid(c.recipients@)
        },
{
    if has_duplicate_addresses(&recipients) {
        return Err(ErrorCode::DuplicateRecipients.to_program_error());
    }
    if recipients.len() > Config::MAX_RECIPIENT_NUMBER {
        return Err(ErrorCode::MaximumRecipientsNumberExceeded.to_program_error());
    }
    if recipients.len() > 0 {
        let mint_share_sum = sum_mint_shares(&recipients);
        let transaction_share_sum = sum_transaction_shares(&recipients);
        if mint_share_sum != 100 {
            return Err(ErrorCode::InvalidShares.to_program_error());
        }
        if transaction_share_sum != 100 {
            return Err(ErrorCode::InvalidShares.to_program_error());
        }
    }
    let (_, bump) = config_address(chill_mint, program_id);
    Ok(Config { bump, primary_wallet: *primary_wallet, mint: *chill_mint, fees, recipients })
}

/// A creator as a value: address, whether it has signed, share.
pub open spec fn creator_view(c: Creator) -> (Seq<u8>, bool, u8) {
    (c.address@, c.verified, c.share)
}

/// The creators of a new NFT: the primary wallet alone with the whole share,
/// or, where another user creates it, the primary wallet with 2 percent,
/// signed, and the user with the other 98, not yet signed.
pub open spec fn spec_creators(primary_wallet: Seq<u8>, creator: Option<Pubkey>) -> Seq<
    (Seq<u8>, bool, u8),
> {
    match creator {
        Some(c) => if c@ != primary_wallet {
            seq![(primary_wallet, true, 2u8), (c@, false, 98u8)]
        } else {
            seq![(primary_wallet, true, 100u8)]
        },
        None => seq![(primary_wallet, true, 100u8)],
    }
}

/// The creators of a new NFT; their shares add up to 100.
pub fn nft_creators(primary_wallet: &Pubkey, creator: Option<Pubkey>) -> (r: Vec<Creator>)
    ensures
        r@.map_values(|c: Creator| creator_view(c)) == spec_creators(primary_wallet@, creator),
        r@.len() == 1 ==> r@[0].share == 100,
        r@.len() == 2 ==> r@[0].share + r@[1].share == 100,
{
    let mut r: Vec<Creator> = Vec::new();
    match creator {
        Some(c) if !c.same(primary_wallet) => {
            r.push(Creator { address: *primary_wallet, verified: true, share: AUTHORITY_SHARE });
            r.push(Creator { address: c, verified: false, share: 100 - AUTHORITY_SHARE });
        },
        _ => {
            r.push(Creator { address: *primary_wallet, verified: true, share: 100 });
        },
    }
    assert(r@.map_values(|c: Creator| creator_view(c)) =~= spec_creators(primary_wallet@, creator));
    r
}

/// What minting an NFT records and pays: the program's record of the NFT,
/// the metadata that the Token Metadata program is asked to create, and the
/// token transfers of the mint fee.
pub struct MintNftPlan {
    pub chill_metadata: ChillNftMetadata,
    pub token_builder: TokenBuilder,
    pub metadata_instruction: Instruction,
    pub transfers: Vec<(Pubkey, u64)>,
}

/// Decides the minting of an NFT of `nft_type`: its record, with the bump of
/// its record's address, its metadata with the creators of `nft_creators`
/// and the instruction that creates it (paid by `payer`, with the primary
/// wallet as mint and update authority),
/// and, once the recipients' token accounts pass `check_recipients`, the
/// transfers of the mint fee as `calculate_amounts` splits it, from the
/// payer's token account to every other account. Refused with the error of
/// `check_recipients` where the accounts do not pass.
pub fn mint_nft(
    program_id: &Pubkey,
    primary_wallet: &Pubkey,
    payer: &Pubkey,
    nft_mint: &Pubkey,
    config: &Config,
    chill_payer_token_account: &Pubkey,
    remaining_accounts: &[AccountInfo],
    nft_type: NftType,
    args: NftArgs,
    creator: Option<Pubkey>,
) -> (r: Result<MintNftPlan, ProgramErrorCode>)
    requires
        recipients_valid(config@.recipients),
        encode_utf8(args.name@).len() <= u32::MAX,
        encode_utf8(args.symbol@).len() <= u32::MAX,
        encode_utf8(args.uri@).len() <= u32::MAX,
    ensures
        r is Ok <==> spec_check_recipients(config@, remaining_accounts@) is Ok,
        r matches Err(e) ==> spec_check_recipients(config@, remaining_accounts@) == Err::<
            (),
            ProgramErrorCode,
        >(e),
        r matches Ok(p) ==> {
            &&& p.chill_metadata.bump == program_address(
                seq!["chill-metadata".spec_bytes(), nft_mint@],
                program_id@,
            ).1
            &&& p.chill_metadata.nft_type == nft_type
            &&& p.token_builder.name@ == args.name@
            &&& p.token_builder.symbol@ == args.symbol@
            &&& p.token_builder.uri@ == args.uri@
            &&& p.token_builder.seller_fee_basis_points == args.fees
            &&& p.token_builder.creators matches Some(cs) && cs@.map_values(
                |c: Creator| creator_view(c),
            ) == spec_creators(primary_wallet@, creator)
            &&& p.metadata_instruction.program_id@ == token_metadata_program_id_bytes()
            &&& metas_view(p.metadata_instruction.accounts@) == seq![
                (spec_metadata_address(nft_mint@, token_metadata_program_id_bytes()), false, true),
                (nft_mint@, false, false),
                (primary_wallet@, true, false),
                (payer@, true, true),
                (primary_wallet@, true, false),
                (Pubkey::zero_bytes(), false, false),
                (rent_sysvar_id_bytes(), false, false),
            ]
            &&& p.metadata_instruction.data@ == seq![33u8] + create_metadata_accounts_v3_args(
                DataV2View {
                    name: args.name@,
                    symbol: args.symbol@,
                    uri: args.uri@,
                    seller_fee_basis_points: args.fees,
                    creators: Some(spec_creators(primary_wallet@, creator)),
                    collection: None,
                    uses: None,
                },
                true,
            )
            &&& transfers_view(p.transfers@) == (if config@.recipients.len() == 0 {
                Seq::empty()
            } else {
                spec_transfers(
                    chill_payer_token_account@,
                    remaining_accounts@,
                    spec_amounts(config@, config@.fees.fee_of(nft_type), remaining_accounts@),
                    remaining_accounts@.len() as int,
                )
            })
        },
{
    let (_, bump) = chill_metadata(nft_mint, program_id);
    let record = ChillNftMetadata { bump, nft_type };
    let creators = nft_creators(primary_wallet, creator);
    let tuples = creator_tuples(&creators);
    assert(creator_tuples_view(tuples@).len() == tuples@.len());
    assert(creators@.map_values(|c: Creator| creator_view(c)).len() == creators@.len());
    assert(tuples@.len() <= 2);
    let (metas, data) = create_metadata_accounts_v3(
        metadata(nft_mint).0,
        nft_mint.0,
        primary_wallet.0,
        payer.0,
        primary_wallet.0,
        true,
        system_program_id().0,
        Some(rent_sysvar_id().0),
        args.name.clone(),
        args.symbol.clone(),
        args.uri.clone(),
        args.fees,
        Some(tuples),
        true,
    );
    let metadata_instruction = token_metadata_instruction(metas, data);
    let token_builder = TokenBuilder {
        name: args.name,
        symbol: args.symbol,
        uri: args.uri,
        creators: Some(creators),
        seller_fee_basis_points: args.fees,
    };
    match check_recipients(config, remaining_accounts) {
        Ok(()) => {},
        Err(e) => {
            return Err(e);
        },
    }
    proof {
        lemma_checked_accounts_split_fee(config@, remaining_accounts@, nft_type);
    }
    let amounts = match calculate_amounts(config, remaining_accounts, nft_type) {
        Ok(a) => a,
        Err(e) => {
            return Err(e);
        },
    };
    let transfers = chill_transfers(chill_payer_token_account, remaining_accounts, &amounts);
    Ok(MintNftPlan { chill_metadata: record, token_builder, metadata_instruction, transfers })
}

/// What an update of an NFT keeps of its metadata: its creators, collection
/// and uses.
#[derive(Clone, Debug)]
pub struct KeptMetadata {
    pub creators: Option<Vec<Creator>>,
    pub collection: Option<Collection>,
    pub uses: Option<Uses>,
}

/// The data that an update of an NFT gives its metadata: the new name,
/// symbol, URI and seller fee, and the creators, collection and uses kept.
pub open spec fn updated_data(kept: KeptMetadata, args: NftArgs) -> DataV2View {
    DataV2View {
        name: args.name@,
        symbol: args.symbol@,
        uri: args.uri@,
        seller_fee_basis_points: args.fees,
        creators: match kept.creators {
            Some(cs) => Some(cs@.map_values(|c: Creator| creator_view(c))),
            None => None,
        },
        collection: match kept.collection {
            Some(c) => Some((c.verified, c.key@)),
            None => None,
        },
        uses: match kept.uses {
            Some(u) => Some((u.use_method, u.remaining, u.total)),
            None => None,
        },
    }
}

/// The Token Metadata instruction that replaces an NFT's name, symbol, URI
/// and seller fee, keeping its creators, collection and uses: it names the
/// metadata account, written, and the primary wallet as update authority,
/// signing, and carries the new data with no new update authority, no
/// change of the primary-sale flag and none of mutability.
pub fn update_nft(
    metadata: &Pubkey,
    primary_wallet: &Pubkey,
    kept: KeptMetadata,
    args: NftArgs,
) -> (r: Instruction)
    requires
        encode_utf8(args.name@).len() <= u32::MAX,
        encode_utf8(args.symbol@).len() <= u32::MAX,
        encode_utf8(args.uri@).len() <= u32::MAX,
        kept.creators matches Some(cs) ==> cs@.len() <= u32::MAX,
    ensures
        r.program_id@ == token_metadata_program_id_bytes(),
        metas_view(r.accounts@) == seq![(metadata@, false, true), (primary_wallet@, true, false)],
        r.data@ == seq![15u8] + update_metadata_accounts_v2_args(
            Some(updated_data(kept, args)),
            None,
            None,
            None,
        ),
{
    let ghost view = updated_data(kept, args);
    let creators = match &kept.creators {
        Some(cs) => {
            let t = creator_tuples(cs);
            assert(cs@.map_values(|c: Creator| creator_view(c)).len() == cs@.len());
            assert(creator_tuples_view(t@).len() == t@.len());
            Some(t)
        },
        None => None,
    };
    let collection = match kept.collection {
        Some(c) => Some((c.verified, c.key.0)),
        None => None,
    };
    let uses = match kept.uses {
        Some(u) => Some((u.use_method, u.remaining, u.total)),
        None => None,
    };
    let data = update_metadata_accounts_v2_data(
        metadata.0,
        primary_wallet.0,
        args.name,
        args.symbol,
        args.uri,
        args.fees,
        creators,
        collection,
        uses,
        None,
    );
    let mut accounts: Vec<AccountMeta> = Vec::new();
    accounts.push(AccountMeta::new(*metadata, false));
    accounts.push(AccountMeta::new_readonly(*primary_wallet, true));
    assert(metas_view(accounts@) =~= seq![(metadata@, false, true), (primary_wallet@, true, false)]);
    Instruction { program_id: token_metadata_program_id(), accounts, data }
}

/// An update of an NFT changes only its name, symbol, URI and seller fee: the
/// data it gives the metadata carries the new ones from `args` and exactly
/// the creators (each with its address, signature and share, in order), the
/// collection and the uses that the metadata already has.
pub proof fn lemma_update_keeps_metadata(kept: KeptMetadata, args: NftArgs)
    ensures
        updated_data(kept, args).name == args.name@,
        updated_data(kept, args).symbol == args.symbol@,
        updated_data(kept, args).uri == args.uri@,
        updated_data(kept, args).seller_fee_basis_points == args.fees,
        updated_data(kept, args).creators is Some <==> kept.creators is Some,
        kept.creators matches Some(cs) ==> {
            let kept_creators = updated_data(kept, args).creators->Some_0;
            &&& kept_creators.len() == cs@.len()
            &&& forall|i: int|
                0 <= i < cs@.len() ==> {
                    &&& (#[trigger] kept_creators[i]).0 == cs@[i].address@
                    &&& kept_creators[i].1 == cs@[i].verified
                    &&& kept_creators[i].2 == cs@[i].share
                }
        },
        updated_data(kept, args).collection is Some <==> kept.collection is Some,
        kept.collection matches Some(c) ==> updated_data(kept, args).collection == Some(
            (c.verified, c.key@),
        ),
        updated_data(kept, args).uses is Some <==> kept.uses is Some,
        kept.uses matches Some(u) ==> updated_data(kept, args).uses == Some(
            (u.use_method, u.remaining, u.total),
        ),
{
}

} // verus!
