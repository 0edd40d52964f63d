use vstd::prelude::*;
use vstd::string::StringSliceAdditionalSpecFns;
use crate::api::instruction::{mint_nft_metas, recipient_metas, MintNftArgs};
use crate::api::state::{decode_config, Config, RecipientView};
use crate::chill_program::error::ChillError;
use crate::chill_program::asserts::{
    chill_error, config_data_error, config_pubkey, is_recipient, owner, recipients, recipients_faults,
    token_account, token_account_error, unpack_fault,
};
use crate::nft::program::{creator_view, nft_creators, spec_creators};
use crate::nft::utils::{
    first_fault, lemma_first_fault_extends, lemma_first_fault_none, lemma_first_fault_step,
    token_owner_of, transfers_view, Creator, TokenBuilder,
};
use crate::pda::{
    master_edition, metadata, program_address, rent_sysvar_id, rent_sysvar_id_bytes,
    spec_master_edition_address, spec_metadata_address, system_program_id,
    token_metadata_program_id_bytes,
};
use crate::instruction::{metas_view, Instruction};
use crate::nft::metaplex_adapter::{
    create_metadata_accounts_v3, create_metadata_accounts_v3_args, creator_tuples, creator_tuples_view,
    token_metadata_instruction, DataV2View,
};
use crate::pubkey::Pubkey as Key;
use vstd::utf8::encode_utf8;
use crate::nft::state::NftType;
use crate::program_error::ProgramErrorCode;
use crate::pubkey::Pubkey;
use crate::token::{unpack_token_account, AccountInfo};

verus! {

/// The position of the first recipient with address `address`, or the number
/// of recipients where none has it.
pub open spec fn recipient_view_index(rs: Seq<RecipientView>, address: Seq<u8>) -> nat
    decreases rs.len(),
{
    if rs.len() == 0 {
        0
    } else if rs[0].address == address {
        0
    } else {
        1 + recipient_view_index(rs.drop_first(), address)
    }
}

pub proof fn lemma_recipient_view_index(rs: Seq<RecipientView>, address: Seq<u8>)
    ensures
        recipient_view_index(rs, address) <= rs.len(),
        recipient_view_index(rs, address) < rs.len() ==> rs[recipient_view_index(
            rs,
            address,
        ) as int].address == address,
        forall|k: int|
            0 <= k < recipient_view_index(rs, address) ==> (#[trigger] rs[k]).address != address,
    decreases rs.len(),
{
    if rs.len() > 0 && rs[0].address != address {
        lemma_recipient_view_index(rs.drop_first(), address);
        assert forall|k: int| 0 <= k < recipient_view_index(rs, address) implies (#[trigger] rs[
            k
        ]).address != address by {
            if k > 0 {
                assert(rs[k] == rs.drop_first()[k - 1]);
            }
        }
    }
}

/// What the holder of token account `a` is paid of `price`: the mint share
/// of the first recipient whose address holds it, rounded down.
pub open spec fn chill_amount(rs: Seq<RecipientView>, price: u64, a: AccountInfo) -> int {
    (price * rs[recipient_view_index(rs, token_owner_of(a)) as int].mint_share) / 100
}

/// The checks of the accounts' data, read as token accounts.
pub open spec fn unpack_faults(accounts: Seq<AccountInfo>) -> Seq<Option<ProgramErrorCode>> {
    Seq::new(accounts.len(), |i: int| unpack_fault(accounts[i]))
}

/// Whether the data of accounts `0 ..= i` read as token accounts.
pub open spec fn no_unpack_fault_through(accounts: Seq<AccountInfo>, i: int) -> bool {
    forall|j: int| 0 <= j <= i ==> unpack_fault(#[trigger] accounts[j]) is None
}

/// The transfers of the price's parts to the first `n` accounts, in order,
/// leaving out accounts that `owner` holds.
pub open spec fn spec_chill_transfers(
    owner: Seq<u8>,
    rs: Seq<RecipientView>,
    price: u64,
    accounts: Seq<AccountInfo>,
    n: int,
) -> Seq<(Seq<u8>, u64)>
    decreases n,
{
    if n <= 0 {
        Seq::empty()
    } else {
        let before = spec_chill_transfers(owner, rs, price, accounts, n - 1);
        if token_owner_of(accounts[n - 1]) == owner {
            before
        } else {
            before.push((accounts[n - 1].key@, chill_amount(rs, price, accounts[n - 1]) as u64))
        }
    }
}

/// The inputs on which paying the recipients does not panic: each account
/// read before a fault, and not held by the payer, is held by a recipient
/// whose share of the price fits in 64 bits before the division.
pub open spec fn chill_transfers_computable(
    owner: Seq<u8>,
    rs: Seq<RecipientView>,
    price: u64,
    accounts: Seq<AccountInfo>,
) -> bool {
    forall|i: int|
        0 <= i < accounts.len() && no_unpack_fault_through(accounts, i) && token_owner_of(
            accounts[i],
        ) != owner ==> recipient_view_index(rs, #[trigger] token_owner_of(accounts[i]))
            < rs.len() && price * rs[recipient_view_index(rs, token_owner_of(accounts[i])) as int].mint_share
            <= u64::MAX
}

/// The token transfers that pay each recipient's token account its share of
/// `price`, skipping the accounts that the payer `owner` holds; refused with
/// the first account whose data is no initialized token account.
pub fn transfer_chill(
    owner: &Pubkey,
    recipients_token_accounts: &[AccountInfo],
    config: &Config,
    price: u64,
) -> (r: Result<Vec<(Pubkey, u64)>, ProgramErrorCode>)
    requires
        chill_transfers_computable(owner@, config@.recipients, price, recipients_token_accounts@),
    ensures
        first_fault(unpack_faults(recipients_token_accounts@)) matches Some(e) ==> r == Err::<
            Vec<(Pubkey, u64)>,
            ProgramErrorCode,
        >(e),
        r is Ok <==> first_fault(unpack_faults(recipients_token_accounts@)) is None,
        r matches Ok(t) ==> transfers_view(t@) == spec_chill_transfers(
            owner@,
            config@.recipients,
            price,
            recipients_token_accounts@,
            recipients_token_accounts@.len() as int,
        ),
{
    let ghost faults = unpack_faults(recipients_token_accounts@);
    let ghost rs = config@.recipients;
    let mut transfers: Vec<(Pubkey, u64)> = Vec::new();
    let mut i: usize = 0;
    while i < recipients_token_accounts.len()
        invariant
            i <= recipients_token_accounts@.len(),
            faults == unpack_faults(recipients_token_accounts@),
            rs == config@.recipients,
            chill_transfers_computable(owner@, rs, price, recipients_token_accounts@),
            first_fault(faults.take(i as int)) is None,
            i > 0 ==> no_unpack_fault_through(recipients_token_accounts@, i - 1),
            transfers_view(transfers@) == spec_chill_transfers(
                owner@,
                rs,
                price,
                recipients_token_accounts@,
                i as int,
            ),
        decreases recipients_token_accounts@.len() - i,
    {
        let account = &recipients_token_accounts[i];
        proof {
            lemma_first_fault_step(faults, i as int);
        }
        let token_account = match unpack_token_account(account.data.as_slice()) {
            Ok(a) => a,
            Err(e) => {
                proof {
                    lemma_first_fault_extends(faults, i + 1);
                }
                return Err(e);
            },
        };
        assert(no_unpack_fault_through(recipients_token_accounts@, i as int));
        if !owner.same(&token_account.owner) {
            assert(token_owner_of(recipients_token_accounts@[i as int]) == token_account.owner@);
            proof {
                lemma_recipient_view_index(rs, token_account.owner@);
            }
            let mut k: usize = 0;
            while k < config.recipients.len()
                invariant
                    k <= config.recipients@.len(),
                    rs == config@.recipients,
                    k <= recipient_view_index(rs, token_account.owner@),
                    forall|kk: int|
                        0 <= kk < recipient_view_index(rs, token_account.owner@) ==> (
                        #[trigger] rs[kk]).address != token_account.owner@,
                    recipient_view_index(rs, token_account.owner@) < rs.len(),
                    rs[recipient_view_index(rs, token_account.owner@) as int].address
                        == token_account.owner@,
                ensures
                    k == recipient_view_index(rs, token_account.owner@),
                decreases config.recipients@.len() - k,
            {
                if config.recipients[k].address.same(&token_account.owner) {
                    assert(rs[k as int] == config.recipients@[k as int]@);
                    break;
                }
                assert(rs[k as int] == config.recipients@[k as int]@);
                k = k + 1;
            }
            assert(k == recipient_view_index(rs, token_account.owner@));
            let share = config.recipients[k].mint_share;
            assert(rs[k as int] == config.recipients@[k as int]@);
            let amount = price * (share as u64) / 100;
            let ghost before = transfers@;
            transfers.push((account.key, amount));
            proof {
                assert(transfers_view(transfers@) =~= transfers_view(before).push(
                    (account.key@, amount),
                ));
            }
        }
        i = i + 1;
    }
    proof {
        assert(faults.take(i as int) =~= faults);
    }
    Ok(transfers)
}

/// The number of accounts that minting reads before the recipients' token
/// accounts.
pub const MINT_NFT_FIXED_ACCOUNTS: usize = 13;

/// What minting an NFT sends and records: the token transfers of the price,
/// the metadata that the Token Metadata program is asked to create at its
/// metadata and master edition accounts, the instruction that creates the
/// metadata, and whether the user is to sign the metadata as its creator and
/// mark its primary sale.
pub struct MintNftPlan {
    pub transfers: Vec<(Pubkey, u64)>,
    pub token_builder: TokenBuilder,
    pub metadata_instruction: Instruction,
    pub metadata: Pubkey,
    pub master_edition: Pubkey,
    pub sign_as_user: bool,
}

/// Why minting an NFT of `nft_type` is refused, checked in order: missing
/// accounts, the configuration's owner, address and data, missing
/// recipients' accounts, the recipients' token accounts, the user's token
/// account, and a kind of NFT that the configuration holds no fee for.
pub open spec fn mint_nft_error(
    program_id: Seq<u8>,
    accounts: Seq<AccountInfo>,
    nft_type: NftType,
) -> Option<
    ProgramErrorCode,
> {
    if accounts.len() < 13 {
        Some(ProgramErrorCode::NotEnoughAccountKeys)
    } else if accounts[2].owner@ != program_id {
        Some(ProgramErrorCode::IllegalOwner)
    } else if accounts[2].key@ != program_address(
        seq!["config".spec_bytes(), accounts[3].key@],
        program_id,
    ).0 {
        Some(chill_error(ChillError::ConfigHasWrongPubkey))
    } else if config_data_error(accounts[2].data@) is Some {
        config_data_error(accounts[2].data@)
    } else {
        let c = decode_config(accounts[2].data@)->Some_0;
        let n = c.recipients.len() as int;
        if accounts.len() < 13 + n {
            Some(ProgramErrorCode::NotEnoughAccountKeys)
        } else if first_fault(recipients_faults(c, accounts.subrange(13, 13 + n))) is Some {
            first_fault(recipients_faults(c, accounts.subrange(13, 13 + n)))
        } else if token_account_error(accounts[4], accounts[1].key@, accounts[3].key@) is Some {
            token_account_error(accounts[4], accounts[1].key@, accounts[3].key@)
        } else if c.fees.fee_of(nft_type) is None {
            Some(ProgramErrorCode::InvalidInstructionData)
        } else {
            None
        }
    }
}

/// Decides the minting of an NFT for a user who pays the configured fee of
/// its kind in the configured token. The accounts are, in order: the authority, the user, the
/// configuration, the token's mint, the user's token account, the NFT's mint,
/// the NFT's token account, its metadata, its master edition, the system,
/// rent, token and Token Metadata programs, then a
/// token account for each recipient. The authority alone creates the NFT
/// when it is the user; otherwise it keeps 2 percent and the user, who signs
/// afterwards, 98.
pub fn process_mint_nft(
    program_id: &Pubkey,
    accounts: &[AccountInfo],
    args: MintNftArgs,
) -> (r: Result<MintNftPlan, ProgramErrorCode>)
    requires
        encode_utf8(args.name@).len() <= u32::MAX,
        encode_utf8(args.symbol@).len() <= u32::MAX,
        encode_utf8(args.uri@).len() <= u32::MAX,
        accounts@.len() >= 13 ==> (decode_config(accounts@[2].data@) matches Some(c) ==> (
        c.fees.fee_of(args.nft_type) matches Some(price) ==> forall|k: int|
            0 <= k < c.recipients.len() ==> price * (#[trigger] c.recipients[k]).mint_share
                <= u64::MAX)),
    ensures
        mint_nft_error(program_id@, accounts@, args.nft_type) matches Some(e) ==> r == Err::<
            MintNftPlan,
            ProgramErrorCode,
        >(e),
        mint_nft_error(program_id@, accounts@, args.nft_type) is None ==> r is Ok,
        r matches Ok(p) ==> {
            let c = decode_config(accounts@[2].data@)->Some_0;
            let n = c.recipients.len() as int;
            &&& transfers_view(p.transfers@) == spec_chill_transfers(
                accounts@[1].key@,
                c.recipients,
                c.fees.fee_of(args.nft_type)->Some_0,
                accounts@.subrange(13, 13 + n),
                n,
            )
            &&& p.token_builder.creators matches Some(cs) && cs@.map_values(
                |cr: Creator| creator_view(cr),
            ) == spec_creators(accounts@[0].key@, Some(accounts@[1].key))
            &&& p.token_builder.name@ == args.name@
            &&& p.token_builder.symbol@ == args.symbol@
            &&& p.token_builder.uri@ == args.uri@
            &&& p.token_builder.seller_fee_basis_points == args.fees
            &&& p.metadata@ == spec_metadata_address(
                accounts@[5].key@,
                token_metadata_program_id_bytes(),
            )
            &&& p.master_edition@ == spec_master_edition_address(
                accounts@[5].key@,
                token_metadata_program_id_bytes(),
            )
            &&& p.sign_as_user == (accounts@[0].key@ != accounts@[1].key@)
            &&& p.metadata_instruction.program_id@ == token_metadata_program_id_bytes()
            &&& metas_view(p.metadata_instruction.accounts@) == seq![
                (spec_metadata_address(accounts@[5].key@, token_metadata_program_id_bytes()), false, true),
                (accounts@[5].key@, false, false),
                (accounts@[0].key@, true, false),
                (accounts@[1].key@, true, true),
                (accounts@[0].key@, true, false),
                (Key::zero_bytes(), false, false),
                (rent_sysvar_id_bytes(), false, false),
            ]
            &&& p.metadata_instruction.data@ == seq![33u8] + create_metadata_accounts_v3_args(
                DataV2View {
                    name: args.name@,
                    symbol: args.symbol@,
                    uri: args.uri@,
                    seller_fee_basis_points: args.fees,
                    creators: Some(spec_creators(accounts@[0].key@, Some(accounts@[1].key))),
                    collection: None,
                    uses: None,
                },
                true,
            )
        },
{
    if accounts.len() < MINT_NFT_FIXED_ACCOUNTS {
        return Err(ProgramErrorCode::NotEnoughAccountKeys);
    }
    let authority = &accounts[0];
    let user = &accounts[1];
    let config_account = &accounts[2];
    let chill_mint = &accounts[3];
    let chill_token_account = &accounts[4];
    let nft_mint = &accounts[5];
    match owner(config_account, program_id) {
        Ok(()) => {},
        Err(e) => {
            return Err(e);
        },
    }
    match config_pubkey(&config_account.key, &chill_mint.key, program_id) {
        Ok(()) => {},
        Err(e) => {
            return Err(e);
        },
    }
    let config = match Config::unpack(config_account.data.as_slice()) {
        Ok(c) => c,
        Err(e) => {
            return Err(e);
        },
    };
    let n = config.recipients.len();
    if accounts.len() - MINT_NFT_FIXED_ACCOUNTS < n {
        return Err(ProgramErrorCode::NotEnoughAccountKeys);
    }
    let recipients_token_accounts = slice_range(accounts, MINT_NFT_FIXED_ACCOUNTS, MINT_NFT_FIXED_ACCOUNTS + n);
    match recipients(&config, recipients_token_accounts) {
        Ok(()) => {},
        Err(e) => {
            return Err(e);
        },
    }
    match token_account(chill_token_account, &user.key, &chill_mint.key) {
        Ok(()) => {},
        Err(e) => {
            return Err(e);
        },
    }
    let price = match config.fees.of(args.nft_type) {
        Some(p) => p,
        None => {
            return Err(ProgramErrorCode::InvalidInstructionData);
        },
    };
    proof {
        let faults = recipients_faults(config@, recipients_token_accounts@);
        lemma_first_fault_none(faults);
        lemma_first_fault_none(unpack_faults(recipients_token_accounts@));
        assert forall|i: int|
            0 <= i < recipients_token_accounts@.len() && no_unpack_fault_through(
                recipients_token_accounts@,
                i,
            ) && token_owner_of(recipients_token_accounts@[i]) != user.key@ implies recipient_view_index(
            config@.recipients,
            #[trigger] token_owner_of(recipients_token_accounts@[i]),
        ) < config@.recipients.len() && price * config@.recipients[recipient_view_index(
            config@.recipients,
            token_owner_of(recipients_token_accounts@[i]),
        ) as int].mint_share <= u64::MAX by {
            assert(faults[i] is None);
            let a = token_owner_of(recipients_token_accounts@[i]);
            assert(is_recipient(config@, a));
            let k = choose|k: int|
                0 <= k < config@.recipients.len() && #[trigger] config@.recipients[k].address == a;
            lemma_recipient_view_index(config@.recipients, a);
            if recipient_view_index(config@.recipients, a) >= config@.recipients.len() {
                assert(config@.recipients[k].address != a);
            }
        }
        assert forall|i: int| 0 <= i < recipients_token_accounts@.len() implies #[trigger] unpack_faults(
            recipients_token_accounts@,
        )[i] is None by {
            assert(faults[i] is None);
        }
    }
    let transfers = match transfer_chill(&user.key, recipients_token_accounts, &config, price) {
        Ok(t) => t,
        Err(e) => {
            return Err(e);
        },
    };
    let creators = nft_creators(&authority.key, Some(user.key));
    let metadata_address = metadata(&nft_mint.key);
    let tuples = creator_tuples(&creators);
    assert(creator_tuples_view(tuples@).len() == tuples@.len());
    assert(creators@.map_values(|c: Creator| creator_view(c)).len() == creators@.len());
    assert(tuples@.len() <= 2);
    let (metas, data) = create_metadata_accounts_v3(
        metadata_address.0,
        nft_mint.key.0,
        authority.key.0,
        user.key.0,
        authority.key.0,
        true,
        system_program_id().0,
        Some(rent_sysvar_id().0),
        args.name.clone(),
        args.symbol.clone(),
        args.uri.clone(),
        args.fees,
        Some(tuples),
        true,
    );
    let metadata_instruction = token_metadata_instruction(metas, data);
    let token_builder = TokenBuilder {
        name: args.name,
        symbol: args.symbol,
        uri: args.uri,
        creators: Some(creators),
        seller_fee_basis_points: args.fees,
    };
    let master_edition_address = master_edition(&nft_mint.key);
    let sign_as_user = !authority.key.same(&user.key);
    Ok(
        MintNftPlan {
            transfers,
            token_builder,
            metadata_instruction,
            metadata: metadata_address,
            master_edition: master_edition_address,
            sign_as_user,
        },
    )
}

/// The accounts from `start` up to `end`.
pub fn slice_range(accounts: &[AccountInfo], start: usize, end: usize) -> (r: &[AccountInfo])
    requires
        start <= end <= accounts@.len(),
    ensures
        r@ == accounts@.subrange(start as int, end as int),
{
    vstd::slice::slice_subrange(accounts, start, end)
}

/// The instruction builder and minting agree on the layout: the builder lists
/// `MINT_NFT_FIXED_ACCOUNTS` fixed accounts, with the authority, the user, the
/// configuration, the token's mint, the user's token account and the NFT's
/// mint where minting reads them, and then the recipients' token accounts,
/// where minting reads those.
pub proof fn lemma_mint_nft_layout(
    authority: Seq<u8>,
    user: Seq<u8>,
    config: Seq<u8>,
    mint: Seq<u8>,
    user_token_account: Seq<u8>,
    nft_mint: Seq<u8>,
    nft_token: Seq<u8>,
    recipients_token_accounts: Seq<Pubkey>,
)
    ensures
        ({
            let metas = mint_nft_metas(
                authority,
                user,
                config,
                mint,
                user_token_account,
                nft_mint,
                nft_token,
            ) + recipient_metas(recipients_token_accounts);
            &&& metas.len() == MINT_NFT_FIXED_ACCOUNTS + recipients_token_accounts.len()
            &&& metas[0].0 == authority
            &&& metas[1].0 == user
            &&& metas[2].0 == config
            &&& metas[3].0 == mint
            &&& metas[4].0 == user_token_account
            &&& metas[5].0 == nft_mint
            &&& metas.subrange(
                MINT_NFT_FIXED_ACCOUNTS as int,
                MINT_NFT_FIXED_ACCOUNTS + recipients_token_accounts.len(),
            ) == recipient_metas(recipients_token_accounts)
        }),
{
    let fixed = mint_nft_metas(authority, user, config, mint, user_token_account, nft_mint, nft_token);
    let metas = fixed + recipient_metas(recipients_token_accounts);
    assert(metas.subrange(
        MINT_NFT_FIXED_ACCOUNTS as int,
        MINT_NFT_FIXED_ACCOUNTS + recipients_token_accounts.len(),
    ) =~= recipient_metas(recipients_token_accounts));
}

/// Minting through the Chill program pays the holder of a recipient's token
/// account that recipient's mint share of the price, rounded down: the
/// recipient being the first one whose address holds the account.
pub proof fn lemma_chill_amount_is_mint_share(
    rs: Seq<RecipientView>,
    price: u64,
    a: AccountInfo,
    k: int,
)
    requires
        0 <= k < rs.len(),
        rs[k].address == token_owner_of(a),
        forall|j: int| 0 <= j < k ==> (#[trigger] rs[j]).address != token_owner_of(a),
    ensures
        chill_amount(rs, price, a) == (price * rs[k].mint_share) / 100,
{
    lemma_recipient_view_index(rs, token_owner_of(a));
    let idx = recipient_view_index(rs, token_owner_of(a)) as int;
    if idx > k {
        assert(rs[k].address != token_owner_of(a));
    }
    assert(idx == k);
}

} // verus!
