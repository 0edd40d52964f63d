use vstd::prelude::*;
use vstd::bytes::{spec_u16_to_le_bytes, spec_u32_to_le_bytes};
use vstd::string::StringSliceAdditionalSpecFns;
use vstd::utf8::encode_utf8;
use crate::api::pda::config as config_address;
use crate::api::state::{encode_fees, encode_recipients, Fees, Recipient};
use crate::bytes::{extend_from, push_pubkey, push_u32, push_u64};
use crate::instruction::{metas_view, AccountMeta, Instruction};
use crate::nft::state::NftType;
use crate::pda::{
    master_edition, metadata, program_address, rent_sysvar_id, rent_sysvar_id_bytes,
    spec_master_edition_address, spec_metadata_address, spl_token_id, spl_token_id_bytes,
    system_program_id, token_metadata_program_id, token_metadata_program_id_bytes,
};
use crate::pubkey::Pubkey;

verus! {

/// The arguments of the instruction that sets up a configuration.
#[derive(Clone, Debug)]
pub struct InitializeArgs {
    pub fees: Fees,
    pub recipients: Vec<Recipient>,
}

/// The arguments of the instruction that mints an NFT: its kind, name,
/// symbol, URI and seller fee in basis points (10000 = 100%).
#[derive(Clone, Debug)]
pub struct MintNftArgs {
    pub nft_type: NftType,
    pub name: String,
    pub symbol: String,
    pub uri: String,
    pub fees: u16,
}

/// The instructions of the Chill program.
#[derive(Clone, Debug)]
pub enum ChillInstruction {
    /// Sets up the configuration. Accounts: the authority (signer, written),
    /// the configuration (written), the mint, the System program.
    Initialize(InitializeArgs),
    /// Mints an NFT. Accounts: the authority (signer), the user (signer,
    /// written), the configuration, the mint, the user's token account
    /// (written), the NFT's mint, token account, metadata and master edition
    /// (written), the System, rent, token and Token Metadata programs, then
    /// the recipients' token accounts (written).
    MintNft(MintNftArgs),
}

/// The Borsh encoding of a string: its UTF-8 length in 4 little-endian
/// bytes, then its UTF-8 bytes.
pub open spec fn encode_string(s: Seq<char>) -> Seq<u8> {
    spec_u32_to_le_bytes(encode_utf8(s).len() as u32) + encode_utf8(s)
}

/// The Borsh encoding of an instruction: the variant's byte, then its
/// arguments' fields in order.
pub open spec fn encode_api_instruction(i: ChillInstruction) -> Seq<u8> {
    match i {
        ChillInstruction::Initialize(a) => seq![0u8] + encode_fees(a.fees) + spec_u32_to_le_bytes(
            a.recipients@.len() as u32,
        ) + encode_recipients(a.recipients@.map_values(|r: Recipient| r@)),
        ChillInstruction::MintNft(a) => seq![1u8, a.nft_type.number()] + encode_string(a.name@)
            + encode_string(a.symbol@) + encode_string(a.uri@) + spec_u16_to_le_bytes(a.fees),
    }
}

/// Whether the instruction's lists and strings are short enough for their
/// 4-byte lengths.
pub open spec fn api_instruction_fits(i: ChillInstruction) -> bool {
    match i {
        ChillInstruction::Initialize(a) => a.recipients@.len() <= u32::MAX,
        ChillInstruction::MintNft(a) => {
            &&& encode_utf8(a.name@).len() <= u32::MAX
            &&& encode_utf8(a.symbol@).len() <= u32::MAX
            &&& encode_utf8(a.uri@).len() <= u32::MAX
        },
    }
}

/// Appends the Borsh encoding of a string.
pub fn push_string(out: &mut Vec<u8>, s: &String)
    requires
        encode_utf8(s@).len() <= u32::MAX,
    ensures
        final(out)@ == old(out)@ + encode_string(s@),
{
    let bytes = s.as_str().as_bytes();
    push_u32(out, bytes.len() as u32);
    extend_from(out, bytes);
    assert(final(out)@ =~= old(out)@ + encode_string(s@));
}

impl ChillInstruction {
    /// The Borsh encoding of the instruction.
    pub fn try_to_vec(&self) -> (r: Vec<u8>)
        requires
            api_instruction_fits(*self),
        ensures
            r@ == encode_api_instruction(*self),
    {
        let mut out: Vec<u8> = Vec::new();
        match self {
            ChillInstruction::Initialize(a) => {
                out.push(0u8);
                push_u64(&mut out, a.fees.character);
                push_u64(&mut out, a.fees.pet);
                push_u64(&mut out, a.fees.emote);
                push_u64(&mut out, a.fees.tileset);
                push_u64(&mut out, a.fees.item);
                let n = a.recipients.len();
                push_u32(&mut out, n as u32);
                let ghost head = out@;
                let ghost rs = a.recipients@.map_values(|r: Recipient| r@);
                let mut i: usize = 0;
                while i < n
                    invariant
                        0 <= i <= n,
                        n == a.recipients@.len(),
                        rs == a.recipients@.map_values(|r: Recipient| r@),
                        out@ == head + encode_recipients(rs.take(i as int)),
                    decreases n - i,
                {
                    let r = &a.recipients[i];
                    push_pubkey(&mut out, &r.address);
                    out.push(r.mint_share);
                    out.push(r.transaction_share);
                    proof {
                        assert(rs.take(i + 1).drop_last() =~= rs.take(i as int));
                        assert(rs.take(i + 1).last() == rs[i as int]);
                        assert(out@ =~= head + encode_recipients(rs.take(i + 1)));
                    }
                    i = i + 1;
                }
                proof {
                    assert(rs.take(n as int) =~= rs);
                    assert(out@ =~= encode_api_instruction(*self));
                }
            },
            ChillInstruction::MintNft(a) => {
                out.push(1u8);
                out.push(a.nft_type.into_u8());
                push_string(&mut out, &a.name);
                push_string(&mut out, &a.symbol);
                push_string(&mut out, &a.uri);
                let fee_bytes = vstd::bytes::u16_to_le_bytes(a.fees);
                extend_from(&mut out, fee_bytes.as_slice());
                assert(out@ =~= encode_api_instruction(*self));
            },
        }
        out
    }
}

/// The accounts of an `Initialize` instruction: the authority (signer,
/// written), the configuration (written), the mint, the System program.
pub open spec fn initialize_metas(authority: Seq<u8>, config: Seq<u8>, mint: Seq<u8>) -> Seq<
    (Seq<u8>, bool, bool),
> {
    seq![(authority, true, true), (config, false, true), (mint, false, false), (Pubkey::zero_bytes(), false, false)]
}

/// The instruction that sets up the configuration of `mint` under
/// `program_id`, at its configuration's address.
pub fn initialize(program_id: Pubkey, authority: Pubkey, mint: Pubkey, args: InitializeArgs) -> (r:
    Instruction)
    requires
        args.recipients@.len() <= u32::MAX,
    ensures
        r.program_id == program_id,
        metas_view(r.accounts@) == initialize_metas(
            authority@,
            program_address(seq!["config".spec_bytes(), mint@], program_id@).0,
            mint@,
        ),
        r.data@ == encode_api_instruction(ChillInstruction::Initialize(args)),
{
    let (config, _) = config_address(&mint, &program_id);
    let ins = ChillInstruction::Initialize(args);
    let data = ins.try_to_vec();
    let mut accounts: Vec<AccountMeta> = Vec::new();
    accounts.push(AccountMeta::new(authority, true));
    accounts.push(AccountMeta::new(config, false));
    accounts.push(AccountMeta::new_readonly(mint, false));
    accounts.push(AccountMeta::new_readonly(system_program_id(), false));
    proof {
        assert(metas_view(accounts@) =~= initialize_metas(authority@, config@, mint@));
    }
    Instruction { program_id, accounts, data }
}

/// The accounts of a `MintNft` instruction, before the recipients' token
/// accounts.
pub open spec fn mint_nft_metas(
    authority: Seq<u8>,
    user: Seq<u8>,
    config: Seq<u8>,
    mint: Seq<u8>,
    user_token_account: Seq<u8>,
    nft_mint: Seq<u8>,
    nft_token: Seq<u8>,
) -> Seq<(Seq<u8>, bool, bool)> {
    seq![
        (authority, true, false),
        (user, true, true),
        (config, false, false),
        (mint, false, false),
        (user_token_account, false, true),
        (nft_mint, false, true),
        (nft_token, false, true),
        (spec_metadata_address(nft_mint, token_metadata_program_id_bytes()), false, true),
        (spec_master_edition_address(nft_mint, token_metadata_program_id_bytes()), false, true),
        (Pubkey::zero_bytes(), false, false),
        (rent_sysvar_id_bytes(), false, false),
        (spl_token_id_bytes(), false, false),
        (token_metadata_program_id_bytes(), false, false),
    ]
}

/// The written accounts of the recipients' token accounts.
pub open spec fn recipient_metas(keys: Seq<Pubkey>) -> Seq<(Seq<u8>, bool, bool)> {
    keys.map_values(|k: Pubkey| (k@, false, true))
}

/// The instruction that mints an NFT for `user`, paying the recipients'
/// token accounts.
pub fn mint_nft(
    program_id: Pubkey,
    authority: Pubkey,
    user: Pubkey,
    mint: Pubkey,
    user_token_account: Pubkey,
    nft_mint: Pubkey,
    nft_token: Pubkey,
    recipients_token_accounts: &[Pubkey],
    args: MintNftArgs,
) -> (r: Instruction)
    requires
        api_instruction_fits(ChillInstruction::MintNft(args)),
    ensures
        r.program_id == program_id,
        metas_view(r.accounts@) == mint_nft_metas(
            authority@,
            user@,
            program_address(seq!["config".spec_bytes(), mint@], program_id@).0,
            mint@,
            user_token_account@,
            nft_mint@,
            nft_token@,
        ) + recipient_metas(recipients_token_accounts@),
        r.data@ == encode_api_instruction(ChillInstruction::MintNft(args)),
{
    let (config, _) = config_address(&mint, &program_id);
    let metadata_address = metadata(&nft_mint);
    let master_edition_address = master_edition(&nft_mint);
    let mut accounts: Vec<AccountMeta> = Vec::new();
    accounts.push(AccountMeta::new_readonly(authority, true));
    accounts.push(AccountMeta::new(user, true));
    accounts.push(AccountMeta::new_readonly(config, false));
    accounts.push(AccountMeta::new_readonly(mint, false));
    accounts.push(AccountMeta::new(user_token_account, false));
    accounts.push(AccountMeta::new(nft_mint, false));
    accounts.push(AccountMeta::new(nft_token, false));
    accounts.push(AccountMeta::new(metadata_address, false));
    accounts.push(AccountMeta::new(master_edition_address, false));
    accounts.push(AccountMeta::new_readonly(system_program_id(), false));
    accounts.push(AccountMeta::new_readonly(rent_sysvar_id(), false));
    accounts.push(AccountMeta::new_readonly(spl_token_id(), false));
    accounts.push(AccountMeta::new_readonly(token_metadata_program_id(), false));
    let ghost fixed = accounts@;
    proof {
        assert(metas_view(fixed) =~= mint_nft_metas(
            authority@,
            user@,
            config@,
            mint@,
            user_token_account@,
            nft_mint@,
            nft_token@,
        ));
    }
    let mut i: usize = 0;
    while i < recipients_token_accounts.len()
        invariant
            i <= recipients_token_accounts@.len(),
            metas_view(accounts@) == metas_view(fixed) + recipient_metas(
                recipients_token_accounts@.take(i as int),
            ),
        decreases recipients_token_accounts@.len() - i,
    {
        let ghost before = accounts@;
        accounts.push(AccountMeta::new(recipients_token_accounts[i], false));
        proof {
            assert(recipients_token_accounts@.take(i + 1) =~= recipients_token_accounts@.take(
                i as int,
            ).push(recipients_token_accounts@[i as int]));
            assert(metas_view(accounts@) =~= metas_view(before).push(
                (recipients_token_accounts@[i as int]@, false, true),
            ));
            assert(recipient_metas(recipients_token_accounts@.take(i + 1)) =~= recipient_metas(
                recipients_token_accounts@.take(i as int),
            ).push((recipients_token_accounts@[i as int]@, false, true)));
        }
        i = i + 1;
    }
    proof {
        assert(recipients_token_accounts@.take(i as int) =~= recipients_token_accounts@);
    }
    let data = ChillInstruction::MintNft(args).try_to_vec();
    Instruction { program_id, accounts, data }
}

/// The MintNft instruction lists its accounts in the documented order: 0 the
/// authority, signing; 1 the user, signing and written; 2 the configuration;
/// 3 the token's mint; 4 the user's token account, written; 5 the NFT's mint,
/// written; 6 the NFT's token account, written; 7 the NFT's metadata account
/// (the Token Metadata program's address of "metadata", the program and the
/// mint), written; 8 its master edition account (the same seeds followed by
/// "edition"), written; then the System program, the rent sysvar, the SPL
/// Token program and the Token Metadata program.
pub proof fn lemma_mint_nft_accounts_as_documented(
    authority: Seq<u8>,
    user: Seq<u8>,
    config: Seq<u8>,
    mint: Seq<u8>,
    user_token_account: Seq<u8>,
    nft_mint: Seq<u8>,
    nft_token: Seq<u8>,
)
    ensures
        ({
            let m = mint_nft_metas(
                authority,
                user,
                config,
                mint,
                user_token_account,
                nft_mint,
                nft_token,
            );
            let tm = token_metadata_program_id_bytes();
            &&& m.len() == 13
            &&& m[0] == (authority, true, false)
            &&& m[1] == (user, true, true)
            &&& m[2] == (config, false, false)
            &&& m[3] == (mint, false, false)
            &&& m[4] == (user_token_account, false, true)
            &&& m[5] == (nft_mint, false, true)
            &&& m[6] == (nft_token, false, true)
            &&& m[7] == (program_address(seq!["metadata".spec_bytes(), tm, nft_mint], tm).0, false, true)
            &&& m[8] == (
                program_address(
                    seq!["metadata".spec_bytes(), tm, nft_mint, "edition".spec_bytes()],
                    tm,
                ).0,
                false,
                true,
            )
            &&& m[9] == (Pubkey::zero_bytes(), false, false)
            &&& m[10] == (rent_sysvar_id_bytes(), false, false)
            &&& m[11] == (spl_token_id_bytes(), false, false)
            &&& m[12] == (tm, false, false)
        }),
{
}

} // verus!
