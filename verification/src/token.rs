use vstd::prelude::*;
use vstd::bytes::spec_u64_from_le_bytes;
use solana_program::program_option::COption;
use solana_program::program_pack::Pack;
use crate::program_error::ProgramErrorCode;
use crate::pubkey::Pubkey;

verus! {

/// What a program reads of an account handed to it: the account's address,
/// the program that owns it, its lamports and its data.
#[derive(Clone, Debug)]
pub struct AccountInfo {
    pub key: Pubkey,
    pub owner: Pubkey,
    pub lamports: u64,
    pub data: Vec<u8>,
}

pub struct AccountInfoView {
    pub key: Seq<u8>,
    pub owner: Seq<u8>,
    pub lamports: u64,
    pub data: Seq<u8>,
}

impl View for AccountInfo {
    type V = AccountInfoView;

    open spec fn view(&self) -> AccountInfoView {
        AccountInfoView {
            key: self.key@,
            owner: self.owner@,
            lamports: self.lamports,
            data: self.data@,
        }
    }
}

/// The fields of an SPL token account that the programs read.
#[derive(Clone, Copy, Debug)]
pub struct TokenAccount {
    pub mint: Pubkey,
    pub owner: Pubkey,
    pub amount: u64,
}

/// The fields of an SPL mint that the programs read.
#[derive(Clone, Copy, Debug)]
pub struct TokenMint {
    pub mint_authority: Option<Pubkey>,
    pub supply: u64,
    pub decimals: u8,
}

/// The length of an SPL token account.
pub const TOKEN_ACCOUNT_LEN: usize = 165;

/// The length of an SPL mint.
pub const MINT_LEN: usize = 82;

/// Whether the four bytes at `pos` are the tag of an SPL optional value:
/// `0` or `1` in little-endian.
pub open spec fn coption_tag_valid(data: Seq<u8>, pos: int) -> bool {
    &&& data[pos] == 0 || data[pos] == 1
    &&& data[pos + 1] == 0
    &&& data[pos + 2] == 0
    &&& data[pos + 3] == 0
}

/// Whether `data` is laid out as an SPL token account: 165 bytes whose
/// delegate, native-amount and close-authority tags are valid and whose state
/// byte, at 108, is 0, 1 or 2.
pub open spec fn token_account_decodes(data: Seq<u8>) -> bool {
    &&& data.len() == 165
    &&& coption_tag_valid(data, 72)
    &&& data[108] <= 2
    &&& coption_tag_valid(data, 109)
    &&& coption_tag_valid(data, 129)
}

/// The token account that `data` holds: the mint at 0, the owner at 32 and
/// the amount at 64, in little-endian.
pub open spec fn token_account_fields(data: Seq<u8>) -> (Seq<u8>, Seq<u8>, u64) {
    (data.subrange(0, 32), data.subrange(32, 64), spec_u64_from_le_bytes(data.subrange(64, 72)))
}

/// Whether `data` is laid out as an SPL mint: 82 bytes whose mint-authority
/// and freeze-authority tags are valid and whose initialized flag, at 45, is 0
/// or 1.
pub open spec fn mint_decodes(data: Seq<u8>) -> bool {
    &&& data.len() == 82
    &&& coption_tag_valid(data, 0)
    &&& data[45] <= 1
    &&& coption_tag_valid(data, 46)
}

/// Calls `spl_token::state::Account::unpack` (`Pack::unpack`), which refuses
/// data of another length than 165 or with an invalid option tag or state
/// byte (`InvalidAccountData`), refuses an uninitialized account
/// (`UninitializedAccount`), and otherwise reads the fields at fixed offsets.
/// The contract states this of the fields that the library keeps.
#[verifier::external_body]
pub fn unpack_token_account(data: &[u8]) -> (r: Result<TokenAccount, ProgramErrorCode>)
    ensures
        !token_account_decodes(data@) ==> r matches Err(ProgramErrorCode::InvalidAccountData),
        token_account_decodes(data@) && data@[108] == 0 ==> r matches Err(ProgramErrorCode::UninitializedAccount),
        token_account_decodes(data@) && data@[108] != 0 ==> r is Ok,
        r matches Ok(a) ==> (a.mint@, a.owner@, a.amount) == token_account_fields(data@),
{
    match spl_token::state::Account::unpack(data) {
        Ok(a) => Ok(
            TokenAccount {
                mint: Pubkey(a.mint.to_bytes()),
                owner: Pubkey(a.owner.to_bytes()),
                amount: a.amount,
            },
        ),
        Err(solana_program::program_error::ProgramError::UninitializedAccount) => Err(
            ProgramErrorCode::UninitializedAccount,
        ),
        Err(_) => Err(ProgramErrorCode::InvalidAccountData),
    }
}

/// Calls `spl_token::state::Mint::unpack` (`Pack::unpack`), which refuses
/// data of another length than 82 or with an invalid option tag or
/// initialized flag (`InvalidAccountData`), refuses an uninitialized mint
/// (`UninitializedAccount`), and otherwise reads the mint authority (a tag at
/// 0, the address at 4), the supply at 36 and the decimals at 44.
#[verifier::external_body]
pub fn unpack_mint(data: &[u8]) -> (r: Result<TokenMint, ProgramErrorCode>)
    ensures
        !mint_decodes(data@) ==> r matches Err(ProgramErrorCode::InvalidAccountData),
        mint_decodes(data@) && data@[45] == 0 ==> r matches Err(ProgramErrorCode::UninitializedAccount),
        mint_decodes(data@) && data@[45] == 1 ==> r is Ok,
        r matches Ok(m) ==> {
            &&& m.mint_authority is Some <==> data@[0] == 1
            &&& m.mint_authority matches Some(k) ==> k@ == data@.subrange(4, 36)
            &&& m.supply == spec_u64_from_le_bytes(data@.subrange(36, 44))
            &&& m.decimals == data@[44]
        },
{
    match spl_token::state::Mint::unpack(data) {
        Ok(m) => Ok(TokenMint {
            mint_authority: match m.mint_authority {
                COption::Some(k) => Some(Pubkey(k.to_bytes())),
                COption::None => None,
            },
            supply: m.supply,
            decimals: m.decimals,
        }),
        Err(solana_program::program_error::ProgramError::UninitializedAccount) => Err(
            ProgramErrorCode::UninitializedAccount,
        ),
        Err(_) => Err(ProgramErrorCode::InvalidAccountData),
    }
}

} // verus!
