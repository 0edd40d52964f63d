use chill::pda::{
    find_program_address, master_edition, metadata, rent_sysvar_id, spl_token_id,
    system_program_id, token_metadata_program_id,
};
use chill::program_error::ProgramErrorCode;
use chill::pubkey::Pubkey;
use chill::token::{unpack_mint, unpack_token_account};
use solana_program::program_option::COption;
use solana_program::program_pack::Pack;
use solana_program::pubkey::Pubkey as SolPubkey;
use spl_token::state::{Account, AccountState, Mint};

fn sol(n: u8) -> SolPubkey {
    SolPubkey::new_from_array([n; 32])
}

pub fn token_account_data(mint: SolPubkey, owner: SolPubkey, amount: u64) -> Vec<u8> {
    let account = Account {
        mint,
        owner,
        amount,
        delegate: COption::None,
        state: AccountState::Initialized,
        is_native: COption::None,
        delegated_amount: 0,
        close_authority: COption::None,
    };
    let mut data = vec![0u8; Account::LEN];
    Account::pack(account, &mut data).unwrap();
    data
}

#[test]
fn token_account_fields() {
    let data = token_account_data(sol(1), sol(2), 12345);
    let a = unpack_token_account(&data).unwrap();
    assert_eq!(a.mint.0, [1u8; 32]);
    assert_eq!(a.owner.0, [2u8; 32]);
    assert_eq!(a.amount, 12345);
}

#[test]
fn token_account_refusals() {
    // the wrong length
    assert_eq!(unpack_token_account(&[0u8; 10]).unwrap_err(), ProgramErrorCode::InvalidAccountData);
    // all zeros: an uninitialized account
    assert_eq!(
        unpack_token_account(&[0u8; 165]).unwrap_err(),
        ProgramErrorCode::UninitializedAccount
    );
    // a state byte past the last state
    let mut data = token_account_data(sol(1), sol(2), 5);
    data[108] = 3;
    assert_eq!(unpack_token_account(&data).unwrap_err(), ProgramErrorCode::InvalidAccountData);
    // an option tag that is neither 0 nor 1
    let mut data = token_account_data(sol(1), sol(2), 5);
    data[72] = 2;
    assert_eq!(unpack_token_account(&data).unwrap_err(), ProgramErrorCode::InvalidAccountData);
}

#[test]
fn mint_fields_and_refusals() {
    let mint = Mint {
        mint_authority: COption::Some(sol(7)),
        supply: 1,
        decimals: 0,
        is_initialized: true,
        freeze_authority: COption::None,
    };
    let mut data = vec![0u8; Mint::LEN];
    Mint::pack(mint, &mut data).unwrap();
    let m = unpack_mint(&data).unwrap();
    assert_eq!(m.mint_authority.unwrap().0, [7u8; 32]);
    assert_eq!(m.supply, 1);
    assert_eq!(m.decimals, 0);
    assert_eq!(unpack_mint(&[0u8; 82]).unwrap_err(), ProgramErrorCode::UninitializedAccount);
    assert_eq!(unpack_mint(&[0u8; 81]).unwrap_err(), ProgramErrorCode::InvalidAccountData);
    let mut bad = data.clone();
    bad[45] = 2;
    assert_eq!(unpack_mint(&bad).unwrap_err(), ProgramErrorCode::InvalidAccountData);
}

#[test]
fn program_ids_match_their_crates() {
    assert_eq!(spl_token_id().0, spl_token::ID.to_bytes());
    assert_eq!(system_program_id().0, [0u8; 32]);
    assert_eq!(rent_sysvar_id().0, solana_program::sysvar::rent::ID.to_bytes());
    assert_eq!(
        token_metadata_program_id().0,
        SolPubkey::try_from("metaqbxxUerdq28cj1RbAWkYQm3ybzjb6a8bt518x1s").unwrap().to_bytes()
    );
}

#[test]
fn program_addresses() {
    let program = Pubkey([5u8; 32]);
    let seeds = vec![b"config".to_vec(), vec![9u8; 32]];
    let (address, bump) = find_program_address(&seeds, &program);
    let (expected, expected_bump) =
        SolPubkey::find_program_address(&[b"config", &[9u8; 32]], &SolPubkey::new_from_array([5u8; 32]));
    assert_eq!(address.0, expected.to_bytes());
    assert_eq!(bump, expected_bump);
    // the Token Metadata accounts of a mint
    let mint = Pubkey([3u8; 32]);
    let mpl = SolPubkey::try_from("metaqbxxUerdq28cj1RbAWkYQm3ybzjb6a8bt518x1s").unwrap();
    let (m, _) = SolPubkey::find_program_address(&[b"metadata", mpl.as_ref(), &[3u8; 32]], &mpl);
    assert_eq!(metadata(&mint).0, m.to_bytes());
    let (e, _) =
        SolPubkey::find_program_address(&[b"metadata", mpl.as_ref(), &[3u8; 32], b"edition"], &mpl);
    assert_eq!(master_edition(&mint).0, e.to_bytes());
}
