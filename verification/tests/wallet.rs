use chill::program_error::ProgramErrorCode;
use chill::pubkey::Pubkey;
use chill::token::{TokenAccount, TokenMint};
use chill::wallet::error::ErrorCode;
use chill::wallet::program::{
    check_token_accounts, create_wallet, withdraw_ft, withdraw_lamports, withdraw_nft, withdraw_tokens,
};
use chill::wallet::state::ProxyWallet;
use chill::wallet::utils::{check_authority, proxy_wallet_pda, signer_seeds};
use solana_program::pubkey::Pubkey as SolPubkey;

fn key(n: u8) -> Pubkey {
    Pubkey([n; 32])
}

fn wallet_program() -> Pubkey {
    Pubkey(SolPubkey::try_from("9HjUbHc9JmSwEa9vkATjJCoaAhJYbkcqXE64CafXDrPt").unwrap().to_bytes())
}

/// A wallet of user 1 on behalf of primary wallet 2, at its own address.
fn wallet() -> (Pubkey, ProxyWallet) {
    let program = wallet_program();
    let w = create_wallet(&program, &key(2), &key(1));
    let (address, _) = proxy_wallet_pda(&key(1), &key(2), &program);
    (address, w)
}

fn custom(e: ErrorCode) -> ProgramErrorCode {
    e.to_program_error()
}

#[test]
fn created_wallet() {
    let program = wallet_program();
    let w = create_wallet(&program, &key(2), &key(1));
    let (expected, bump) = SolPubkey::find_program_address(
        &[b"wallet", &[1u8; 32], &[2u8; 32]],
        &SolPubkey::new_from_array(program.0),
    );
    assert_eq!(w.bump, bump);
    assert_eq!(proxy_wallet_pda(&key(1), &key(2), &program).0 .0, expected.to_bytes());
    assert_eq!(w.user, key(1));
    assert_eq!(w.primary_wallet, key(2));
    assert_eq!(w.total_money_withdrawn_user + w.total_nft_withdrawn_primary_wallet, 0);
    let seeds = signer_seeds(&w);
    assert_eq!(seeds, vec![b"wallet".to_vec(), vec![1u8; 32], vec![2u8; 32], vec![bump]]);
}

#[test]
fn authority_checks() {
    let (address, w) = wallet();
    assert_eq!(check_authority(&key(1), &address, &w), Ok(()));
    assert_eq!(check_authority(&key(2), &address, &w), Ok(()));
    assert_eq!(check_authority(&key(3), &address, &w), Err(custom(ErrorCode::WrongAuthority)));
    // a wallet at another address
    assert_eq!(check_authority(&key(1), &key(4), &w), Err(custom(ErrorCode::WrongAuthority)));
    // a wallet with another bump
    let mut other = w;
    other.bump = w.bump.wrapping_add(1);
    assert_eq!(check_authority(&key(1), &address, &other), Err(custom(ErrorCode::WrongAuthority)));
}

#[test]
fn lamports_move_and_are_counted() {
    let (address, mut w) = wallet();
    let mut wallet_lamports = 1_000u64;
    let mut receiver_lamports = 10u64;
    // the user withdraws 300, keeping the minimum of 500
    let r = withdraw_lamports(&key(1), &address, &mut w, &mut wallet_lamports, &key(9), &mut receiver_lamports, 500, 300);
    assert_eq!(r, Ok(()));
    assert_eq!((wallet_lamports, receiver_lamports), (700, 310));
    assert_eq!(w.total_money_withdrawn_user, 300);
    // the primary wallet withdraws 200: exactly the minimum is left
    let r = withdraw_lamports(&key(2), &address, &mut w, &mut wallet_lamports, &key(9), &mut receiver_lamports, 500, 200);
    assert_eq!(r, Ok(()));
    assert_eq!((wallet_lamports, receiver_lamports), (500, 510));
    assert_eq!(w.total_money_withdrawn_primary_wallet, 200);
    // one more lamport would pass the minimum
    let r = withdraw_lamports(&key(1), &address, &mut w, &mut wallet_lamports, &key(9), &mut receiver_lamports, 500, 1);
    assert_eq!(r, Err(custom(ErrorCode::InsufficientFunds)));
    assert_eq!((wallet_lamports, receiver_lamports), (500, 510));
    // more than the wallet holds
    let r = withdraw_lamports(&key(1), &address, &mut w, &mut wallet_lamports, &key(9), &mut receiver_lamports, 0, 501);
    assert_eq!(r, Err(custom(ErrorCode::InsufficientFunds)));
    // to the wallet itself: nothing moves
    let r = withdraw_lamports(&key(1), &address, &mut w, &mut wallet_lamports, &address, &mut receiver_lamports, 0, 100);
    assert_eq!(r, Ok(()));
    assert_eq!((wallet_lamports, receiver_lamports), (500, 510));
    assert_eq!(w.total_money_withdrawn_user, 300);
    // a stranger
    let r = withdraw_lamports(&key(3), &address, &mut w, &mut wallet_lamports, &key(9), &mut receiver_lamports, 0, 1);
    assert_eq!(r, Err(custom(ErrorCode::WrongAuthority)));
}

fn ft_mint() -> TokenMint {
    TokenMint { mint_authority: None, supply: 1_000_000, decimals: 6 }
}

fn nft_mint() -> TokenMint {
    TokenMint { mint_authority: None, supply: 1, decimals: 0 }
}

#[test]
fn token_withdrawals() {
    let (address, mut w) = wallet();
    let mint = key(40);
    let from = TokenAccount { mint, owner: address, amount: 10 };
    let to = TokenAccount { mint, owner: key(9), amount: 0 };
    // fungible tokens by the user
    let r = withdraw_ft(&key(1), &address, &mut w, &mint, &ft_mint(), &key(41), &from, &key(42), &to, 7);
    assert_eq!(r, Ok(true));
    assert_eq!(w.total_ft_withdrawn_user, 7);
    // an NFT is refused as a fungible token, and the other way round
    let r = withdraw_ft(&key(1), &address, &mut w, &mint, &nft_mint(), &key(41), &from, &key(42), &to, 1);
    assert_eq!(r, Err(custom(ErrorCode::TokenIsNft)));
    let r = withdraw_nft(&key(2), &address, &mut w, &mint, &ft_mint(), &key(41), &from, &key(42), &to);
    assert_eq!(r, Err(custom(ErrorCode::TokenIsNotNft)));
    // an NFT by the primary wallet
    let r = withdraw_nft(&key(2), &address, &mut w, &mint, &nft_mint(), &key(41), &from, &key(42), &to);
    assert_eq!(r, Ok(true));
    assert_eq!(w.total_nft_withdrawn_primary_wallet, 1);
    // the same token account on both sides: nothing moves or is counted
    let r = withdraw_ft(&key(1), &address, &mut w, &mint, &ft_mint(), &key(41), &from, &key(41), &from, 5);
    assert_eq!(r, Ok(false));
    assert_eq!(w.total_ft_withdrawn_user, 7);
    // a token account that the wallet does not hold
    let stranger = TokenAccount { mint, owner: key(8), amount: 10 };
    let r = withdraw_ft(&key(1), &address, &mut w, &mint, &ft_mint(), &key(43), &stranger, &key(42), &to, 1);
    assert_eq!(r, Err(ProgramErrorCode::Custom(2003)));
    // a stranger as the authority
    let r = withdraw_ft(&key(3), &address, &mut w, &mint, &ft_mint(), &key(41), &from, &key(42), &to, 1);
    assert_eq!(r, Err(custom(ErrorCode::WrongAuthority)));
}

#[test]
fn token_account_checks() {
    let (address, _) = wallet();
    let mint = key(40);
    let from = TokenAccount { mint, owner: address, amount: 10 };
    let to = TokenAccount { mint, owner: key(9), amount: 0 };
    assert_eq!(check_token_accounts(false, &mint, &ft_mint(), &address, &from, &to), Ok(()));
    assert_eq!(check_token_accounts(true, &mint, &nft_mint(), &address, &from, &to), Ok(()));
    assert_eq!(
        check_token_accounts(false, &mint, &nft_mint(), &address, &from, &to),
        Err(custom(ErrorCode::TokenIsNft))
    );
    assert_eq!(
        check_token_accounts(true, &mint, &ft_mint(), &address, &from, &to),
        Err(custom(ErrorCode::TokenIsNotNft))
    );
    // an NFT needs both no decimals and a supply of one
    let not_quite = TokenMint { mint_authority: None, supply: 2, decimals: 0 };
    assert_eq!(check_token_accounts(false, &mint, &not_quite, &address, &from, &to), Ok(()));
    // a receiver's account of another mint
    let other = TokenAccount { mint: key(44), owner: key(9), amount: 0 };
    assert_eq!(
        check_token_accounts(false, &mint, &ft_mint(), &address, &from, &other),
        Err(ProgramErrorCode::Custom(2003))
    );
    // the wallet's account of another mint
    let other_from = TokenAccount { mint: key(44), owner: address, amount: 10 };
    assert_eq!(
        check_token_accounts(false, &mint, &ft_mint(), &address, &other_from, &to),
        Err(ProgramErrorCode::Custom(2003))
    );
}

#[test]
fn token_withdrawal_counters() {
    let (address, mut w) = wallet();
    let mint = key(40);
    let from = TokenAccount { mint, owner: address, amount: 10 };
    let to = TokenAccount { mint, owner: key(9), amount: 0 };
    let r = withdraw_tokens(false, &key(2), &address, &mut w, &mint, &ft_mint(), &key(41), &from, &key(42), &to, 4);
    assert_eq!(r, Ok(true));
    assert_eq!(w.total_ft_withdrawn_primary_wallet, 4);
    assert_eq!(w.total_ft_withdrawn_user, 0);
    let r = withdraw_tokens(true, &key(1), &address, &mut w, &mint, &nft_mint(), &key(41), &from, &key(42), &to, 1);
    assert_eq!(r, Ok(true));
    assert_eq!(w.total_nft_withdrawn_user, 1);
    assert_eq!(w.total_nft_withdrawn_primary_wallet, 0);
    let before = w;
    let r = withdraw_tokens(true, &key(3), &address, &mut w, &mint, &nft_mint(), &key(41), &from, &key(42), &to, 1);
    assert_eq!(r, Err(custom(ErrorCode::WrongAuthority)));
    assert_eq!(w.total_nft_withdrawn_user, before.total_nft_withdrawn_user);
}
