use vstd::prelude::*;
use crate::pda::wallet_program_id_bytes;
use crate::program_error::ProgramErrorCode;
use crate::pubkey::Pubkey;
use crate::token::{TokenAccount, TokenMint};
use crate::wallet::error::{wallet_error, ErrorCode, CONSTRAINT_RAW};
use crate::wallet::state::ProxyWallet;
use crate::wallet::utils::{authority_allowed, check_authority, proxy_wallet_address, proxy_wallet_pda};

verus! {

/// A new proxy wallet of `user` on behalf of `primary_wallet`, with the bump
/// of its address under `program_id` and nothing withdrawn.
pub fn create_wallet(program_id: &Pubkey, primary_wallet: &Pubkey, user: &Pubkey) -> (r: ProxyWallet)
    ensures
        r.bump == proxy_wallet_address(user@, primary_wallet@, program_id@).1,
        r.primary_wallet@ == primary_wallet@,
        r.user@ == user@,
        r.total_money_withdrawn_user == 0,
        r.total_money_withdrawn_primary_wallet == 0,
        r.total_ft_withdrawn_user == 0,
        r.total_ft_withdrawn_primary_wallet == 0,
        r.total_nft_withdrawn_user == 0,
        r.total_nft_withdrawn_primary_wallet == 0,
{
    let (_, bump) = proxy_wallet_pda(user, primary_wallet, program_id);
    ProxyWallet {
        bump,
        primary_wallet: *primary_wallet,
        user: *user,
        total_money_withdrawn_user: 0,
        total_money_withdrawn_primary_wallet: 0,
        total_ft_withdrawn_user: 0,
        total_ft_withdrawn_primary_wallet: 0,
        total_nft_withdrawn_user: 0,
        total_nft_withdrawn_primary_wallet: 0,
    }
}

/// `w` with `amount` more lamports withdrawn by `authority`: by the primary
/// wallet where it is the authority, else by the user.
pub open spec fn after_money_withdrawal(w: ProxyWallet, authority: Seq<u8>, amount: u64) -> ProxyWallet {
    if authority == w.primary_wallet@ {
        ProxyWallet {
            total_money_withdrawn_primary_wallet: (w.total_money_withdrawn_primary_wallet
                + amount) as u64,
            ..w
        }
    } else {
        ProxyWallet { total_money_withdrawn_user: (w.total_money_withdrawn_user + amount) as u64, ..w }
    }
}

/// Whether the counter that a withdrawal of `amount` by `authority` raises
/// stays within 64 bits.
pub open spec fn money_counter_fits(w: ProxyWallet, authority: Seq<u8>, amount: u64) -> bool {
    if authority == w.primary_wallet@ {
        w.total_money_withdrawn_primary_wallet + amount <= u64::MAX
    } else {
        w.total_money_withdrawn_user + amount <= u64::MAX
    }
}

/// Moves `amount` lamports from the proxy wallet to `receiver` for its user
/// or primary wallet, and counts them against the one who withdraws. Nothing
/// moves where the receiver is the wallet itself. Refused where the authority
/// may not act on the wallet, or where the wallet would keep less than
/// `minimum_balance`, its rent-exempt minimum; nothing changes then.
pub fn withdraw_lamports(
    authority: &Pubkey,
    proxy_wallet_key: &Pubkey,
    proxy_wallet: &mut ProxyWallet,
    wallet_lamports: &mut u64,
    receiver: &Pubkey,
    receiver_lamports: &mut u64,
    minimum_balance: u64,
    amount: u64,
) -> (r: Result<(), ProgramErrorCode>)
    requires
        authority_allowed(authority@, proxy_wallet_key@, *old(proxy_wallet)) && proxy_wallet_key@
            != receiver@ ==> *old(receiver_lamports) + amount <= u64::MAX,
        authority_allowed(authority@, proxy_wallet_key@, *old(proxy_wallet)) && proxy_wallet_key@
            != receiver@ && amount <= *old(wallet_lamports) && *old(wallet_lamports) - amount
            >= minimum_balance ==> money_counter_fits(*old(proxy_wallet), authority@, amount),
    ensures
        !authority_allowed(authority@, proxy_wallet_key@, *old(proxy_wallet)) ==> r == Err::<
            (),
            ProgramErrorCode,
        >(wallet_error(ErrorCode::WrongAuthority)),
        authority_allowed(authority@, proxy_wallet_key@, *old(proxy_wallet)) && proxy_wallet_key@
            == receiver@ ==> r is Ok,
        authority_allowed(authority@, proxy_wallet_key@, *old(proxy_wallet)) && proxy_wallet_key@
            != receiver@ ==> if amount <= *old(wallet_lamports) && *old(wallet_lamports) - amount
            >= minimum_balance {
            &&& r is Ok
            &&& *final(wallet_lamports) == *old(wallet_lamports) - amount
            &&& *final(receiver_lamports) == *old(receiver_lamports) + amount
            &&& *final(proxy_wallet) == after_money_withdrawal(*old(proxy_wallet), authority@, amount)
        } else {
            r == Err::<(), ProgramErrorCode>(wallet_error(ErrorCode::InsufficientFunds))
        },
        r is Err || proxy_wallet_key@ == receiver@ ==> {
            &&& *final(wallet_lamports) == *old(wallet_lamports)
            &&& *final(receiver_lamports) == *old(receiver_lamports)
            &&& *final(proxy_wallet) == *old(proxy_wallet)
        },
        *final(wallet_lamports) + *final(receiver_lamports) == *old(wallet_lamports) + *old(
            receiver_lamports,
        ),
        r is Ok && proxy_wallet_key@ != receiver@ ==> *final(wallet_lamports) >= minimum_balance,
{
    match check_authority(authority, proxy_wallet_key, proxy_wallet) {
        Ok(()) => {},
        Err(e) => {
            return Err(e);
        },
    }
    if proxy_wallet_key.same(receiver) {
        return Ok(());
    }
    let new_receiver_balance = *receiver_lamports + amount;
    if *wallet_lamports < amount {
        return Err(ErrorCode::InsufficientFunds.to_program_error());
    }
    let new_wallet_balance = *wallet_lamports - amount;
    if new_wallet_balance < minimum_balance {
        return Err(ErrorCode::InsufficientFunds.to_program_error());
    }
    *receiver_lamports = new_receiver_balance;
    *wallet_lamports = new_wallet_balance;
    if authority.same(&proxy_wallet.primary_wallet) {
        proxy_wallet.total_money_withdrawn_primary_wallet = proxy_wallet.total_money_withdrawn_primary_wallet
            + amount;
    } else {
        proxy_wallet.total_money_withdrawn_user = proxy_wallet.total_money_withdrawn_user + amount;
    }
    Ok(())
}

/// Why the accounts of a token withdrawal are refused, checked in their
/// order: the kind of token (`nft` says which kind the withdrawal is for), the
/// wallet's token account's owner and mint, and the receiver's token
/// account's mint.
pub open spec fn token_accounts_error(
    nft: bool,
    mint_key: Seq<u8>,
    mint: TokenMint,
    proxy_wallet_key: Seq<u8>,
    proxy_wallet_token: TokenAccount,
    receiver_token: TokenAccount,
) -> Option<ProgramErrorCode> {
    let is_nft = mint.decimals == 0 && mint.supply == 1;
    if !nft && is_nft {
        Some(wallet_error(ErrorCode::TokenIsNft))
    } else if nft && !is_nft {
        Some(wallet_error(ErrorCode::TokenIsNotNft))
    } else if proxy_wallet_token.owner@ != proxy_wallet_key || proxy_wallet_token.mint@ != mint_key
        || receiver_token.mint@ != mint_key {
        Some(ProgramErrorCode::Custom(CONSTRAINT_RAW))
    } else {
        None
    }
}

/// Checks the accounts of a token withdrawal: a fungible token for `nft`
/// false, one with no decimals and a supply of one for `nft` true, a wallet's
/// token account that the wallet holds, and token accounts of the mint.
pub fn check_token_accounts(
    nft: bool,
    mint_key: &Pubkey,
    mint: &TokenMint,
    proxy_wallet_key: &Pubkey,
    proxy_wallet_token: &TokenAccount,
    receiver_token: &TokenAccount,
) -> (r: Result<(), ProgramErrorCode>)
    ensures
        r == match token_accounts_error(
            nft,
            mint_key@,
            *mint,
            proxy_wallet_key@,
            *proxy_wallet_token,
            *receiver_token,
        ) {
            Some(e) => Err::<(), ProgramErrorCode>(e),
            None => Ok(()),
        },
{
    let is_nft = mint.decimals == 0 && mint.supply == 1;
    if !nft && is_nft {
        return Err(ErrorCode::TokenIsNft.to_program_error());
    }
    if nft && !is_nft {
        return Err(ErrorCode::TokenIsNotNft.to_program_error());
    }
    if !proxy_wallet_token.owner.same(proxy_wallet_key) || !proxy_wallet_token.mint.same(mint_key)
        || !receiver_token.mint.same(mint_key) {
        return Err(ProgramErrorCode::Custom(CONSTRAINT_RAW));
    }
    Ok(())
}

/// `w` with `amount` more tokens withdrawn by `authority`, counted as NFTs
/// for `nft`.
pub open spec fn after_token_withdrawal(w: ProxyWallet, authority: Seq<u8>, nft: bool, amount: u64) -> ProxyWallet {
    if nft {
        if authority == w.primary_wallet@ {
            ProxyWallet {
                total_nft_withdrawn_primary_wallet: (w.total_nft_withdrawn_primary_wallet
                    + amount) as u64,
                ..w
            }
        } else {
            ProxyWallet { total_nft_withdrawn_user: (w.total_nft_withdrawn_user + amount) as u64, ..w }
        }
    } else {
        if authority == w.primary_wallet@ {
            ProxyWallet {
                total_ft_withdrawn_primary_wallet: (w.total_ft_withdrawn_primary_wallet
                    + amount) as u64,
                ..w
            }
        } else {
            ProxyWallet { total_ft_withdrawn_user: (w.total_ft_withdrawn_user + amount) as u64, ..w }
        }
    }
}

/// Whether the counter that a token withdrawal raises stays within 64 bits.
pub open spec fn token_counter_fits(w: ProxyWallet, authority: Seq<u8>, nft: bool, amount: u64) -> bool {
    if nft {
        if authority == w.primary_wallet@ {
            w.total_nft_withdrawn_primary_wallet + amount <= u64::MAX
        } else {
            w.total_nft_withdrawn_user + amount <= u64::MAX
        }
    } else {
        if authority == w.primary_wallet@ {
            w.total_ft_withdrawn_primary_wallet + amount <= u64::MAX
        } else {
            w.total_ft_withdrawn_user + amount <= u64::MAX
        }
    }
}

/// Decides a withdrawal of `amount` tokens (one, for an NFT) from the proxy
/// wallet's token account to the receiver's: refused where the accounts fail
/// `check_token_accounts` or the authority may not act on the wallet;
/// otherwise `true` where the tokens are to move, with the withdrawal
/// counted, and `false`, with nothing counted, where the two token accounts
/// are one.
pub fn withdraw_tokens(
    nft: bool,
    authority: &Pubkey,
    proxy_wallet_key: &Pubkey,
    proxy_wallet: &mut ProxyWallet,
    mint_key: &Pubkey,
    mint: &TokenMint,
    proxy_wallet_token_key: &Pubkey,
    proxy_wallet_token: &TokenAccount,
    receiver_token_key: &Pubkey,
    receiver_token: &TokenAccount,
    amount: u64,
) -> (r: Result<bool, ProgramErrorCode>)
    requires
        token_accounts_error(
            nft,
            mint_key@,
            *mint,
            proxy_wallet_key@,
            *proxy_wallet_token,
            *receiver_token,
        ) is None && authority_allowed(authority@, proxy_wallet_key@, *old(proxy_wallet))
            && proxy_wallet_token_key@ != receiver_token_key@ ==> token_counter_fits(
            *old(proxy_wallet),
            authority@,
            nft,
            amount,
        ),
    ensures
        token_accounts_error(
            nft,
            mint_key@,
            *mint,
            proxy_wallet_key@,
            *proxy_wallet_token,
            *receiver_token,
        ) matches Some(e) ==> r == Err::<bool, ProgramErrorCode>(e),
        token_accounts_error(
            nft,
            mint_key@,
            *mint,
            proxy_wallet_key@,
            *proxy_wallet_token,
            *receiver_token,
        ) is None ==> if !authority_allowed(authority@, proxy_wallet_key@, *old(proxy_wallet)) {
            r == Err::<bool, ProgramErrorCode>(wallet_error(ErrorCode::WrongAuthority))
        } else {
            r == Ok::<bool, ProgramErrorCode>(proxy_wallet_token_key@ != receiver_token_key@)
        },
        r == Ok::<bool, ProgramErrorCode>(true) ==> *final(proxy_wallet) == after_token_withdrawal(
            *old(proxy_wallet),
            authority@,
            nft,
            amount,
        ),
        r != Ok::<bool, ProgramErrorCode>(true) ==> *final(proxy_wallet) == *old(proxy_wallet),
{
    match check_token_accounts(nft, mint_key, mint, proxy_wallet_key, proxy_wallet_token, receiver_token) {
        Ok(()) => {},
        Err(e) => {
            return Err(e);
        },
    }
    match check_authority(authority, proxy_wallet_key, proxy_wallet) {
        Ok(()) => {},
        Err(e) => {
            return Err(e);
        },
    }
    if proxy_wallet_token_key.same(receiver_token_key) {
        return Ok(false);
    }
    let primary = authority.same(&proxy_wallet.primary_wallet);
    if nft {
        if primary {
            proxy_wallet.total_nft_withdrawn_primary_wallet = proxy_wallet.total_nft_withdrawn_primary_wallet
                + amount;
        } else {
            proxy_wallet.total_nft_withdrawn_user = proxy_wallet.total_nft_withdrawn_user + amount;
        }
    } else {
        if primary {
            proxy_wallet.total_ft_withdrawn_primary_wallet = proxy_wallet.total_ft_withdrawn_primary_wallet
                + amount;
        } else {
            proxy_wallet.total_ft_withdrawn_user = proxy_wallet.total_ft_withdrawn_user + amount;
        }
    }
    Ok(true)
}

/// Decides a withdrawal of `amount` fungible tokens; see `withdraw_tokens`.
pub fn withdraw_ft(
    authority: &Pubkey,
    proxy_wallet_key: &Pubkey,
    proxy_wallet: &mut ProxyWallet,
    mint_key: &Pubkey,
    mint: &TokenMint,
    proxy_wallet_token_key: &Pubkey,
    proxy_wallet_token: &TokenAccount,
    receiver_token_key: &Pubkey,
    receiver_token: &TokenAccount,
    amount: u64,
) -> (r: Result<bool, ProgramErrorCode>)
    requires
        token_accounts_error(
            false,
            mint_key@,
            *mint,
            proxy_wallet_key@,
            *proxy_wallet_token,
            *receiver_token,
        ) is None && authority_allowed(authority@, proxy_wallet_key@, *old(proxy_wallet))
            && proxy_wallet_token_key@ != receiver_token_key@ ==> token_counter_fits(
            *old(proxy_wallet),
            authority@,
            false,
            amount,
        ),
    ensures
        token_accounts_error(
            false,
            mint_key@,
            *mint,
            proxy_wallet_key@,
            *proxy_wallet_token,
            *receiver_token,
        ) matches Some(e) ==> r == Err::<bool, ProgramErrorCode>(e),
        token_accounts_error(
            false,
            mint_key@,
            *mint,
            proxy_wallet_key@,
            *proxy_wallet_token,
            *receiver_token,
        ) is None ==> if !authority_allowed(authority@, proxy_wallet_key@, *old(proxy_wallet)) {
            r == Err::<bool, ProgramErrorCode>(wallet_error(ErrorCode::WrongAuthority))
        } else {
            r == Ok::<bool, ProgramErrorCode>(proxy_wallet_token_key@ != receiver_token_key@)
        },
        r == Ok::<bool, ProgramErrorCode>(true) ==> *final(proxy_wallet) == after_token_withdrawal(
            *old(proxy_wallet),
            authority@,
            false,
            amount,
        ),
        r != Ok::<bool, ProgramErrorCode>(true) ==> *final(proxy_wallet) == *old(proxy_wallet),
{
    withdraw_tokens(
        false,
        authority,
        proxy_wallet_key,
        proxy_wallet,
        mint_key,
        mint,
        proxy_wallet_token_key,
        proxy_wallet_token,
        receiver_token_key,
        receiver_token,
        amount,
    )
}

/// Decides a withdrawal of one NFT; see `withdraw_tokens`.
pub fn withdraw_nft(
    authority: &Pubkey,
    proxy_wallet_key: &Pubkey,
    proxy_wallet: &mut ProxyWallet,
    nft_mint_key: &Pubkey,
    nft_mint: &TokenMint,
    proxy_wallet_token_key: &Pubkey,
    proxy_wallet_token: &TokenAccount,
    receiver_token_key: &Pubkey,
    receiver_token: &TokenAccount,
) -> (r: Result<bool, ProgramErrorCode>)
    requires
        token_accounts_error(
            true,
            nft_mint_key@,
            *nft_mint,
            proxy_wallet_key@,
            *proxy_wallet_token,
            *receiver_token,
        ) is None && authority_allowed(authority@, proxy_wallet_key@, *old(proxy_wallet))
            && proxy_wallet_token_key@ != receiver_token_key@ ==> token_counter_fits(
            *old(proxy_wallet),
            authority@,
            true,
            1,
        ),
    ensures
        token_accounts_error(
            true,
            nft_mint_key@,
            *nft_mint,
            proxy_wallet_key@,
            *proxy_wallet_token,
            *receiver_token,
        ) matches Some(e) ==> r == Err::<bool, ProgramErrorCode>(e),
        token_accounts_error(
            true,
            nft_mint_key@,
            *nft_mint,
            proxy_wallet_key@,
            *proxy_wallet_token,
            *receiver_token,
        ) is None ==> if !authority_allowed(authority@, proxy_wallet_key@, *old(proxy_wallet)) {
            r == Err::<bool, ProgramErrorCode>(wallet_error(ErrorCode::WrongAuthority))
        } else {
            r == Ok::<bool, ProgramErrorCode>(proxy_wallet_token_key@ != receiver_token_key@)
        },
        r == Ok::<bool, ProgramErrorCode>(true) ==> *final(proxy_wallet) == after_token_withdrawal(
            *old(proxy_wallet),
            authority@,
            true,
            1,
        ),
        r != Ok::<bool, ProgramErrorCode>(true) ==> *final(proxy_wallet) == *old(proxy_wallet),
{
    withdraw_tokens(
        true,
        authority,
        proxy_wallet_key,
        proxy_wallet,
        nft_mint_key,
        nft_mint,
        proxy_wallet_token_key,
        proxy_wallet_token,
        receiver_token_key,
        receiver_token,
        1,
    )
}

/// A wallet that `create_wallet` makes under the wallet program, kept at the
/// address that its user and primary wallet give, lets both of them, and no
/// one else, act on it.
pub proof fn lemma_created_wallet_authorities(
    w: ProxyWallet,
    primary_wallet: Seq<u8>,
    user: Seq<u8>,
    authority: Seq<u8>,
)
    requires
        w.bump == proxy_wallet_address(user, primary_wallet, wallet_program_id_bytes()).1,
        w.primary_wallet@ == primary_wallet,
        w.user@ == user,
    ensures
        authority_allowed(
            authority,
            proxy_wallet_address(user, primary_wallet, wallet_program_id_bytes()).0,
            w,
        ) <==> (authority == primary_wallet || authority == user),
{
}

} // verus!
