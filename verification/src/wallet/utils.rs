use vstd::prelude::*;
use vstd::string::StringSliceAdditionalSpecFns;
use crate::pda::{
    find_program_address, key_bytes, lemma_seed_strings, program_address, seeds_view, str_bytes,
    wallet_program_id, wallet_program_id_bytes,
};
use crate::pubkey::Pubkey;
use crate::wallet::error::{wallet_error, ErrorCode};
use crate::wallet::state::ProxyWallet;
use crate::program_error::ProgramErrorCode;

verus! {

/// The address and bump of the proxy wallet of `user` on behalf of
/// `primary_wallet` under `program_id`.
pub open spec fn proxy_wallet_address(user: Seq<u8>, primary_wallet: Seq<u8>, program_id: Seq<u8>) -> (
    Seq<u8>,
    u8,
) {
    program_address(seq!["wallet".spec_bytes(), user, primary_wallet], program_id)
}

/// The address and bump of the proxy wallet of `user` on behalf of
/// `primary_wallet` under `program_id`.
pub fn proxy_wallet_pda(user: &Pubkey, primary_wallet: &Pubkey, program_id: &Pubkey) -> (r: (
    Pubkey,
    u8,
))
    ensures
        (r.0@, r.1) == proxy_wallet_address(user@, primary_wallet@, program_id@),
{
    let mut seeds: Vec<Vec<u8>> = Vec::new();
    seeds.push(str_bytes("wallet"));
    seeds.push(key_bytes(user));
    seeds.push(key_bytes(primary_wallet));
    proof {
        lemma_seed_strings();
        assert(seeds_view(seeds@) =~= seq!["wallet".spec_bytes(), user@, primary_wallet@]);
    }
    find_program_address(&seeds, program_id)
}

/// Whether `authority` may act on the proxy wallet at `proxy_wallet_key`: it
/// is the wallet's primary wallet or its user, and the wallet sits at its own
/// address with its own bump.
pub open spec fn authority_allowed(authority: Seq<u8>, proxy_wallet_key: Seq<u8>, w: ProxyWallet) -> bool {
    &&& authority == w.primary_wallet@ || authority == w.user@
    &&& (proxy_wallet_key, w.bump) == proxy_wallet_address(
        w.user@,
        w.primary_wallet@,
        wallet_program_id_bytes(),
    )
}

/// Refuses an authority that is neither the proxy wallet's primary wallet nor
/// its user, or a wallet that is not at the address that its user and
/// primary wallet give, with that address's bump.
pub fn check_authority(authority: &Pubkey, proxy_wallet_key: &Pubkey, proxy_wallet: &ProxyWallet) -> (r:
    Result<(), ProgramErrorCode>)
    ensures
        r is Ok <==> authority_allowed(authority@, proxy_wallet_key@, *proxy_wallet),
        r matches Err(e) ==> e == wallet_error(ErrorCode::WrongAuthority),
{
    let program_id = wallet_program_id();
    let proxy_wallet_with_bump;
    if authority.same(&proxy_wallet.primary_wallet) {
        proxy_wallet_with_bump = proxy_wallet_pda(&proxy_wallet.user, authority, &program_id);
    } else if authority.same(&proxy_wallet.user) {
        proxy_wallet_with_bump = proxy_wallet_pda(authority, &proxy_wallet.primary_wallet, &program_id);
    } else {
        return Err(ErrorCode::WrongAuthority.to_program_error());
    }
    if !proxy_wallet_key.same(&proxy_wallet_with_bump.0) {
        return Err(ErrorCode::WrongAuthority.to_program_error());
    }
    if proxy_wallet.bump != proxy_wallet_with_bump.1 {
        return Err(ErrorCode::WrongAuthority.to_program_error());
    }
    Ok(())
}

/// The seeds with which the program signs for a proxy wallet: the seed, the
/// user, the primary wallet and the bump.
pub fn signer_seeds(proxy_wallet: &ProxyWallet) -> (r: Vec<Vec<u8>>)
    ensures
        seeds_view(r@) == seq![
            "wallet".spec_bytes(),
            proxy_wallet.user@,
            proxy_wallet.primary_wallet@,
            seq![proxy_wallet.bump],
        ],
{
    let mut seeds: Vec<Vec<u8>> = Vec::new();
    seeds.push(str_bytes("wallet"));
    seeds.push(key_bytes(&proxy_wallet.user));
    seeds.push(key_bytes(&proxy_wallet.primary_wallet));
    let mut bump: Vec<u8> = Vec::new();
    bump.push(proxy_wallet.bump);
    seeds.push(bump);
    proof {
        assert(seeds_view(seeds@) =~= seq![
            "wallet".spec_bytes(),
            proxy_wallet.user@,
            proxy_wallet.primary_wallet@,
            seq![proxy_wallet.bump],
        ]);
    }
    seeds
}

} // verus!
