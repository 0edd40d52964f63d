use vstd::prelude::*;
use crate::pubkey::Pubkey;

verus! {

pub const DESCRIMINATOR_LEN: usize = 8;

/// A wallet that the program holds for a user on behalf of a primary wallet,
/// with what each of the two has withdrawn from it.
#[derive(Clone, Copy, Debug)]
pub struct ProxyWallet {
    pub bump: u8,
    pub primary_wallet: Pubkey,
    pub user: Pubkey,
    pub total_money_withdrawn_user: u64,
    pub total_money_withdrawn_primary_wallet: u64,
    pub total_ft_withdrawn_user: u64,
    pub total_ft_withdrawn_primary_wallet: u64,
    pub total_nft_withdrawn_user: u64,
    pub total_nft_withdrawn_primary_wallet: u64,
}

impl ProxyWallet {
    pub const LEN: usize = 121;

    pub const SEED: &'static str = "wallet";
}

} // verus!
