use vstd::prelude::*;
use crate::pubkey::Pubkey;

verus! {

/// An account that an instruction names, and whether it signs and is
/// written.
#[derive(Clone, Copy, Debug)]
pub struct AccountMeta {
    pub pubkey: Pubkey,
    pub is_signer: bool,
    pub is_writable: bool,
}

impl AccountMeta {
    /// A written account.
    pub fn new(pubkey: Pubkey, is_signer: bool) -> (r: AccountMeta)
        ensures
            r.pubkey == pubkey,
            r.is_signer == is_signer,
            r.is_writable,
    {
        AccountMeta { pubkey, is_signer, is_writable: true }
    }

    /// An account that is only read.
    pub fn new_readonly(pubkey: Pubkey, is_signer: bool) -> (r: AccountMeta)
        ensures
            r.pubkey == pubkey,
            r.is_signer == is_signer,
            !r.is_writable,
    {
        AccountMeta { pubkey, is_signer, is_writable: false }
    }
}

/// An account of an instruction as a value: address, signs, is written.
pub open spec fn meta_view(m: AccountMeta) -> (Seq<u8>, bool, bool) {
    (m.pubkey@, m.is_signer, m.is_writable)
}

/// The views of an instruction's accounts.
pub open spec fn metas_view(ms: Seq<AccountMeta>) -> Seq<(Seq<u8>, bool, bool)> {
    ms.map_values(|m: AccountMeta| meta_view(m))
}

/// An instruction to a program: the program, the accounts it names, and its
/// data.
#[derive(Clone, Debug)]
pub struct Instruction {
    pub program_id: Pubkey,
    pub accounts: Vec<AccountMeta>,
    pub data: Vec<u8>,
}

} // verus!
