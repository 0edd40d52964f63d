use vstd::prelude::*;
use vstd::string::StringSliceAdditionalSpecFns;
use crate::api::pda::config as config_address;
use crate::api::state::{decode_config, Config, ConfigView, StateType};
use crate::chill_program::error::{chill_error_number, ChillError};
use crate::nft::utils::{
    first_fault, lemma_first_fault_extends, lemma_first_fault_step,
    token_mint_of, token_owner_of,
};
use crate::pda::{program_address, spl_token_id, spl_token_id_bytes};
use crate::program_error::ProgramErrorCode;
use crate::pubkey::Pubkey;
use crate::token::{
    mint_decodes, token_account_decodes, unpack_mint, unpack_token_account, AccountInfo,
};

verus! {

/// The program error that carries a Chill program error.
pub open spec fn chill_error(e: ChillError) -> ProgramErrorCode {
    ProgramErrorCode::Custom(chill_error_number(e))
}

/// Refuses an account that `program_id` does not own.
pub fn owner(account: &AccountInfo, program_id: &Pubkey) -> (r: Result<(), ProgramErrorCode>)
    ensures
        r is Ok <==> account.owner@ == program_id@,
        r matches Err(e) ==> e == ProgramErrorCode::IllegalOwner,
{
    if !account.owner.same(program_id) {
        return Err(ProgramErrorCode::IllegalOwner);
    }
    Ok(())
}

/// Refuses an address other than that of the configuration of `mint` under
/// `program_id`.
pub fn config_pubkey(config: &Pubkey, mint: &Pubkey, program_id: &Pubkey) -> (r: Result<
    (),
    ProgramErrorCode,
>)
    ensures
        r is Ok <==> config@ == program_address(
            seq!["config".spec_bytes(), mint@],
            program_id@,
        ).0,
        r matches Err(e) ==> e == chill_error(ChillError::ConfigHasWrongPubkey),
{
    let (config_pda, _) = config_address(mint, program_id);
    if !config.same(&config_pda) {
        return Err(ChillError::ConfigHasWrongPubkey.to_program_error());
    }
    Ok(())
}

/// Why an account's data does not hold an initialized configuration: the
/// wrong length, bytes that do not decode, or an uninitialized state.
pub open spec fn config_data_error(data: Seq<u8>) -> Option<ProgramErrorCode> {
    if data.len() != Config::LEN {
        Some(ProgramErrorCode::InvalidAccountData)
    } else {
        match decode_config(data) {
            Some(c) => if c.state_type == StateType::Config {
                None
            } else {
                Some(ProgramErrorCode::UninitializedAccount)
            },
            None => Some(ProgramErrorCode::BorshIoError),
        }
    }
}

/// Refuses an account that `program_id` does not own or whose data does not
/// hold an initialized configuration.
pub fn is_config(config: &AccountInfo, program_id: &Pubkey) -> (r: Result<(), ProgramErrorCode>)
    ensures
        config.owner@ != program_id@ ==> r == Err::<(), ProgramErrorCode>(
            ProgramErrorCode::IllegalOwner,
        ),
        config.owner@ == program_id@ ==> r == match config_data_error(config.data@) {
            Some(e) => Err::<(), ProgramErrorCode>(e),
            None => Ok(()),
        },
{
    match owner(config, program_id) {
        Ok(()) => {},
        Err(e) => {
            return Err(e);
        },
    }
    match Config::unpack(config.data.as_slice()) {
        Ok(_) => Ok(()),
        Err(e) => Err(e),
    }
}

/// Why the data of a mint does not name `authority` as its mint authority:
/// it does not decode, the mint is not initialized, or it has no or another
/// mint authority.
pub open spec fn mint_authority_error(data: Seq<u8>, authority: Seq<u8>) -> Option<
    ProgramErrorCode,
> {
    if !mint_decodes(data) {
        Some(ProgramErrorCode::InvalidAccountData)
    } else if data[45] == 0 {
        Some(ProgramErrorCode::UninitializedAccount)
    } else if !(data[0] == 1 && data.subrange(4, 36) == authority) {
        Some(chill_error(ChillError::MintHasAnotherAuthority))
    } else {
        None
    }
}

/// Refuses a mint that the token program does not own or whose mint
/// authority is not `authority`.
pub fn mint_authority(mint: &AccountInfo, authority: &Pubkey) -> (r: Result<(), ProgramErrorCode>)
    ensures
        mint.owner@ != spl_token_id_bytes() ==> r == Err::<(), ProgramErrorCode>(
            ProgramErrorCode::IllegalOwner,
        ),
        mint.owner@ == spl_token_id_bytes() ==> r == match mint_authority_error(
            mint.data@,
            authority@,
        ) {
            Some(e) => Err::<(), ProgramErrorCode>(e),
            None => Ok(()),
        },
{
    let token_program = spl_token_id();
    match owner(mint, &token_program) {
        Ok(()) => {},
        Err(e) => {
            return Err(e);
        },
    }
    let mint_account = match unpack_mint(mint.data.as_slice()) {
        Ok(m) => m,
        Err(e) => {
            return Err(e);
        },
    };
    let matches = match mint_account.mint_authority {
        Some(a) => a.same(authority),
        None => false,
    };
    if !matches {
        return Err(ChillError::MintHasAnotherAuthority.to_program_error());
    }
    Ok(())
}

/// What is wrong with the data of a token account read without an owner
/// check: it does not decode or is not initialized.
pub open spec fn unpack_fault(a: AccountInfo) -> Option<ProgramErrorCode> {
    if !token_account_decodes(a.data@) {
        Some(ProgramErrorCode::InvalidAccountData)
    } else if a.data@[108] == 0 {
        Some(ProgramErrorCode::UninitializedAccount)
    } else {
        None
    }
}

/// Why `token` is not a token account of `mint` held by `owner`, checked in
/// order.
pub open spec fn token_account_error(token: AccountInfo, owner: Seq<u8>, mint: Seq<u8>) -> Option<
    ProgramErrorCode,
> {
    if token.owner@ != spl_token_id_bytes() {
        Some(ProgramErrorCode::IllegalOwner)
    } else if unpack_fault(token) is Some {
        unpack_fault(token)
    } else if token_owner_of(token) != owner {
        Some(chill_error(ChillError::TokenHasAnotherOwner))
    } else if token_mint_of(token) != mint {
        Some(chill_error(ChillError::TokenHasAnotherMint))
    } else {
        None
    }
}

/// Refuses an account that is not a token account of `mint` held by `owner`.
pub fn token_account(token: &AccountInfo, owner: &Pubkey, mint: &Pubkey) -> (r: Result<
    (),
    ProgramErrorCode,
>)
    ensures
        r == match token_account_error(*token, owner@, mint@) {
            Some(e) => Err::<(), ProgramErrorCode>(e),
            None => Ok(()),
        },
{
    let token_program = spl_token_id();
    match self::owner(token, &token_program) {
        Ok(()) => {},
        Err(e) => {
            return Err(e);
        },
    }
    let account = match unpack_token_account(token.data.as_slice()) {
        Ok(a) => a,
        Err(e) => {
            return Err(e);
        },
    };
    if !account.owner.same(owner) {
        return Err(ChillError::TokenHasAnotherOwner.to_program_error());
    }
    if !account.mint.same(mint) {
        return Err(ChillError::TokenHasAnotherMint.to_program_error());
    }
    Ok(())
}

/// Whether a recipient of `c` has address `address`.
pub open spec fn is_recipient(c: ConfigView, address: Seq<u8>) -> bool {
    exists|k: int| 0 <= k < c.recipients.len() && #[trigger] c.recipients[k].address == address
}

/// What is wrong with `a` as a recipient's token account of `c`: its data,
/// its mint, or an owner that is no recipient.
pub open spec fn recipient_fault(c: ConfigView, a: AccountInfo) -> Option<ProgramErrorCode> {
    if unpack_fault(a) is Some {
        unpack_fault(a)
    } else if token_mint_of(a) != c.mint {
        Some(chill_error(ChillError::WrongRecipientsList))
    } else if !is_recipient(c, token_owner_of(a)) {
        Some(chill_error(ChillError::WrongRecipientsList))
    } else {
        None
    }
}

/// The checks of each account as a recipient's token account.
pub open spec fn recipients_faults(c: ConfigView, accounts: Seq<AccountInfo>) -> Seq<
    Option<ProgramErrorCode>,
> {
    Seq::new(accounts.len(), |i: int| recipient_fault(c, accounts[i]))
}

/// Refuses token accounts that are not each of the configured mint and held
/// by one of the recipients; the first such account gives the error.
pub fn recipients(config: &Config, recipients_token_accounts: &[AccountInfo]) -> (r: Result<
    (),
    ProgramErrorCode,
>)
    ensures
        r == match first_fault(recipients_faults(config@, recipients_token_accounts@)) {
            Some(e) => Err::<(), ProgramErrorCode>(e),
            None => Ok(()),
        },
{
    let ghost faults = recipients_faults(config@, recipients_token_accounts@);
    let mut i: usize = 0;
    while i < recipients_token_accounts.len()
        invariant
            i <= recipients_token_accounts@.len(),
            faults == recipients_faults(config@, recipients_token_accounts@),
            first_fault(faults.take(i as int)) is None,
        decreases recipients_token_accounts@.len() - i,
    {
        let recipient = &recipients_token_accounts[i];
        proof {
            lemma_first_fault_step(faults, i as int);
        }
        let account = match unpack_token_account(recipient.data.as_slice()) {
            Ok(a) => a,
            Err(e) => {
                proof {
                    lemma_first_fault_extends(faults, i + 1);
                }
                return Err(e);
            },
        };
        if !account.mint.same(&config.mint) {
            proof {
                lemma_first_fault_extends(faults, i + 1);
            }
            return Err(ChillError::WrongRecipientsList.to_program_error());
        }
        let mut found = false;
        let mut k: usize = 0;
        while k < config.recipients.len()
            invariant
                k <= config.recipients@.len(),
                found ==> is_recipient(config@, account.owner@),
                !found ==> forall|kk: int|
                    0 <= kk < k ==> (#[trigger] config@.recipients[kk]).address != account.owner@,
            decreases config.recipients@.len() - k,
        {
            if config.recipients[k].address.same(&account.owner) {
                found = true;
                assert(config@.recipients[k as int].address == account.owner@);
            }
            k = k + 1;
        }
        if !found {
            proof {
                lemma_first_fault_extends(faults, i + 1);
            }
            return Err(ChillError::WrongRecipientsList.to_program_error());
        }
        i = i + 1;
    }
    proof {
        assert(faults.take(i as int) =~= faults);
    }
    Ok(())
}

} // verus!
