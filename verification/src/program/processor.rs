use vstd::prelude::*;
use vstd::string::StringSliceAdditionalSpecFns;
use crate::api::pda::config as config_address;
use crate::api::state::{mint_share_sum, transaction_share_sum};
use crate::chill_program::asserts::{chill_error, config_pubkey, mint_authority, mint_authority_error};
use crate::chill_program::error::ChillError;
use crate::pda::{program_address, spl_token_id_bytes};
use crate::program::state::{
    decode_config, holds_recipient, lemma_config_roundtrip, packed, Config, ConfigView, Fees,
    Recipient, StateType,
};
use crate::program_error::ProgramErrorCode;
use crate::token::AccountInfo;

verus! {

/// What setting up a configuration creates: the configuration's account, at
/// `config` with `bump`, funded with `lamports` for `space` bytes, and the
/// bytes written into it.
pub struct InitializePlan {
    pub config: crate::pubkey::Pubkey,
    pub bump: u8,
    pub lamports: u64,
    pub space: u64,
    pub data: Vec<u8>,
}

/// Why setting up a configuration is refused, checked in order: missing
/// accounts, a mint that the authority does not control, another address than
/// the mint's configuration, a configuration that already holds data, and the
/// recipients.
pub open spec fn initialize_error(
    program_id: Seq<u8>,
    accounts: Seq<AccountInfo>,
    recipients: Seq<Recipient>,
) -> Option<ProgramErrorCode> {
    if accounts.len() < 4 {
        Some(ProgramErrorCode::NotEnoughAccountKeys)
    } else if accounts[2].owner@ != spl_token_id_bytes() {
        Some(ProgramErrorCode::IllegalOwner)
    } else if mint_authority_error(accounts[2].data@, accounts[0].key@) is Some {
        mint_authority_error(accounts[2].data@, accounts[0].key@)
    } else if accounts[1].key@ != program_address(
        seq!["config".spec_bytes(), accounts[2].key@],
        program_id,
    ).0 {
        Some(chill_error(ChillError::ConfigHasWrongPubkey))
    } else if accounts[1].data@.len() != 0 {
        Some(chill_error(ChillError::ConfigAlreadyInitialized))
    } else if recipients.len() > Config::MAX_RECIPIENT_NUMBER {
        Some(chill_error(ChillError::MaximumRecipientsNumberExceeded))
    } else if recipients.len() > 0 && (mint_share_sum(recipients) != 100 || transaction_share_sum(
        recipients,
    ) != 100) {
        Some(chill_error(ChillError::InvalidShares))
    } else {
        None
    }
}

/// Decides the setup of the configuration of a mint. The accounts are, in
/// order: the authority, the configuration, the mint and the System program.
/// The configuration's account is created at its address with
/// `minimum_balance` lamports, the rent-exempt minimum for `Config::LEN`
/// bytes, and the configuration is written into it.
pub fn process_initialize(
    program_id: &crate::pubkey::Pubkey,
    accounts: &[AccountInfo],
    fees: Fees,
    recipients: Vec<Recipient>,
    minimum_balance: u64,
) -> (r: Result<InitializePlan, ProgramErrorCode>)
    ensures
        initialize_error(program_id@, accounts@, recipients@) matches Some(e) ==> r == Err::<
            InitializePlan,
            ProgramErrorCode,
        >(e),
        initialize_error(program_id@, accounts@, recipients@) is None ==> r is Ok,
        r matches Ok(p) ==> {
            &&& (p.config@, p.bump) == program_address(
                seq!["config".spec_bytes(), accounts@[2].key@],
                program_id@,
            )
            &&& p.lamports == minimum_balance
            &&& p.space == Config::LEN
            &&& p.data@ == packed(
                ConfigView {
                    state_type: StateType::Config,
                    mint: accounts@[2].key@,
                    fees,
                    recipients: recipients@.map_values(|x: Recipient| x@),
                },
                Seq::new(Config::LEN as nat, |i: int| 0u8),
            )
        },
        r matches Ok(p) ==> (forall|i: int|
            0 <= i < recipients@.len() ==> holds_recipient(#[trigger] recipients@[i]@))
            ==> decode_config(p.data@) == Ok::<ConfigView, ProgramErrorCode>(
            ConfigView {
                state_type: StateType::Config,
                mint: accounts@[2].key@,
                fees,
                recipients: recipients@.map_values(|x: Recipient| x@),
            },
        ),
{
    if accounts.len() < 4 {
        return Err(ProgramErrorCode::NotEnoughAccountKeys);
    }
    let authority = &accounts[0];
    let config = &accounts[1];
    let mint = &accounts[2];
    match mint_authority(mint, &authority.key) {
        Ok(()) => {},
        Err(e) => {
            return Err(e);
        },
    }
    match config_pubkey(&config.key, &mint.key, program_id) {
        Ok(()) => {},
        Err(e) => {
            return Err(e);
        },
    }
    if config.data.len() != 0 {
        return Err(ChillError::ConfigAlreadyInitialized.to_program_error());
    }
    let (config_key, bump) = config_address(&mint.key, program_id);
    let config_account = match Config::new(&mint.key, fees, recipients) {
        Ok(c) => c,
        Err(e) => {
            return Err(e);
        },
    };
    let mut data: Vec<u8> = vec![0u8; Config::LEN];
    let ghost zeros = data@;
    assert(zeros =~= Seq::new(Config::LEN as nat, |i: int| 0u8));
    let ghost view = config_account@;
    match Config::pack(config_account, data.as_mut_slice()) {
        Ok(()) => {},
        Err(e) => {
            return Err(e);
        },
    }
    proof {
        if forall|i: int|
            0 <= i < view.recipients.len() ==> holds_recipient(#[trigger] view.recipients[i]) {
            lemma_config_roundtrip(view, zeros);
        }
    }
    Ok(
        InitializePlan {
            config: config_key,
            bump,
            lamports: minimum_balance,
            space: Config::LEN as u64,
            data,
        },
    )
}

} // verus!
