use chill::api::error::ChillApiError;
use chill::api::instruction::push_string;
use chill::api::state::{
    sum_mint_shares, sum_transaction_shares, Config as ApiConfig, Fees, Recipient, StateType,
};
use chill::bytes::{
    copy_prefix, extend_from, push_pubkey, push_u32, push_u64, read_pubkey, read_u32, read_u64,
};
use chill::chill_program::error::ChillError;
use chill::chill_program::utils::slice_range;
use chill::cli::pda::{proxy_wallet, staking_token_authority};
use chill::grpc_service::server::{command_line, push_flag};
use chill::instruction::AccountMeta;
use chill::nft::utils::recipient_position;
use chill::pda::{
    config_program_id, key_bytes, nft_program_id, staking_program_id, str_bytes,
    wallet_program_id,
};
use chill::program::state::Config as ProgramConfig;
use chill::program_error::ProgramErrorCode;
use chill::pubkey::Pubkey;
use chill::staking::error::ErrorCode as StakingError;
use chill::staking::lazy_vector::LazyVector;
use chill::token::AccountInfo;
use solana_program::pubkey::Pubkey as SolPubkey;

fn sol(s: &str) -> SolPubkey {
    SolPubkey::try_from(s).unwrap()
}

#[test]
fn program_ids_match_their_addresses() {
    assert_eq!(nft_program_id().0, sol("E9Zy6VNmQNXj4MiCLjgzJ2png3zfQfosdxRiQ5bornAM").to_bytes());
    assert_eq!(staking_program_id().0, sol("7EbJfNdsRx1VgHbQgFCZsZZJBm2eDQC3PkKxTSjiabHm").to_bytes());
    assert_eq!(wallet_program_id().0, sol("9HjUbHc9JmSwEa9vkATjJCoaAhJYbkcqXE64CafXDrPt").to_bytes());
    assert_eq!(config_program_id().0, sol("64GbC4BYC6iSvrsoMtdYj7pTzLBUraCWQJMwX2srbVfk").to_bytes());
    assert_eq!(Pubkey::zero().0, [0u8; 32]);
}

#[test]
fn derived_addresses_match_the_runtime() {
    let program = staking_program_id();
    let info = Pubkey([11; 32]);
    let (expected, _) =
        SolPubkey::find_program_address(&[&[11u8; 32]], &SolPubkey::new_from_array(program.0));
    assert_eq!(staking_token_authority(info, program).0, expected.to_bytes());

    let wallet_program = wallet_program_id();
    let (expected, _) = SolPubkey::find_program_address(
        &[b"wallet", &[1u8; 32], &[2u8; 32]],
        &SolPubkey::new_from_array(wallet_program.0),
    );
    assert_eq!(proxy_wallet(Pubkey([1; 32]), Pubkey([2; 32]), wallet_program).0, expected.to_bytes());
    assert_eq!(str_bytes("wallet"), b"wallet".to_vec());
    assert_eq!(key_bytes(&Pubkey([9; 32])), vec![9u8; 32]);
}

#[test]
fn little_endian_round_trips() {
    let mut out = vec![0xAAu8];
    push_u64(&mut out, 0x0102_0304_0506_0708);
    push_u32(&mut out, 0x0A0B_0C0D);
    push_pubkey(&mut out, &Pubkey([5; 32]));
    extend_from(&mut out, &[1, 2, 3]);
    assert_eq!(out.len(), 1 + 8 + 4 + 32 + 3);
    assert_eq!(&out[1..9], &[8, 7, 6, 5, 4, 3, 2, 1]);
    assert_eq!(read_u64(&out, 1), 0x0102_0304_0506_0708);
    assert_eq!(read_u32(&out, 9), 0x0A0B_0C0D);
    assert_eq!(read_pubkey(&out, 13).0, [5u8; 32]);
    assert_eq!(&out[45..], &[1, 2, 3]);

    let mut dst = [9u8; 6];
    copy_prefix(&mut dst, &[1, 2]);
    assert_eq!(dst, [1, 2, 9, 9, 9, 9]);
}

#[test]
fn borsh_string() {
    let mut out = Vec::new();
    push_string(&mut out, &"héllo".to_string());
    assert_eq!(out, vec![6, 0, 0, 0, b'h', 0xC3, 0xA9, b'l', b'l', b'o']);
}

#[test]
fn share_sums_and_positions() {
    let recipients = vec![
        Recipient { address: Pubkey([1; 32]), mint_share: 30, transaction_share: 10 },
        Recipient { address: Pubkey([2; 32]), mint_share: 70, transaction_share: 85 },
        Recipient { address: Pubkey([1; 32]), mint_share: 0, transaction_share: 5 },
    ];
    assert_eq!(sum_mint_shares(&recipients), 100);
    assert_eq!(sum_transaction_shares(&recipients), 100);
    assert_eq!(sum_mint_shares(&Vec::new()), 0);
    assert_eq!(recipient_position(&recipients, &Pubkey([1; 32])), 0);
    assert_eq!(recipient_position(&recipients, &Pubkey([2; 32])), 1);
    assert_eq!(recipient_position(&recipients, &Pubkey([3; 32])), 3);
}

#[test]
fn configs_unpacked_unchecked() {
    let mint = Pubkey([4; 32]);
    let recipients =
        vec![Recipient { address: Pubkey([1; 32]), mint_share: 100, transaction_share: 100 }];
    let api = ApiConfig::new(&mint, Fees::default(), recipients.clone()).unwrap();
    assert_eq!(api.state_type(), StateType::Config);
    let mut buffer = [0u8; ApiConfig::LEN];
    api.pack_into_slice(&mut buffer);
    assert_eq!(ApiConfig::unpack_unchecked(&buffer), Ok(api));
    assert_eq!(ApiConfig::unpack_unchecked(&buffer[1..]), Err(ProgramErrorCode::InvalidAccountData));
    // unchecked: an uninitialized configuration is read as it stands
    let empty = ApiConfig::unpack_unchecked(&[0u8; ApiConfig::LEN]).unwrap();
    assert_eq!(empty.state_type(), StateType::Uninitialized);

    let program = ProgramConfig::new(&mint, Fees::default(), recipients).unwrap();
    let mut buffer = [0u8; ProgramConfig::LEN];
    ProgramConfig::pack(program.clone(), &mut buffer).unwrap();
    assert_eq!(ProgramConfig::unpack_unchecked(&buffer), Ok(program));
    assert_eq!(
        ProgramConfig::unpack_unchecked(&[0u8; ProgramConfig::LEN + 1]),
        Err(ProgramErrorCode::InvalidAccountData)
    );
}

#[test]
fn error_type_names() {
    assert_eq!(ChillApiError::type_of(), "ChillApiError");
    assert_eq!(ChillError::type_of(), "ChillError");
}

#[test]
fn command_lines() {
    let mut args = command_line("balance");
    assert_eq!(args, vec!["./chill-cli".to_string(), "balance".to_string()]);
    push_flag(&mut args, "--url", "");
    assert_eq!(args.len(), 2);
    push_flag(&mut args, "--url", "http://x");
    assert_eq!(args[2..], ["--url".to_string(), "http://x".to_string()]);
}

#[test]
fn account_helpers() {
    let meta = AccountMeta::new_readonly(Pubkey([3; 32]), true);
    assert!(meta.is_signer);
    assert!(!meta.is_writable);
    assert_eq!(meta.pubkey, Pubkey([3; 32]));

    let accounts: Vec<AccountInfo> = (0..4u8)
        .map(|i| AccountInfo {
            key: Pubkey([i; 32]),
            owner: Pubkey([0; 32]),
            lamports: i as u64,
            data: Vec::new(),
        })
        .collect();
    let middle = slice_range(&accounts, 1, 3);
    assert_eq!(middle.len(), 2);
    assert_eq!(middle[0].lamports, 1);
    assert_eq!(middle[1].lamports, 2);
}

#[test]
fn lazy_vector_reads_by_u64_index() {
    let mut data = vec![0u8; 3 + 16];
    data[3..11].copy_from_slice(&7u64.to_le_bytes());
    data[11..19].copy_from_slice(&9u64.to_le_bytes());
    let v: LazyVector<u64> = LazyVector::new(3, 2, 8, data).unwrap();
    assert_eq!(v.elem_size(), 8);
    assert_eq!(v.get_at(0), Ok(7));
    assert_eq!(v.get_at(1), Ok(9));
    assert_eq!(v.get_at(2), Err(StakingError::OutOfBounds));
}
