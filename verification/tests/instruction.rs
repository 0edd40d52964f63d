use chill::api::instruction::{
    initialize as api_initialize, mint_nft as api_mint_nft, ChillInstruction as ApiInstruction,
    InitializeArgs, MintNftArgs,
};
use chill::api::state::{Fees, Recipient};
use chill::instruction::AccountMeta;
use chill::nft::state::NftType;
use chill::program::instruction::{initialize, ChillInstruction};
use chill::program_error::ProgramErrorCode;
use chill::pubkey::Pubkey;
use solana_program::pubkey::Pubkey as SolPubkey;

fn key(n: u8) -> Pubkey {
    Pubkey([n; 32])
}

fn fees() -> Fees {
    Fees { character: 1, pet: 2, emote: 3, tileset: 4, item: 5 }
}

fn config_key(mint: &Pubkey, program: &Pubkey) -> Pubkey {
    let (a, _) = SolPubkey::find_program_address(
        &[b"config", &mint.0],
        &SolPubkey::new_from_array(program.0),
    );
    Pubkey(a.to_bytes())
}

fn meta(m: &AccountMeta) -> (Pubkey, bool, bool) {
    (m.pubkey, m.is_signer, m.is_writable)
}

#[test]
fn program_instruction_bytes_and_back() {
    assert_eq!(ChillInstruction::MintNft.try_to_vec(), vec![1u8]);
    let recipients = vec![Recipient { address: key(7), mint_share: 60, transaction_share: 40 }];
    let ins = ChillInstruction::Initialize { fees: fees(), recipients: recipients.clone() };
    let bytes = ins.try_to_vec();
    assert_eq!(bytes.len(), 1 + 40 + 4 + 34);
    assert_eq!(bytes[0], 0);
    assert_eq!(&bytes[1..9], &1u64.to_le_bytes());
    assert_eq!(&bytes[33..41], &5u64.to_le_bytes());
    assert_eq!(&bytes[41..45], &1u32.to_le_bytes());
    assert_eq!(&bytes[45..77], &[7u8; 32]);
    assert_eq!(&bytes[77..79], &[60, 40]);
    match ChillInstruction::try_from_slice(&bytes).unwrap() {
        ChillInstruction::Initialize { fees: f, recipients: r } => {
            assert_eq!(f, fees());
            assert_eq!(r, recipients);
        }
        ChillInstruction::MintNft => panic!("decoded the wrong instruction"),
    }
    assert!(matches!(ChillInstruction::try_from_slice(&[1]), Ok(ChillInstruction::MintNft)));
}

#[test]
fn program_instruction_refusals() {
    let e = ProgramErrorCode::BorshIoError;
    assert_eq!(ChillInstruction::try_from_slice(&[]).err(), Some(e));
    assert_eq!(ChillInstruction::try_from_slice(&[1, 0]).err(), Some(e));
    assert_eq!(ChillInstruction::try_from_slice(&[2]).err(), Some(e));
    assert_eq!(ChillInstruction::try_from_slice(&[0; 44]).err(), Some(e));
    // a recipient count that the length does not match
    let mut bytes = ChillInstruction::Initialize { fees: fees(), recipients: Vec::new() }.try_to_vec();
    assert!(ChillInstruction::try_from_slice(&bytes).is_ok());
    bytes[41] = 1;
    assert_eq!(ChillInstruction::try_from_slice(&bytes).err(), Some(e));
}

#[test]
fn program_initialize_instruction() {
    let program = key(50);
    let ix = initialize(program, key(1), key(80), fees(), Vec::new());
    assert_eq!(ix.program_id, program);
    let metas: Vec<_> = ix.accounts.iter().map(meta).collect();
    assert_eq!(
        metas,
        vec![
            (key(1), true, true),
            (config_key(&key(80), &program), false, true),
            (key(80), false, false),
            (key(0), false, false),
        ]
    );
    assert_eq!(ix.data, ChillInstruction::Initialize { fees: fees(), recipients: Vec::new() }.try_to_vec());
}

#[test]
fn api_instruction_bytes() {
    let args = MintNftArgs {
        nft_type: NftType::Tileset,
        name: "ab".to_string(),
        symbol: "S".to_string(),
        uri: "".to_string(),
        fees: 0x0102,
    };
    let bytes = ApiInstruction::MintNft(args).try_to_vec();
    assert_eq!(
        bytes,
        vec![1, 3, 2, 0, 0, 0, b'a', b'b', 1, 0, 0, 0, b'S', 0, 0, 0, 0, 0x02, 0x01]
    );
    let init = ApiInstruction::Initialize(InitializeArgs { fees: fees(), recipients: Vec::new() });
    let bytes = init.try_to_vec();
    assert_eq!(bytes.len(), 45);
    assert_eq!(bytes[0], 0);
    // multi-byte characters count by their UTF-8 bytes
    let args = MintNftArgs { nft_type: NftType::Pet, name: "é".to_string(), symbol: String::new(), uri: String::new(), fees: 0 };
    let bytes = ApiInstruction::MintNft(args).try_to_vec();
    assert_eq!(&bytes[2..8], &[2, 0, 0, 0, 0xC3, 0xA9]);
}

#[test]
fn api_instructions() {
    let program = key(50);
    let ix = api_initialize(program, key(1), key(80), InitializeArgs { fees: fees(), recipients: Vec::new() });
    assert_eq!(ix.accounts.len(), 4);
    assert_eq!(meta(&ix.accounts[1]), (config_key(&key(80), &program), false, true));
    let args = MintNftArgs {
        nft_type: NftType::World,
        name: "n".to_string(),
        symbol: "s".to_string(),
        uri: "u".to_string(),
        fees: 1,
    };
    let ix = api_mint_nft(program, key(1), key(2), key(80), key(3), key(4), key(5), &[key(20), key(21)], args);
    let metas: Vec<_> = ix.accounts.iter().map(meta).collect();
    assert_eq!(metas.len(), 15);
    assert_eq!(metas[0], (key(1), true, false));
    assert_eq!(metas[1], (key(2), true, true));
    assert_eq!(metas[2], (config_key(&key(80), &program), false, false));
    assert_eq!(metas[10], (Pubkey(solana_program::sysvar::rent::ID.to_bytes()), false, false));
    assert_eq!(metas[11], (Pubkey(spl_token::ID.to_bytes()), false, false));
    assert_eq!(metas[13], (key(20), false, true));
    assert_eq!(metas[14], (key(21), false, true));
    assert_eq!(ix.data[0..2], [1, 5]);
}
