use chill::api::instruction::MintNftArgs;
use chill::api::state::{Config, Fees, Recipient};
use chill::chill_program::asserts::{
    config_pubkey, is_config, mint_authority, owner, recipients, token_account,
};
use chill::chill_program::error::ChillError;
use chill::chill_program::utils::{process_mint_nft, transfer_chill, MINT_NFT_FIXED_ACCOUNTS};
use chill::nft::state::NftType;
use chill::program::processor::process_initialize;
use chill::program::state::Config as ProgramConfig;
use chill::program_error::ProgramErrorCode;
use chill::pubkey::Pubkey;
use chill::token::AccountInfo;
use mpl_token_metadata::instructions::{CreateMetadataAccountV3, CreateMetadataAccountV3InstructionArgs};
use mpl_token_metadata::types::{Creator as MplCreator, DataV2};
use solana_program::program_option::COption;
use solana_program::program_pack::Pack;
use solana_program::pubkey::Pubkey as SolPubkey;
use spl_token::state::{Account, AccountState, Mint};

fn key(n: u8) -> Pubkey {
    Pubkey([n; 32])
}

fn token_program() -> Pubkey {
    Pubkey(spl_token::ID.to_bytes())
}

fn token_account_info(address: u8, mint: Pubkey, holder: Pubkey) -> AccountInfo {
    let account = Account {
        mint: SolPubkey::new_from_array(mint.0),
        owner: SolPubkey::new_from_array(holder.0),
        amount: 0,
        delegate: COption::None,
        state: AccountState::Initialized,
        is_native: COption::None,
        delegated_amount: 0,
        close_authority: COption::None,
    };
    let mut data = vec![0u8; Account::LEN];
    Account::pack(account, &mut data).unwrap();
    AccountInfo { key: key(address), owner: token_program(), lamports: 1, data }
}

fn mint_info(address: u8, authority: Option<Pubkey>) -> AccountInfo {
    let mint = Mint {
        mint_authority: match authority {
            Some(a) => COption::Some(SolPubkey::new_from_array(a.0)),
            None => COption::None,
        },
        supply: 0,
        decimals: 9,
        is_initialized: true,
        freeze_authority: COption::None,
    };
    let mut data = vec![0u8; Mint::LEN];
    Mint::pack(mint, &mut data).unwrap();
    AccountInfo { key: key(address), owner: token_program(), lamports: 1, data }
}

fn plain(address: u8) -> AccountInfo {
    AccountInfo { key: key(address), owner: key(0), lamports: 0, data: Vec::new() }
}

fn chill(e: ChillError) -> ProgramErrorCode {
    e.to_program_error()
}

fn config_address(mint: &Pubkey, program: &Pubkey) -> (Pubkey, u8) {
    let (a, b) = SolPubkey::find_program_address(
        &[b"config", &mint.0],
        &SolPubkey::new_from_array(program.0),
    );
    (Pubkey(a.to_bytes()), b)
}

fn api_config(mint: Pubkey, recipients: Vec<Recipient>) -> Config {
    Config::new(&mint, Fees::default(), recipients).unwrap()
}

fn config_info(address: Pubkey, program: Pubkey, config: &Config) -> AccountInfo {
    let mut data = vec![0u8; Config::LEN];
    config.pack_into_slice(&mut data);
    AccountInfo { key: address, owner: program, lamports: 1, data }
}

fn recipient(n: u8, share: u8) -> Recipient {
    Recipient { address: key(n), mint_share: share, transaction_share: share }
}

#[test]
fn owner_and_address_checks() {
    assert_eq!(owner(&plain(1), &key(0)), Ok(()));
    assert_eq!(owner(&plain(1), &key(5)), Err(ProgramErrorCode::IllegalOwner));
    let program = key(50);
    let (address, _) = config_address(&key(80), &program);
    assert_eq!(config_pubkey(&address, &key(80), &program), Ok(()));
    assert_eq!(config_pubkey(&key(3), &key(80), &program), Err(chill(ChillError::ConfigHasWrongPubkey)));
    assert_eq!(chill(ChillError::ConfigHasWrongPubkey), ProgramErrorCode::Custom(3));
}

#[test]
fn config_account_checks() {
    let program = key(50);
    let c = api_config(key(80), vec![recipient(1, 100)]);
    let info = config_info(key(70), program, &c);
    assert_eq!(is_config(&info, &program), Ok(()));
    assert_eq!(is_config(&info, &key(51)), Err(ProgramErrorCode::IllegalOwner));
    let mut empty = info.clone();
    empty.data = vec![0u8; Config::LEN];
    assert_eq!(is_config(&empty, &program), Err(ProgramErrorCode::UninitializedAccount));
    let mut short = info.clone();
    short.data = vec![1u8; 5];
    assert_eq!(is_config(&short, &program), Err(ProgramErrorCode::InvalidAccountData));
}

#[test]
fn mint_and_token_account_checks() {
    let m = mint_info(80, Some(key(2)));
    assert_eq!(mint_authority(&m, &key(2)), Ok(()));
    assert_eq!(mint_authority(&m, &key(3)), Err(chill(ChillError::MintHasAnotherAuthority)));
    assert_eq!(
        mint_authority(&mint_info(80, None), &key(2)),
        Err(chill(ChillError::MintHasAnotherAuthority))
    );
    assert_eq!(mint_authority(&plain(80), &key(2)), Err(ProgramErrorCode::IllegalOwner));
    let t = token_account_info(20, key(80), key(1));
    assert_eq!(token_account(&t, &key(1), &key(80)), Ok(()));
    assert_eq!(token_account(&t, &key(2), &key(80)), Err(chill(ChillError::TokenHasAnotherOwner)));
    assert_eq!(token_account(&t, &key(1), &key(81)), Err(chill(ChillError::TokenHasAnotherMint)));
}

#[test]
fn recipients_accounts_checks() {
    let c = api_config(key(80), vec![recipient(1, 70), recipient(2, 30)]);
    let a1 = token_account_info(11, key(80), key(1));
    let a2 = token_account_info(12, key(80), key(2));
    assert_eq!(recipients(&c, &[a2.clone(), a1.clone()]), Ok(()));
    // a holder that is no recipient
    let a3 = token_account_info(13, key(80), key(3));
    assert_eq!(recipients(&c, &[a1.clone(), a3]), Err(chill(ChillError::WrongRecipientsList)));
    // another mint
    let a4 = token_account_info(14, key(81), key(1));
    assert_eq!(recipients(&c, &[a4]), Err(chill(ChillError::WrongRecipientsList)));
}

#[test]
fn transfers_of_the_price() {
    let c = api_config(key(80), vec![recipient(1, 70), recipient(2, 30)]);
    let a1 = token_account_info(11, key(80), key(1));
    let a2 = token_account_info(12, key(80), key(2));
    let t = transfer_chill(&key(9), &[a1.clone(), a2.clone()], &c, 1000).unwrap();
    assert_eq!(t, vec![(key(11), 700), (key(12), 300)]);
    // the payer's own account is left out
    let t = transfer_chill(&key(1), &[a1.clone(), a2.clone()], &c, 999).unwrap();
    assert_eq!(t, vec![(key(12), 299)]);
    let mut broken = a2.clone();
    broken.data.truncate(10);
    assert_eq!(transfer_chill(&key(9), &[a1, broken], &c, 1).unwrap_err(), ProgramErrorCode::InvalidAccountData);
}

fn mint_accounts(program: Pubkey, authority: u8, user: u8, c: &Config) -> Vec<AccountInfo> {
    let (config_key, _) = config_address(&c.mint, &program);
    let mut accounts = vec![
        plain(authority),
        plain(user),
        config_info(config_key, program, c),
        plain(80),
        token_account_info(30, c.mint, key(user)),
        plain(31),
        plain(32),
        plain(33),
        plain(34),
        plain(35),
        plain(36),
        plain(37),
        plain(38),
    ];
    for (i, r) in c.recipients.iter().enumerate() {
        accounts.push(token_account_info(40 + i as u8, c.mint, r.address));
    }
    accounts
}

fn args() -> MintNftArgs {
    MintNftArgs {
        nft_type: NftType::Item,
        name: "name".to_string(),
        symbol: "SYM".to_string(),
        uri: "https://x".to_string(),
        fees: 500,
    }
}

#[test]
fn mint_nft_decisions() {
    let program = key(50);
    let fees = Fees { character: 1, pet: 2, emote: 3, tileset: 4, item: 2000 };
    let c = Config::new(&key(80), fees, vec![recipient(1, 70), recipient(2, 30)]).unwrap();
    // a user other than the authority pays both recipients and signs
    let accounts = mint_accounts(program, 5, 6, &c);
    let plan = process_mint_nft(&program, &accounts, args()).unwrap();
    assert_eq!(plan.transfers, vec![(key(40), 1400), (key(41), 600)]);
    assert!(plan.sign_as_user);
    let creators = plan.token_builder.creators.unwrap();
    assert_eq!((creators[0].address, creators[0].share), (key(5), 2));
    assert_eq!((creators[1].address, creators[1].share, creators[1].verified), (key(6), 98, false));
    assert_eq!(plan.token_builder.uri, "https://x");
    // the documented layout: 13 fixed accounts, then the recipients'
    assert_eq!(MINT_NFT_FIXED_ACCOUNTS, 13);
    assert_eq!(accounts.len(), 13 + 2);
    // the authority itself is a recipient and the user: it is not paid
    let accounts = mint_accounts(program, 1, 1, &c);
    let plan = process_mint_nft(&program, &accounts, args()).unwrap();
    assert_eq!(plan.transfers, vec![(key(41), 600)]);
    assert!(!plan.sign_as_user);
    // missing accounts
    assert_eq!(
        process_mint_nft(&program, &accounts[..12], args()).err(),
        Some(ProgramErrorCode::NotEnoughAccountKeys)
    );
    assert_eq!(
        process_mint_nft(&program, &accounts[..14], args()).err(),
        Some(ProgramErrorCode::NotEnoughAccountKeys)
    );
    // a configuration that another program owns
    let mut foreign = accounts.clone();
    foreign[2].owner = key(51);
    assert_eq!(process_mint_nft(&program, &foreign, args()).err(), Some(ProgramErrorCode::IllegalOwner));
    // a user's token account of another holder
    let mut wrong = mint_accounts(program, 5, 6, &c);
    wrong[4] = token_account_info(30, c.mint, key(7));
    assert_eq!(
        process_mint_nft(&program, &wrong, args()).err(),
        Some(chill(ChillError::TokenHasAnotherOwner))
    );
    // the fee is the configured one of the NFT's kind; worlds have none
    let accounts = mint_accounts(program, 5, 6, &c);
    let mut pet = args();
    pet.nft_type = NftType::Pet;
    let plan = process_mint_nft(&program, &accounts, pet).unwrap();
    assert_eq!(plan.transfers, vec![(key(40), 1), (key(41), 0)]);
    let mut world = args();
    world.nft_type = NftType::World;
    assert_eq!(
        process_mint_nft(&program, &accounts, world).err(),
        Some(ProgramErrorCode::InvalidInstructionData)
    );
}

#[test]
fn initialize_decisions() {
    let program = key(50);
    let mint = mint_info(80, Some(key(2)));
    let (config_key, bump) = config_address(&key(80), &program);
    let config = AccountInfo { key: config_key, owner: key(0), lamports: 0, data: Vec::new() };
    let accounts = vec![plain(2), config.clone(), mint.clone(), plain(0)];
    let recipients = vec![recipient(1, 100)];
    let plan = process_initialize(&program, &accounts, Fees::default(), recipients.clone(), 1_000_000).unwrap();
    assert_eq!(plan.config, config_key);
    assert_eq!(plan.bump, bump);
    assert_eq!(plan.lamports, 1_000_000);
    assert_eq!(plan.space, ProgramConfig::LEN as u64);
    let written = ProgramConfig::unpack(&plan.data).unwrap();
    assert_eq!(written.recipients, recipients);
    assert_eq!(written.mint, key(80));
    // another authority
    let other = vec![plain(3), config.clone(), mint.clone(), plain(0)];
    assert_eq!(
        process_initialize(&program, &other, Fees::default(), Vec::new(), 0).err(),
        Some(chill(ChillError::MintHasAnotherAuthority))
    );
    // a configuration that already holds data
    let mut full = config.clone();
    full.data = vec![0u8; 4];
    let used = vec![plain(2), full, mint.clone(), plain(0)];
    assert_eq!(
        process_initialize(&program, &used, Fees::default(), Vec::new(), 0).err(),
        Some(chill(ChillError::ConfigAlreadyInitialized))
    );
    // shares that do not add up to 100
    assert_eq!(
        process_initialize(&program, &accounts, Fees::default(), vec![recipient(1, 99)], 0).err(),
        Some(chill(ChillError::InvalidShares))
    );
    assert_eq!(
        process_initialize(&program, &accounts[..3], Fees::default(), Vec::new(), 0).err(),
        Some(ProgramErrorCode::NotEnoughAccountKeys)
    );
}

#[test]
fn mint_nft_metadata_instruction() {
    let program = key(50);
    let fees = Fees { character: 1, pet: 2, emote: 3, tileset: 4, item: 2000 };
    let c = Config::new(&key(80), fees, vec![recipient(1, 70), recipient(2, 30)]).unwrap();
    let accounts = mint_accounts(program, 5, 6, &c);
    let plan = process_mint_nft(&program, &accounts, args()).unwrap();
    let ix = plan.metadata_instruction;
    let rent = solana_program::sysvar::rent::ID.to_bytes();
    let expected = CreateMetadataAccountV3 {
        metadata: plan.metadata.0.into(),
        mint: accounts[5].key.0.into(),
        mint_authority: key(5).0.into(),
        payer: key(6).0.into(),
        update_authority: (key(5).0.into(), true),
        system_program: [0u8; 32].into(),
        rent: Some(rent.into()),
    }
    .instruction(CreateMetadataAccountV3InstructionArgs {
        data: DataV2 {
            name: "name".to_string(),
            symbol: "SYM".to_string(),
            uri: "https://x".to_string(),
            seller_fee_basis_points: 500,
            creators: Some(vec![
                MplCreator { address: key(5).0.into(), verified: true, share: 2 },
                MplCreator { address: key(6).0.into(), verified: false, share: 98 },
            ]),
            collection: None,
            uses: None,
        },
        is_mutable: true,
        collection_details: None,
    });
    assert_eq!(ix.program_id.0, expected.program_id.to_bytes());
    assert_eq!(ix.data, expected.data);
    assert_eq!(ix.data[0], 33);
    let metas: Vec<([u8; 32], bool, bool)> =
        ix.accounts.iter().map(|m| (m.pubkey.0, m.is_signer, m.is_writable)).collect();
    let expected_metas: Vec<([u8; 32], bool, bool)> =
        expected.accounts.iter().map(|m| (m.pubkey.to_bytes(), m.is_signer, m.is_writable)).collect();
    assert_eq!(metas, expected_metas);
    // the update authority and mint authority are the authority; the mint is the NFT's
    assert_eq!(metas[1].0, accounts[5].key.0);
    assert_eq!(metas[4], (key(5).0, true, false));
}
