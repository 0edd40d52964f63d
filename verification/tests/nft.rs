use chill::api::state::Recipient;
use chill::nft::error::ErrorCode;
use chill::nft::metaplex_adapter::TokenMetadataProgram;
use chill::nft::program::{has_duplicate_addresses, initialize, mint_nft, nft_creators};
use chill::nft::state::{ChillNftMetadata, Config, Fees, NftType, AUTHORITY_SHARE};
use chill::nft::utils::{calculate_amounts, check_recipients, chill_transfers, NftArgs};
use chill::program_error::ProgramErrorCode;
use chill::pubkey::Pubkey;
use chill::token::AccountInfo;
use solana_program::program_option::COption;
use solana_program::program_pack::Pack;
use solana_program::pubkey::Pubkey as SolPubkey;
use spl_token::state::{Account, AccountState};

fn key(n: u8) -> Pubkey {
    Pubkey([n; 32])
}

fn token_account_data(mint: Pubkey, owner: Pubkey, amount: u64) -> Vec<u8> {
    let account = Account {
        mint: SolPubkey::new_from_array(mint.0),
        owner: SolPubkey::new_from_array(owner.0),
        amount,
        delegate: COption::None,
        state: AccountState::Initialized,
        is_native: COption::None,
        delegated_amount: 0,
        close_authority: COption::None,
    };
    let mut data = vec![0u8; Account::LEN];
    Account::pack(account, &mut data).unwrap();
    data
}

fn token_account(address: u8, mint: Pubkey, owner: Pubkey) -> AccountInfo {
    AccountInfo {
        key: key(address),
        owner: Pubkey(spl_token::ID.to_bytes()),
        lamports: 1,
        data: token_account_data(mint, owner, 0),
    }
}

fn recipient(n: u8, share: u8) -> Recipient {
    Recipient { address: key(n), mint_share: share, transaction_share: share }
}

fn fees() -> Fees {
    Fees { character: 1000, pet: 999, emote: 3, tileset: 4, item: 5, world: 6 }
}

fn config(recipients: Vec<Recipient>) -> Config {
    Config { bump: 1, primary_wallet: key(90), mint: key(80), fees: fees(), recipients }
}

fn custom(e: ErrorCode) -> ProgramErrorCode {
    ProgramErrorCode::Custom(e.number())
}

#[test]
fn nft_type_names_and_numbers() {
    let all = [
        ("character", NftType::Character),
        ("pet", NftType::Pet),
        ("emote", NftType::Emote),
        ("tileset", NftType::Tileset),
        ("item", NftType::Item),
        ("world", NftType::World),
    ];
    for (i, (name, t)) in all.iter().enumerate() {
        assert_eq!(NftType::try_from_str(name), Ok(*t));
        assert_eq!(NftType::try_from_u8(i as u8), Ok(*t));
        assert_eq!(t.into_u8(), i as u8);
    }
    assert_eq!(NftType::try_from_str("dragon"), Err("Wrong nft type".to_string()));
    assert_eq!(NftType::try_from_str("Character"), Err("Wrong nft type".to_string()));
    assert_eq!(NftType::try_from_u8(6), Err("Wrong nft type".to_string()));
}

#[test]
fn fees_of_each_type() {
    let f = fees();
    assert_eq!(f.of(NftType::Character), 1000);
    assert_eq!(f.of(NftType::Pet), 999);
    assert_eq!(f.of(NftType::Emote), 3);
    assert_eq!(f.of(NftType::Tileset), 4);
    assert_eq!(f.of(NftType::Item), 5);
    assert_eq!(f.of(NftType::World), 6);
}

#[test]
fn error_numbers_and_messages() {
    assert_eq!(ErrorCode::DuplicateRecipients.number(), 6000);
    assert_eq!(ErrorCode::IllegalOwner.number(), 6004);
    assert_eq!(ErrorCode::InvalidShares.message(), "Sum of all recipient shares must equal 100");
    assert_eq!(ErrorCode::WrongRecipientsList.to_program_error(), ProgramErrorCode::Custom(6002));
}

#[test]
fn initialize_checks_recipients() {
    let program = key(50);
    let primary = key(90);
    let mint = key(80);
    // duplicate addresses come first
    let dup = vec![recipient(1, 50), recipient(1, 50)];
    assert!(has_duplicate_addresses(&dup));
    assert_eq!(
        initialize(&program, &primary, &mint, fees(), dup).unwrap_err(),
        custom(ErrorCode::DuplicateRecipients)
    );
    // more than three
    let four = vec![recipient(1, 25), recipient(2, 25), recipient(3, 25), recipient(4, 25)];
    assert_eq!(
        initialize(&program, &primary, &mint, fees(), four).unwrap_err(),
        custom(ErrorCode::MaximumRecipientsNumberExceeded)
    );
    // mint shares that do not add up to 100
    let bad = vec![recipient(1, 50), recipient(2, 49)];
    assert_eq!(
        initialize(&program, &primary, &mint, fees(), bad).unwrap_err(),
        custom(ErrorCode::InvalidShares)
    );
    // transaction shares that do not add up to 100
    let bad_tx = vec![
        Recipient { address: key(1), mint_share: 60, transaction_share: 10 },
        Recipient { address: key(2), mint_share: 40, transaction_share: 10 },
    ];
    assert_eq!(
        initialize(&program, &primary, &mint, fees(), bad_tx).unwrap_err(),
        custom(ErrorCode::InvalidShares)
    );
    // share sums past 255 are refused, not wrapped
    let big = vec![
        Recipient { address: key(1), mint_share: 200, transaction_share: 200 },
        Recipient { address: key(2), mint_share: 156, transaction_share: 156 },
    ];
    assert_eq!(
        initialize(&program, &primary, &mint, fees(), big).unwrap_err(),
        custom(ErrorCode::InvalidShares)
    );
    // accepted
    let ok = vec![recipient(1, 70), recipient(2, 30)];
    let c = initialize(&program, &primary, &mint, fees(), ok.clone()).unwrap();
    let (_, bump) = SolPubkey::find_program_address(
        &[b"config", &mint.0],
        &SolPubkey::new_from_array(program.0),
    );
    assert_eq!(c.bump, bump);
    assert_eq!(c.mint, mint);
    assert_eq!(c.primary_wallet, primary);
    assert_eq!(c.recipients, ok);
    // no recipients at all
    assert!(initialize(&program, &primary, &mint, fees(), Vec::new()).is_ok());
}

#[test]
fn check_recipients_outcomes() {
    let c = config(vec![recipient(1, 50), recipient(2, 50)]);
    let a1 = token_account(11, c.mint, key(1));
    let a2 = token_account(12, c.mint, key(2));
    assert_eq!(check_recipients(&c, &[a2.clone(), a1.clone()]), Ok(()));
    // as many accounts as recipients
    assert_eq!(check_recipients(&c, &[a1.clone()]), Err(custom(ErrorCode::WrongRecipientsList)));
    // an account that the token program does not own
    let mut foreign = a2.clone();
    foreign.owner = key(77);
    assert_eq!(check_recipients(&c, &[a1.clone(), foreign]), Err(custom(ErrorCode::IllegalOwner)));
    // data that is no token account
    let mut broken = a2.clone();
    broken.data = vec![0u8; 3];
    assert_eq!(check_recipients(&c, &[a1.clone(), broken]), Err(ProgramErrorCode::InvalidAccountData));
    // a token account of another mint
    let other_mint = token_account(13, key(81), key(2));
    assert_eq!(check_recipients(&c, &[a1.clone(), other_mint]), Err(custom(ErrorCode::WrongRecipientsList)));
    // two accounts of one recipient leave the other without one
    assert_eq!(
        check_recipients(&c, &[a1.clone(), token_account(14, c.mint, key(1))]),
        Err(custom(ErrorCode::WrongRecipientsList))
    );
}

#[test]
fn calculate_amounts_splits_the_fee() {
    let c = config(vec![recipient(1, 50), recipient(2, 30), recipient(3, 20)]);
    let accounts = vec![
        token_account(12, c.mint, key(2)),
        token_account(13, c.mint, key(3)),
        token_account(11, c.mint, key(1)),
    ];
    // 1000: 20 % and 50 % to the accounts after the first, the rest to it
    let amounts = calculate_amounts(&c, &accounts, NftType::Character).unwrap();
    assert_eq!(amounts, vec![300, 200, 500]);
    assert_eq!(amounts.iter().sum::<u64>(), 1000);
    // rounding down leaves the remainder to the first account
    let c = config(vec![recipient(1, 33), recipient(2, 33), recipient(3, 34)]);
    let accounts = vec![
        token_account(11, c.mint, key(1)),
        token_account(12, c.mint, key(2)),
        token_account(13, c.mint, key(3)),
    ];
    let amounts = calculate_amounts(&c, &accounts, NftType::Pet).unwrap();
    assert_eq!(amounts, vec![331, 329, 339]);
    assert_eq!(amounts.iter().sum::<u64>(), 999);
    // nothing to split without recipients
    assert_eq!(calculate_amounts(&config(Vec::new()), &[], NftType::Pet), Ok(Vec::new()));
    // an account after the first that the token program does not own
    let mut foreign = accounts.clone();
    foreign[2].owner = key(77);
    assert_eq!(calculate_amounts(&c, &foreign, NftType::Pet), Err(custom(ErrorCode::IllegalOwner)));
}

#[test]
fn transfers_skip_the_payer() {
    let c = config(vec![recipient(1, 50), recipient(2, 50)]);
    let accounts = vec![token_account(11, c.mint, key(1)), token_account(12, c.mint, key(2))];
    let t = chill_transfers(&key(11), &accounts, &vec![500, 500]);
    assert_eq!(t, vec![(key(12), 500)]);
    let t = chill_transfers(&key(99), &accounts, &vec![400, 600]);
    assert_eq!(t, vec![(key(11), 400), (key(12), 600)]);
    // pairs go only as far as both lists
    let t = chill_transfers(&key(99), &accounts, &vec![7]);
    assert_eq!(t, vec![(key(11), 7)]);
}

#[test]
fn creators_of_an_nft() {
    let primary = key(90);
    let one = nft_creators(&primary, None);
    assert_eq!(one.len(), 1);
    assert_eq!((one[0].address, one[0].verified, one[0].share), (primary, true, 100));
    let same = nft_creators(&primary, Some(primary));
    assert_eq!(same.len(), 1);
    assert_eq!(same[0].share, 100);
    let two = nft_creators(&primary, Some(key(5)));
    assert_eq!(two.len(), 2);
    assert_eq!((two[0].address, two[0].verified, two[0].share), (primary, true, AUTHORITY_SHARE));
    assert_eq!((two[1].address, two[1].verified, two[1].share), (key(5), false, 98));
}

#[test]
fn mint_nft_plan() {
    let program = key(50);
    let nft_mint = key(60);
    let c = config(vec![recipient(1, 60), recipient(2, 40)]);
    let accounts = vec![token_account(11, c.mint, key(1)), token_account(12, c.mint, key(2))];
    let args = NftArgs { name: "n".to_string(), symbol: "s".to_string(), uri: "u".to_string(), fees: 250 };
    let plan = mint_nft(
        &program,
        &c.primary_wallet,
        &key(7),
        &nft_mint,
        &c,
        &key(11),
        &accounts,
        NftType::Character,
        args,
        Some(key(5)),
    )
    .unwrap();
    let (_, bump) = SolPubkey::find_program_address(
        &[b"chill-metadata", &nft_mint.0],
        &SolPubkey::new_from_array(program.0),
    );
    assert_eq!(plan.chill_metadata, ChillNftMetadata { bump, nft_type: NftType::Character });
    assert_eq!(plan.token_builder.name, "n");
    assert_eq!(plan.token_builder.seller_fee_basis_points, 250);
    assert_eq!(plan.token_builder.creators.as_ref().unwrap().len(), 2);
    // the metadata: created at the mint's metadata address, paid by the payer,
    // with the primary wallet as mint and update authority
    let ix = &plan.metadata_instruction;
    let metadata_program = SolPubkey::try_from("metaqbxxUerdq28cj1RbAWkYQm3ybzjb6a8bt518x1s").unwrap();
    let (metadata, _) = SolPubkey::find_program_address(
        &[b"metadata", metadata_program.as_ref(), &nft_mint.0],
        &metadata_program,
    );
    assert_eq!(ix.program_id.0, metadata_program.to_bytes());
    assert_eq!(ix.data[0], 33);
    let metas: Vec<([u8; 32], bool, bool)> =
        ix.accounts.iter().map(|m| (m.pubkey.0, m.is_signer, m.is_writable)).collect();
    assert_eq!(metas[0], (metadata.to_bytes(), false, true));
    assert_eq!(metas[1], (nft_mint.0, false, false));
    assert_eq!(metas[2], (c.primary_wallet.0, true, false));
    assert_eq!(metas[3], (key(7).0, true, true));
    assert_eq!(metas[4], (c.primary_wallet.0, true, false));
    assert_eq!(metas.len(), 7);
    // the payer holds the first account: only the second is paid, 40 % of 1000
    assert_eq!(plan.transfers, vec![(key(12), 400)]);
    // refused where the accounts do not pass the check
    let args = NftArgs { name: String::new(), symbol: String::new(), uri: String::new(), fees: 0 };
    let refused = mint_nft(
        &program, &c.primary_wallet, &key(7), &nft_mint, &c, &key(11), &accounts[..1], NftType::Pet, args, None,
    );
    assert_eq!(refused.err(), Some(custom(ErrorCode::WrongRecipientsList)));
}

#[test]
fn token_metadata_program_id() {
    assert_eq!(
        TokenMetadataProgram::id().0,
        SolPubkey::try_from("metaqbxxUerdq28cj1RbAWkYQm3ybzjb6a8bt518x1s").unwrap().to_bytes()
    );
}
