use chill::chill_cli::cli::{
    default_mint_file as chill_cli_default_mint_file, rpc_url, CliCommand as TokenCommand,
};
use chill::cli::cli::{default_mint_file, multiple_recipients, CliCommand, Cluster};
use chill::cli::client::{find_token_address, primary_sale_creators, token_balance};
use chill::grpc_service::server::BlockchainServerImpl;
use chill::pubkey::Pubkey;

fn key(n: u8) -> Pubkey {
    Pubkey([n; 32])
}

#[test]
fn command_names() {
    let all = [
        CliCommand::Balance,
        CliCommand::CreateWallet,
        CliCommand::Info,
        CliCommand::Initialize,
        CliCommand::Mint,
        CliCommand::MintNft,
        CliCommand::StakingAddRewardTokens,
        CliCommand::StakingInitialize,
        CliCommand::Transfer,
        CliCommand::UpdateNft,
        CliCommand::WithdrawFt,
        CliCommand::WithdrawLamports,
        CliCommand::WithdrawNft,
    ];
    for c in all {
        assert_eq!(CliCommand::from_name(c.name()), Some(c));
    }
    assert_eq!(CliCommand::from_name("staking-initialize"), Some(CliCommand::StakingInitialize));
    assert_eq!(CliCommand::from_name("withdraw-ft"), Some(CliCommand::WithdrawFt));
    assert_eq!(CliCommand::from_name("staking"), None);
    assert_eq!(CliCommand::from_name(""), None);
    assert_eq!(TokenCommand::from_name("mint"), Some(TokenCommand::Mint));
    assert_eq!(TokenCommand::from_name("transfer"), Some(TokenCommand::Transfer));
    assert_eq!(TokenCommand::from_name("info"), None);
}

#[test]
fn mint_files_and_urls() {
    assert_eq!(default_mint_file(&Cluster::Devnet), "mint.devnet.pubkey");
    assert_eq!(default_mint_file(&Cluster::Mainnet), "mint.mainnet.pubkey");
    assert_eq!(default_mint_file(&Cluster::Localnet), "mint.localnet.pubkey");
    assert_eq!(
        default_mint_file(&Cluster::Custom("http://h".to_string(), "ws://h".to_string())),
        "mint.url.pubkey"
    );
    assert!(chill_cli_default_mint_file(false).contains("devnet"));
    assert!(chill_cli_default_mint_file(true).contains("mainnet"));
    assert_eq!(rpc_url(true), "https://api.mainnet-beta.solana.com");
    assert_eq!(rpc_url(false), "https://api.devnet.solana.com");
}

#[test]
fn recipients_from_the_command_line() {
    assert_eq!(multiple_recipients(None, vec![1], vec![2]), Some(Vec::new()));
    // a single recipient takes the whole shares, whatever was given
    let one = multiple_recipients(Some(vec![key(1)]), vec![5, 6], Vec::new()).unwrap();
    assert_eq!(one.len(), 1);
    assert_eq!((one[0].address, one[0].mint_share, one[0].transaction_share), (key(1), 100, 100));
    let two = multiple_recipients(Some(vec![key(1), key(2)]), vec![70, 30], vec![50, 50]).unwrap();
    assert_eq!((two[1].address, two[1].mint_share, two[1].transaction_share), (key(2), 30, 50));
    // not as many shares as recipients
    assert_eq!(multiple_recipients(Some(vec![key(1), key(2)]), vec![70], vec![50, 50]), None);
}

#[test]
fn service_command_lines() {
    let s = BlockchainServerImpl::default();
    assert_eq!(
        s.balance_args("devnet", "", "abc"),
        vec!["./chill-cli", "balance", "--url", "devnet", "--account", "abc"]
    );
    assert_eq!(s.info_args("", ""), vec!["./chill-cli", "info"]);
    assert_eq!(
        s.create_wallet_args("u", "a", "p", "w", "id"),
        vec![
            "./chill-cli", "create-wallet", "--url", "u", "--account", "a", "--payer", "p",
            "--primary-wallet", "w", "--program-id", "id"
        ]
    );
}

#[test]
fn client_decisions() {
    assert_eq!(find_token_address(&[], &key(9)), None);
    assert_eq!(find_token_address(&[key(1), key(9)], &key(9)), Some(key(9)));
    assert_eq!(find_token_address(&[key(1), key(2)], &key(9)), Some(key(1)));
    assert_eq!(token_balance(&[]), 0);
    assert_eq!(token_balance(&[5, 7, 30]), 42);
    let cs = primary_sale_creators(true, &key(1), false, &key(1), &key(2)).unwrap();
    assert_eq!((cs[0].address, cs[0].verified, cs[0].share), (key(1), true, 2));
    assert_eq!((cs[1].address, cs[1].verified, cs[1].share), (key(2), false, 98));
    assert!(primary_sale_creators(false, &key(1), false, &key(1), &key(2)).is_none());
    assert!(primary_sale_creators(true, &key(3), false, &key(1), &key(2)).is_none());
    assert!(primary_sale_creators(true, &key(1), true, &key(1), &key(2)).is_none());
    assert!(primary_sale_creators(true, &key(1), false, &key(1), &key(1)).is_none());
}
