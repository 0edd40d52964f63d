use vstd::prelude::*;
use crate::api::state::Recipient;
use crate::pubkey::Pubkey;

verus! {

pub const COMMAND_BALANCE: &'static str = "balance";

pub const COMMAND_CREATE_WALLET: &'static str = "create-wallet";

pub const COMMAND_INFO: &'static str = "info";

pub const COMMAND_INITIALIZE: &'static str = "initialize";

pub const COMMAND_MINT: &'static str = "mint";

pub const COMMAND_MINT_NFT: &'static str = "mint-nft";

pub const COMMAND_TRANSFER: &'static str = "transfer";

pub const COMMAND_UPDATE_NFT: &'static str = "update-nft";

pub const COMMAND_WITHDRAW_FT: &'static str = "withdraw-ft";

pub const COMMAND_WITHDRAW_LAMPORTS: &'static str = "withdraw-lamports";

pub const COMMAND_WITHDRAW_NFT: &'static str = "withdraw-nft";

pub const COMMAND_STAKING: &'static str = "staking";

pub const COMMAND_ADD_REWARD_TOKENS: &'static str = "add-reward-tokens";

pub const COMMAND_STAKING_INITIALIZE: &'static str = "staking-initialize";

pub const COMMAND_STAKING_ADD_REWARD_TOKENS: &'static str = "staking-add-reward-tokens";

pub const ACCOUNT: &'static str = "account";

pub const AMOUNT: &'static str = "amount";

pub const AUTHORITY: &'static str = "authority";

pub const CREATOR: &'static str = "creator";

pub const DECIMALS: &'static str = "decimals";

pub const END_TIMESTAMP: &'static str = "end";

pub const FEES: &'static str = "fees";

pub const FEES_CHARACTER: &'static str = "character";

pub const FEES_EMOTE: &'static str = "emote";

pub const FEES_ITEM: &'static str = "item";

pub const FEES_PET: &'static str = "pet";

pub const FEES_TILESET: &'static str = "tileset";

pub const FEES_WORLD: &'static str = "world";

pub const MINT: &'static str = "mint-address";

pub const MINT_SHARE: &'static str = "mint-share";

pub const MIN_STAKE_SIZE: &'static str = "min-stake-size";

pub const NAME: &'static str = "name";

pub const NFT_TYPE: &'static str = "type";

pub const PAYER: &'static str = "payer";

pub const PRIMARY_WALLET: &'static str = "primary-wallet";

pub const RECIPIENT: &'static str = "recipient";

pub const RPC_URL: &'static str = "url";

pub const SAVE_PATH: &'static str = "save-path";

pub const STAKING_INFO: &'static str = "staking-info";

pub const START_TIMESTAMP: &'static str = "start";

pub const SYMBOL: &'static str = "symbol";

pub const TRANSACTION_SHARE: &'static str = "transaction-share";

pub const URI: &'static str = "uri";

/// The commands of the command-line tool.
#[derive(Clone, Copy, Debug, PartialEq, Eq, Structural)]
pub enum CliCommand {
    Balance,
    CreateWallet,
    Info,
    Initialize,
    Mint,
    MintNft,
    StakingAddRewardTokens,
    StakingInitialize,
    Transfer,
    UpdateNft,
    WithdrawFt,
    WithdrawLamports,
    WithdrawNft,
}

/// The name under which a command is matched; the staking subcommands carry
/// the `staking-` prefix.
pub open spec fn command_name(c: CliCommand) -> Seq<char> {
    match c {
        CliCommand::Balance => "balance"@,
        CliCommand::CreateWallet => "create-wallet"@,
        CliCommand::Info => "info"@,
        CliCommand::Initialize => "initialize"@,
        CliCommand::Mint => "mint"@,
        CliCommand::MintNft => "mint-nft"@,
        CliCommand::StakingAddRewardTokens => "staking-add-reward-tokens"@,
        CliCommand::StakingInitialize => "staking-initialize"@,
        CliCommand::Transfer => "transfer"@,
        CliCommand::UpdateNft => "update-nft"@,
        CliCommand::WithdrawFt => "withdraw-ft"@,
        CliCommand::WithdrawLamports => "withdraw-lamports"@,
        CliCommand::WithdrawNft => "withdraw-nft"@,
    }
}

impl CliCommand {
    /// The name under which the command is matched.
    pub fn name(self) -> (r: &'static str)
        ensures
            r@ == command_name(self),
    {
        match self {
            CliCommand::Balance => COMMAND_BALANCE,
            CliCommand::CreateWallet => COMMAND_CREATE_WALLET,
            CliCommand::Info => COMMAND_INFO,
            CliCommand::Initialize => COMMAND_INITIALIZE,
            CliCommand::Mint => COMMAND_MINT,
            CliCommand::MintNft => COMMAND_MINT_NFT,
            CliCommand::StakingAddRewardTokens => COMMAND_STAKING_ADD_REWARD_TOKENS,
            CliCommand::StakingInitialize => COMMAND_STAKING_INITIALIZE,
            CliCommand::Transfer => COMMAND_TRANSFER,
            CliCommand::UpdateNft => COMMAND_UPDATE_NFT,
            CliCommand::WithdrawFt => COMMAND_WITHDRAW_FT,
            CliCommand::WithdrawLamports => COMMAND_WITHDRAW_LAMPORTS,
            CliCommand::WithdrawNft => COMMAND_WITHDRAW_NFT,
        }
    }

    /// The command matched under `name`, or `None` where no command has it.
    pub fn from_name(name: &str) -> (r: Option<CliCommand>)
        ensures
            r matches Some(c) ==> command_name(c) == name@,
            r is None ==> forall|c: CliCommand| #[trigger] command_name(c) != name@,
    {
        let all = [
            CliCommand::Balance,
            CliCommand::CreateWallet,
            CliCommand::Info,
            CliCommand::Initialize,
            CliCommand::Mint,
            CliCommand::MintNft,
            CliCommand::StakingAddRewardTokens,
            CliCommand::StakingInitialize,
            CliCommand::Transfer,
            CliCommand::UpdateNft,
            CliCommand::WithdrawFt,
            CliCommand::WithdrawLamports,
            CliCommand::WithdrawNft,
        ];
        let wanted = name.to_owned();
        let mut i: usize = 0;
        while i < 13
            invariant
                i <= 13,
                wanted@ == name@,
                all@ == seq![
                    CliCommand::Balance,
                    CliCommand::CreateWallet,
                    CliCommand::Info,
                    CliCommand::Initialize,
                    CliCommand::Mint,
                    CliCommand::MintNft,
                    CliCommand::StakingAddRewardTokens,
                    CliCommand::StakingInitialize,
                    CliCommand::Transfer,
                    CliCommand::UpdateNft,
                    CliCommand::WithdrawFt,
                    CliCommand::WithdrawLamports,
                    CliCommand::WithdrawNft,
                ],
                forall|j: int| 0 <= j < i ==> command_name(#[trigger] all@[j]) != name@,
            decreases 13 - i,
        {
            let c = all[i];
            if c.name().to_owned() == wanted {
                return Some(c);
            }
            i = i + 1;
        }
        proof {
            assert forall|c: CliCommand| #[trigger] command_name(c) != name@ by {
                match c {
                    CliCommand::Balance => assert(all@[0] == c),
                    CliCommand::CreateWallet => assert(all@[1] == c),
                    CliCommand::Info => assert(all@[2] == c),
                    CliCommand::Initialize => assert(all@[3] == c),
                    CliCommand::Mint => assert(all@[4] == c),
                    CliCommand::MintNft => assert(all@[5] == c),
                    CliCommand::StakingAddRewardTokens => assert(all@[6] == c),
                    CliCommand::StakingInitialize => assert(all@[7] == c),
                    CliCommand::Transfer => assert(all@[8] == c),
                    CliCommand::UpdateNft => assert(all@[9] == c),
                    CliCommand::WithdrawFt => assert(all@[10] == c),
                    CliCommand::WithdrawLamports => assert(all@[11] == c),
                    CliCommand::WithdrawNft => assert(all@[12] == c),
                }
            }
        }
        None
    }
}

/// The cluster that the tool talks to: a named one, or a custom one by its
/// RPC and websocket URLs.
#[derive(Clone, Debug)]
pub enum Cluster {
    Testnet,
    Mainnet,
    Devnet,
    Localnet,
    Debug,
    Custom(String, String),
}

/// The file that holds the token's mint address for a cluster.
pub open spec fn mint_file_name(cluster: Cluster) -> Seq<char> {
    match cluster {
        Cluster::Testnet => "mint.testnet.pubkey"@,
        Cluster::Mainnet => "mint.mainnet.pubkey"@,
        Cluster::Devnet => "mint.devnet.pubkey"@,
        Cluster::Localnet => "mint.localnet.pubkey"@,
        Cluster::Debug => "mint.debug.pubkey"@,
        Cluster::Custom(_, _) => "mint.url.pubkey"@,
    }
}

/// The file that holds the token's mint address for `cluster`, where no mint
/// address is given.
pub fn default_mint_file(cluster: &Cluster) -> (r: &'static str)
    ensures
        r@ == mint_file_name(*cluster),
{
    match cluster {
        Cluster::Testnet => "mint.testnet.pubkey",
        Cluster::Mainnet => "mint.mainnet.pubkey",
        Cluster::Devnet => "mint.devnet.pubkey",
        Cluster::Localnet => "mint.localnet.pubkey",
        Cluster::Debug => "mint.debug.pubkey",
        Cluster::Custom(_, _) => "mint.url.pubkey",
    }
}

/// A recipient as a value: address, mint share, transaction share.
pub open spec fn recipient_tuple(r: Recipient) -> (Seq<u8>, u8, u8) {
    (r.address@, r.mint_share, r.transaction_share)
}

/// The recipients named on the command line: none where none is named; a
/// single one takes the whole mint and transaction shares; several take the
/// shares given, which must be as many as the recipients (`None` otherwise).
pub open spec fn spec_multiple_recipients(
    recipients: Option<Vec<Pubkey>>,
    mint_shares: Seq<u8>,
    transaction_shares: Seq<u8>,
) -> Option<Seq<(Seq<u8>, u8, u8)>> {
    match recipients {
        None => Some(Seq::empty()),
        Some(keys) => {
            let k = keys@;
            let m = if k.len() == 1 {
                seq![100u8]
            } else {
                mint_shares
            };
            let t = if k.len() == 1 {
                seq![100u8]
            } else {
                transaction_shares
            };
            if m.len() != k.len() || t.len() != k.len() {
                None
            } else {
                Some(Seq::new(k.len(), |i: int| (k[i]@, m[i], t[i])))
            }
        },
    }
}

/// The recipients named on the command line; see `spec_multiple_recipients`.
pub fn multiple_recipients(
    recipients: Option<Vec<Pubkey>>,
    mint_shares: Vec<u8>,
    transaction_shares: Vec<u8>,
) -> (r: Option<Vec<Recipient>>)
    ensures
        spec_multiple_recipients(recipients, mint_shares@, transaction_shares@) == (match r {
            Some(v) => Some(v@.map_values(|x: Recipient| recipient_tuple(x))),
            None => None,
        }),
{
    let keys = match recipients {
        Some(k) => k,
        None => {
            return Some(Vec::new());
        },
    };
    let n = keys.len();
    let mut mints = mint_shares;
    let mut transactions = transaction_shares;
    if n == 1 {
        mints = vec![100u8];
        transactions = vec![100u8];
    }
    if mints.len() != n || transactions.len() != n {
        return None;
    }
    let ghost keys_view = keys@;
    let mut r: Vec<Recipient> = Vec::new();
    let mut i: usize = 0;
    while i < n
        invariant
            i <= n,
            n == keys@.len(),
            mints@.len() == n,
            transactions@.len() == n,
            n == 1 ==> mints@[0] == 100 && transactions@[0] == 100,
            n != 1 ==> mints@ == mint_shares@ && transactions@ == transaction_shares@,
            r@.len() == i,
            forall|j: int|
                0 <= j < i ==> (#[trigger] r@[j]).address@ == keys@[j]@ && r@[j].mint_share
                    == mints@[j] && r@[j].transaction_share == transactions@[j],
        decreases n - i,
    {
        r.push(Recipient { address: keys[i], mint_share: mints[i], transaction_share: transactions[i] });
        i = i + 1;
    }
    proof {
        assert(r@.map_values(|x: Recipient| recipient_tuple(x)) =~= Seq::new(
            keys_view.len(),
            |i: int| (keys_view[i]@, mints@[i], transactions@[i]),
        ));
    }
    Some(r)
}

/// Different commands have different names: `from_name` gives back the
/// command whose name `name` gave.
pub proof fn lemma_command_name_injective(c1: CliCommand, c2: CliCommand)
    ensures
        command_name(c1) == command_name(c2) ==> c1 == c2,
{
    reveal_strlit("balance");
    reveal_strlit("create-wallet");
    reveal_strlit("info");
    reveal_strlit("initialize");
    reveal_strlit("mint");
    reveal_strlit("mint-nft");
    reveal_strlit("staking-add-reward-tokens");
    reveal_strlit("staking-initialize");
    reveal_strlit("transfer");
    reveal_strlit("update-nft");
    reveal_strlit("withdraw-ft");
    reveal_strlit("withdraw-lamports");
    reveal_strlit("withdraw-nft");
    if command_name(c1) == command_name(c2) && c1 != c2 {
        let n1 = command_name(c1);
        let n2 = command_name(c2);
        assert(n1.len() == n2.len());
        assert(forall|i: int| 0 <= i < n1.len() ==> n1[i] == n2[i]);
        assert(n1[0] == n2[0] && n1[1] == n2[1] && n1[2] == n2[2] && n1[3] == n2[3]);
    }
}

} // verus!
