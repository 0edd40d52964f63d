use vstd::prelude::*;

verus! {

pub const COMMAND_BALANCE: &'static str = "balance";

pub const COMMAND_MINT: &'static str = "mint";

pub const COMMAND_TRANSFER: &'static str = "transfer";

pub const AMOUNT: &'static str = "amount";

pub const DECIMALS: &'static str = "decimals";

pub const MAINNET: &'static str = "mainnet";

pub const MINT: &'static str = "mint-address";

pub const OWNER: &'static str = "owner";

pub const RECEIVER: &'static str = "receiver";

pub const SAVE_PATH: &'static str = "save-path";

/// The commands of the token tool.
#[derive(Clone, Copy, Debug, PartialEq, Eq, Structural)]
pub enum CliCommand {
    Mint,
    Balance,
    Transfer,
}

/// The name under which a command is matched.
pub open spec fn command_name(c: CliCommand) -> Seq<char> {
    match c {
        CliCommand::Mint => "mint"@,
        CliCommand::Balance => "balance"@,
        CliCommand::Transfer => "transfer"@,
    }
}

impl CliCommand {
    /// The name under which the command is matched.
    pub fn name(self) -> (r: &'static str)
        ensures
            r@ == command_name(self),
    {
        match self {
            CliCommand::Mint => COMMAND_MINT,
            CliCommand::Balance => COMMAND_BALANCE,
            CliCommand::Transfer => COMMAND_TRANSFER,
        }
    }

    /// The command matched under `name`, or `None` where no command has it.
    pub fn from_name(name: &str) -> (r: Option<CliCommand>)
        ensures
            r matches Some(c) ==> command_name(c) == name@,
            r is None ==> forall|c: CliCommand| #[trigger] command_name(c) != name@,
    {
        let wanted = name.to_owned();
        if COMMAND_MINT.to_owned() == wanted {
            Some(CliCommand::Mint)
        } else if COMMAND_BALANCE.to_owned() == wanted {
            Some(CliCommand::Balance)
        } else if COMMAND_TRANSFER.to_owned() == wanted {
            Some(CliCommand::Transfer)
        } else {
            proof {
                assert forall|c: CliCommand| #[trigger] command_name(c) != name@ by {
                    match c {
                        CliCommand::Mint => {},
                        CliCommand::Balance => {},
                        CliCommand::Transfer => {},
                    }
                }
            }
            None
        }
    }
}

/// The file that holds the token's mint address where none is given.
pub fn default_mint_file(mainnet: bool) -> (r: &'static str)
    ensures
        mainnet ==> r@ == "mint.mainnet.pubkey"@,
        !mainnet ==> r@ == "mint.devnet.pubkey"@,
{
    if mainnet {
        "mint.mainnet.pubkey"
    } else {
        "mint.devnet.pubkey"
    }
}

/// The RPC endpoint of mainnet or, by default, devnet.
pub fn rpc_url(mainnet: bool) -> (r: &'static str)
    ensures
        mainnet ==> r@ == "https://api.mainnet-beta.solana.com"@,
        !mainnet ==> r@ == "https://api.devnet.solana.com"@,
{
    if mainnet {
        "https://api.mainnet-beta.solana.com"
    } else {
        "https://api.devnet.solana.com"
    }
}

/// Different commands have different names: `from_name` gives back the
/// command whose name `name` gave.
pub proof fn lemma_command_name_injective(c1: CliCommand, c2: CliCommand)
    ensures
        command_name(c1) == command_name(c2) ==> c1 == c2,
{
    reveal_strlit("mint");
    reveal_strlit("balance");
    reveal_strlit("transfer");
    if command_name(c1) == command_name(c2) && c1 != c2 {
        assert(command_name(c1).len() == command_name(c2).len());
    }
}

} // verus!
