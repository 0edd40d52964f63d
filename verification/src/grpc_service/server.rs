use vstd::prelude::*;

verus! {

/// The gRPC service that answers blockchain queries by running the
/// command-line tool.
#[derive(Clone, Copy, Debug, Default)]
pub struct BlockchainServerImpl {}

/// A flag and its value on the command line, or nothing for an empty value.
pub open spec fn flag_tokens(flag: Seq<char>, value: Seq<char>) -> Seq<Seq<char>> {
    if value.len() == 0 {
        Seq::empty()
    } else {
        seq![flag, value]
    }
}

/// The views of a list of strings.
pub open spec fn strings_view(v: Seq<String>) -> Seq<Seq<char>> {
    v.map_values(|s: String| s@)
}

/// Appends `flag` and `value` where `value` is not empty.
pub fn push_flag(args: &mut Vec<String>, flag: &str, value: &str)
    ensures
        strings_view(final(args)@) == strings_view(old(args)@) + flag_tokens(flag@, value@),
{
    if !value.is_empty() {
        args.push(flag.to_owned());
        args.push(value.to_owned());
    }
    proof {
        assert(strings_view(final(args)@) =~= strings_view(old(args)@) + flag_tokens(flag@, value@));
    }
}

/// The program name and a command.
pub fn command_line(command: &str) -> (r: Vec<String>)
    ensures
        strings_view(r@) == seq!["./chill-cli"@, command@],
{
    let mut args: Vec<String> = Vec::new();
    args.push("./chill-cli".to_owned());
    args.push(command.to_owned());
    proof {
        assert(strings_view(args@) =~= seq!["./chill-cli"@, command@]);
    }
    args
}

impl BlockchainServerImpl {
    /// The command line that answers a balance request: the account's
    /// balance of the mint on the cluster at `url`, each given only where not
    /// empty.
    pub fn balance_args(&self, url: &str, mint_address: &str, account: &str) -> (r: Vec<String>)
        ensures
            strings_view(r@) == seq!["./chill-cli"@, "balance"@] + flag_tokens("--url"@, url@)
                + flag_tokens("--mint-address"@, mint_address@) + flag_tokens(
                "--account"@,
                account@,
            ),
    {
        let mut args = command_line("balance");
        push_flag(&mut args, "--url", url);
        push_flag(&mut args, "--mint-address", mint_address);
        push_flag(&mut args, "--account", account);
        args
    }

    /// The command line that answers an information request.
    pub fn info_args(&self, url: &str, mint_address: &str) -> (r: Vec<String>)
        ensures
            strings_view(r@) == seq!["./chill-cli"@, "info"@] + flag_tokens("--url"@, url@)
                + flag_tokens("--mint-address"@, mint_address@),
    {
        let mut args = command_line("info");
        push_flag(&mut args, "--url", url);
        push_flag(&mut args, "--mint-address", mint_address);
        args
    }

    /// The command line that answers a request to create a wallet.
    pub fn create_wallet_args(
        &self,
        url: &str,
        account: &str,
        payer: &str,
        primary_wallet: &str,
        program_id: &str,
    ) -> (r: Vec<String>)
        ensures
            strings_view(r@) == seq!["./chill-cli"@, "create-wallet"@] + flag_tokens("--url"@, url@)
                + flag_tokens("--account"@, account@) + flag_tokens("--payer"@, payer@)
                + flag_tokens("--primary-wallet"@, primary_wallet@) + flag_tokens(
                "--program-id"@,
                program_id@,
            ),
    {
        let mut args = command_line("create-wallet");
        push_flag(&mut args, "--url", url);
        push_flag(&mut args, "--account", account);
        push_flag(&mut args, "--payer", payer);
        push_flag(&mut args, "--primary-wallet", primary_wallet);
        push_flag(&mut args, "--program-id", program_id);
        args
    }
}

} // verus!
