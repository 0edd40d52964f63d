use vstd::prelude::*;
use crate::cli::cli::{default_mint_file, mint_file_name, Cluster};
use crate::pubkey::Pubkey;
use std::str::FromStr;

verus! {

/// Errors of the command-line tool that its verified parts decide.
#[derive(Clone, Copy, Debug, PartialEq, Eq, Structural)]
pub enum CliErrorCode {
    /// A file was named where an address was expected, and its contents are
    /// no address.
    CannotParseFile,
    /// A transfer of more tokens than the owner holds.
    NotEnoughTokens,
}

/// The 32 bytes of the address that `text` writes in base58, as
/// `solana_program::pubkey::Pubkey::from_str` decodes it; `None` where it
/// writes none.
pub uninterp spec fn base58_pubkey(text: Seq<char>) -> Option<Seq<u8>>;

/// Calls `solana_program::pubkey::Pubkey::from_str`, which decodes a base58
/// address: text longer than 44 bytes, text that is no base58, and text
/// that decodes to other than 32 bytes give an error. The contract claims
/// that the outcome is a function of the text alone, named `base58_pubkey`.
#[verifier::external_body]
fn pubkey_from_base58(text: &str) -> (r: Option<Pubkey>)
    ensures
        r is Some <==> base58_pubkey(text@) is Some,
        r matches Some(p) ==> Some(p@) == base58_pubkey(text@),
{
    match solana_program::pubkey::Pubkey::from_str(text) {
        Ok(p) => Some(Pubkey(p.to_bytes())),
        Err(_) => None,
    }
}

/// Whether `c` has the Unicode property White_Space, as `char::is_whitespace`
/// and `str::trim` take it.
pub open spec fn is_white_space(c: char) -> bool {
    let n = c as int;
    ||| 0x9 <= n <= 0xd
    ||| n == 0x20
    ||| n == 0x85
    ||| n == 0xa0
    ||| n == 0x1680
    ||| 0x2000 <= n <= 0x200a
    ||| n == 0x2028
    ||| n == 0x2029
    ||| n == 0x202f
    ||| n == 0x205f
    ||| n == 0x3000
}

/// `s` without its leading white space.
pub open spec fn trim_start(s: Seq<char>) -> Seq<char>
    decreases s.len(),
{
    if s.len() > 0 && is_white_space(s[0]) {
        trim_start(s.drop_first())
    } else {
        s
    }
}

/// `s` without its trailing white space.
pub open spec fn trim_end(s: Seq<char>) -> Seq<char>
    decreases s.len(),
{
    if s.len() > 0 && is_white_space(s.last()) {
        trim_end(s.drop_last())
    } else {
        s
    }
}

/// `s` without its leading and trailing white space.
pub open spec fn spec_trim(s: Seq<char>) -> Seq<char> {
    trim_end(trim_start(s))
}

/// Calls `str::trim`, which, as its documentation says, gives the text with
/// leading and trailing white space removed, white space being the chars of
/// the Unicode property White_Space.
#[verifier::external_body]
fn trim(text: &str) -> (r: &str)
    ensures
        r@ == spec_trim(text@),
{
    text.trim()
}

/// The address that `text` writes in base58, taken as it stands.
pub fn pubkey_from_text(text: &str) -> (r: Option<Pubkey>)
    ensures
        r is Some <==> base58_pubkey(text@) is Some,
        r matches Some(p) ==> Some(p@) == base58_pubkey(text@),
{
    pubkey_from_base58(text)
}

/// The address that a `--mint-address` value writes in base58, white space
/// around it aside; `None` where it writes none (it may then name a file).
pub fn mint_from_text(text: &str) -> (r: Option<Pubkey>)
    ensures
        r is Some <==> base58_pubkey(spec_trim(text@)) is Some,
        r matches Some(p) ==> Some(p@) == base58_pubkey(spec_trim(text@)),
{
    pubkey_from_base58(trim(text))
}

/// The address that a mint file holds in base58, white space around it
/// aside; `CannotParseFile` where it holds none.
pub fn mint_from_file_contents(contents: &str) -> (r: Result<Pubkey, CliErrorCode>)
    ensures
        r is Err <==> base58_pubkey(spec_trim(contents@)) is None,
        r is Err ==> r == Err::<Pubkey, CliErrorCode>(CliErrorCode::CannotParseFile),
        r matches Ok(p) ==> Some(p@) == base58_pubkey(spec_trim(contents@)),
{
    match pubkey_from_base58(trim(contents)) {
        Some(p) => Ok(p),
        None => Err(CliErrorCode::CannotParseFile),
    }
}

/// The text that the tool reads the mint address from: the
/// `--mint-address` value where one is given, else the name of the
/// cluster's default mint file.
pub fn mint_value<'a>(value: Option<&'a str>, cluster: &Cluster) -> (r: &'a str)
    ensures
        value matches Some(v) ==> r@ == v@,
        value is None ==> r@ == mint_file_name(*cluster),
{
    match value {
        Some(v) => v,
        None => default_mint_file(cluster),
    }
}

/// What the mint address given as `value` is: the address that `value`
/// writes in base58, white space around it aside; otherwise the address that
/// the file it names holds, `file_contents` being that file's contents, or
/// `None` where it names no file; refused with `CannotParseFile` where that
/// file holds no address.
pub fn mint_address(value: &str, file_contents: Option<&str>) -> (r: Result<
    Option<Pubkey>,
    CliErrorCode,
>)
    ensures
        base58_pubkey(spec_trim(value@)) matches Some(k) ==> r matches Ok(Some(p)) && p@ == k,
        base58_pubkey(spec_trim(value@)) is None && file_contents is None ==> r == Ok::<
            Option<Pubkey>,
            CliErrorCode,
        >(None),
        base58_pubkey(spec_trim(value@)) is None && file_contents is Some ==> match base58_pubkey(
            spec_trim(file_contents->Some_0@),
        ) {
            Some(k) => r matches Ok(Some(p)) && p@ == k,
            None => r == Err::<Option<Pubkey>, CliErrorCode>(CliErrorCode::CannotParseFile),
        },
{
    match mint_from_text(value) {
        Some(p) => Ok(Some(p)),
        None => match file_contents {
            None => Ok(None),
            Some(contents) => match mint_from_file_contents(contents) {
                Ok(p) => Ok(Some(p)),
                Err(e) => Err(e),
            },
        },
    }
}

} // verus!
