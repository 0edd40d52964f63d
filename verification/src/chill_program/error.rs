use vstd::prelude::*;
use crate::program_error::ProgramErrorCode;

verus! {

/// Errors of the Chill program.
#[derive(Clone, Copy, Debug, PartialEq, Eq, Structural)]
pub enum ChillError {
    /// Account is already initialized
    AccountAlreadyInitialized,
    /// Wrong authority
    WrongAuthority,
    /// Wrong recipients list
    WrongRecipientsList,
    /// Config has wrong pubkey
    ConfigHasWrongPubkey,
    /// Config is already initialized
    ConfigAlreadyInitialized,
    /// Sum of all recipient shares must equal 100
    InvalidShares,
    /// Exceeded the maximum number of recipients
    MaximumRecipientsNumberExceeded,
    /// Mint has another authority
    MintHasAnotherAuthority,
    /// Token account has another mint
    TokenHasAnotherMint,
    /// Token account has another owner
    TokenHasAnotherOwner,
}

/// The number of an error: its position in the enum.
pub open spec fn chill_error_number(e: ChillError) -> u32 {
    match e {
        ChillError::AccountAlreadyInitialized => 0,
        ChillError::WrongAuthority => 1,
        ChillError::WrongRecipientsList => 2,
        ChillError::ConfigHasWrongPubkey => 3,
        ChillError::ConfigAlreadyInitialized => 4,
        ChillError::InvalidShares => 5,
        ChillError::MaximumRecipientsNumberExceeded => 6,
        ChillError::MintHasAnotherAuthority => 7,
        ChillError::TokenHasAnotherMint => 8,
        ChillError::TokenHasAnotherOwner => 9,
    }
}

impl ChillError {
    /// The program error that carries this error.
    pub fn to_program_error(self) -> (r: ProgramErrorCode)
        ensures
            r == ProgramErrorCode::Custom(chill_error_number(self)),
    {
        let n: u32 = match self {
            ChillError::AccountAlreadyInitialized => 0,
            ChillError::WrongAuthority => 1,
            ChillError::WrongRecipientsList => 2,
            ChillError::ConfigHasWrongPubkey => 3,
            ChillError::ConfigAlreadyInitialized => 4,
            ChillError::InvalidShares => 5,
            ChillError::MaximumRecipientsNumberExceeded => 6,
            ChillError::MintHasAnotherAuthority => 7,
            ChillError::TokenHasAnotherMint => 8,
            ChillError::TokenHasAnotherOwner => 9,
        };
        ProgramErrorCode::Custom(n)
    }

    /// The error's message.
    pub fn message(&self) -> (r: &'static str)
        ensures
            *self == ChillError::AccountAlreadyInitialized ==> r@ == "Account is already initialized"@,
            *self == ChillError::WrongAuthority ==> r@ == "Wrong authority"@,
            *self == ChillError::WrongRecipientsList ==> r@ == "Wrong recipients list"@,
            *self == ChillError::ConfigHasWrongPubkey ==> r@ == "Config has wrong pubkey"@,
            *self == ChillError::ConfigAlreadyInitialized ==> r@ == "Config is already initialized"@,
            *self == ChillError::InvalidShares ==> r@ == "Sum of all recipient shares must equal 100"@,
            *self == ChillError::MaximumRecipientsNumberExceeded ==> r@ == "Exceeded the maximum number of recipients"@,
            *self == ChillError::MintHasAnotherAuthority ==> r@ == "Mint has another authority"@,
            *self == ChillError::TokenHasAnotherMint ==> r@ == "Token account has another mint"@,
            *self == ChillError::TokenHasAnotherOwner ==> r@ == "Token account has another owner"@,
    {
        match self {
            ChillError::AccountAlreadyInitialized => "Account is already initialized",
            ChillError::WrongAuthority => "Wrong authority",
            ChillError::WrongRecipientsList => "Wrong recipients list",
            ChillError::ConfigHasWrongPubkey => "Config has wrong pubkey",
            ChillError::ConfigAlreadyInitialized => "Config is already initialized",
            ChillError::InvalidShares => "Sum of all recipient shares must equal 100",
            ChillError::MaximumRecipientsNumberExceeded => "Exceeded the maximum number of recipients",
            ChillError::MintHasAnotherAuthority => "Mint has another authority",
            ChillError::TokenHasAnotherMint => "Token account has another mint",
            ChillError::TokenHasAnotherOwner => "Token account has another owner",
        }
    }

    /// The name under which the errors are decoded.
    pub fn type_of() -> (r: &'static str)
        ensures
            r@ == "ChillError"@,
    {
        "ChillError"
    }
}

} // verus!
