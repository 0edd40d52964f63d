use vstd::prelude::*;
use crate::program_error::ProgramErrorCode;

verus! {

/// Errors of the wallet program. Their numbers start at 6000, where the
/// numbers of a program's own errors begin.
#[derive(Clone, Copy, Debug, PartialEq, Eq, Structural)]
pub enum ErrorCode {
    /// Insufficient funds
    InsufficientFunds,
    /// Token is an NFT
    TokenIsNft,
    /// Token is not an NFT
    TokenIsNotNft,
    /// Wrong authority
    WrongAuthority,
}

/// The number of an error: 6000 plus its position in the enum.
pub open spec fn error_code_number(e: ErrorCode) -> u32 {
    match e {
        ErrorCode::InsufficientFunds => 6000,
        ErrorCode::TokenIsNft => 6001,
        ErrorCode::TokenIsNotNft => 6002,
        ErrorCode::WrongAuthority => 6003,
    }
}

/// The program error that a failed instruction reports for `e`.
pub open spec fn wallet_error(e: ErrorCode) -> ProgramErrorCode {
    ProgramErrorCode::Custom(error_code_number(e))
}

/// The number that a failed account constraint without an error of its own
/// reports.
pub const CONSTRAINT_RAW: u32 = 2003;

impl ErrorCode {
    /// The program error that carries this error.
    pub fn to_program_error(self) -> (r: ProgramErrorCode)
        ensures
            r == wallet_error(self),
    {
        let n: u32 = match self {
            ErrorCode::InsufficientFunds => 6000,
            ErrorCode::TokenIsNft => 6001,
            ErrorCode::TokenIsNotNft => 6002,
            ErrorCode::WrongAuthority => 6003,
        };
        ProgramErrorCode::Custom(n)
    }

    /// The error's message.
    pub fn message(&self) -> (r: &'static str)
        ensures
            *self == ErrorCode::InsufficientFunds ==> r@ == "Insufficient funds"@,
            *self == ErrorCode::TokenIsNft ==> r@ == "Token is an NFT"@,
            *self == ErrorCode::TokenIsNotNft ==> r@ == "Token is not an NFT"@,
            *self == ErrorCode::WrongAuthority ==> r@ == "Wrong authority"@,
    {
        match self {
            ErrorCode::InsufficientFunds => "Insufficient funds",
            ErrorCode::TokenIsNft => "Token is an NFT",
            ErrorCode::TokenIsNotNft => "Token is not an NFT",
            ErrorCode::WrongAuthority => "Wrong authority",
        }
    }
}

} // verus!
