use vstd::prelude::*;
use crate::program_error::ProgramErrorCode;

verus! {

/// Errors of the NFT program. Their numbers start at 6000, where the
/// numbers of a program's own errors begin.
#[derive(Clone, Copy, Debug, PartialEq, Eq, Structural)]
pub enum ErrorCode {
    /// Recipients list should have unique addresses
    DuplicateRecipients,
    /// Maximum recipients number exceeded
    MaximumRecipientsNumberExceeded,
    /// Wrong recipients list
    WrongRecipientsList,
    /// Sum of all recipient shares must equal 100
    InvalidShares,
    /// Provided owner is not allowed
    IllegalOwner,
}

/// The number of an error: 6000 plus its position in the enum.
pub open spec fn error_code_number(e: ErrorCode) -> u32 {
    match e {
        ErrorCode::DuplicateRecipients => 6000,
        ErrorCode::MaximumRecipientsNumberExceeded => 6001,
        ErrorCode::WrongRecipientsList => 6002,
        ErrorCode::InvalidShares => 6003,
        ErrorCode::IllegalOwner => 6004,
    }
}

/// The program error that a failed instruction reports for `e`.
pub open spec fn nft_error(e: ErrorCode) -> ProgramErrorCode {
    ProgramErrorCode::Custom(error_code_number(e))
}

impl ErrorCode {
    /// The error's number.
    pub fn number(self) -> (r: u32)
        ensures
            r == error_code_number(self),
    {
        match self {
            ErrorCode::DuplicateRecipients => 6000,
            ErrorCode::MaximumRecipientsNumberExceeded => 6001,
            ErrorCode::WrongRecipientsList => 6002,
            ErrorCode::InvalidShares => 6003,
            ErrorCode::IllegalOwner => 6004,
        }
    }

    /// The program error that carries this error.
    pub fn to_program_error(self) -> (r: ProgramErrorCode)
        ensures
            r == nft_error(self),
    {
        ProgramErrorCode::Custom(self.number())
    }

    /// The error's message.
    pub fn message(&self) -> (r: &'static str)
        ensures
            *self == ErrorCode::DuplicateRecipients ==> r@ == "Recipients list should have unique addresses"@,
            *self == ErrorCode::MaximumRecipientsNumberExceeded ==> r@ == "Maximum recipients number exceeded"@,
            *self == ErrorCode::WrongRecipientsList ==> r@ == "Wrong recipients list"@,
            *self == ErrorCode::InvalidShares ==> r@ == "Sum of all recipient shares must equal 100"@,
            *self == ErrorCode::IllegalOwner ==> r@ == "Provided owner is not allowed"@,
    {
        match self {
            ErrorCode::DuplicateRecipients => "Recipients list should have unique addresses",
            ErrorCode::MaximumRecipientsNumberExceeded => "Maximum recipients number exceeded",
            ErrorCode::WrongRecipientsList => "Wrong recipients list",
            ErrorCode::InvalidShares => "Sum of all recipient shares must equal 100",
            ErrorCode::IllegalOwner => "Provided owner is not allowed",
        }
    }
}

} // verus!
