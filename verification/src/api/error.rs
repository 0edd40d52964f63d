use vstd::prelude::*;
use crate::program_error::ProgramErrorCode;

verus! {

/// Errors of the Chill API's state checks.
#[derive(Clone, Copy, Debug, PartialEq, Eq, Structural)]
pub enum ChillApiError {
    /// Sum of all recipient shares must equal 100
    InvalidShares,
    /// Exceeded the maximum number of recipients
    MaximumRecipientsNumberExceeded,
}

/// The number of an API error: 10 000 plus its position in the enum.
pub open spec fn api_error_number(e: ChillApiError) -> u32 {
    match e {
        ChillApiError::InvalidShares => 10_000,
        ChillApiError::MaximumRecipientsNumberExceeded => 10_001,
    }
}

impl ChillApiError {
    /// The program error that carries this error.
    pub fn to_program_error(self) -> (r: ProgramErrorCode)
        ensures
            r == ProgramErrorCode::Custom(api_error_number(self)),
    {
        match self {
            ChillApiError::InvalidShares => ProgramErrorCode::Custom(10_000),
            ChillApiError::MaximumRecipientsNumberExceeded => ProgramErrorCode::Custom(10_001),
        }
    }

    /// The error's message.
    pub fn message(&self) -> (r: &'static str)
        ensures
            *self == ChillApiError::InvalidShares ==> r@ == "Sum of all recipient shares must equal 100"@,
            *self == ChillApiError::MaximumRecipientsNumberExceeded ==> r@ == "Exceeded the maximum number of recipients"@,
    {
        match self {
            ChillApiError::InvalidShares => "Sum of all recipient shares must equal 100",
            ChillApiError::MaximumRecipientsNumberExceeded => "Exceeded the maximum number of recipients",
        }
    }

    /// The name under which the errors are decoded.
    pub fn type_of() -> (r: &'static str)
        ensures
            r@ == "ChillApiError"@,
    {
        "ChillApiError"
    }
}

} // verus!
