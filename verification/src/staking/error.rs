use vstd::prelude::*;

verus! {

/// Errors of the staking program.
#[derive(Clone, Copy, Debug, PartialEq, Eq, Structural)]
pub enum ErrorCode {
    /// The vector's slots do not fit in its buffer.
    WrongVectorSize,
    /// An index past the end of a vector.
    OutOfBounds,
    /// The vector cannot grow any further.
    MaxSizeReached,
    /// The staking interval is over.
    StakingIsFinished,
    /// The staking interval is not over yet.
    StakingIsNotFinished,
    /// Zero tokens added to a pending amount.
    AddZeroTokensToPendingAmount,
    /// A stake of zero tokens.
    StakeZeroTokens,
    /// A claim of zero tokens.
    WithdrawZeroTokens,
    /// The staking interval has not begun.
    StakingIsNotStarted,
    /// The user has no active stake.
    NoActiveStake,
    /// The day is boosted already.
    AlreadyBoosted,
    /// A slot's bytes encode no element.
    ElementDidNotDeserialize,
    /// The clock could not be read.
    ClockUnavailable,
    /// An element's encoding does not fill its slot exactly: the framework's
    /// error for a failed `require_eq!`, which is not one of the program's
    /// own.
    RequireEqViolated,
}

/// The number of an error: for the program's own errors, 6000 plus their
/// position in the enum; 2501 for the framework's `RequireEqViolated`.
pub open spec fn error_code_number(e: ErrorCode) -> u32 {
    match e {
        ErrorCode::WrongVectorSize => 6000,
        ErrorCode::OutOfBounds => 6001,
        ErrorCode::MaxSizeReached => 6002,
        ErrorCode::StakingIsFinished => 6003,
        ErrorCode::StakingIsNotFinished => 6004,
        ErrorCode::AddZeroTokensToPendingAmount => 6005,
        ErrorCode::StakeZeroTokens => 6006,
        ErrorCode::WithdrawZeroTokens => 6007,
        ErrorCode::StakingIsNotStarted => 6008,
        ErrorCode::NoActiveStake => 6009,
        ErrorCode::AlreadyBoosted => 6010,
        ErrorCode::RequireEqViolated => 2501,
        ErrorCode::ElementDidNotDeserialize => 6011,
        ErrorCode::ClockUnavailable => 6012,
    }
}

impl ErrorCode {
    /// The error's number.
    pub fn number(&self) -> (r: u32)
        ensures
            r == error_code_number(*self),
    {
        match self {
            ErrorCode::WrongVectorSize => 6000,
            ErrorCode::OutOfBounds => 6001,
            ErrorCode::MaxSizeReached => 6002,
            ErrorCode::StakingIsFinished => 6003,
            ErrorCode::StakingIsNotFinished => 6004,
            ErrorCode::AddZeroTokensToPendingAmount => 6005,
            ErrorCode::StakeZeroTokens => 6006,
            ErrorCode::WithdrawZeroTokens => 6007,
            ErrorCode::StakingIsNotStarted => 6008,
            ErrorCode::NoActiveStake => 6009,
            ErrorCode::AlreadyBoosted => 6010,
            ErrorCode::RequireEqViolated => 2501,
            ErrorCode::ElementDidNotDeserialize => 6011,
            ErrorCode::ClockUnavailable => 6012,
        }
    }

    /// The error's message.
    pub fn message(&self) -> (r: &'static str)
        ensures
            *self == ErrorCode::WrongVectorSize ==> r@ == "Wrong vector size"@,
            *self == ErrorCode::OutOfBounds ==> r@ == "Out of bounds"@,
            *self == ErrorCode::MaxSizeReached ==> r@ == "Max vector size has been reached"@,
            *self == ErrorCode::StakingIsFinished ==> r@ == "Staking is finished"@,
            *self == ErrorCode::StakingIsNotFinished ==> r@ == "Staking is not finished yet"@,
            *self == ErrorCode::AddZeroTokensToPendingAmount ==> r@ == "Adding zero tokens to pending amount"@,
            *self == ErrorCode::StakeZeroTokens ==> r@ == "Stake zero tokens"@,
            *self == ErrorCode::WithdrawZeroTokens ==> r@ == "Withdraw zero tokens"@,
            *self == ErrorCode::StakingIsNotStarted ==> r@ == "Staking is not started yet"@,
            *self == ErrorCode::NoActiveStake ==> r@ == "No active stake"@,
            *self == ErrorCode::AlreadyBoosted ==> r@ == "The day is already boosted"@,
            *self == ErrorCode::RequireEqViolated ==> r@ == "A require_eq expression was violated"@,
            *self == ErrorCode::ElementDidNotDeserialize ==> r@ == "Element did not deserialize"@,
            *self == ErrorCode::ClockUnavailable ==> r@ == "Clock is unavailable"@,
    {
        match self {
            ErrorCode::WrongVectorSize => "Wrong vector size",
            ErrorCode::OutOfBounds => "Out of bounds",
            ErrorCode::MaxSizeReached => "Max vector size has been reached",
            ErrorCode::StakingIsFinished => "Staking is finished",
            ErrorCode::StakingIsNotFinished => "Staking is not finished yet",
            ErrorCode::AddZeroTokensToPendingAmount => "Adding zero tokens to pending amount",
            ErrorCode::StakeZeroTokens => "Stake zero tokens",
            ErrorCode::WithdrawZeroTokens => "Withdraw zero tokens",
            ErrorCode::StakingIsNotStarted => "Staking is not started yet",
            ErrorCode::NoActiveStake => "No active stake",
            ErrorCode::AlreadyBoosted => "The day is already boosted",
            ErrorCode::RequireEqViolated => "A require_eq expression was violated",
            ErrorCode::ElementDidNotDeserialize => "Element did not deserialize",
            ErrorCode::ClockUnavailable => "Clock is unavailable",
        }
    }
}

} // verus!
