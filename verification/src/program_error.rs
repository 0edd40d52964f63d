use vstd::prelude::*;

verus! {

/// The failures of a program instruction that the library reports: the
/// variants of `solana_program::program_error::ProgramErrorCode` that its logic
/// gives back.
#[derive(Clone, Copy, Debug, PartialEq, Eq, Structural)]
pub enum ProgramErrorCode {
    /// A program's own error, by its number.
    Custom(u32),
    /// Account data of the wrong length or content.
    InvalidAccountData,
    /// An account that is not initialized.
    UninitializedAccount,
    /// Account data that does not decode.
    BorshIoError,
    /// An account owned by another program.
    IllegalOwner,
    /// Fewer accounts than the instruction reads.
    NotEnoughAccountKeys,
    /// Instruction arguments that the program cannot act on.
    InvalidInstructionData,
}

} // verus!
