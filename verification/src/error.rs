use vstd::prelude::*;

verus! {

/// Errors raised by this program's own checks.
#[derive(Clone, Copy, Debug, PartialEq, Eq)]
pub enum MintError {
    /// The mint carries an extension this program has not been written to
    /// handle.
    UnsupportedExtension,
    /// A fee computation overflowed.
    MathsOverflow,
}

impl MintError {
    /// The message shown for the error.
    pub fn message(&self) -> (s: &'static str)
        ensures
            *self == MintError::UnsupportedExtension ==> s@ == "mint carries an extension this program has not been written to handle"@,
            *self == MintError::MathsOverflow ==> s@ == "Maths overfow"@,
    {
        match self {
            MintError::UnsupportedExtension => "mint carries an extension this program has not been written to handle",
            MintError::MathsOverflow => "Maths overfow",
        }
    }
}

/// Why a handler fails: one of this program's own errors, or the error code
/// that the token program's account and instruction helpers reported.
#[derive(Clone, Copy, Debug, PartialEq, Eq)]
pub enum HandlerError {
    Mint(MintError),
    Program(u64),
}

/// Error code of `ProgramError::InvalidArgument`.
pub const INVALID_ARGUMENT: u64 = 2u64 << 32;
/// Error code of `ProgramError::InvalidAccountData`.
pub const INVALID_ACCOUNT_DATA: u64 = 4u64 << 32;
/// Error code of `ProgramError::IncorrectProgramId`.
pub const INCORRECT_PROGRAM_ID: u64 = 7u64 << 32;

} // verus!
