//! Errors reported by programs to the runtime.

use vstd::prelude::*;

verus! {

/// Builtin program errors.
#[derive(Debug, Clone, Copy, PartialEq, Eq, Structural)]
pub enum ProgramError {
    /// A program-specific error code.
    Custom(u32),
    /// The arguments provided to a program instruction were invalid.
    InvalidArgument,
    /// An instruction's data contents was invalid.
    InvalidInstructionData,
    /// An account's data contents was invalid.
    InvalidAccountData,
    /// An account's data was too small.
    AccountDataTooSmall,
    /// An account's balance was too small to complete the instruction.
    InsufficientFunds,
    /// The account did not have the expected program id.
    IncorrectProgramId,
    /// A signature was required but not found.
    MissingRequiredSignature,
    /// An initialize instruction was sent to an account that has already been initialized.
    AccountAlreadyInitialized,
    /// An attempt to operate on an account that hasn't been initialized.
    UninitializedAccount,
    /// The instruction expected additional account keys.
    NotEnoughAccountKeys,
    /// Failed to borrow a reference to account data, already borrowed.
    AccountBorrowFailed,
    /// Length of the seed is too long for address generation.
    MaxSeedLengthExceeded,
    /// Provided seeds do not result in a valid address.
    InvalidSeeds,
    /// IO error.
    BorshIoError,
    /// An account does not have enough lamports to be rent-exempt.
    AccountNotRentExempt,
    /// Unsupported sysvar.
    UnsupportedSysvar,
    /// Provided owner is not allowed.
    IllegalOwner,
    /// Accounts data allocations exceeded the maximum allowed per transaction.
    MaxAccountsDataAllocationsExceeded,
    /// Account data reallocation was invalid.
    InvalidRealloc,
    /// Instruction trace length exceeded the maximum allowed per transaction.
    MaxInstructionTraceLengthExceeded,
    /// Builtin programs must consume compute units.
    BuiltinProgramsMustConsumeComputeUnits,
    /// Invalid account owner.
    InvalidAccountOwner,
    /// Program arithmetic overflowed.
    ArithmeticOverflow,
    /// Account is immutable.
    Immutable,
    /// Incorrect authority provided.
    IncorrectAuthority,
}

/// Result of a program instruction.
pub type ProgramResult = Result<(), ProgramError>;

impl ProgramError {
    /// The code the runtime receives for the error: a builtin error is its number (from `2`, in
    /// declaration order) shifted into the upper 32 bits, and a custom error is its own value, except `Custom(0)`, which is builtin
    /// number `1` so that it is not mistaken for success.
    pub open spec fn spec_code(self) -> u64 {
        match self {
            ProgramError::Custom(0) => 0x1_0000_0000,
            ProgramError::Custom(n) => n as u64,
            ProgramError::InvalidArgument => 0x2_0000_0000,
            ProgramError::InvalidInstructionData => 0x3_0000_0000,
            ProgramError::InvalidAccountData => 0x4_0000_0000,
            ProgramError::AccountDataTooSmall => 0x5_0000_0000,
            ProgramError::InsufficientFunds => 0x6_0000_0000,
            ProgramError::IncorrectProgramId => 0x7_0000_0000,
            ProgramError::MissingRequiredSignature => 0x8_0000_0000,
            ProgramError::AccountAlreadyInitialized => 0x9_0000_0000,
            ProgramError::UninitializedAccount => 0xA_0000_0000,
            ProgramError::NotEnoughAccountKeys => 0xB_0000_0000,
            ProgramError::AccountBorrowFailed => 0xC_0000_0000,
            ProgramError::MaxSeedLengthExceeded => 0xD_0000_0000,
            ProgramError::InvalidSeeds => 0xE_0000_0000,
            ProgramError::BorshIoError => 0xF_0000_0000,
            ProgramError::AccountNotRentExempt => 0x10_0000_0000,
            ProgramError::UnsupportedSysvar => 0x11_0000_0000,
            ProgramError::IllegalOwner => 0x12_0000_0000,
            ProgramError::MaxAccountsDataAllocationsExceeded => 0x13_0000_0000,
            ProgramError::InvalidRealloc => 0x14_0000_0000,
            ProgramError::MaxInstructionTraceLengthExceeded => 0x15_0000_0000,
            ProgramError::BuiltinProgramsMustConsumeComputeUnits => 0x16_0000_0000,
            ProgramError::InvalidAccountOwner => 0x17_0000_0000,
            ProgramError::ArithmeticOverflow => 0x18_0000_0000,
            ProgramError::Immutable => 0x19_0000_0000,
            ProgramError::IncorrectAuthority => 0x1A_0000_0000,
        }
    }

    /// The code the runtime receives for the error.
    pub fn to_code(&self) -> (r: u64)
        ensures
            r == self.spec_code(),
    {
        match self {
            ProgramError::Custom(n) => if *n == 0 {
                0x1_0000_0000
            } else {
                *n as u64
            },
            ProgramError::InvalidArgument => 0x2_0000_0000,
            ProgramError::InvalidInstructionData => 0x3_0000_0000,
            ProgramError::InvalidAccountData => 0x4_0000_0000,
            ProgramError::AccountDataTooSmall => 0x5_0000_0000,
            ProgramError::InsufficientFunds => 0x6_0000_0000,
            ProgramError::IncorrectProgramId => 0x7_0000_0000,
            ProgramError::MissingRequiredSignature => 0x8_0000_0000,
            ProgramError::AccountAlreadyInitialized => 0x9_0000_0000,
            ProgramError::UninitializedAccount => 0xA_0000_0000,
            ProgramError::NotEnoughAccountKeys => 0xB_0000_0000,
            ProgramError::AccountBorrowFailed => 0xC_0000_0000,
            ProgramError::MaxSeedLengthExceeded => 0xD_0000_0000,
            ProgramError::InvalidSeeds => 0xE_0000_0000,
            ProgramError::BorshIoError => 0xF_0000_0000,
            ProgramError::AccountNotRentExempt => 0x10_0000_0000,
            ProgramError::UnsupportedSysvar => 0x11_0000_0000,
            ProgramError::IllegalOwner => 0x12_0000_0000,
            ProgramError::MaxAccountsDataAllocationsExceeded => 0x13_0000_0000,
            ProgramError::InvalidRealloc => 0x14_0000_0000,
            ProgramError::MaxInstructionTraceLengthExceeded => 0x15_0000_0000,
            ProgramError::BuiltinProgramsMustConsumeComputeUnits => 0x16_0000_0000,
            ProgramError::InvalidAccountOwner => 0x17_0000_0000,
            ProgramError::ArithmeticOverflow => 0x18_0000_0000,
            ProgramError::Immutable => 0x19_0000_0000,
            ProgramError::IncorrectAuthority => 0x1A_0000_0000,
        }
    }
}

/// A failed instruction never reports the success code `0`.
pub proof fn lemma_error_code_is_not_success(e: ProgramError)
    ensures
        e.spec_code() != 0,
{
}

/// Distinct errors reach the runtime as distinct codes, so the runtime can tell every error
/// apart: custom errors keep their own value in the lower 32 bits, and builtin errors, `Custom(0)`
/// among them, use the upper 32 bits.
pub proof fn lemma_error_codes_are_distinct(e1: ProgramError, e2: ProgramError)
    ensures
        e1 != e2 ==> e1.spec_code() != e2.spec_code(),
        match e1 {
            ProgramError::Custom(n) => if n == 0 {
                e1.spec_code() == 0x1_0000_0000
            } else {
                e1.spec_code() == n && e1.spec_code() < 0x1_0000_0000
            },
            _ => e1.spec_code() >= 0x2_0000_0000 && e1.spec_code() % 0x1_0000_0000 == 0,
        },
{
}

} // verus!
