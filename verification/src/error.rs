//! Error kinds of the escrow and the failure values handed to the host.

use vstd::prelude::*;

verus! {

/// The escrow's own error kinds. Their order is the wire order: the host
/// reports a kind as the custom code given by [`EscrowError::code`].
#[derive(Debug, Copy, Clone, PartialEq, Eq, Structural)]
pub enum EscrowError {
    InvalidInstruction,
    NotRentExempt,
    ExpectedAmountMismatch,
    AmountOverflow,
    InvalidEscrowStatus,
    Unauthorized,
    SolStillLocked,
    NoSolToWithdraw,
    InvalidPriceFeed,
    StalePriceData,
    InsufficientSolDeposit,
    NotEnoughTokens,
    InvalidPDA,
    InvestmentBelowMinimum,
    InvestmentExceedsMaximum,
    InvalidTokenAccount,
}

/// Number of error kinds; custom codes are `0..ESCROW_ERROR_COUNT`.
pub const ESCROW_ERROR_COUNT: u32 = 16;

impl EscrowError {
    /// Position of the kind in the declaration order.
    pub open spec fn spec_code(self) -> u32 {
        match self {
            EscrowError::InvalidInstruction => 0,
            EscrowError::NotRentExempt => 1,
            EscrowError::ExpectedAmountMismatch => 2,
            EscrowError::AmountOverflow => 3,
            EscrowError::InvalidEscrowStatus => 4,
            EscrowError::Unauthorized => 5,
            EscrowError::SolStillLocked => 6,
            EscrowError::NoSolToWithdraw => 7,
            EscrowError::InvalidPriceFeed => 8,
            EscrowError::StalePriceData => 9,
            EscrowError::InsufficientSolDeposit => 10,
            EscrowError::NotEnoughTokens => 11,
            EscrowError::InvalidPDA => 12,
            EscrowError::InvestmentBelowMinimum => 13,
            EscrowError::InvestmentExceedsMaximum => 14,
            EscrowError::InvalidTokenAccount => 15,
        }
    }

    /// The custom code under which the host reports this kind.
    pub fn code(self) -> (c: u32)
        ensures
            c == self.spec_code(),
            c < ESCROW_ERROR_COUNT,
    {
        match self {
            EscrowError::InvalidInstruction => 0,
            EscrowError::NotRentExempt => 1,
            EscrowError::ExpectedAmountMismatch => 2,
            EscrowError::AmountOverflow => 3,
            EscrowError::InvalidEscrowStatus => 4,
            EscrowError::Unauthorized => 5,
            EscrowError::SolStillLocked => 6,
            EscrowError::NoSolToWithdraw => 7,
            EscrowError::InvalidPriceFeed => 8,
            EscrowError::StalePriceData => 9,
            EscrowError::InsufficientSolDeposit => 10,
            EscrowError::NotEnoughTokens => 11,
            EscrowError::InvalidPDA => 12,
            EscrowError::InvestmentBelowMinimum => 13,
            EscrowError::InvestmentExceedsMaximum => 14,
            EscrowError::InvalidTokenAccount => 15,
        }
    }

    /// Human-readable text of the kind.
    pub fn message(self) -> (text: &'static str)
        ensures
            text@ == self.spec_message(),
    {
        match self {
            EscrowError::InvalidInstruction => "Invalid instruction",
            EscrowError::NotRentExempt => "Not rent exempt",
            EscrowError::ExpectedAmountMismatch => "Expected amount mismatch",
            EscrowError::AmountOverflow => "Amount overflow",
            EscrowError::InvalidEscrowStatus => "Invalid escrow status",
            EscrowError::Unauthorized => "Unauthorized",
            EscrowError::SolStillLocked => "SOL still locked",
            EscrowError::NoSolToWithdraw => "No SOL to withdraw",
            EscrowError::InvalidPriceFeed => "Invalid price feed",
            EscrowError::StalePriceData => "Stale price data",
            EscrowError::InsufficientSolDeposit => "Insufficient SOL deposit",
            EscrowError::NotEnoughTokens => "Not enough tokens available",
            EscrowError::InvalidPDA => "Invalid PDA",
            EscrowError::InvestmentBelowMinimum => "Investment amount below minimum",
            EscrowError::InvestmentExceedsMaximum => "Investment amount exceeds maximum per address",
            EscrowError::InvalidTokenAccount => "Invalid token account",
        }
    }

    /// The text that [`EscrowError::message`] returns.
    pub open spec fn spec_message(self) -> Seq<char> {
        match self {
            EscrowError::InvalidInstruction => "Invalid instruction"@,
            EscrowError::NotRentExempt => "Not rent exempt"@,
            EscrowError::ExpectedAmountMismatch => "Expected amount mismatch"@,
            EscrowError::AmountOverflow => "Amount overflow"@,
            EscrowError::InvalidEscrowStatus => "Invalid escrow status"@,
            EscrowError::Unauthorized => "Unauthorized"@,
            EscrowError::SolStillLocked => "SOL still locked"@,
            EscrowError::NoSolToWithdraw => "No SOL to withdraw"@,
            EscrowError::InvalidPriceFeed => "Invalid price feed"@,
            EscrowError::StalePriceData => "Stale price data"@,
            EscrowError::InsufficientSolDeposit => "Insufficient SOL deposit"@,
            EscrowError::NotEnoughTokens => "Not enough tokens available"@,
            EscrowError::InvalidPDA => "Invalid PDA"@,
            EscrowError::InvestmentBelowMinimum => "Investment amount below minimum"@,
            EscrowError::InvestmentExceedsMaximum => "Investment amount exceeds maximum per address"@,
            EscrowError::InvalidTokenAccount => "Invalid token account"@,
        }
    }
}

/// Why an operation was refused, as the host program reports it: an escrow
/// kind under its custom code, or one of the host's general failures.
#[derive(Debug, Copy, Clone, PartialEq, Eq, Structural)]
pub enum ProgramError {
    /// An escrow error kind, by its code.
    Custom(u32),
    /// A required signature is missing.
    MissingRequiredSignature,
    /// A program account is not the expected program.
    IncorrectProgramId,
    /// The record to create already holds an initialized record.
    AccountAlreadyInitialized,
    /// An account's address or bytes are not what the operation needs.
    InvalidAccountData,
    /// A token account is not initialized.
    UninitializedAccount,
    /// The instruction bytes or a record's bytes do not decode.
    BorshIoError,
    /// Fewer accounts were passed than the operation takes.
    NotEnoughAccountKeys,
}

impl From<EscrowError> for ProgramError {
    fn from(e: EscrowError) -> (err: ProgramError) {
        ProgramError::Custom(e.code())
    }
}

impl vstd::std_specs::convert::FromSpecImpl<EscrowError> for ProgramError {
    open spec fn obeys_from_spec() -> bool {
        true
    }

    open spec fn from_spec(e: EscrowError) -> ProgramError {
        ProgramError::Custom(e.spec_code())
    }
}

/// The failure value of an escrow error kind.
pub open spec fn escrow_failure(e: EscrowError) -> ProgramError {
    ProgramError::Custom(e.spec_code())
}

} // verus!
