use ondrix_escrow::error::{EscrowError, ProgramError, ESCROW_ERROR_COUNT};

fn kinds() -> Vec<EscrowError> {
    vec![
        EscrowError::InvalidInstruction,
        EscrowError::NotRentExempt,
        EscrowError::ExpectedAmountMismatch,
        EscrowError::AmountOverflow,
        EscrowError::InvalidEscrowStatus,
        EscrowError::Unauthorized,
        EscrowError::SolStillLocked,
        EscrowError::NoSolToWithdraw,
        EscrowError::InvalidPriceFeed,
        EscrowError::StalePriceData,
        EscrowError::InsufficientSolDeposit,
        EscrowError::NotEnoughTokens,
        EscrowError::InvalidPDA,
        EscrowError::InvestmentBelowMinimum,
        EscrowError::InvestmentExceedsMaximum,
        EscrowError::InvalidTokenAccount,
    ]
}

#[test]
fn codes_follow_the_declaration_order() {
    let kinds = kinds();
    assert_eq!(kinds.len() as u32, ESCROW_ERROR_COUNT);
    for (position, kind) in kinds.iter().enumerate() {
        assert_eq!(kind.code(), position as u32);
    }
}

#[test]
fn a_kind_becomes_its_custom_code() {
    assert_eq!(ProgramError::from(EscrowError::InvalidInstruction), ProgramError::Custom(0));
    assert_eq!(ProgramError::from(EscrowError::AmountOverflow), ProgramError::Custom(3));
    assert_eq!(ProgramError::from(EscrowError::NoSolToWithdraw), ProgramError::Custom(7));
    assert_eq!(ProgramError::from(EscrowError::InvalidTokenAccount), ProgramError::Custom(15));
    let converted: ProgramError = EscrowError::StalePriceData.into();
    assert_eq!(converted, ProgramError::Custom(9));
}

#[test]
fn custom_codes_are_those_of_the_host_error() {
    for kind in kinds() {
        let ours = ProgramError::from(kind);
        let theirs = solana_program::program_error::ProgramError::Custom(kind.code());
        assert_eq!(ours, ProgramError::Custom(kind.code()));
        if kind.code() != 0 {
            assert_eq!(u64::from(theirs), kind.code() as u64);
        }
    }
}

#[test]
fn messages_are_the_texts_of_the_kinds() {
    assert_eq!(EscrowError::InvalidInstruction.message(), "Invalid instruction");
    assert_eq!(EscrowError::NotRentExempt.message(), "Not rent exempt");
    assert_eq!(EscrowError::ExpectedAmountMismatch.message(), "Expected amount mismatch");
    assert_eq!(EscrowError::AmountOverflow.message(), "Amount overflow");
    assert_eq!(EscrowError::InvalidEscrowStatus.message(), "Invalid escrow status");
    assert_eq!(EscrowError::Unauthorized.message(), "Unauthorized");
    assert_eq!(EscrowError::SolStillLocked.message(), "SOL still locked");
    assert_eq!(EscrowError::NoSolToWithdraw.message(), "No SOL to withdraw");
    assert_eq!(EscrowError::InvalidPriceFeed.message(), "Invalid price feed");
    assert_eq!(EscrowError::StalePriceData.message(), "Stale price data");
    assert_eq!(EscrowError::InsufficientSolDeposit.message(), "Insufficient SOL deposit");
    assert_eq!(EscrowError::NotEnoughTokens.message(), "Not enough tokens available");
    assert_eq!(EscrowError::InvalidPDA.message(), "Invalid PDA");
    assert_eq!(EscrowError::InvestmentBelowMinimum.message(), "Investment amount below minimum");
    assert_eq!(
        EscrowError::InvestmentExceedsMaximum.message(),
        "Investment amount exceeds maximum per address"
    );
    assert_eq!(EscrowError::InvalidTokenAccount.message(), "Invalid token account");
}
