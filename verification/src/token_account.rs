//! The investor's token account: what the escrow reads of it and which
//! accounts it accepts as the destination of issued tokens.

use vstd::prelude::*;
use crate::account::AccountView;
use crate::address::{Address, TOKEN_PROGRAM_ID};
use crate::error::{EscrowError, ProgramError, escrow_failure};

verus! {

/// Bytes of a token account.
pub const TOKEN_ACCOUNT_LEN: usize = 165;

/// Whether an account already holds a token account: the token program
/// owns it and it has the bytes of one.
pub open spec fn is_token_account(account: AccountView) -> bool {
    account.owner@ == TOKEN_PROGRAM_ID@ && account.data@.len() == TOKEN_ACCOUNT_LEN
}

/// What the escrow reads of a token account.
#[derive(Debug, Clone, Copy, PartialEq, Eq)]
pub struct TokenAccount {
    /// The token that the account holds.
    pub mint: Address,
    /// Who may spend from the account.
    pub owner: Address,
    /// Token units in the account.
    pub amount: u64,
    /// Another party allowed to spend from the account, if any.
    pub delegate: Option<Address>,
    /// Another party allowed to close the account, if any.
    pub close_authority: Option<Address>,
}

/// The initialized token account that `data` hold, or why they hold none:
/// `InvalidAccountData` for bytes that are no token account,
/// `UninitializedAccount` for one that was never initialized.
pub uninterp spec fn unpacked_token_account(data: Seq<u8>) -> Result<TokenAccount, ProgramError>;

/// Calls `spl_token::state::Account::unpack` (the `Pack` trait of
/// `solana_program`), which reads the 165-byte layout of a token account and
/// refuses one that is not initialized. The mint, the owner, the amount, the
/// delegate and the close authority are carried over as they are; of the
/// errors, `UninitializedAccount` is kept and every other is
/// `InvalidAccountData`, the only other one that the call returns. The
/// result depends on the bytes alone; the contract names it
/// `unpacked_token_account`. Beyond the name it claims only what the length
/// test at the head of `Pack::unpack_unchecked` shows: bytes of another
/// length than 165 never unpack.
#[verifier::external_body]
pub(crate) fn unpack_token_account(data: &[u8]) -> (res: Result<TokenAccount, ProgramError>)
    ensures
        res == unpacked_token_account(data@),
        res is Ok ==> data@.len() == TOKEN_ACCOUNT_LEN,
{
    let unpacked: Result<spl_token::state::Account, solana_program::program_error::ProgramError> =
        solana_program::program_pack::Pack::unpack(data);
    match unpacked {
        Ok(account) => Ok(TokenAccount {
            mint: Address { bytes: account.mint.to_bytes() },
            owner: Address { bytes: account.owner.to_bytes() },
            amount: account.amount,
            delegate: Option::from(account.delegate).map(|key: solana_program::pubkey::Pubkey| Address { bytes: key.to_bytes() }),
            close_authority: Option::from(account.close_authority).map(|key: solana_program::pubkey::Pubkey| Address { bytes: key.to_bytes() }),
        }),
        Err(solana_program::program_error::ProgramError::UninitializedAccount) => Err(ProgramError::UninitializedAccount),
        Err(_) => Err(ProgramError::InvalidAccountData),
    }
}

/// Whether a token account may receive an investor's tokens: the investor
/// owns it, it holds the sale's token, and nobody else may spend from it or
/// close it.
pub open spec fn token_account_accepted(
    account: TokenAccount,
    investor: Address,
    token_mint: Address,
) -> bool {
    &&& account.owner == investor
    &&& account.mint == token_mint
    &&& account.delegate is None
    &&& account.close_authority is None
}

/// What [`validate_token_account`] returns.
pub open spec fn spec_validate_token_account(
    account: TokenAccount,
    investor: Address,
    token_mint: Address,
) -> Result<(), ProgramError> {
    if token_account_accepted(account, investor, token_mint) {
        Ok(())
    } else {
        Err(escrow_failure(EscrowError::InvalidTokenAccount))
    }
}

/// Accepts the destination of an investor's tokens or refuses it with
/// `InvalidTokenAccount`.
pub fn validate_token_account(account: &TokenAccount, investor: &Address, token_mint: &Address) -> (res:
    Result<(), ProgramError>)
    ensures
        res == spec_validate_token_account(*account, *investor, *token_mint),
{
    if account.owner == *investor && account.mint == *token_mint && account.delegate.is_none()
        && account.close_authority.is_none() {
        Ok(())
    } else {
        Err(ProgramError::Custom(EscrowError::InvalidTokenAccount.code()))
    }
}

} // verus!
