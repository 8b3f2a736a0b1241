//! Reading of a sale's totals.
//!
//! Accounts, in order: the sale record, the clock.

use vstd::prelude::*;
use crate::account::AccountView;
use crate::error::ProgramError;
use crate::state::GlobalEscrow;

verus! {

/// Accounts that reading the status takes.
pub const STATUS_ACCOUNTS: usize = 2;

/// What a sale reports of itself.
#[derive(Debug, Clone, Copy, PartialEq, Eq, Structural)]
pub struct EscrowStatus {
    pub is_initialized: bool,
    pub total_tokens_available: u64,
    pub tokens_sold: u64,
    pub total_sol_deposited: u64,
    pub total_sol_withdrawn: u64,
    /// Seconds from creation until the locked shares unlock.
    pub lock_duration: i64,
}

/// The totals of a sale record.
pub open spec fn status_of(global_escrow: GlobalEscrow) -> EscrowStatus {
    EscrowStatus {
        is_initialized: global_escrow.is_initialized,
        total_tokens_available: global_escrow.total_tokens_available,
        tokens_sold: global_escrow.tokens_sold,
        total_sol_deposited: global_escrow.total_sol_deposited,
        total_sol_withdrawn: global_escrow.total_sol_withdrawn,
        lock_duration: global_escrow.lock_duration,
    }
}

/// What [`process_get_escrow_status`] returns: the totals of the sale
/// record that the first account holds; `NotEnoughAccountKeys` for fewer
/// than two accounts, `BorshIoError` for bytes that hold no sale record.
pub open spec fn spec_process_get_escrow_status(accounts: Seq<AccountView>) -> Result<
    EscrowStatus,
    ProgramError,
> {
    if accounts.len() < STATUS_ACCOUNTS {
        Err(ProgramError::NotEnoughAccountKeys)
    } else {
        match GlobalEscrow::spec_decode(accounts[0].data@) {
            Ok(global_escrow) => Ok(status_of(global_escrow)),
            Err(e) => Err(e),
        }
    }
}

/// Reads the totals of a sale. Nothing is changed and nobody has to sign.
pub fn process_get_escrow_status(accounts: &Vec<AccountView>) -> (res: Result<
    EscrowStatus,
    ProgramError,
>)
    ensures
        res == spec_process_get_escrow_status(accounts@),
{
    if accounts.len() < STATUS_ACCOUNTS {
        return Err(ProgramError::NotEnoughAccountKeys);
    }
    match GlobalEscrow::try_from_slice(accounts[0].data.as_slice()) {
        Ok(global_escrow) => Ok(
            EscrowStatus {
                is_initialized: global_escrow.is_initialized,
                total_tokens_available: global_escrow.total_tokens_available,
                tokens_sold: global_escrow.tokens_sold,
                total_sol_deposited: global_escrow.total_sol_deposited,
                total_sol_withdrawn: global_escrow.total_sol_withdrawn,
                lock_duration: global_escrow.lock_duration,
            },
        ),
        Err(e) => Err(e),
    }
}

} // verus!
