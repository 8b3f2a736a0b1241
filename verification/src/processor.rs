//! Dispatch of an instruction to the operation that it names.

use vstd::prelude::*;
use crate::account::AccountView;
use crate::address::Address;
use crate::close_sale::{CloseSalePlan, process_close_sale, spec_process_close_sale};
use crate::deposit::{DepositPlan, process_deposit_sol, spec_process_deposit_sol};
use crate::error::{EscrowError, ProgramError, escrow_failure};
use crate::initialize::{
    InitializePlan, SaleTerms, process_initialize_escrow, spec_process_initialize_escrow,
};
use crate::instruction::EscrowInstruction;
use crate::oracle::PriceRound;
use crate::status::{EscrowStatus, process_get_escrow_status, spec_process_get_escrow_status};
use crate::withdraw::{
    WithdrawPlan, process_withdraw_locked_sol, spec_process_withdraw_locked_sol,
};

verus! {

/// What the host reads for an operation before the escrow decides.
#[derive(Debug, Clone, Copy, PartialEq, Eq, Structural)]
pub struct HostFacts {
    /// The clock's time, in seconds.
    pub current_timestamp: i64,
    /// The smallest balance that keeps an account without data alive.
    pub rent_exempt_minimum: u64,
    /// The oracle's latest reading of the price feed; `None` where it was
    /// not read or the read failed.
    pub price_round: Option<PriceRound>,
}

/// What an accepted instruction asks of the host.
#[derive(Debug, Clone, Copy, PartialEq, Eq)]
pub enum Outcome {
    Initialize(InitializePlan),
    Deposit(DepositPlan),
    Withdraw(WithdrawPlan),
    Status(EscrowStatus),
    CloseSale(CloseSalePlan),
}

/// What [`process_instruction`] returns: bytes that hold no instruction are
/// `InvalidInstruction`; any other instruction has the outcome of its
/// operation.
pub open spec fn spec_process_instruction(
    program_id: Address,
    accounts: Seq<AccountView>,
    instruction_data: Seq<u8>,
    host: HostFacts,
) -> Result<Outcome, ProgramError> {
    match EscrowInstruction::spec_decode(instruction_data) {
        Err(_) => Err(escrow_failure(EscrowError::InvalidInstruction)),
        Ok(
            EscrowInstruction::InitializeEscrow {
                token_amount,
                lock_duration,
                sale_end_timestamp,
                min_sol_investment,
                max_sol_investment,
                price_staleness_threshold,
            },
        ) => match spec_process_initialize_escrow(
            program_id,
            accounts,
            SaleTerms {
                token_amount,
                lock_duration,
                sale_end_timestamp,
                min_sol_investment,
                max_sol_investment,
                price_staleness_threshold,
            },
            host.current_timestamp,
        ) {
            Ok(plan) => Ok(Outcome::Initialize(plan)),
            Err(e) => Err(e),
        },
        Ok(EscrowInstruction::DepositSol { sol_amount }) => match spec_process_deposit_sol(
            program_id,
            accounts,
            sol_amount,
            host.price_round,
            host.current_timestamp,
        ) {
            Ok(plan) => Ok(Outcome::Deposit(plan)),
            Err(e) => Err(e),
        },
        Ok(EscrowInstruction::WithdrawLockedSol) => match spec_process_withdraw_locked_sol(
            program_id,
            accounts,
            host.current_timestamp,
            host.rent_exempt_minimum,
        ) {
            Ok(plan) => Ok(Outcome::Withdraw(plan)),
            Err(e) => Err(e),
        },
        Ok(EscrowInstruction::GetEscrowStatus) => match spec_process_get_escrow_status(accounts) {
            Ok(status) => Ok(Outcome::Status(status)),
            Err(e) => Err(e),
        },
        Ok(EscrowInstruction::CloseSale) => match spec_process_close_sale(
            program_id,
            accounts,
            host.current_timestamp,
        ) {
            Ok(plan) => Ok(Outcome::CloseSale(plan)),
            Err(e) => Err(e),
        },
    }
}

/// Decodes an instruction and decides its operation on the accounts as
/// they stand and on what the host has read.
pub fn process_instruction(
    program_id: &Address,
    accounts: &Vec<AccountView>,
    instruction_data: &[u8],
    host: &HostFacts,
) -> (res: Result<Outcome, ProgramError>)
    ensures
        res == spec_process_instruction(*program_id, accounts@, instruction_data@, *host),
{
    let instruction: EscrowInstruction = match EscrowInstruction::try_from_slice(
        instruction_data,
    ) {
        Ok(instruction) => instruction,
        Err(_) => {
            return Err(ProgramError::Custom(EscrowError::InvalidInstruction.code()));
        },
    };
    match instruction {
        EscrowInstruction::InitializeEscrow {
            token_amount,
            lock_duration,
            sale_end_timestamp,
            min_sol_investment,
            max_sol_investment,
            price_staleness_threshold,
        } => match process_initialize_escrow(
            program_id,
            accounts,
            token_amount,
            lock_duration,
            sale_end_timestamp,
            min_sol_investment,
            max_sol_investment,
            price_staleness_threshold,
            host.current_timestamp,
        ) {
            Ok(plan) => Ok(Outcome::Initialize(plan)),
            Err(e) => Err(e),
        },
        EscrowInstruction::DepositSol { sol_amount } => match process_deposit_sol(
            program_id,
            accounts,
            sol_amount,
            host.price_round,
            host.current_timestamp,
        ) {
            Ok(plan) => Ok(Outcome::Deposit(plan)),
            Err(e) => Err(e),
        },
        EscrowInstruction::WithdrawLockedSol => match process_withdraw_locked_sol(
            program_id,
            accounts,
            host.current_timestamp,
            host.rent_exempt_minimum,
        ) {
            Ok(plan) => Ok(Outcome::Withdraw(plan)),
            Err(e) => Err(e),
        },
        EscrowInstruction::GetEscrowStatus => match process_get_escrow_status(accounts) {
            Ok(status) => Ok(Outcome::Status(status)),
            Err(e) => Err(e),
        },
        EscrowInstruction::CloseSale => match process_close_sale(
            program_id,
            accounts,
            host.current_timestamp,
        ) {
            Ok(plan) => Ok(Outcome::CloseSale(plan)),
            Err(e) => Err(e),
        },
    }
}

} // verus!
