//! Withdrawal of an investor's locked share by the beneficiary.
//!
//! Accounts, in order: the beneficiary (signer), the sale record, the
//! investor's position, the investor's fund-lock pool, the beneficiary's
//! wallet, the system program, the clock.

use vstd::prelude::*;
use crate::account::{AccountView, check_derived, is_derived};
use crate::address::{
    Address, find_investor_pda, find_sol_vault_pda, investor_seeds, program_address,
    sol_vault_seeds,
};
use crate::error::{EscrowError, ProgramError, escrow_failure};
use crate::state::{GlobalEscrow, InvestorAccount, InvestorStatus};
use crate::steps::{Step, stores_come_last};

verus! {

/// Accounts that a withdrawal takes.
pub const WITHDRAW_ACCOUNTS: usize = 7;

/// What the host carries out for an accepted withdrawal: first the
/// transfer, then the two records.
#[derive(Debug, Clone, Copy, PartialEq, Eq)]
pub struct WithdrawPlan {
    /// The account of the sale record.
    pub global_escrow_account: Address,
    /// The account of the position.
    pub investor_account: Address,
    /// The fund-lock pool that pays.
    pub sol_vault: Address,
    /// The beneficiary's wallet, which receives.
    pub recipient: Address,
    /// Lamports to move: the locked share of the position.
    pub amount: u64,
    /// The sale record to store.
    pub global_escrow: GlobalEscrow,
    /// The position to store.
    pub investor: InvestorAccount,
}

impl WithdrawPlan {
    /// The steps of the withdrawal: the locked share leaves the pool for
    /// the beneficiary, then the sale record and the position are stored.
    pub open spec fn spec_steps(self) -> Seq<Step> {
        seq![
            Step::ReleaseLamports { from: self.sol_vault, to: self.recipient, amount: self.amount },
            Step::StoreSaleRecord { account: self.global_escrow_account, record: self.global_escrow },
            Step::StorePosition { account: self.investor_account, position: self.investor },
        ]
    }

    /// The steps that the host carries out, in order.
    pub fn steps(&self) -> (steps: Vec<Step>)
        ensures
            steps@ == self.spec_steps(),
            stores_come_last(steps@),
    {
        let mut steps: Vec<Step> = Vec::new();
        steps.push(
            Step::ReleaseLamports { from: self.sol_vault, to: self.recipient, amount: self.amount },
        );
        steps.push(
            Step::StoreSaleRecord {
                account: self.global_escrow_account,
                record: self.global_escrow,
            },
        );
        steps.push(Step::StorePosition { account: self.investor_account, position: self.investor });
        assert(steps@ =~= self.spec_steps());
        steps
    }
}

/// The sale record after a withdrawal of `amount`: only the withdrawn total
/// grows.
pub open spec fn escrow_after_withdrawal(global_escrow: GlobalEscrow, amount: u64) -> GlobalEscrow {
    GlobalEscrow {
        total_sol_withdrawn: (global_escrow.total_sol_withdrawn + amount) as u64,
        ..global_escrow
    }
}

/// The position after its withdrawal: only the status changes.
pub open spec fn investor_after_withdrawal(investor: InvestorAccount) -> InvestorAccount {
    InvestorAccount { status: InvestorStatus::SolWithdrawn, ..investor }
}

/// The outcome of a withdrawal for the accounts as they stand, the time,
/// the smallest balance that keeps an empty account alive, and the two
/// addresses derived for the position. The first condition that fails
/// decides the error:
///
/// - fewer than seven accounts: `NotEnoughAccountKeys`;
/// - the caller did not sign: `MissingRequiredSignature`;
/// - the position is not owned by the program: `InvalidPDA`;
/// - the sale record or the position does not decode: `BorshIoError`;
/// - the position was withdrawn before: `NoSolToWithdraw`;
/// - the caller is not the sale's beneficiary: `Unauthorized`;
/// - the position is not at the address derived from its investor and
///   sale, it names another sale than the one passed, or the pool is not
///   at its derived address: `InvalidPDA`;
/// - the sale's unlock time has not come: `SolStillLocked`;
/// - the pool holds less than the locked share: `NoSolToWithdraw`;
/// - the pool would fall under the smallest balance: `NotRentExempt`;
/// - the receiving wallet is not the beneficiary: `Unauthorized`;
/// - the withdrawn total would not fit 64 bits: `AmountOverflow`.
pub open spec fn withdraw_outcome(
    program_id: Address,
    accounts: Seq<AccountView>,
    current_timestamp: i64,
    rent_exempt_minimum: u64,
    investor_pda: Option<(Address, u8)>,
    sol_vault_pda: Option<(Address, u8)>,
) -> Result<WithdrawPlan, ProgramError> {
    if accounts.len() < WITHDRAW_ACCOUNTS {
        Err(ProgramError::NotEnoughAccountKeys)
    } else if !accounts[0].is_signer {
        Err(ProgramError::MissingRequiredSignature)
    } else if accounts[2].owner != program_id {
        Err(escrow_failure(EscrowError::InvalidPDA))
    } else if GlobalEscrow::spec_decode(accounts[1].data@) is Err {
        Err(ProgramError::BorshIoError)
    } else if InvestorAccount::spec_decode(accounts[2].data@) is Err {
        Err(ProgramError::BorshIoError)
    } else {
        let global_escrow = GlobalEscrow::spec_decode(accounts[1].data@)->Ok_0;
        let investor = InvestorAccount::spec_decode(accounts[2].data@)->Ok_0;
        let amount = investor.spec_locked_sol_amount();
        if investor.status == InvestorStatus::SolWithdrawn {
            Err(escrow_failure(EscrowError::NoSolToWithdraw))
        } else if accounts[0].key != global_escrow.recipient_wallet {
            Err(escrow_failure(EscrowError::Unauthorized))
        } else if !is_derived(investor_pda, accounts[2].key) {
            Err(escrow_failure(EscrowError::InvalidPDA))
        } else if investor.global_escrow_pubkey != accounts[1].key {
            Err(escrow_failure(EscrowError::InvalidPDA))
        } else if !is_derived(sol_vault_pda, accounts[3].key) {
            Err(escrow_failure(EscrowError::InvalidPDA))
        } else if current_timestamp < global_escrow.spec_unlock_time() {
            Err(escrow_failure(EscrowError::SolStillLocked))
        } else if accounts[3].lamports < amount {
            Err(escrow_failure(EscrowError::NoSolToWithdraw))
        } else if accounts[3].lamports - amount < rent_exempt_minimum {
            Err(escrow_failure(EscrowError::NotRentExempt))
        } else if accounts[4].key != global_escrow.recipient_wallet {
            Err(escrow_failure(EscrowError::Unauthorized))
        } else if global_escrow.total_sol_withdrawn + amount > u64::MAX {
            Err(escrow_failure(EscrowError::AmountOverflow))
        } else {
            Ok(
                WithdrawPlan {
                    global_escrow_account: accounts[1].key,
                    investor_account: accounts[2].key,
                    sol_vault: accounts[3].key,
                    recipient: accounts[4].key,
                    amount,
                    global_escrow: escrow_after_withdrawal(global_escrow, amount),
                    investor: investor_after_withdrawal(investor),
                },
            )
        }
    }
}

/// The address derived for the position that `data` hold, and the one for
/// its fund-lock pool; none where the bytes hold no position.
pub open spec fn position_addresses(program_id: Address, data: Seq<u8>) -> (
    Option<(Address, u8)>,
    Option<(Address, u8)>,
) {
    match InvestorAccount::spec_decode(data) {
        Ok(investor) => (
            program_address(
                investor_seeds(investor.investor_pubkey@, investor.global_escrow_pubkey@),
                program_id@,
            ),
            program_address(
                sol_vault_seeds(investor.investor_pubkey@, investor.global_escrow_pubkey@),
                program_id@,
            ),
        ),
        Err(_) => (None, None),
    }
}

/// Decides a withdrawal, given the addresses derived for the position and
/// for its fund-lock pool.
pub fn plan_withdrawal(
    program_id: &Address,
    accounts: &Vec<AccountView>,
    current_timestamp: i64,
    rent_exempt_minimum: u64,
    investor_pda: Option<(Address, u8)>,
    sol_vault_pda: Option<(Address, u8)>,
) -> (res: Result<WithdrawPlan, ProgramError>)
    ensures
        res == withdraw_outcome(
            *program_id,
            accounts@,
            current_timestamp,
            rent_exempt_minimum,
            investor_pda,
            sol_vault_pda,
        ),
        (GlobalEscrow::spec_decode(accounts@[1].data@) matches Ok(sale) && current_timestamp
            < sale.spec_unlock_time()) ==> res is Err,
        (InvestorAccount::spec_decode(accounts@[2].data@) matches Ok(position) && position.status
            == InvestorStatus::SolWithdrawn) ==> res is Err,
        res matches Ok(plan) ==> ({
            &&& plan.investor.status == InvestorStatus::SolWithdrawn
            &&& plan.amount == InvestorAccount::spec_decode(
                accounts@[2].data@,
            )->Ok_0.sol_deposited / 2
        }),
{
    if accounts.len() < WITHDRAW_ACCOUNTS {
        return Err(ProgramError::NotEnoughAccountKeys);
    }
    let withdrawer: &AccountView = &accounts[0];
    let global_escrow_account: &AccountView = &accounts[1];
    let investor_account: &AccountView = &accounts[2];
    let sol_vault_account: &AccountView = &accounts[3];
    let recipient_wallet: &AccountView = &accounts[4];
    if !withdrawer.is_signer {
        return Err(ProgramError::MissingRequiredSignature);
    }
    if investor_account.owner != *program_id {
        return Err(ProgramError::Custom(EscrowError::InvalidPDA.code()));
    }
    let global_escrow: GlobalEscrow = match GlobalEscrow::try_from_slice(
        global_escrow_account.data.as_slice(),
    ) {
        Ok(record) => record,
        Err(e) => {
            return Err(e);
        },
    };
    let investor: InvestorAccount = match InvestorAccount::try_from_slice(
        investor_account.data.as_slice(),
    ) {
        Ok(record) => record,
        Err(e) => {
            return Err(e);
        },
    };
    if investor.status == InvestorStatus::SolWithdrawn {
        return Err(ProgramError::Custom(EscrowError::NoSolToWithdraw.code()));
    }
    if withdrawer.key != global_escrow.recipient_wallet {
        return Err(ProgramError::Custom(EscrowError::Unauthorized.code()));
    }
    match check_derived(&investor_pda, &investor_account.key) {
        Ok(_) => {},
        Err(e) => {
            return Err(e);
        },
    }
    if investor.global_escrow_pubkey != global_escrow_account.key {
        return Err(ProgramError::Custom(EscrowError::InvalidPDA.code()));
    }
    match check_derived(&sol_vault_pda, &sol_vault_account.key) {
        Ok(_) => {},
        Err(e) => {
            return Err(e);
        },
    }
    let unlock_time: i128 = global_escrow.initialization_timestamp as i128
        + global_escrow.lock_duration as i128;
    if (current_timestamp as i128) < unlock_time {
        return Err(ProgramError::Custom(EscrowError::SolStillLocked.code()));
    }
    let amount: u64 = investor.get_locked_sol_amount();
    let vault_balance: u64 = sol_vault_account.lamports;
    if vault_balance < amount {
        return Err(ProgramError::Custom(EscrowError::NoSolToWithdraw.code()));
    }
    if vault_balance - amount < rent_exempt_minimum {
        return Err(ProgramError::Custom(EscrowError::NotRentExempt.code()));
    }
    if recipient_wallet.key != global_escrow.recipient_wallet {
        return Err(ProgramError::Custom(EscrowError::Unauthorized.code()));
    }
    let total_sol_withdrawn: u64 = match global_escrow.total_sol_withdrawn.checked_add(amount) {
        Some(total) => total,
        None => {
            return Err(ProgramError::Custom(EscrowError::AmountOverflow.code()));
        },
    };
    let mut updated_global_escrow: GlobalEscrow = global_escrow;
    updated_global_escrow.total_sol_withdrawn = total_sol_withdrawn;
    let mut updated_investor: InvestorAccount = investor;
    updated_investor.status = InvestorStatus::SolWithdrawn;
    Ok(
        WithdrawPlan {
            global_escrow_account: global_escrow_account.key,
            investor_account: investor_account.key,
            sol_vault: sol_vault_account.key,
            recipient: recipient_wallet.key,
            amount,
            global_escrow: updated_global_escrow,
            investor: updated_investor,
        },
    )
}

/// What [`process_withdraw_locked_sol`] returns: the outcome for the
/// addresses derived from the investor and the sale that the position
/// names.
pub open spec fn spec_process_withdraw_locked_sol(
    program_id: Address,
    accounts: Seq<AccountView>,
    current_timestamp: i64,
    rent_exempt_minimum: u64,
) -> Result<WithdrawPlan, ProgramError> {
    withdraw_outcome(
        program_id,
        accounts,
        current_timestamp,
        rent_exempt_minimum,
        position_addresses(program_id, accounts[2].data@).0,
        position_addresses(program_id, accounts[2].data@).1,
    )
}

/// Decides a withdrawal of an investor's locked share. `current_timestamp`
/// is the clock's time; `rent_exempt_minimum` is the smallest balance that
/// keeps an account without data alive.
pub fn process_withdraw_locked_sol(
    program_id: &Address,
    accounts: &Vec<AccountView>,
    current_timestamp: i64,
    rent_exempt_minimum: u64,
) -> (res: Result<WithdrawPlan, ProgramError>)
    ensures
        res == spec_process_withdraw_locked_sol(
            *program_id,
            accounts@,
            current_timestamp,
            rent_exempt_minimum,
        ),
        (GlobalEscrow::spec_decode(accounts@[1].data@) matches Ok(sale) && current_timestamp
            < sale.spec_unlock_time()) ==> res is Err,
        (InvestorAccount::spec_decode(accounts@[2].data@) matches Ok(position) && position.status
            == InvestorStatus::SolWithdrawn) ==> res is Err,
        res matches Ok(plan) ==> ({
            &&& plan.investor.status == InvestorStatus::SolWithdrawn
            &&& plan.amount == InvestorAccount::spec_decode(
                accounts@[2].data@,
            )->Ok_0.sol_deposited / 2
        }),
{
    if accounts.len() < WITHDRAW_ACCOUNTS {
        return Err(ProgramError::NotEnoughAccountKeys);
    }
    let (investor_pda, sol_vault_pda) = match InvestorAccount::try_from_slice(
        accounts[2].data.as_slice(),
    ) {
        Ok(investor) => (
            find_investor_pda(
                &investor.investor_pubkey,
                &investor.global_escrow_pubkey,
                program_id,
            ),
            find_sol_vault_pda(
                &investor.investor_pubkey,
                &investor.global_escrow_pubkey,
                program_id,
            ),
        ),
        Err(_) => (None, None),
    };
    plan_withdrawal(
        program_id,
        accounts,
        current_timestamp,
        rent_exempt_minimum,
        investor_pda,
        sol_vault_pda,
    )
}

/// An investor's locked share is withdrawn at most once. After an accepted
/// withdrawal, every later withdrawal that finds the position as the first
/// one stored it is refused; it is refused with `NoSolToWithdraw` wherever
/// the checks that come before the status pass again: the caller signed,
/// the position is the program's, and the sale record decodes.
pub proof fn lemma_withdraw_succeeds_at_most_once(
    program_id: Address,
    first: Seq<AccountView>,
    first_timestamp: i64,
    first_minimum: u64,
    first_investor_pda: Option<(Address, u8)>,
    first_sol_vault_pda: Option<(Address, u8)>,
    second: Seq<AccountView>,
    second_timestamp: i64,
    second_minimum: u64,
    second_investor_pda: Option<(Address, u8)>,
    second_sol_vault_pda: Option<(Address, u8)>,
)
    requires
        withdraw_outcome(
            program_id,
            first,
            first_timestamp,
            first_minimum,
            first_investor_pda,
            first_sol_vault_pda,
        ) is Ok,
        second.len() >= WITHDRAW_ACCOUNTS,
        second[2].data@ == withdraw_outcome(
            program_id,
            first,
            first_timestamp,
            first_minimum,
            first_investor_pda,
            first_sol_vault_pda,
        )->Ok_0.investor.spec_encode(),
    ensures
        withdraw_outcome(
            program_id,
            second,
            second_timestamp,
            second_minimum,
            second_investor_pda,
            second_sol_vault_pda,
        ) is Err,
        second[0].is_signer && second[2].owner == program_id && GlobalEscrow::spec_decode(
            second[1].data@,
        ) is Ok ==> (withdraw_outcome(
            program_id,
            second,
            second_timestamp,
            second_minimum,
            second_investor_pda,
            second_sol_vault_pda,
        ) matches Err(e) && e == escrow_failure(EscrowError::NoSolToWithdraw)),
{
    let plan = withdraw_outcome(
        program_id,
        first,
        first_timestamp,
        first_minimum,
        first_investor_pda,
        first_sol_vault_pda,
    )->Ok_0;
    InvestorAccount::lemma_decode_encode(plan.investor);
}

/// Before the sale's unlock time no withdrawal is accepted, whoever asks
/// and whatever the accounts hold.
pub proof fn lemma_withdraw_never_before_unlock(
    program_id: Address,
    accounts: Seq<AccountView>,
    current_timestamp: i64,
    rent_exempt_minimum: u64,
    investor_pda: Option<(Address, u8)>,
    sol_vault_pda: Option<(Address, u8)>,
)
    requires
        accounts.len() >= WITHDRAW_ACCOUNTS,
        GlobalEscrow::spec_decode(accounts[1].data@) matches Ok(global_escrow)
            && current_timestamp < global_escrow.spec_unlock_time(),
    ensures
        withdraw_outcome(
            program_id,
            accounts,
            current_timestamp,
            rent_exempt_minimum,
            investor_pda,
            sol_vault_pda,
        ) is Err,
{
}

/// What an accepted withdrawal keeps and changes: the locked share of the
/// position moves from its pool to the beneficiary, the pool keeps its
/// smallest balance, the sale stays the same sale with nothing changed but
/// the withdrawn total, which grows by the amount, and the position becomes
/// withdrawn with nothing else changed.
pub proof fn lemma_withdraw_effect(
    program_id: Address,
    accounts: Seq<AccountView>,
    current_timestamp: i64,
    rent_exempt_minimum: u64,
    investor_pda: Option<(Address, u8)>,
    sol_vault_pda: Option<(Address, u8)>,
)
    requires
        withdraw_outcome(
            program_id,
            accounts,
            current_timestamp,
            rent_exempt_minimum,
            investor_pda,
            sol_vault_pda,
        ) is Ok,
    ensures
        ({
            let plan = withdraw_outcome(
                program_id,
                accounts,
                current_timestamp,
                rent_exempt_minimum,
                investor_pda,
                sol_vault_pda,
            )->Ok_0;
            let global_escrow = GlobalEscrow::spec_decode(accounts[1].data@)->Ok_0;
            let investor = InvestorAccount::spec_decode(accounts[2].data@)->Ok_0;
            &&& plan.amount == investor.sol_deposited / 2
            &&& plan.recipient == global_escrow.recipient_wallet
            &&& accounts[0].key == global_escrow.recipient_wallet
            &&& accounts[3].lamports - plan.amount >= rent_exempt_minimum
            &&& current_timestamp >= global_escrow.initialization_timestamp
                + global_escrow.lock_duration
            &&& global_escrow.same_sale(plan.global_escrow)
            &&& plan.global_escrow.total_tokens_available == global_escrow.total_tokens_available
            &&& plan.global_escrow.tokens_sold == global_escrow.tokens_sold
            &&& plan.global_escrow.total_sol_deposited == global_escrow.total_sol_deposited
            &&& plan.global_escrow.total_sol_withdrawn == global_escrow.total_sol_withdrawn
                + plan.amount
            &&& global_escrow.well_formed() ==> plan.global_escrow.well_formed()
            &&& investor.status != InvestorStatus::SolWithdrawn
            &&& plan.investor.status == InvestorStatus::SolWithdrawn
            &&& investor.status.may_become(plan.investor.status)
            &&& plan.investor == InvestorAccount { status: plan.investor.status, ..investor }
        }),
{
}

} // verus!
