//! A sale together with the positions of all its investors: what the
//! operations keep true of the totals.

use vstd::prelude::*;
use crate::account::AccountView;
use crate::address::Address;
use crate::close_sale::close_sale_outcome;
use crate::deposit::{deposit_outcome, position_before_deposit};
use crate::error::ProgramError;
use crate::initialize::{SaleTerms, initialize_outcome};
use crate::oracle::PriceRound;
use crate::state::{GlobalEscrow, InvestorAccount, InvestorStatus};
use crate::token_account::TokenAccount;
use crate::withdraw::withdraw_outcome;

verus! {

/// The sum of a sequence of numbers.
pub open spec fn sum_of(values: Seq<int>) -> int
    decreases values.len(),
{
    if values.len() == 0 {
        0
    } else {
        sum_of(values.drop_last()) + values.last()
    }
}

/// What each position has paid in.
pub open spec fn deposits(positions: Seq<InvestorAccount>) -> Seq<int> {
    Seq::new(positions.len(), |i: int| positions[i].sol_deposited as int)
}

/// The tokens that each position has received.
pub open spec fn issued_tokens(positions: Seq<InvestorAccount>) -> Seq<int> {
    Seq::new(positions.len(), |i: int| positions[i].tokens_received as int)
}

/// What each position whose locked share was paid out has paid in; zero for
/// the others.
pub open spec fn withdrawn_deposits(positions: Seq<InvestorAccount>) -> Seq<int> {
    Seq::new(
        positions.len(),
        |i: int|
            if positions[i].status == InvestorStatus::SolWithdrawn {
                positions[i].sol_deposited as int
            } else {
                0
            },
    )
}

/// Whether the totals of a sale agree with the positions of its investors:
/// the deposited total is what the positions have paid in, the issued total
/// is what they have received and is within the offer, and twice the
/// withdrawn total is at most what the withdrawn positions have paid in.
pub open spec fn ledger_consistent(sale: GlobalEscrow, positions: Seq<InvestorAccount>) -> bool {
    &&& sale.total_sol_deposited == sum_of(deposits(positions))
    &&& sale.tokens_sold == sum_of(issued_tokens(positions))
    &&& sale.tokens_sold <= sale.total_tokens_available
    &&& 2 * sale.total_sol_withdrawn <= sum_of(withdrawn_deposits(positions))
}

/// Replacing one number changes the sum by the difference.
proof fn lemma_sum_update(values: Seq<int>, index: int, value: int)
    requires
        0 <= index < values.len(),
    ensures
        sum_of(values.update(index, value)) == sum_of(values) - values[index] + value,
    decreases values.len(),
{
    let updated = values.update(index, value);
    if index == values.len() - 1 {
        assert(updated.drop_last() =~= values.drop_last());
    } else {
        lemma_sum_update(values.drop_last(), index, value);
        assert(updated.drop_last() =~= values.drop_last().update(index, value));
    }
}

/// Appending a number adds it to the sum.
proof fn lemma_sum_push(values: Seq<int>, value: int)
    ensures
        sum_of(values.push(value)) == sum_of(values) + value,
{
    assert(values.push(value).drop_last() =~= values);
}

/// A sum of numbers that are each at most their counterpart is at most the
/// counterpart's sum.
proof fn lemma_sum_monotonic(smaller: Seq<int>, larger: Seq<int>)
    requires
        smaller.len() == larger.len(),
        forall|i: int| 0 <= i < smaller.len() ==> smaller[i] <= larger[i],
    ensures
        sum_of(smaller) <= sum_of(larger),
    decreases smaller.len(),
{
    if smaller.len() > 0 {
        lemma_sum_monotonic(smaller.drop_last(), larger.drop_last());
    }
}

/// In a consistent ledger the locked funds paid out are at most half of
/// all that was paid in, rounded down, and no more tokens are issued than
/// offered.
pub proof fn lemma_consistent_ledger_is_bounded(sale: GlobalEscrow, positions: Seq<InvestorAccount>)
    requires
        ledger_consistent(sale, positions),
    ensures
        sale.total_sol_withdrawn <= sale.total_sol_deposited / 2,
        sale.tokens_sold <= sale.total_tokens_available,
{
    lemma_sum_monotonic(withdrawn_deposits(positions), deposits(positions));
}

/// A sale starts consistent: its record at creation agrees with no
/// positions.
pub proof fn lemma_new_sale_is_consistent(
    accounts: Seq<AccountView>,
    terms: SaleTerms,
    current_timestamp: i64,
    global_escrow_pda: Option<(Address, u8)>,
    token_vault_pda: Option<(Address, u8)>,
)
    requires
        initialize_outcome(
            accounts,
            terms,
            current_timestamp,
            global_escrow_pda,
            token_vault_pda,
        ) is Ok,
    ensures
        ledger_consistent(
            initialize_outcome(
                accounts,
                terms,
                current_timestamp,
                global_escrow_pda,
                token_vault_pda,
            )->Ok_0.global_escrow,
            Seq::<InvestorAccount>::empty(),
        ),
{
    assert(deposits(Seq::<InvestorAccount>::empty()) =~= Seq::<int>::empty());
    assert(issued_tokens(Seq::<InvestorAccount>::empty()) =~= Seq::<int>::empty());
    assert(withdrawn_deposits(Seq::<InvestorAccount>::empty()) =~= Seq::<int>::empty());
}

/// The positions after a deposit: the position that the deposit found is
/// replaced by the one it stores; a position that it opened is added.
pub open spec fn positions_after_deposit(
    positions: Seq<InvestorAccount>,
    index: int,
    stored: InvestorAccount,
) -> Seq<InvestorAccount> {
    if index < positions.len() {
        positions.update(index, stored)
    } else {
        positions.push(stored)
    }
}

/// An accepted deposit keeps the ledger consistent. The deposit is made to
/// the sale of the ledger; the position that it finds is the one at
/// `index`, and a position that it opens comes after all others.
pub proof fn lemma_deposit_keeps_ledger_consistent(
    program_id: Address,
    accounts: Seq<AccountView>,
    sol_amount: u64,
    round: Option<PriceRound>,
    current_timestamp: i64,
    token_account: Result<TokenAccount, ProgramError>,
    investor_pda: Option<(Address, u8)>,
    sol_vault_pda: Option<(Address, u8)>,
    token_vault_pda: Option<(Address, u8)>,
    positions: Seq<InvestorAccount>,
    index: int,
)
    requires
        deposit_outcome(
            program_id,
            accounts,
            sol_amount,
            round,
            current_timestamp,
            token_account,
            investor_pda,
            sol_vault_pda,
            token_vault_pda,
        ) is Ok,
        ledger_consistent(GlobalEscrow::spec_decode(accounts[1].data@)->Ok_0, positions),
        match position_before_deposit(program_id, accounts) {
            Some(found) => 0 <= index < positions.len() && positions[index] == found,
            None => index == positions.len(),
        },
    ensures
        ({
            let plan = deposit_outcome(
                program_id,
                accounts,
                sol_amount,
                round,
                current_timestamp,
                token_account,
                investor_pda,
                sol_vault_pda,
                token_vault_pda,
            )->Ok_0;
            ledger_consistent(
                plan.global_escrow,
                positions_after_deposit(positions, index, plan.investor),
            )
        }),
{
    let plan = deposit_outcome(
        program_id,
        accounts,
        sol_amount,
        round,
        current_timestamp,
        token_account,
        investor_pda,
        sol_vault_pda,
        token_vault_pda,
    )->Ok_0;
    let stored = plan.investor;
    let after = positions_after_deposit(positions, index, stored);
    let stored_withdrawn: int = if stored.status == InvestorStatus::SolWithdrawn {
        stored.sol_deposited as int
    } else {
        0
    };
    if index < positions.len() {
        lemma_sum_update(deposits(positions), index, stored.sol_deposited as int);
        lemma_sum_update(issued_tokens(positions), index, stored.tokens_received as int);
        lemma_sum_update(withdrawn_deposits(positions), index, stored_withdrawn);
        assert(deposits(after) =~= deposits(positions).update(index, stored.sol_deposited as int));
        assert(issued_tokens(after) =~= issued_tokens(positions).update(
            index,
            stored.tokens_received as int,
        ));
        assert(withdrawn_deposits(after) =~= withdrawn_deposits(positions).update(
            index,
            stored_withdrawn,
        ));
    } else {
        lemma_sum_push(deposits(positions), stored.sol_deposited as int);
        lemma_sum_push(issued_tokens(positions), stored.tokens_received as int);
        lemma_sum_push(withdrawn_deposits(positions), stored_withdrawn);
        assert(deposits(after) =~= deposits(positions).push(stored.sol_deposited as int));
        assert(issued_tokens(after) =~= issued_tokens(positions).push(
            stored.tokens_received as int,
        ));
        assert(withdrawn_deposits(after) =~= withdrawn_deposits(positions).push(stored_withdrawn));
    }
}

/// An accepted withdrawal keeps the ledger consistent. The withdrawal is
/// made from the sale of the ledger, for the position at `index`.
pub proof fn lemma_withdraw_keeps_ledger_consistent(
    program_id: Address,
    accounts: Seq<AccountView>,
    current_timestamp: i64,
    rent_exempt_minimum: u64,
    investor_pda: Option<(Address, u8)>,
    sol_vault_pda: Option<(Address, u8)>,
    positions: Seq<InvestorAccount>,
    index: int,
)
    requires
        withdraw_outcome(
            program_id,
            accounts,
            current_timestamp,
            rent_exempt_minimum,
            investor_pda,
            sol_vault_pda,
        ) is Ok,
        ledger_consistent(GlobalEscrow::spec_decode(accounts[1].data@)->Ok_0, positions),
        0 <= index < positions.len(),
        positions[index] == InvestorAccount::spec_decode(accounts[2].data@)->Ok_0,
    ensures
        ({
            let plan = withdraw_outcome(
                program_id,
                accounts,
                current_timestamp,
                rent_exempt_minimum,
                investor_pda,
                sol_vault_pda,
            )->Ok_0;
            ledger_consistent(plan.global_escrow, positions.update(index, plan.investor))
        }),
{
    let plan = withdraw_outcome(
        program_id,
        accounts,
        current_timestamp,
        rent_exempt_minimum,
        investor_pda,
        sol_vault_pda,
    )->Ok_0;
    let stored = plan.investor;
    let after = positions.update(index, stored);
    lemma_sum_update(deposits(positions), index, stored.sol_deposited as int);
    lemma_sum_update(issued_tokens(positions), index, stored.tokens_received as int);
    lemma_sum_update(withdrawn_deposits(positions), index, stored.sol_deposited as int);
    assert(deposits(after) =~= deposits(positions).update(index, stored.sol_deposited as int));
    assert(issued_tokens(after) =~= issued_tokens(positions).update(
        index,
        stored.tokens_received as int,
    ));
    assert(withdrawn_deposits(after) =~= withdrawn_deposits(positions).update(
        index,
        stored.sol_deposited as int,
    ));
}

/// An accepted closing keeps the ledger consistent: the positions stay as
/// they are, and the sale has nothing unsold left.
pub proof fn lemma_close_sale_keeps_ledger_consistent(
    accounts: Seq<AccountView>,
    current_timestamp: i64,
    token_vault_pda: Option<(Address, u8)>,
    positions: Seq<InvestorAccount>,
)
    requires
        close_sale_outcome(accounts, current_timestamp, token_vault_pda) is Ok,
        ledger_consistent(GlobalEscrow::spec_decode(accounts[1].data@)->Ok_0, positions),
    ensures
        ledger_consistent(
            close_sale_outcome(accounts, current_timestamp, token_vault_pda)->Ok_0.global_escrow,
            positions,
        ),
{
}

} // verus!
