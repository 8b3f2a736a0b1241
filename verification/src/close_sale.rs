//! Closing of a sale: the beneficiary reclaims the tokens that were not
//! sold, and the sale record keeps none on offer, so that a sale is closed
//! once and sells nothing afterwards.
//!
//! Accounts, in order: the beneficiary (signer), the sale record, the token
//! vault, the beneficiary's token account, the token program, the clock.

use vstd::prelude::*;
use crate::account::{AccountView, check_derived, is_derived};
use crate::address::{
    Address, TOKEN_PROGRAM_ID, find_token_vault_pda, program_address, token_vault_seeds,
};
use crate::error::{EscrowError, ProgramError, escrow_failure};
use crate::state::GlobalEscrow;
use crate::steps::{Seeds, Step, stores_come_last};

verus! {

/// Accounts that closing a sale takes.
pub const CLOSE_SALE_ACCOUNTS: usize = 6;

/// What the host carries out for an accepted closing: one token transfer
/// out of the vault, signed for the sale record, and then the sale record,
/// which has nothing unsold left.
#[derive(Debug, Clone, Copy, PartialEq, Eq)]
pub struct CloseSalePlan {
    /// The account of the sale record, which has authority over the vault.
    pub global_escrow_account: Address,
    /// The token vault, which pays.
    pub token_vault: Address,
    /// The beneficiary's token account, which receives.
    pub destination: Address,
    /// Token units to move: all that were offered and not issued.
    pub unsold_tokens: u64,
    /// The sale record to store; its seeds sign the transfer.
    pub global_escrow: GlobalEscrow,
}

/// The sale record after its closing: the offer is what was sold, so that
/// nothing is left unsold; nothing else changes.
pub open spec fn escrow_after_closing(global_escrow: GlobalEscrow) -> GlobalEscrow {
    GlobalEscrow { total_tokens_available: global_escrow.tokens_sold, ..global_escrow }
}

impl CloseSalePlan {
    /// The steps of the closing: the unsold tokens leave the vault for the
    /// beneficiary's token account, signed for the sale record, and then
    /// the sale record is stored.
    pub open spec fn spec_steps(self) -> Seq<Step> {
        seq![
            Step::TransferTokens {
                source: self.token_vault,
                destination: self.destination,
                authority: self.global_escrow_account,
                amount: self.unsold_tokens,
                signer: Some(Seeds::spec_of_sale(self.global_escrow)),
            },
            Step::StoreSaleRecord { account: self.global_escrow_account, record: self.global_escrow },
        ]
    }

    /// The steps that the host carries out, in order.
    pub fn steps(&self) -> (steps: Vec<Step>)
        ensures
            steps@ == self.spec_steps(),
            stores_come_last(steps@),
    {
        let mut steps: Vec<Step> = Vec::new();
        steps.push(
            Step::TransferTokens {
                source: self.token_vault,
                destination: self.destination,
                authority: self.global_escrow_account,
                amount: self.unsold_tokens,
                signer: Some(Seeds::of_sale(&self.global_escrow)),
            },
        );
        steps.push(
            Step::StoreSaleRecord {
                account: self.global_escrow_account,
                record: self.global_escrow,
            },
        );
        assert(steps@ =~= self.spec_steps());
        steps
    }
}

/// The outcome of closing a sale for the accounts as they stand, the time
/// and the address derived for the sale's token vault. The first condition
/// that fails decides the error:
///
/// - fewer than six accounts: `NotEnoughAccountKeys`;
/// - the caller did not sign: `MissingRequiredSignature`;
/// - the token program is another program: `IncorrectProgramId`;
/// - the sale record does not decode: `BorshIoError`;
/// - the sale is not initialized: `InvalidEscrowStatus`;
/// - the caller is not the sale's beneficiary: `Unauthorized`;
/// - the sale has not ended: `InvalidEscrowStatus`;
/// - no token is left unsold: `NotEnoughTokens`;
/// - the vault is not at its derived address: `InvalidPDA`.
pub open spec fn close_sale_outcome(
    accounts: Seq<AccountView>,
    current_timestamp: i64,
    token_vault_pda: Option<(Address, u8)>,
) -> Result<CloseSalePlan, ProgramError> {
    if accounts.len() < CLOSE_SALE_ACCOUNTS {
        Err(ProgramError::NotEnoughAccountKeys)
    } else if !accounts[0].is_signer {
        Err(ProgramError::MissingRequiredSignature)
    } else if accounts[4].key@ != TOKEN_PROGRAM_ID@ {
        Err(ProgramError::IncorrectProgramId)
    } else if GlobalEscrow::spec_decode(accounts[1].data@) is Err {
        Err(ProgramError::BorshIoError)
    } else {
        let global_escrow = GlobalEscrow::spec_decode(accounts[1].data@)->Ok_0;
        if !global_escrow.is_initialized {
            Err(escrow_failure(EscrowError::InvalidEscrowStatus))
        } else if accounts[0].key != global_escrow.recipient_wallet {
            Err(escrow_failure(EscrowError::Unauthorized))
        } else if current_timestamp < global_escrow.sale_end_timestamp {
            Err(escrow_failure(EscrowError::InvalidEscrowStatus))
        } else if global_escrow.spec_tokens_remaining() <= 0 {
            Err(escrow_failure(EscrowError::NotEnoughTokens))
        } else if !is_derived(token_vault_pda, accounts[2].key) {
            Err(escrow_failure(EscrowError::InvalidPDA))
        } else {
            Ok(
                CloseSalePlan {
                    global_escrow_account: accounts[1].key,
                    token_vault: accounts[2].key,
                    destination: accounts[3].key,
                    unsold_tokens: global_escrow.spec_tokens_remaining() as u64,
                    global_escrow: escrow_after_closing(global_escrow),
                },
            )
        }
    }
}

/// Decides the closing of a sale, given the address derived for its token
/// vault.
pub fn plan_close_sale(
    accounts: &Vec<AccountView>,
    current_timestamp: i64,
    token_vault_pda: Option<(Address, u8)>,
) -> (res: Result<CloseSalePlan, ProgramError>)
    ensures
        res == close_sale_outcome(accounts@, current_timestamp, token_vault_pda),
        (GlobalEscrow::spec_decode(accounts@[1].data@) matches Ok(sale) && (current_timestamp
            < sale.sale_end_timestamp || sale.tokens_sold >= sale.total_tokens_available))
            ==> res is Err,
        res matches Ok(plan) ==> ({
            let sale = GlobalEscrow::spec_decode(accounts@[1].data@)->Ok_0;
            &&& plan.unsold_tokens == sale.total_tokens_available - sale.tokens_sold
            &&& plan.unsold_tokens > 0
            &&& plan.global_escrow.spec_tokens_remaining() == 0
        }),
{
    if accounts.len() < CLOSE_SALE_ACCOUNTS {
        return Err(ProgramError::NotEnoughAccountKeys);
    }
    let caller: &AccountView = &accounts[0];
    let global_escrow_account: &AccountView = &accounts[1];
    let token_vault_account: &AccountView = &accounts[2];
    let recipient_token_account: &AccountView = &accounts[3];
    let token_program: &AccountView = &accounts[4];
    if !caller.is_signer {
        return Err(ProgramError::MissingRequiredSignature);
    }
    if !token_program.key.has_bytes(&TOKEN_PROGRAM_ID) {
        return Err(ProgramError::IncorrectProgramId);
    }
    let global_escrow: GlobalEscrow = match GlobalEscrow::try_from_slice(
        global_escrow_account.data.as_slice(),
    ) {
        Ok(record) => record,
        Err(e) => {
            return Err(e);
        },
    };
    if !global_escrow.is_initialized {
        return Err(ProgramError::Custom(EscrowError::InvalidEscrowStatus.code()));
    }
    if caller.key != global_escrow.recipient_wallet {
        return Err(ProgramError::Custom(EscrowError::Unauthorized.code()));
    }
    if current_timestamp < global_escrow.sale_end_timestamp {
        return Err(ProgramError::Custom(EscrowError::InvalidEscrowStatus.code()));
    }
    if global_escrow.tokens_sold >= global_escrow.total_tokens_available {
        return Err(ProgramError::Custom(EscrowError::NotEnoughTokens.code()));
    }
    let unsold_tokens: u64 = global_escrow.total_tokens_available - global_escrow.tokens_sold;
    match check_derived(&token_vault_pda, &token_vault_account.key) {
        Ok(_) => {},
        Err(e) => {
            return Err(e);
        },
    }
    let mut closed: GlobalEscrow = global_escrow;
    closed.total_tokens_available = global_escrow.tokens_sold;
    Ok(
        CloseSalePlan {
            global_escrow_account: global_escrow_account.key,
            token_vault: token_vault_account.key,
            destination: recipient_token_account.key,
            unsold_tokens,
            global_escrow: closed,
        },
    )
}

/// What [`process_close_sale`] returns: the outcome for the address
/// derived for the token vault of the sale record that was passed.
pub open spec fn spec_process_close_sale(
    program_id: Address,
    accounts: Seq<AccountView>,
    current_timestamp: i64,
) -> Result<CloseSalePlan, ProgramError> {
    close_sale_outcome(
        accounts,
        current_timestamp,
        program_address(token_vault_seeds(accounts[1].key@), program_id@),
    )
}

/// Decides the closing of a sale. `current_timestamp` is the clock's time.
pub fn process_close_sale(
    program_id: &Address,
    accounts: &Vec<AccountView>,
    current_timestamp: i64,
) -> (res: Result<CloseSalePlan, ProgramError>)
    ensures
        res == spec_process_close_sale(*program_id, accounts@, current_timestamp),
        (GlobalEscrow::spec_decode(accounts@[1].data@) matches Ok(sale) && (current_timestamp
            < sale.sale_end_timestamp || sale.tokens_sold >= sale.total_tokens_available))
            ==> res is Err,
        res matches Ok(plan) ==> ({
            let sale = GlobalEscrow::spec_decode(accounts@[1].data@)->Ok_0;
            &&& plan.unsold_tokens == sale.total_tokens_available - sale.tokens_sold
            &&& plan.unsold_tokens > 0
            &&& plan.global_escrow.spec_tokens_remaining() == 0
        }),
{
    if accounts.len() < CLOSE_SALE_ACCOUNTS {
        return Err(ProgramError::NotEnoughAccountKeys);
    }
    let token_vault_pda: Option<(Address, u8)> = find_token_vault_pda(
        &accounts[1].key,
        program_id,
    );
    plan_close_sale(accounts, current_timestamp, token_vault_pda)
}

/// Before the sale's end no closing is accepted, whoever asks and whatever
/// the accounts hold.
pub proof fn lemma_close_sale_never_before_end(
    accounts: Seq<AccountView>,
    current_timestamp: i64,
    token_vault_pda: Option<(Address, u8)>,
)
    requires
        accounts.len() >= CLOSE_SALE_ACCOUNTS,
        GlobalEscrow::spec_decode(accounts[1].data@) matches Ok(global_escrow)
            && current_timestamp < global_escrow.sale_end_timestamp,
    ensures
        close_sale_outcome(accounts, current_timestamp, token_vault_pda) is Err,
{
}

/// With nothing left unsold no closing is accepted; where the checks that
/// come before pass (the beneficiary signed with the token program at hand,
/// for an initialized sale that has ended), it is refused with
/// `NotEnoughTokens`.
pub proof fn lemma_close_sale_nothing_to_reclaim(
    accounts: Seq<AccountView>,
    current_timestamp: i64,
    token_vault_pda: Option<(Address, u8)>,
)
    requires
        accounts.len() >= CLOSE_SALE_ACCOUNTS,
        GlobalEscrow::spec_decode(accounts[1].data@) matches Ok(global_escrow)
            && global_escrow.tokens_sold >= global_escrow.total_tokens_available,
    ensures
        close_sale_outcome(accounts, current_timestamp, token_vault_pda) is Err,
        ({
            let global_escrow = GlobalEscrow::spec_decode(accounts[1].data@)->Ok_0;
            accounts[0].is_signer && accounts[4].key@ == TOKEN_PROGRAM_ID@
                && global_escrow.is_initialized && accounts[0].key
                == global_escrow.recipient_wallet && current_timestamp
                >= global_escrow.sale_end_timestamp
        }) ==> (close_sale_outcome(accounts, current_timestamp, token_vault_pda) matches Err(e)
            && e == escrow_failure(EscrowError::NotEnoughTokens)),
{
}

/// A sale is closed at most once. After an accepted closing, every later
/// closing that finds the sale record as the first one stored it is
/// refused; it is refused with `NotEnoughTokens` wherever the same caller
/// signs again with the token program at hand, no earlier than the first
/// time.
pub proof fn lemma_close_sale_succeeds_at_most_once(
    first: Seq<AccountView>,
    first_timestamp: i64,
    first_token_vault_pda: Option<(Address, u8)>,
    second: Seq<AccountView>,
    second_timestamp: i64,
    second_token_vault_pda: Option<(Address, u8)>,
)
    requires
        close_sale_outcome(first, first_timestamp, first_token_vault_pda) is Ok,
        second.len() >= CLOSE_SALE_ACCOUNTS,
        second[1].data@ == close_sale_outcome(
            first,
            first_timestamp,
            first_token_vault_pda,
        )->Ok_0.global_escrow.spec_encode(),
    ensures
        close_sale_outcome(second, second_timestamp, second_token_vault_pda) is Err,
        (second[0].is_signer && second[0].key == first[0].key && second[4].key@
            == TOKEN_PROGRAM_ID@ && second_timestamp >= first_timestamp) ==> (close_sale_outcome(
            second,
            second_timestamp,
            second_token_vault_pda,
        ) matches Err(e) && e == escrow_failure(EscrowError::NotEnoughTokens)),
{
    let plan = close_sale_outcome(first, first_timestamp, first_token_vault_pda)->Ok_0;
    GlobalEscrow::lemma_decode_encode(plan.global_escrow);
}

/// An accepted closing moves exactly the tokens that were offered and not
/// issued, at least one, out of the sale's vault, for the beneficiary and
/// not before the sale's end; the record that it stores is the same sale
/// with the same totals and nothing left unsold.
pub proof fn lemma_close_sale_effect(
    accounts: Seq<AccountView>,
    current_timestamp: i64,
    token_vault_pda: Option<(Address, u8)>,
)
    requires
        close_sale_outcome(accounts, current_timestamp, token_vault_pda) is Ok,
    ensures
        ({
            let plan = close_sale_outcome(accounts, current_timestamp, token_vault_pda)->Ok_0;
            let global_escrow = GlobalEscrow::spec_decode(accounts[1].data@)->Ok_0;
            &&& plan.unsold_tokens == global_escrow.total_tokens_available
                - global_escrow.tokens_sold
            &&& plan.unsold_tokens > 0
            &&& plan.global_escrow == escrow_after_closing(global_escrow)
            &&& plan.global_escrow.spec_tokens_remaining() == 0
            &&& plan.global_escrow.tokens_sold == global_escrow.tokens_sold
            &&& plan.global_escrow.total_sol_deposited == global_escrow.total_sol_deposited
            &&& plan.global_escrow.total_sol_withdrawn == global_escrow.total_sol_withdrawn
            &&& global_escrow.same_sale(plan.global_escrow)
            &&& global_escrow.well_formed() ==> plan.global_escrow.well_formed()
            &&& accounts[0].key == global_escrow.recipient_wallet
            &&& current_timestamp >= global_escrow.sale_end_timestamp
            &&& is_derived(token_vault_pda, plan.token_vault)
        }),
{
}

} // verus!
