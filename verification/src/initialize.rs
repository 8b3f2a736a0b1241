//! Creation of a sale.
//!
//! Accounts, in order: the operator (signer), the sale record, the token
//! mint, the token vault, the operator's token account, the beneficiary's
//! wallet, the token program, the associated-token-account program, the
//! system program, the oracle program, the price feed.

use vstd::prelude::*;
use crate::account::{AccountView, check_derived, is_derived};
use crate::address::{
    Address, CHAINLINK_PROGRAM_ID, SOL_USD_FEED, SYSTEM_PROGRAM_ID, TOKEN_PROGRAM_ID,
    find_global_escrow_pda, find_token_vault_pda, global_escrow_seeds, program_address,
    token_vault_seeds,
};
use crate::error::{EscrowError, ProgramError, escrow_failure};
use crate::state::{GlobalEscrow, MAX_LOCK_DURATION, MIN_LOCK_DURATION};
use crate::steps::{Seeds, Step, stores_come_last};
use crate::token_account::{TOKEN_ACCOUNT_LEN, is_token_account};

verus! {

/// Accounts that creating a sale takes.
pub const INITIALIZE_ACCOUNTS: usize = 11;

/// The terms of a sale, as its operator sets them.
#[derive(Debug, Clone, Copy, PartialEq, Eq, Structural)]
pub struct SaleTerms {
    /// Token units offered.
    pub token_amount: u64,
    /// Seconds from creation until the locked shares unlock.
    pub lock_duration: i64,
    /// From when the unsold tokens can be reclaimed.
    pub sale_end_timestamp: i64,
    pub min_sol_investment: u64,
    /// Largest cumulative payment of one investor.
    pub max_sol_investment: u64,
    /// Largest age of a price, in seconds.
    pub price_staleness_threshold: u64,
}

/// What the host carries out for an accepted creation, in this order: it
/// creates the account of the sale record, creates and initializes the
/// token vault where there is none yet, moves the offered tokens from the
/// operator into the vault, and stores the record.
#[derive(Debug, Clone, Copy, PartialEq, Eq)]
pub struct InitializePlan {
    /// The operator, who pays for the new accounts and the offered tokens.
    pub payer: Address,
    /// The account of the sale record.
    pub global_escrow_account: Address,
    /// Whether the token vault has to be created and initialized.
    pub create_token_vault: bool,
    /// Bump seed of the token vault's address.
    pub token_vault_bump: u8,
    /// The operator's token account, which pays the offered tokens.
    pub token_source: Address,
    /// The token vault, which receives them.
    pub token_vault: Address,
    /// Token units to move into the vault.
    pub token_amount: u64,
    /// The sale record to store.
    pub global_escrow: GlobalEscrow,
}

impl InitializePlan {
    /// The step that creates the token vault.
    pub open spec fn spec_vault_step(self) -> Step {
        Step::CreateTokenVault {
            payer: self.payer,
            vault: self.token_vault,
            mint: self.global_escrow.token_mint_pubkey,
            authority: self.global_escrow_account,
            seeds: Seeds::TokenVault {
                global_escrow: self.global_escrow_account,
                bump: self.token_vault_bump,
            },
        }
    }

    /// The steps of the creation: the account of the sale record is
    /// created, then the token vault where there is none, then the offered
    /// tokens move from the operator into the vault, and last the record is
    /// stored.
    pub open spec fn spec_steps(self) -> Seq<Step> {
        seq![
            Step::CreateAccount {
                payer: self.payer,
                account: self.global_escrow_account,
                space: GlobalEscrow::LEN as u64,
                seeds: Seeds::spec_of_sale(self.global_escrow),
            },
        ] + (if self.create_token_vault {
            seq![self.spec_vault_step()]
        } else {
            seq![]
        }) + seq![
            Step::TransferTokens {
                source: self.token_source,
                destination: self.token_vault,
                authority: self.payer,
                amount: self.token_amount,
                signer: None,
            },
            Step::StoreSaleRecord { account: self.global_escrow_account, record: self.global_escrow },
        ]
    }

    /// The steps that the host carries out, in order.
    pub fn steps(&self) -> (steps: Vec<Step>)
        ensures
            steps@ == self.spec_steps(),
            stores_come_last(steps@),
    {
        let mut steps: Vec<Step> = Vec::new();
        steps.push(
            Step::CreateAccount {
                payer: self.payer,
                account: self.global_escrow_account,
                space: GlobalEscrow::LEN as u64,
                seeds: Seeds::of_sale(&self.global_escrow),
            },
        );
        if self.create_token_vault {
            steps.push(
                Step::CreateTokenVault {
                    payer: self.payer,
                    vault: self.token_vault,
                    mint: self.global_escrow.token_mint_pubkey,
                    authority: self.global_escrow_account,
                    seeds: Seeds::TokenVault {
                        global_escrow: self.global_escrow_account,
                        bump: self.token_vault_bump,
                    },
                },
            );
        }
        steps.push(
            Step::TransferTokens {
                source: self.token_source,
                destination: self.token_vault,
                authority: self.payer,
                amount: self.token_amount,
                signer: None,
            },
        );
        steps.push(
            Step::StoreSaleRecord {
                account: self.global_escrow_account,
                record: self.global_escrow,
            },
        );
        assert(steps@ =~= self.spec_steps());
        steps
    }
}

/// Whether a lock of `lock_duration` seconds is allowed: from one minute
/// to one year.
pub open spec fn lock_duration_allowed(lock_duration: i64) -> bool {
    MIN_LOCK_DURATION <= lock_duration <= MAX_LOCK_DURATION
}

/// The record of a sale at its creation: nothing issued, deposited or
/// withdrawn, the oracle bound to the program and feed that were passed.
pub open spec fn new_sale_record(
    accounts: Seq<AccountView>,
    terms: SaleTerms,
    bump_seed: u8,
    current_timestamp: i64,
) -> GlobalEscrow {
    GlobalEscrow {
        is_initialized: true,
        initializer_pubkey: accounts[0].key,
        token_mint_pubkey: accounts[2].key,
        recipient_wallet: accounts[5].key,
        total_tokens_available: terms.token_amount,
        tokens_sold: 0,
        total_sol_deposited: 0,
        total_sol_withdrawn: 0,
        lock_duration: terms.lock_duration,
        bump_seed,
        oracle_program_id: accounts[9].key,
        price_feed_pubkey: accounts[10].key,
        min_sol_investment: terms.min_sol_investment,
        max_sol_investment: terms.max_sol_investment,
        price_staleness_threshold: terms.price_staleness_threshold,
        sale_end_timestamp: terms.sale_end_timestamp,
        initialization_timestamp: current_timestamp,
    }
}

/// The outcome of creating a sale for the accounts as they stand, the
/// terms, the time, and the addresses derived for the sale record and for
/// its token vault. The first condition that fails decides the error:
///
/// - fewer than eleven accounts: `NotEnoughAccountKeys`;
/// - the operator did not sign: `MissingRequiredSignature`;
/// - the token program is another program: `IncorrectProgramId`;
/// - the oracle program or the price feed is not the trusted one:
///   `InvalidPriceFeed`;
/// - the system program is another program: `IncorrectProgramId`;
/// - the sale record or the token vault is not at its derived address:
///   `InvalidPDA`;
/// - the record's account holds bytes that do not decode: `BorshIoError`;
/// - it holds an initialized record: `AccountAlreadyInitialized`;
/// - the lock is shorter than a minute or longer than a year:
///   `InvalidInstruction`.
pub open spec fn initialize_outcome(
    accounts: Seq<AccountView>,
    terms: SaleTerms,
    current_timestamp: i64,
    global_escrow_pda: Option<(Address, u8)>,
    token_vault_pda: Option<(Address, u8)>,
) -> Result<InitializePlan, ProgramError> {
    if accounts.len() < INITIALIZE_ACCOUNTS {
        Err(ProgramError::NotEnoughAccountKeys)
    } else if !accounts[0].is_signer {
        Err(ProgramError::MissingRequiredSignature)
    } else if accounts[6].key@ != TOKEN_PROGRAM_ID@ {
        Err(ProgramError::IncorrectProgramId)
    } else if accounts[9].key@ != CHAINLINK_PROGRAM_ID@ {
        Err(escrow_failure(EscrowError::InvalidPriceFeed))
    } else if accounts[10].key@ != SOL_USD_FEED@ {
        Err(escrow_failure(EscrowError::InvalidPriceFeed))
    } else if accounts[8].key@ != SYSTEM_PROGRAM_ID@ {
        Err(ProgramError::IncorrectProgramId)
    } else if !is_derived(global_escrow_pda, accounts[1].key) {
        Err(escrow_failure(EscrowError::InvalidPDA))
    } else if !is_derived(token_vault_pda, accounts[3].key) {
        Err(escrow_failure(EscrowError::InvalidPDA))
    } else if accounts[1].data@.len() > 0 && GlobalEscrow::spec_decode(accounts[1].data@) is Err {
        Err(ProgramError::BorshIoError)
    } else if accounts[1].data@.len() > 0 && GlobalEscrow::spec_decode(
        accounts[1].data@,
    )->Ok_0.is_initialized {
        Err(ProgramError::AccountAlreadyInitialized)
    } else if !lock_duration_allowed(terms.lock_duration) {
        Err(escrow_failure(EscrowError::InvalidInstruction))
    } else {
        Ok(
            InitializePlan {
                payer: accounts[0].key,
                global_escrow_account: accounts[1].key,
                create_token_vault: !is_token_account(accounts[3]),
                token_vault_bump: token_vault_pda->Some_0.1,
                token_source: accounts[4].key,
                token_vault: accounts[3].key,
                token_amount: terms.token_amount,
                global_escrow: new_sale_record(
                    accounts,
                    terms,
                    global_escrow_pda->Some_0.1,
                    current_timestamp,
                ),
            },
        )
    }
}

/// Decides the creation of a sale, given the addresses derived for the sale
/// record and for its token vault.
pub fn plan_initialize(
    accounts: &Vec<AccountView>,
    terms: &SaleTerms,
    current_timestamp: i64,
    global_escrow_pda: Option<(Address, u8)>,
    token_vault_pda: Option<(Address, u8)>,
) -> (res: Result<InitializePlan, ProgramError>)
    ensures
        res == initialize_outcome(
            accounts@,
            *terms,
            current_timestamp,
            global_escrow_pda,
            token_vault_pda,
        ),
{
    if accounts.len() < INITIALIZE_ACCOUNTS {
        return Err(ProgramError::NotEnoughAccountKeys);
    }
    let initializer: &AccountView = &accounts[0];
    let global_escrow_account: &AccountView = &accounts[1];
    let token_mint: &AccountView = &accounts[2];
    let token_vault_account: &AccountView = &accounts[3];
    let token_source_account: &AccountView = &accounts[4];
    let recipient_wallet: &AccountView = &accounts[5];
    let token_program: &AccountView = &accounts[6];
    let system_program: &AccountView = &accounts[8];
    let oracle_program: &AccountView = &accounts[9];
    let price_feed: &AccountView = &accounts[10];
    if !initializer.is_signer {
        return Err(ProgramError::MissingRequiredSignature);
    }
    if !token_program.key.has_bytes(&TOKEN_PROGRAM_ID) {
        return Err(ProgramError::IncorrectProgramId);
    }
    if !oracle_program.key.has_bytes(&CHAINLINK_PROGRAM_ID) {
        return Err(ProgramError::Custom(EscrowError::InvalidPriceFeed.code()));
    }
    if !price_feed.key.has_bytes(&SOL_USD_FEED) {
        return Err(ProgramError::Custom(EscrowError::InvalidPriceFeed.code()));
    }
    if !system_program.key.has_bytes(&SYSTEM_PROGRAM_ID) {
        return Err(ProgramError::IncorrectProgramId);
    }
    let bump_seed: u8 = match check_derived(&global_escrow_pda, &global_escrow_account.key) {
        Ok(bump) => bump,
        Err(e) => {
            return Err(e);
        },
    };
    let token_vault_bump: u8 = match check_derived(&token_vault_pda, &token_vault_account.key) {
        Ok(bump) => bump,
        Err(e) => {
            return Err(e);
        },
    };
    if global_escrow_account.data.len() > 0 {
        match GlobalEscrow::try_from_slice(global_escrow_account.data.as_slice()) {
            Ok(existing) => {
                if existing.is_initialized {
                    return Err(ProgramError::AccountAlreadyInitialized);
                }
            },
            Err(e) => {
                return Err(e);
            },
        }
    }
    if terms.lock_duration < MIN_LOCK_DURATION || terms.lock_duration > MAX_LOCK_DURATION {
        return Err(ProgramError::Custom(EscrowError::InvalidInstruction.code()));
    }
    let create_token_vault: bool = !token_vault_account.owner.has_bytes(&TOKEN_PROGRAM_ID)
        || token_vault_account.data.len() != TOKEN_ACCOUNT_LEN;
    let global_escrow = GlobalEscrow {
        is_initialized: true,
        initializer_pubkey: initializer.key,
        token_mint_pubkey: token_mint.key,
        recipient_wallet: recipient_wallet.key,
        total_tokens_available: terms.token_amount,
        tokens_sold: 0,
        total_sol_deposited: 0,
        total_sol_withdrawn: 0,
        lock_duration: terms.lock_duration,
        bump_seed,
        oracle_program_id: oracle_program.key,
        price_feed_pubkey: price_feed.key,
        min_sol_investment: terms.min_sol_investment,
        max_sol_investment: terms.max_sol_investment,
        price_staleness_threshold: terms.price_staleness_threshold,
        sale_end_timestamp: terms.sale_end_timestamp,
        initialization_timestamp: current_timestamp,
    };
    Ok(
        InitializePlan {
            payer: initializer.key,
            global_escrow_account: global_escrow_account.key,
            create_token_vault,
            token_vault_bump,
            token_source: token_source_account.key,
            token_vault: token_vault_account.key,
            token_amount: terms.token_amount,
            global_escrow,
        },
    )
}

/// The address derived for the token vault of the sale record that was
/// derived, none where no sale record was.
pub open spec fn token_vault_of(global_escrow_pda: Option<(Address, u8)>, program_id: Address) -> Option<
    (Address, u8),
> {
    match global_escrow_pda {
        Some((global_escrow, _)) => program_address(
            token_vault_seeds(global_escrow@),
            program_id@,
        ),
        None => None,
    }
}

/// The address derived for the sale record of the operator and the mint
/// among `accounts`.
pub open spec fn sale_record_of(accounts: Seq<AccountView>, program_id: Address) -> Option<
    (Address, u8),
> {
    program_address(global_escrow_seeds(accounts[0].key@, accounts[2].key@), program_id@)
}

/// What [`process_initialize_escrow`] returns: the outcome for the address
/// derived for the sale record of the operator and the mint, and the one
/// derived for its token vault.
pub open spec fn spec_process_initialize_escrow(
    program_id: Address,
    accounts: Seq<AccountView>,
    terms: SaleTerms,
    current_timestamp: i64,
) -> Result<InitializePlan, ProgramError> {
    initialize_outcome(
        accounts,
        terms,
        current_timestamp,
        sale_record_of(accounts, program_id),
        token_vault_of(sale_record_of(accounts, program_id), program_id),
    )
}

/// Decides the creation of a sale. `current_timestamp` is the clock's
/// time, which becomes the sale's creation time.
pub fn process_initialize_escrow(
    program_id: &Address,
    accounts: &Vec<AccountView>,
    token_amount: u64,
    lock_duration: i64,
    sale_end_timestamp: i64,
    min_sol_investment: u64,
    max_sol_investment: u64,
    price_staleness_threshold: u64,
    current_timestamp: i64,
) -> (res: Result<InitializePlan, ProgramError>)
    ensures
        res == spec_process_initialize_escrow(
            *program_id,
            accounts@,
            (SaleTerms {
                token_amount,
                lock_duration,
                sale_end_timestamp,
                min_sol_investment,
                max_sol_investment,
                price_staleness_threshold,
            }),
            current_timestamp,
        ),
{
    let terms = SaleTerms {
        token_amount,
        lock_duration,
        sale_end_timestamp,
        min_sol_investment,
        max_sol_investment,
        price_staleness_threshold,
    };
    if accounts.len() < INITIALIZE_ACCOUNTS {
        return Err(ProgramError::NotEnoughAccountKeys);
    }
    let global_escrow_pda: Option<(Address, u8)> = find_global_escrow_pda(
        &accounts[0].key,
        &accounts[2].key,
        program_id,
    );
    let token_vault_pda: Option<(Address, u8)> = match global_escrow_pda {
        Some((global_escrow, _)) => find_token_vault_pda(&global_escrow, program_id),
        None => None,
    };
    plan_initialize(accounts, &terms, current_timestamp, global_escrow_pda, token_vault_pda)
}

/// A sale is created once: where the record's account already holds an
/// initialized record, no creation is accepted; it is refused with
/// `AccountAlreadyInitialized` wherever the checks that come before pass.
pub proof fn lemma_initialize_once(
    accounts: Seq<AccountView>,
    terms: SaleTerms,
    current_timestamp: i64,
    global_escrow_pda: Option<(Address, u8)>,
    token_vault_pda: Option<(Address, u8)>,
)
    requires
        accounts.len() >= INITIALIZE_ACCOUNTS,
        GlobalEscrow::spec_decode(accounts[1].data@) matches Ok(existing)
            && existing.is_initialized,
    ensures
        initialize_outcome(
            accounts,
            terms,
            current_timestamp,
            global_escrow_pda,
            token_vault_pda,
        ) is Err,
        (accounts[0].is_signer && accounts[6].key@ == TOKEN_PROGRAM_ID@ && accounts[9].key@
            == CHAINLINK_PROGRAM_ID@ && accounts[10].key@ == SOL_USD_FEED@ && accounts[8].key@
            == SYSTEM_PROGRAM_ID@ && is_derived(global_escrow_pda, accounts[1].key) && is_derived(
            token_vault_pda,
            accounts[3].key,
        )) ==> (initialize_outcome(
            accounts,
            terms,
            current_timestamp,
            global_escrow_pda,
            token_vault_pda,
        ) matches Err(e) && e == ProgramError::AccountAlreadyInitialized),
{
    assert(accounts[1].data@.len() > 0);
}

/// What an accepted creation establishes: the record is well formed with
/// nothing issued, deposited or withdrawn; it carries the terms, the
/// operator, the mint, the beneficiary and the creation time; it is bound
/// to the trusted oracle program and price feed; and exactly the offered
/// tokens move into the vault at the derived address.
pub proof fn lemma_initialize_effect(
    accounts: Seq<AccountView>,
    terms: SaleTerms,
    current_timestamp: i64,
    global_escrow_pda: Option<(Address, u8)>,
    token_vault_pda: Option<(Address, u8)>,
)
    requires
        initialize_outcome(
            accounts,
            terms,
            current_timestamp,
            global_escrow_pda,
            token_vault_pda,
        ) is Ok,
    ensures
        ({
            let plan = initialize_outcome(
                accounts,
                terms,
                current_timestamp,
                global_escrow_pda,
                token_vault_pda,
            )->Ok_0;
            let record = plan.global_escrow;
            &&& record.well_formed()
            &&& record.tokens_sold == 0
            &&& record.total_sol_deposited == 0
            &&& record.total_sol_withdrawn == 0
            &&& record.total_tokens_available == terms.token_amount
            &&& record.lock_duration == terms.lock_duration
            &&& record.sale_end_timestamp == terms.sale_end_timestamp
            &&& record.min_sol_investment == terms.min_sol_investment
            &&& record.max_sol_investment == terms.max_sol_investment
            &&& record.price_staleness_threshold == terms.price_staleness_threshold
            &&& record.initialization_timestamp == current_timestamp
            &&& record.initializer_pubkey == accounts[0].key
            &&& record.token_mint_pubkey == accounts[2].key
            &&& record.recipient_wallet == accounts[5].key
            &&& record.oracle_program_id@ == CHAINLINK_PROGRAM_ID@
            &&& record.price_feed_pubkey@ == SOL_USD_FEED@
            &&& accounts[0].is_signer
            &&& plan.token_amount == terms.token_amount
            &&& is_derived(global_escrow_pda, accounts[1].key)
            &&& is_derived(token_vault_pda, plan.token_vault)
        }),
{
}

/// The seeds in the steps of an accepted creation sign for the accounts
/// that are created: the sale record is at the address derived from the
/// operator and the mint, with the bump seed that the record keeps, and the
/// token vault is at the address derived from the sale record.
pub proof fn lemma_initialize_seeds_sign(
    program_id: Address,
    accounts: Seq<AccountView>,
    terms: SaleTerms,
    current_timestamp: i64,
)
    requires
        spec_process_initialize_escrow(program_id, accounts, terms, current_timestamp) is Ok,
    ensures
        ({
            let plan = spec_process_initialize_escrow(
                program_id,
                accounts,
                terms,
                current_timestamp,
            )->Ok_0;
            &&& program_address(
                Seeds::spec_of_sale(plan.global_escrow).spec_derivation(),
                program_id@,
            ) == Some((plan.global_escrow_account, plan.global_escrow.bump_seed))
            &&& program_address(
                plan.spec_vault_step()->CreateTokenVault_seeds.spec_derivation(),
                program_id@,
            ) == Some((plan.token_vault, plan.token_vault_bump))
        }),
{
}

} // verus!
