//! Deposit of a payment: half to the beneficiary, half locked, tokens to
//! the investor at the oracle price.
//!
//! Accounts, in order: the investor (signer), the sale record, the
//! investor's position, the investor's fund-lock pool, the token vault, the
//! investor's token account, the beneficiary's wallet, the token program,
//! the oracle program, the price feed, the system program, the clock, the
//! token mint, the associated-token-account program, the rent account.

use vstd::prelude::*;
use crate::account::{AccountView, check_derived, is_derived};
use crate::address::{
    ASSOCIATED_TOKEN_PROGRAM_ID, Address, SYSTEM_PROGRAM_ID, TOKEN_PROGRAM_ID,
    associated_token_seeds, find_associated_token_address, find_investor_pda,
    find_sol_vault_pda, find_token_vault_pda, investor_seeds, program_address, sol_vault_seeds,
    token_vault_seeds,
};
use crate::error::{EscrowError, ProgramError, escrow_failure};
use crate::oracle::{PriceRound, get_chainlink_price, spec_chainlink_price};
use crate::pricing::{calculate_tokens_for_sol, spec_calculate_tokens_for_sol, token_quantity};
use crate::state::{GlobalEscrow, InvestorAccount, InvestorStatus};
use crate::steps::{Seeds, Step, stores_come_last};
use crate::token_account::{
    TOKEN_ACCOUNT_LEN, TokenAccount, is_token_account, spec_validate_token_account,
    unpack_token_account, unpacked_token_account, validate_token_account,
};

verus! {

/// Accounts that a deposit takes.
pub const DEPOSIT_ACCOUNTS: usize = 15;

/// What the host carries out for an accepted deposit, in this order: it
/// creates the position's account and the fund-lock pool where there is
/// none yet, moves the beneficiary's half, moves the locked half, moves the
/// tokens out of the vault, and only then stores the two records.
#[derive(Debug, Clone, Copy, PartialEq, Eq)]
pub struct DepositPlan {
    /// The investor's wallet, which pays.
    pub investor_wallet: Address,
    /// The account of the sale record, which has authority over the vault.
    pub global_escrow_account: Address,
    /// The account of the position.
    pub investor_account: Address,
    /// Whether the account of the position has to be created.
    pub create_investor_account: bool,
    /// Bump seed of the position's address.
    pub investor_bump: u8,
    /// Whether the fund-lock pool has to be created.
    pub create_sol_vault: bool,
    /// Bump seed of the pool's address.
    pub sol_vault_bump: u8,
    /// The beneficiary's wallet.
    pub recipient: Address,
    /// Lamports for the beneficiary: half of the payment, rounded down.
    pub sol_to_recipient: u64,
    /// The investor's fund-lock pool.
    pub sol_vault: Address,
    /// Lamports to lock: the rest of the payment.
    pub sol_to_lock: u64,
    /// The token vault, which pays the tokens.
    pub token_vault: Address,
    /// The investor's token account, which receives them.
    pub investor_token_account: Address,
    /// Token units to issue.
    pub tokens_to_receive: u64,
    /// The sale record to store.
    pub global_escrow: GlobalEscrow,
    /// The position to store.
    pub investor: InvestorAccount,
}

impl DepositPlan {
    /// The step that creates the account of the position.
    pub open spec fn spec_position_step(self) -> Step {
        Step::CreateAccount {
            payer: self.investor_wallet,
            account: self.investor_account,
            space: InvestorAccount::LEN as u64,
            seeds: Seeds::Position {
                investor: self.investor_wallet,
                global_escrow: self.global_escrow_account,
                bump: self.investor_bump,
            },
        }
    }

    /// The step that creates the fund-lock pool, an account without data.
    pub open spec fn spec_pool_step(self) -> Step {
        Step::CreateAccount {
            payer: self.investor_wallet,
            account: self.sol_vault,
            space: 0,
            seeds: Seeds::SolVault {
                investor: self.investor_wallet,
                global_escrow: self.global_escrow_account,
                bump: self.sol_vault_bump,
            },
        }
    }

    /// The steps of the deposit: the position's account and the pool are
    /// created where there are none, the beneficiary's half is paid, the
    /// other half is locked, the tokens leave the vault for the investor,
    /// and only then the sale record and the position are stored.
    pub open spec fn spec_steps(self) -> Seq<Step> {
        (if self.create_investor_account {
            seq![self.spec_position_step()]
        } else {
            seq![]
        }) + (if self.create_sol_vault {
            seq![self.spec_pool_step()]
        } else {
            seq![]
        }) + seq![
            Step::TransferLamports {
                from: self.investor_wallet,
                to: self.recipient,
                amount: self.sol_to_recipient,
            },
            Step::TransferLamports {
                from: self.investor_wallet,
                to: self.sol_vault,
                amount: self.sol_to_lock,
            },
            Step::TransferTokens {
                source: self.token_vault,
                destination: self.investor_token_account,
                authority: self.global_escrow_account,
                amount: self.tokens_to_receive,
                signer: Some(Seeds::spec_of_sale(self.global_escrow)),
            },
            Step::StoreSaleRecord { account: self.global_escrow_account, record: self.global_escrow },
            Step::StorePosition { account: self.investor_account, position: self.investor },
        ]
    }

    /// The steps that the host carries out, in order.
    pub fn steps(&self) -> (steps: Vec<Step>)
        ensures
            steps@ == self.spec_steps(),
            stores_come_last(steps@),
    {
        let mut steps: Vec<Step> = Vec::new();
        if self.create_investor_account {
            steps.push(
                Step::CreateAccount {
                    payer: self.investor_wallet,
                    account: self.investor_account,
                    space: InvestorAccount::LEN as u64,
                    seeds: Seeds::Position {
                        investor: self.investor_wallet,
                        global_escrow: self.global_escrow_account,
                        bump: self.investor_bump,
                    },
                },
            );
        }
        if self.create_sol_vault {
            steps.push(
                Step::CreateAccount {
                    payer: self.investor_wallet,
                    account: self.sol_vault,
                    space: 0,
                    seeds: Seeds::SolVault {
                        investor: self.investor_wallet,
                        global_escrow: self.global_escrow_account,
                        bump: self.sol_vault_bump,
                    },
                },
            );
        }
        steps.push(
            Step::TransferLamports {
                from: self.investor_wallet,
                to: self.recipient,
                amount: self.sol_to_recipient,
            },
        );
        steps.push(
            Step::TransferLamports {
                from: self.investor_wallet,
                to: self.sol_vault,
                amount: self.sol_to_lock,
            },
        );
        steps.push(
            Step::TransferTokens {
                source: self.token_vault,
                destination: self.investor_token_account,
                authority: self.global_escrow_account,
                amount: self.tokens_to_receive,
                signer: Some(Seeds::of_sale(&self.global_escrow)),
            },
        );
        steps.push(
            Step::StoreSaleRecord {
                account: self.global_escrow_account,
                record: self.global_escrow,
            },
        );
        steps.push(Step::StorePosition { account: self.investor_account, position: self.investor });
        assert(steps@ =~= self.spec_steps());
        steps
    }
}

/// The sale that a deposit is made to, where the accounts pass the first
/// checks. The first condition that fails decides the error:
///
/// - fewer than fifteen accounts: `NotEnoughAccountKeys`;
/// - the investor did not sign: `MissingRequiredSignature`;
/// - the sale record does not decode: `BorshIoError`;
/// - the sale is not initialized: `InvalidEscrowStatus`;
/// - the token program is another program: `IncorrectProgramId`;
/// - the oracle program or the price feed is not the one that the sale is
///   bound to: `InvalidPriceFeed`;
/// - the system program is another program: `IncorrectProgramId`.
pub open spec fn deposit_sale(accounts: Seq<AccountView>) -> Result<GlobalEscrow, ProgramError> {
    if accounts.len() < DEPOSIT_ACCOUNTS {
        Err(ProgramError::NotEnoughAccountKeys)
    } else if !accounts[0].is_signer {
        Err(ProgramError::MissingRequiredSignature)
    } else if GlobalEscrow::spec_decode(accounts[1].data@) is Err {
        Err(ProgramError::BorshIoError)
    } else {
        let global_escrow = GlobalEscrow::spec_decode(accounts[1].data@)->Ok_0;
        if !global_escrow.is_initialized {
            Err(escrow_failure(EscrowError::InvalidEscrowStatus))
        } else if accounts[7].key@ != TOKEN_PROGRAM_ID@ {
            Err(ProgramError::IncorrectProgramId)
        } else if accounts[8].key != global_escrow.oracle_program_id {
            Err(escrow_failure(EscrowError::InvalidPriceFeed))
        } else if accounts[9].key != global_escrow.price_feed_pubkey {
            Err(escrow_failure(EscrowError::InvalidPriceFeed))
        } else if accounts[10].key@ != SYSTEM_PROGRAM_ID@ {
            Err(ProgramError::IncorrectProgramId)
        } else {
            Ok(global_escrow)
        }
    }
}

/// Makes the first checks of a deposit and reads the sale record.
pub fn check_deposit_accounts(accounts: &Vec<AccountView>) -> (res: Result<
    GlobalEscrow,
    ProgramError,
>)
    ensures
        res == deposit_sale(accounts@),
{
    if accounts.len() < DEPOSIT_ACCOUNTS {
        return Err(ProgramError::NotEnoughAccountKeys);
    }
    if !accounts[0].is_signer {
        return Err(ProgramError::MissingRequiredSignature);
    }
    let global_escrow: GlobalEscrow = match GlobalEscrow::try_from_slice(
        accounts[1].data.as_slice(),
    ) {
        Ok(record) => record,
        Err(e) => {
            return Err(e);
        },
    };
    if !global_escrow.is_initialized {
        return Err(ProgramError::Custom(EscrowError::InvalidEscrowStatus.code()));
    }
    if !accounts[7].key.has_bytes(&TOKEN_PROGRAM_ID) {
        return Err(ProgramError::IncorrectProgramId);
    }
    if accounts[8].key != global_escrow.oracle_program_id {
        return Err(ProgramError::Custom(EscrowError::InvalidPriceFeed.code()));
    }
    if accounts[9].key != global_escrow.price_feed_pubkey {
        return Err(ProgramError::Custom(EscrowError::InvalidPriceFeed.code()));
    }
    if !accounts[10].key.has_bytes(&SYSTEM_PROGRAM_ID) {
        return Err(ProgramError::IncorrectProgramId);
    }
    Ok(global_escrow)
}

/// Whether the investor's token account has to be created before the
/// deposit, for the accounts as they stand and the address derived as the
/// investor's associated token account. After the first checks of a
/// deposit: an account that already is a token account needs nothing; any
/// other is created where it is at the derived address, and refused with
/// `InvalidAccountData` where it is not.
pub open spec fn prepare_deposit_outcome(
    accounts: Seq<AccountView>,
    associated: Option<Address>,
) -> Result<bool, ProgramError> {
    match deposit_sale(accounts) {
        Err(e) => Err(e),
        Ok(_) => if is_token_account(accounts[5]) {
            Ok(false)
        } else if associated == Some(accounts[5].key) {
            Ok(true)
        } else {
            Err(ProgramError::InvalidAccountData)
        },
    }
}

/// Decides whether the investor's token account has to be created, given
/// the address derived as the investor's associated token account.
pub fn plan_token_account(accounts: &Vec<AccountView>, associated: Option<Address>) -> (res: Result<
    bool,
    ProgramError,
>)
    ensures
        res == prepare_deposit_outcome(accounts@, associated),
{
    match check_deposit_accounts(accounts) {
        Ok(_) => {},
        Err(e) => {
            return Err(e);
        },
    }
    let investor_token_account: &AccountView = &accounts[5];
    if investor_token_account.owner.has_bytes(&TOKEN_PROGRAM_ID)
        && investor_token_account.data.len() == TOKEN_ACCOUNT_LEN {
        return Ok(false);
    }
    match associated {
        Some(expected) => {
            if investor_token_account.key == expected {
                Ok(true)
            } else {
                Err(ProgramError::InvalidAccountData)
            }
        },
        None => Err(ProgramError::InvalidAccountData),
    }
}

/// The address derived as the associated token account of the investor
/// for the mint among `accounts`.
pub open spec fn associated_token_address_of(accounts: Seq<AccountView>) -> Option<Address> {
    match program_address(
        associated_token_seeds(accounts[0].key@, accounts[12].key@),
        ASSOCIATED_TOKEN_PROGRAM_ID@,
    ) {
        Some((address, _)) => Some(address),
        None => None,
    }
}

/// The first step of a deposit: decides whether the host has to create the
/// investor's associated token account before it calls
/// [`process_deposit_sol`] on the accounts as they then stand.
pub fn prepare_deposit(accounts: &Vec<AccountView>) -> (res: Result<bool, ProgramError>)
    ensures
        res == prepare_deposit_outcome(accounts@, associated_token_address_of(accounts@)),
{
    if accounts.len() < DEPOSIT_ACCOUNTS {
        return Err(ProgramError::NotEnoughAccountKeys);
    }
    let associated: Option<Address> = find_associated_token_address(
        &accounts[0].key,
        &accounts[12].key,
    );
    plan_token_account(accounts, associated)
}

/// Whether an account already holds a position of the program.
pub open spec fn is_position(account: AccountView, program_id: Address) -> bool {
    account.owner == program_id && account.data@.len() == InvestorAccount::LEN
}

/// The status of a position after a deposit: deposited, unless the locked
/// share was paid out before, which stays so.
pub open spec fn status_after_deposit(status: InvestorStatus) -> InvestorStatus {
    if status == InvestorStatus::SolWithdrawn {
        InvestorStatus::SolWithdrawn
    } else {
        InvestorStatus::Deposited
    }
}

/// The investor's position after a deposit of `sol_amount` lamports for
/// `tokens` token units at `price`. A first deposit opens the position
/// with the payment, the tokens, the time and the bump seed of its address;
/// a later one adds payment and tokens, records the price, leaves the
/// position deposited unless its locked share was paid out before, and
/// changes nothing else. Bytes that hold no position are `BorshIoError`; a
/// position that is not initialized or is another investor's or another
/// sale's is `InvalidPDA`; either deposit is refused with
/// `InvestmentExceedsMaximum` where the investor's cumulative payment would
/// pass the sale's maximum; tokens beyond 64 bits are `AmountOverflow`.
pub open spec fn position_after_deposit(
    program_id: Address,
    investor: Address,
    sale: Address,
    position_account: AccountView,
    global_escrow: GlobalEscrow,
    sol_amount: u64,
    tokens: u64,
    price: u64,
    current_timestamp: i64,
    bump_seed: u8,
) -> Result<InvestorAccount, ProgramError> {
    if !is_position(position_account, program_id) {
        if sol_amount > global_escrow.max_sol_investment {
            Err(escrow_failure(EscrowError::InvestmentExceedsMaximum))
        } else {
            Ok(
                InvestorAccount {
                    is_initialized: true,
                    investor_pubkey: investor,
                    global_escrow_pubkey: sale,
                    sol_deposited: sol_amount,
                    tokens_received: tokens,
                    deposit_timestamp: current_timestamp,
                    sol_usd_price: price,
                    status: InvestorStatus::Deposited,
                    bump_seed,
                },
            )
        }
    } else {
        match InvestorAccount::spec_decode(position_account.data@) {
            Err(e) => Err(e),
            Ok(existing) => if !existing.is_initialized || existing.investor_pubkey != investor
                || existing.global_escrow_pubkey != sale {
                Err(escrow_failure(EscrowError::InvalidPDA))
            } else if existing.sol_deposited + sol_amount > global_escrow.max_sol_investment {
                Err(escrow_failure(EscrowError::InvestmentExceedsMaximum))
            } else if existing.tokens_received + tokens > u64::MAX {
                Err(escrow_failure(EscrowError::AmountOverflow))
            } else {
                Ok(
                    InvestorAccount {
                        sol_deposited: (existing.sol_deposited + sol_amount) as u64,
                        tokens_received: (existing.tokens_received + tokens) as u64,
                        sol_usd_price: price,
                        status: status_after_deposit(existing.status),
                        ..existing
                    },
                )
            },
        }
    }
}

/// The sale record after a deposit: the issued tokens and the deposited
/// lamports grow, nothing else changes.
pub open spec fn escrow_after_deposit(global_escrow: GlobalEscrow, sol_amount: u64, tokens: u64) -> GlobalEscrow {
    GlobalEscrow {
        tokens_sold: (global_escrow.tokens_sold + tokens) as u64,
        total_sol_deposited: (global_escrow.total_sol_deposited + sol_amount) as u64,
        ..global_escrow
    }
}

/// The outcome of a deposit of `sol_amount` lamports for the accounts as
/// they stand, the oracle's reading (`None` where the read failed), the
/// time, the unpacked token account of the investor, and the addresses
/// derived for the position, the fund-lock pool and the token vault. After
/// the first checks ([`deposit_sale`]), the first condition that fails
/// decides the error:
///
/// - the investor's token account is not an account of the token program:
///   `InvalidAccountData`;
/// - it does not unpack: the unpacking error;
/// - it is not the investor's, holds another token, or has a delegate or a
///   close authority: `InvalidTokenAccount`;
/// - the position or the pool is not at its derived address: `InvalidPDA`;
/// - the payment is under the sale's minimum: `InvestmentBelowMinimum`;
/// - the reading is refused: the oracle adapter's error;
/// - the tokens for the payment do not fit 64 bits: `AmountOverflow`;
/// - they are more than the sale has left: `NotEnoughTokens`;
/// - the position is refused ([`position_after_deposit`]): its error;
/// - the wallet to pay is not the sale's beneficiary: `Unauthorized`;
/// - the token vault is not at its derived address: `InvalidPDA`;
/// - the deposited total would not fit 64 bits: `AmountOverflow`.
pub open spec fn deposit_outcome(
    program_id: Address,
    accounts: Seq<AccountView>,
    sol_amount: u64,
    round: Option<PriceRound>,
    current_timestamp: i64,
    token_account: Result<TokenAccount, ProgramError>,
    investor_pda: Option<(Address, u8)>,
    sol_vault_pda: Option<(Address, u8)>,
    token_vault_pda: Option<(Address, u8)>,
) -> Result<DepositPlan, ProgramError> {
    if deposit_sale(accounts) is Err {
        Err(deposit_sale(accounts)->Err_0)
    } else {
        let global_escrow = deposit_sale(accounts)->Ok_0;
        let priced = spec_chainlink_price(
            accounts[9].key,
            accounts[8].key,
            global_escrow,
            round,
            current_timestamp,
        );
        let price = priced->Ok_0.0;
        let tokens = spec_calculate_tokens_for_sol(sol_amount, price);
        let position = position_after_deposit(
            program_id,
            accounts[0].key,
            accounts[1].key,
            accounts[2],
            global_escrow,
            sol_amount,
            tokens->Ok_0,
            price,
            current_timestamp,
            investor_pda->Some_0.1,
        );
        if accounts[5].owner@ != TOKEN_PROGRAM_ID@ {
            Err(ProgramError::InvalidAccountData)
        } else if token_account is Err {
            Err(token_account->Err_0)
        } else if spec_validate_token_account(
            token_account->Ok_0,
            accounts[0].key,
            global_escrow.token_mint_pubkey,
        ) is Err {
            Err(escrow_failure(EscrowError::InvalidTokenAccount))
        } else if !is_derived(investor_pda, accounts[2].key) {
            Err(escrow_failure(EscrowError::InvalidPDA))
        } else if !is_derived(sol_vault_pda, accounts[3].key) {
            Err(escrow_failure(EscrowError::InvalidPDA))
        } else if sol_amount < global_escrow.min_sol_investment {
            Err(escrow_failure(EscrowError::InvestmentBelowMinimum))
        } else if priced is Err {
            Err(priced->Err_0)
        } else if tokens is Err {
            Err(tokens->Err_0)
        } else if tokens->Ok_0 > global_escrow.spec_tokens_remaining() {
            Err(escrow_failure(EscrowError::NotEnoughTokens))
        } else if position is Err {
            Err(position->Err_0)
        } else if accounts[6].key != global_escrow.recipient_wallet {
            Err(escrow_failure(EscrowError::Unauthorized))
        } else if !is_derived(token_vault_pda, accounts[4].key) {
            Err(escrow_failure(EscrowError::InvalidPDA))
        } else if global_escrow.total_sol_deposited + sol_amount > u64::MAX {
            Err(escrow_failure(EscrowError::AmountOverflow))
        } else {
            Ok(
                DepositPlan {
                    investor_wallet: accounts[0].key,
                    global_escrow_account: accounts[1].key,
                    investor_account: accounts[2].key,
                    create_investor_account: !is_position(accounts[2], program_id),
                    investor_bump: investor_pda->Some_0.1,
                    create_sol_vault: accounts[3].owner != program_id,
                    sol_vault_bump: sol_vault_pda->Some_0.1,
                    recipient: accounts[6].key,
                    sol_to_recipient: sol_amount / 2,
                    sol_vault: accounts[3].key,
                    sol_to_lock: (sol_amount - sol_amount / 2) as u64,
                    token_vault: accounts[4].key,
                    investor_token_account: accounts[5].key,
                    tokens_to_receive: tokens->Ok_0,
                    global_escrow: escrow_after_deposit(global_escrow, sol_amount, tokens->Ok_0),
                    investor: position->Ok_0,
                },
            )
        }
    }
}

/// Opens or updates the investor's position for a deposit.
pub fn update_position(
    program_id: &Address,
    investor: &Address,
    sale: &Address,
    investor_account: &AccountView,
    global_escrow: &GlobalEscrow,
    sol_amount: u64,
    tokens: u64,
    price: u64,
    current_timestamp: i64,
    bump_seed: u8,
) -> (res: Result<InvestorAccount, ProgramError>)
    ensures
        res == position_after_deposit(
            *program_id,
            *investor,
            *sale,
            *investor_account,
            *global_escrow,
            sol_amount,
            tokens,
            price,
            current_timestamp,
            bump_seed,
        ),
{
    let exceeds: ProgramError = ProgramError::Custom(
        EscrowError::InvestmentExceedsMaximum.code(),
    );
    if investor_account.owner != *program_id || investor_account.data.len()
        != InvestorAccount::LEN {
        if sol_amount > global_escrow.max_sol_investment {
            return Err(exceeds);
        }
        return Ok(
            InvestorAccount {
                is_initialized: true,
                investor_pubkey: *investor,
                global_escrow_pubkey: *sale,
                sol_deposited: sol_amount,
                tokens_received: tokens,
                deposit_timestamp: current_timestamp,
                sol_usd_price: price,
                status: InvestorStatus::Deposited,
                bump_seed,
            },
        );
    }
    let existing: InvestorAccount = match InvestorAccount::try_from_slice(
        investor_account.data.as_slice(),
    ) {
        Ok(record) => record,
        Err(e) => {
            return Err(e);
        },
    };
    if !existing.is_initialized || existing.investor_pubkey != *investor
        || existing.global_escrow_pubkey != *sale {
        return Err(ProgramError::Custom(EscrowError::InvalidPDA.code()));
    }
    let total_investment: u64 = match existing.sol_deposited.checked_add(sol_amount) {
        Some(total) => total,
        None => {
            return Err(exceeds);
        },
    };
    if total_investment > global_escrow.max_sol_investment {
        return Err(exceeds);
    }
    let tokens_received: u64 = match existing.tokens_received.checked_add(tokens) {
        Some(total) => total,
        None => {
            return Err(ProgramError::Custom(EscrowError::AmountOverflow.code()));
        },
    };
    let mut updated: InvestorAccount = existing;
    updated.sol_deposited = total_investment;
    updated.tokens_received = tokens_received;
    updated.sol_usd_price = price;
    updated.status = match existing.status {
        InvestorStatus::SolWithdrawn => InvestorStatus::SolWithdrawn,
        _ => InvestorStatus::Deposited,
    };
    Ok(updated)
}

/// Decides a deposit, given the unpacked token account of the investor and
/// the addresses derived for the position, the fund-lock pool and the token
/// vault.
pub fn plan_deposit(
    program_id: &Address,
    accounts: &Vec<AccountView>,
    sol_amount: u64,
    round: Option<PriceRound>,
    current_timestamp: i64,
    token_account: Result<TokenAccount, ProgramError>,
    investor_pda: Option<(Address, u8)>,
    sol_vault_pda: Option<(Address, u8)>,
    token_vault_pda: Option<(Address, u8)>,
) -> (res: Result<DepositPlan, ProgramError>)
    ensures
        res == deposit_outcome(
            *program_id,
            accounts@,
            sol_amount,
            round,
            current_timestamp,
            token_account,
            investor_pda,
            sol_vault_pda,
            token_vault_pda,
        ),
        (GlobalEscrow::spec_decode(accounts@[1].data@) matches Ok(sale) && sol_amount
            < sale.min_sol_investment) ==> res is Err,
        res matches Ok(plan) ==> ({
            &&& spec_calculate_tokens_for_sol(sol_amount, plan.investor.sol_usd_price) matches Ok(
                tokens,
            ) && tokens == plan.tokens_to_receive
            &&& plan.global_escrow.tokens_sold == GlobalEscrow::spec_decode(
                accounts@[1].data@,
            )->Ok_0.tokens_sold + plan.tokens_to_receive
            &&& plan.global_escrow.tokens_sold <= plan.global_escrow.total_tokens_available
        }),
{
    let global_escrow: GlobalEscrow = match check_deposit_accounts(accounts) {
        Ok(record) => record,
        Err(e) => {
            return Err(e);
        },
    };
    let investor: &AccountView = &accounts[0];
    let investor_account: &AccountView = &accounts[2];
    let sol_vault_account: &AccountView = &accounts[3];
    let token_vault_account: &AccountView = &accounts[4];
    let investor_token_account: &AccountView = &accounts[5];
    let recipient_wallet: &AccountView = &accounts[6];
    let oracle_program: &AccountView = &accounts[8];
    let price_feed: &AccountView = &accounts[9];
    if !investor_token_account.owner.has_bytes(&TOKEN_PROGRAM_ID) {
        return Err(ProgramError::InvalidAccountData);
    }
    let token_account: TokenAccount = match token_account {
        Ok(account) => account,
        Err(e) => {
            return Err(e);
        },
    };
    match validate_token_account(&token_account, &investor.key, &global_escrow.token_mint_pubkey) {
        Ok(_) => {},
        Err(e) => {
            return Err(e);
        },
    }
    let investor_bump: u8 = match check_derived(&investor_pda, &investor_account.key) {
        Ok(bump) => bump,
        Err(e) => {
            return Err(e);
        },
    };
    let sol_vault_bump: u8 = match check_derived(&sol_vault_pda, &sol_vault_account.key) {
        Ok(bump) => bump,
        Err(e) => {
            return Err(e);
        },
    };
    if sol_amount < global_escrow.min_sol_investment {
        return Err(ProgramError::Custom(EscrowError::InvestmentBelowMinimum.code()));
    }
    let (sol_usd_price, _observed_at) = match get_chainlink_price(
        &price_feed.key,
        &oracle_program.key,
        &global_escrow,
        round,
        current_timestamp,
    ) {
        Ok(priced) => priced,
        Err(e) => {
            return Err(e);
        },
    };
    let tokens_to_receive: u64 = match calculate_tokens_for_sol(sol_amount, sol_usd_price) {
        Ok(tokens) => tokens,
        Err(e) => {
            return Err(e);
        },
    };
    if global_escrow.tokens_sold > global_escrow.total_tokens_available || tokens_to_receive
        > global_escrow.total_tokens_available - global_escrow.tokens_sold {
        return Err(ProgramError::Custom(EscrowError::NotEnoughTokens.code()));
    }
    let position: InvestorAccount = match update_position(
        program_id,
        &investor.key,
        &accounts[1].key,
        investor_account,
        &global_escrow,
        sol_amount,
        tokens_to_receive,
        sol_usd_price,
        current_timestamp,
        investor_bump,
    ) {
        Ok(record) => record,
        Err(e) => {
            return Err(e);
        },
    };
    if recipient_wallet.key != global_escrow.recipient_wallet {
        return Err(ProgramError::Custom(EscrowError::Unauthorized.code()));
    }
    match check_derived(&token_vault_pda, &token_vault_account.key) {
        Ok(_) => {},
        Err(e) => {
            return Err(e);
        },
    }
    let total_sol_deposited: u64 = match global_escrow.total_sol_deposited.checked_add(sol_amount) {
        Some(total) => total,
        None => {
            return Err(ProgramError::Custom(EscrowError::AmountOverflow.code()));
        },
    };
    let create_investor_account: bool = investor_account.owner != *program_id
        || investor_account.data.len() != InvestorAccount::LEN;
    let create_sol_vault: bool = sol_vault_account.owner != *program_id;
    let sol_to_recipient: u64 = sol_amount / 2;
    let sol_to_lock: u64 = sol_amount - sol_to_recipient;
    let mut updated_global_escrow: GlobalEscrow = global_escrow;
    updated_global_escrow.tokens_sold = global_escrow.tokens_sold + tokens_to_receive;
    updated_global_escrow.total_sol_deposited = total_sol_deposited;
    Ok(
        DepositPlan {
            investor_wallet: investor.key,
            global_escrow_account: accounts[1].key,
            investor_account: investor_account.key,
            create_investor_account,
            investor_bump,
            create_sol_vault,
            sol_vault_bump,
            recipient: recipient_wallet.key,
            sol_to_recipient,
            sol_vault: sol_vault_account.key,
            sol_to_lock,
            token_vault: token_vault_account.key,
            investor_token_account: investor_token_account.key,
            tokens_to_receive,
            global_escrow: updated_global_escrow,
            investor: position,
        },
    )
}

/// What [`process_deposit_sol`] returns: the outcome for the unpacked
/// bytes of the investor's token account and the addresses derived for the
/// investor's position and fund-lock pool in the sale and for the sale's
/// token vault.
pub open spec fn spec_process_deposit_sol(
    program_id: Address,
    accounts: Seq<AccountView>,
    sol_amount: u64,
    round: Option<PriceRound>,
    current_timestamp: i64,
) -> Result<DepositPlan, ProgramError> {
    deposit_outcome(
        program_id,
        accounts,
        sol_amount,
        round,
        current_timestamp,
        unpacked_token_account(accounts[5].data@),
        program_address(investor_seeds(accounts[0].key@, accounts[1].key@), program_id@),
        program_address(sol_vault_seeds(accounts[0].key@, accounts[1].key@), program_id@),
        program_address(token_vault_seeds(accounts[1].key@), program_id@),
    )
}

/// Decides a deposit of `sol_amount` lamports on the accounts as they stand
/// once the investor's token account exists. `round` is the oracle's latest
/// reading of the price feed, `None` where the read failed;
/// `current_timestamp` is the clock's time. A payment under the sale's
/// minimum is always refused, and an accepted deposit never takes the
/// issued tokens beyond the offer.
pub fn process_deposit_sol(
    program_id: &Address,
    accounts: &Vec<AccountView>,
    sol_amount: u64,
    round: Option<PriceRound>,
    current_timestamp: i64,
) -> (res: Result<DepositPlan, ProgramError>)
    ensures
        res == spec_process_deposit_sol(
            *program_id,
            accounts@,
            sol_amount,
            round,
            current_timestamp,
        ),
        res is Ok ==> is_token_account(accounts@[5]),
        (GlobalEscrow::spec_decode(accounts@[1].data@) matches Ok(sale) && sol_amount
            < sale.min_sol_investment) ==> res is Err,
        res matches Ok(plan) ==> ({
            &&& spec_calculate_tokens_for_sol(sol_amount, plan.investor.sol_usd_price) matches Ok(
                tokens,
            ) && tokens == plan.tokens_to_receive
            &&& plan.global_escrow.tokens_sold == GlobalEscrow::spec_decode(
                accounts@[1].data@,
            )->Ok_0.tokens_sold + plan.tokens_to_receive
            &&& plan.global_escrow.tokens_sold <= plan.global_escrow.total_tokens_available
        }),
{
    if accounts.len() < DEPOSIT_ACCOUNTS {
        return Err(ProgramError::NotEnoughAccountKeys);
    }
    let token_account: Result<TokenAccount, ProgramError> = unpack_token_account(
        accounts[5].data.as_slice(),
    );
    let investor_pda: Option<(Address, u8)> = find_investor_pda(
        &accounts[0].key,
        &accounts[1].key,
        program_id,
    );
    let sol_vault_pda: Option<(Address, u8)> = find_sol_vault_pda(
        &accounts[0].key,
        &accounts[1].key,
        program_id,
    );
    let token_vault_pda: Option<(Address, u8)> = find_token_vault_pda(
        &accounts[1].key,
        program_id,
    );
    plan_deposit(
        program_id,
        accounts,
        sol_amount,
        round,
        current_timestamp,
        token_account,
        investor_pda,
        sol_vault_pda,
        token_vault_pda,
    )
}

/// The position that a deposit finds: the one that the account holds, or
/// none where the account holds no position of the program yet.
pub open spec fn position_before_deposit(program_id: Address, accounts: Seq<AccountView>) -> Option<
    InvestorAccount,
> {
    if is_position(accounts[2], program_id) {
        match InvestorAccount::spec_decode(accounts[2].data@) {
            Ok(existing) => Some(existing),
            Err(_) => None,
        }
    } else {
        None
    }
}

/// A sale with nothing left unsold, as a closed sale is, issues no tokens:
/// a deposit that would buy any is refused, so an accepted one buys none.
pub proof fn lemma_deposit_into_sold_out_sale_issues_nothing(
    program_id: Address,
    accounts: Seq<AccountView>,
    sol_amount: u64,
    round: Option<PriceRound>,
    current_timestamp: i64,
    token_account: Result<TokenAccount, ProgramError>,
    investor_pda: Option<(Address, u8)>,
    sol_vault_pda: Option<(Address, u8)>,
    token_vault_pda: Option<(Address, u8)>,
)
    requires
        deposit_outcome(
            program_id,
            accounts,
            sol_amount,
            round,
            current_timestamp,
            token_account,
            investor_pda,
            sol_vault_pda,
            token_vault_pda,
        ) is Ok,
        GlobalEscrow::spec_decode(accounts[1].data@)->Ok_0.spec_tokens_remaining() <= 0,
    ensures
        deposit_outcome(
            program_id,
            accounts,
            sol_amount,
            round,
            current_timestamp,
            token_account,
            investor_pda,
            sol_vault_pda,
            token_vault_pda,
        )->Ok_0.tokens_to_receive == 0,
{
}

/// A payment under the sale's minimum is never accepted, whatever else
/// holds; as every refusal, it leaves nothing to carry out and nothing to
/// store.
pub proof fn lemma_deposit_below_minimum_refused(
    program_id: Address,
    accounts: Seq<AccountView>,
    sol_amount: u64,
    round: Option<PriceRound>,
    current_timestamp: i64,
    token_account: Result<TokenAccount, ProgramError>,
    investor_pda: Option<(Address, u8)>,
    sol_vault_pda: Option<(Address, u8)>,
    token_vault_pda: Option<(Address, u8)>,
)
    requires
        GlobalEscrow::spec_decode(accounts[1].data@) matches Ok(global_escrow) && sol_amount
            < global_escrow.min_sol_investment,
    ensures
        deposit_outcome(
            program_id,
            accounts,
            sol_amount,
            round,
            current_timestamp,
            token_account,
            investor_pda,
            sol_vault_pda,
            token_vault_pda,
        ) is Err,
{
}

/// What an accepted deposit does to the sale: the oracle's reading was
/// accepted, the tokens issued are the token quantity of the payment at its
/// price, the issued total grows by them and stays within the offer, the
/// deposited total grows by the payment, and nothing else of the sale
/// changes.
pub proof fn lemma_deposit_issues_priced_tokens(
    program_id: Address,
    accounts: Seq<AccountView>,
    sol_amount: u64,
    round: Option<PriceRound>,
    current_timestamp: i64,
    token_account: Result<TokenAccount, ProgramError>,
    investor_pda: Option<(Address, u8)>,
    sol_vault_pda: Option<(Address, u8)>,
    token_vault_pda: Option<(Address, u8)>,
)
    requires
        deposit_outcome(
            program_id,
            accounts,
            sol_amount,
            round,
            current_timestamp,
            token_account,
            investor_pda,
            sol_vault_pda,
            token_vault_pda,
        ) is Ok,
    ensures
        ({
            let plan = deposit_outcome(
                program_id,
                accounts,
                sol_amount,
                round,
                current_timestamp,
                token_account,
                investor_pda,
                sol_vault_pda,
                token_vault_pda,
            )->Ok_0;
            let before = GlobalEscrow::spec_decode(accounts[1].data@)->Ok_0;
            let priced = spec_chainlink_price(
                accounts[9].key,
                accounts[8].key,
                before,
                round,
                current_timestamp,
            );
            let price = priced->Ok_0.0;
            &&& GlobalEscrow::spec_decode(accounts[1].data@) is Ok
            &&& priced is Ok
            &&& spec_calculate_tokens_for_sol(sol_amount, price) is Ok
            &&& plan.tokens_to_receive == spec_calculate_tokens_for_sol(sol_amount, price)->Ok_0
            &&& plan.tokens_to_receive == token_quantity(sol_amount as nat, price as nat)
            &&& plan.global_escrow.tokens_sold == before.tokens_sold + plan.tokens_to_receive
            &&& plan.global_escrow.tokens_sold <= plan.global_escrow.total_tokens_available
            &&& plan.global_escrow.total_sol_deposited == before.total_sol_deposited + sol_amount
            &&& plan.global_escrow.total_sol_withdrawn == before.total_sol_withdrawn
            &&& plan.global_escrow.total_tokens_available == before.total_tokens_available
            &&& before.same_sale(plan.global_escrow)
            &&& before.well_formed() ==> plan.global_escrow.well_formed()
        }),
{
}

/// How an accepted deposit splits the payment: the beneficiary of the sale
/// gets half, rounded down, the pool at the derived address gets the rest,
/// which is the larger part of an odd payment, and the two make up the
/// payment, which is at least the sale's minimum.
pub proof fn lemma_deposit_splits_payment(
    program_id: Address,
    accounts: Seq<AccountView>,
    sol_amount: u64,
    round: Option<PriceRound>,
    current_timestamp: i64,
    token_account: Result<TokenAccount, ProgramError>,
    investor_pda: Option<(Address, u8)>,
    sol_vault_pda: Option<(Address, u8)>,
    token_vault_pda: Option<(Address, u8)>,
)
    requires
        deposit_outcome(
            program_id,
            accounts,
            sol_amount,
            round,
            current_timestamp,
            token_account,
            investor_pda,
            sol_vault_pda,
            token_vault_pda,
        ) is Ok,
    ensures
        ({
            let plan = deposit_outcome(
                program_id,
                accounts,
                sol_amount,
                round,
                current_timestamp,
                token_account,
                investor_pda,
                sol_vault_pda,
                token_vault_pda,
            )->Ok_0;
            let before = GlobalEscrow::spec_decode(accounts[1].data@)->Ok_0;
            &&& accounts[0].is_signer
            &&& sol_amount >= before.min_sol_investment
            &&& plan.sol_to_recipient == sol_amount / 2
            &&& plan.sol_to_recipient + plan.sol_to_lock == sol_amount
            &&& plan.sol_to_recipient <= plan.sol_to_lock <= plan.sol_to_recipient + 1
            &&& plan.recipient == before.recipient_wallet
            &&& is_derived(sol_vault_pda, plan.sol_vault)
            &&& is_derived(token_vault_pda, plan.token_vault)
            &&& is_derived(investor_pda, accounts[2].key)
            &&& accounts[5].owner@ == TOKEN_PROGRAM_ID@
            &&& token_account matches Ok(destination) && destination.owner == accounts[0].key
                && destination.mint == before.token_mint_pubkey
        }),
{
}

/// What an accepted deposit does to the investor's position. The
/// cumulative payment is at least the sale's minimum and at most its
/// maximum, and the price of the deposit is recorded. A first deposit opens
/// the position for the investor and the sale, with the payment, the tokens
/// and the time, as deposited. A later deposit adds the payment and the
/// tokens and changes nothing else but the status of a position that was
/// never marked: after a deposit a position is deposited, or withdrawn if
/// it was so before, and so never moves backward.
pub proof fn lemma_deposit_updates_position(
    program_id: Address,
    accounts: Seq<AccountView>,
    sol_amount: u64,
    round: Option<PriceRound>,
    current_timestamp: i64,
    token_account: Result<TokenAccount, ProgramError>,
    investor_pda: Option<(Address, u8)>,
    sol_vault_pda: Option<(Address, u8)>,
    token_vault_pda: Option<(Address, u8)>,
)
    requires
        deposit_outcome(
            program_id,
            accounts,
            sol_amount,
            round,
            current_timestamp,
            token_account,
            investor_pda,
            sol_vault_pda,
            token_vault_pda,
        ) is Ok,
    ensures
        ({
            let plan = deposit_outcome(
                program_id,
                accounts,
                sol_amount,
                round,
                current_timestamp,
                token_account,
                investor_pda,
                sol_vault_pda,
                token_vault_pda,
            )->Ok_0;
            let sale = GlobalEscrow::spec_decode(accounts[1].data@)->Ok_0;
            let after = plan.investor;
            &&& sale.min_sol_investment <= after.sol_deposited <= sale.max_sol_investment
            &&& after.status != InvestorStatus::Uninitialized
            &&& after.is_initialized
            &&& after.investor_pubkey == accounts[0].key
            &&& after.global_escrow_pubkey == accounts[1].key
            &&& after.sol_usd_price == spec_chainlink_price(
                accounts[9].key,
                accounts[8].key,
                sale,
                round,
                current_timestamp,
            )->Ok_0.0
            &&& match position_before_deposit(program_id, accounts) {
                None => {
                    &&& plan.create_investor_account
                    &&& after.is_initialized
                    &&& after.investor_pubkey == accounts[0].key
                    &&& after.global_escrow_pubkey == accounts[1].key
                    &&& after.sol_deposited == sol_amount
                    &&& after.tokens_received == plan.tokens_to_receive
                    &&& after.deposit_timestamp == current_timestamp
                    &&& after.status == InvestorStatus::Deposited
                    &&& after.bump_seed == plan.investor_bump
                },
                Some(before) => {
                    &&& !plan.create_investor_account
                    &&& after.sol_deposited == before.sol_deposited + sol_amount
                    &&& after.tokens_received == before.tokens_received + plan.tokens_to_receive
                    &&& after.status == status_after_deposit(before.status)
                    &&& before.status != InvestorStatus::Uninitialized ==> after.status
                        == before.status
                    &&& before.status.may_become(after.status)
                    &&& after == InvestorAccount {
                        sol_deposited: after.sol_deposited,
                        tokens_received: after.tokens_received,
                        sol_usd_price: after.sol_usd_price,
                        status: after.status,
                        ..before
                    }
                },
            }
        }),
{
}

/// An investor's cumulative payment never passes the sale's maximum: a
/// deposit that would take an existing position beyond it is not accepted.
pub proof fn lemma_deposit_beyond_maximum_refused(
    program_id: Address,
    accounts: Seq<AccountView>,
    sol_amount: u64,
    round: Option<PriceRound>,
    current_timestamp: i64,
    token_account: Result<TokenAccount, ProgramError>,
    investor_pda: Option<(Address, u8)>,
    sol_vault_pda: Option<(Address, u8)>,
    token_vault_pda: Option<(Address, u8)>,
)
    requires
        GlobalEscrow::spec_decode(accounts[1].data@) matches Ok(global_escrow) && (
        match position_before_deposit(program_id, accounts) {
            Some(before) => before.sol_deposited + sol_amount > global_escrow.max_sol_investment,
            None => sol_amount > global_escrow.max_sol_investment,
        }),
    ensures
        deposit_outcome(
            program_id,
            accounts,
            sol_amount,
            round,
            current_timestamp,
            token_account,
            investor_pda,
            sol_vault_pda,
            token_vault_pda,
        ) is Err,
{
}

/// The seeds in the steps of an accepted deposit sign for the accounts that
/// are created: the position and the fund-lock pool are at the addresses
/// derived from the investor and the sale, with the bump seeds of the plan.
pub proof fn lemma_deposit_seeds_sign(
    program_id: Address,
    accounts: Seq<AccountView>,
    sol_amount: u64,
    round: Option<PriceRound>,
    current_timestamp: i64,
)
    requires
        spec_process_deposit_sol(program_id, accounts, sol_amount, round, current_timestamp) is Ok,
    ensures
        ({
            let plan = spec_process_deposit_sol(
                program_id,
                accounts,
                sol_amount,
                round,
                current_timestamp,
            )->Ok_0;
            &&& program_address(
                plan.spec_position_step()->CreateAccount_seeds.spec_derivation(),
                program_id@,
            ) == Some((plan.investor_account, plan.investor_bump))
            &&& program_address(
                plan.spec_pool_step()->CreateAccount_seeds.spec_derivation(),
                program_id@,
            ) == Some((plan.sol_vault, plan.sol_vault_bump))
            &&& plan.investor_wallet == accounts[0].key
            &&& accounts[0].is_signer
        }),
{
}

} // verus!
