use ondrix_escrow::account::AccountView;
use ondrix_escrow::address::{find_investor_pda, find_sol_vault_pda, Address, SYSTEM_PROGRAM_ID};
use ondrix_escrow::error::{EscrowError, ProgramError};
use ondrix_escrow::instruction::EscrowInstruction;
use ondrix_escrow::processor::{process_instruction, HostFacts, Outcome};
use ondrix_escrow::state::{GlobalEscrow, InvestorAccount, InvestorStatus};
use ondrix_escrow::steps::Step;
use ondrix_escrow::withdraw::{
    plan_withdrawal, process_withdraw_locked_sol, WithdrawPlan, WITHDRAW_ACCOUNTS,
};

const CREATED: i64 = 1_700_000_000;
const LOCK: i64 = 3600;
const RENT: u64 = 890_880;

fn addr(n: u8) -> Address {
    Address::new([n; 32])
}

fn program() -> Address {
    addr(42)
}

fn plain(key: Address) -> AccountView {
    AccountView { key, owner: Address::new(SYSTEM_PROGRAM_ID), lamports: 1_000_000_000, is_signer: false, data: vec![] }
}

fn sale() -> GlobalEscrow {
    GlobalEscrow {
        is_initialized: true,
        initializer_pubkey: addr(1),
        token_mint_pubkey: addr(2),
        recipient_wallet: addr(4),
        total_tokens_available: 1_000_000_000_000_000_000,
        tokens_sold: 2_170_000_000_000,
        total_sol_deposited: 1_000_000_001,
        total_sol_withdrawn: 0,
        lock_duration: LOCK,
        bump_seed: 254,
        oracle_program_id: addr(5),
        price_feed_pubkey: addr(6),
        min_sol_investment: 1_000_000,
        max_sol_investment: 10_000_000_000_000,
        price_staleness_threshold: 300,
        sale_end_timestamp: CREATED + 86_400,
        initialization_timestamp: CREATED,
    }
}

fn position() -> InvestorAccount {
    InvestorAccount {
        is_initialized: true,
        investor_pubkey: addr(7),
        global_escrow_pubkey: addr(8),
        sol_deposited: 1_000_000_001,
        tokens_received: 2_170_000_000_000,
        deposit_timestamp: CREATED + 10,
        sol_usd_price: 21_700_000_000,
        status: InvestorStatus::Deposited,
        bump_seed: 253,
    }
}

fn accounts_for(sale: GlobalEscrow, position: InvestorAccount) -> Vec<AccountView> {
    let (position_key, _) = find_investor_pda(&position.investor_pubkey, &position.global_escrow_pubkey, &program()).unwrap();
    let (pool_key, _) = find_sol_vault_pda(&position.investor_pubkey, &position.global_escrow_pubkey, &program()).unwrap();
    let mut beneficiary = plain(addr(4));
    beneficiary.is_signer = true;
    let mut record = plain(addr(8));
    record.owner = program();
    record.data = sale.to_bytes();
    let mut held = plain(position_key);
    held.owner = program();
    held.data = position.to_bytes();
    let mut pool = plain(pool_key);
    pool.owner = program();
    pool.lamports = 500_000_001 + RENT;
    vec![beneficiary, record, held, pool, plain(addr(4)), plain(Address::new(SYSTEM_PROGRAM_ID)), plain(addr(9))]
}

fn accounts() -> Vec<AccountView> {
    accounts_for(sale(), position())
}

fn run(accounts: &Vec<AccountView>, now: i64) -> Result<WithdrawPlan, ProgramError> {
    process_withdraw_locked_sol(&program(), accounts, now, RENT)
}

fn custom(kind: EscrowError) -> ProgramError {
    ProgramError::from(kind)
}

#[test]
fn the_locked_half_goes_to_the_beneficiary() {
    let accounts = accounts();
    let plan = run(&accounts, CREATED + LOCK).unwrap();
    let mut stored_sale = sale();
    stored_sale.total_sol_withdrawn = 500_000_000;
    let mut stored_position = position();
    stored_position.status = InvestorStatus::SolWithdrawn;
    assert_eq!(
        plan,
        WithdrawPlan {
            global_escrow_account: addr(8),
            investor_account: accounts[2].key,
            sol_vault: accounts[3].key,
            recipient: addr(4),
            amount: 500_000_000,
            global_escrow: stored_sale,
            investor: stored_position,
        }
    );
}

#[test]
fn a_withdrawal_waits_for_the_unlock_time() {
    let accounts = accounts();
    assert_eq!(run(&accounts, CREATED + LOCK - 1), Err(custom(EscrowError::SolStillLocked)));
    assert_eq!(run(&accounts, CREATED), Err(custom(EscrowError::SolStillLocked)));
    assert_eq!(run(&accounts, i64::MIN), Err(custom(EscrowError::SolStillLocked)));
    assert!(run(&accounts, CREATED + LOCK).is_ok());
    assert!(run(&accounts, i64::MAX).is_ok());
}

#[test]
fn the_lock_counts_from_the_creation_of_the_sale() {
    // The position was opened ten seconds after the sale; it unlocks with it.
    let accounts = accounts();
    assert!(position().deposit_timestamp + LOCK > CREATED + LOCK);
    assert!(run(&accounts, CREATED + LOCK).is_ok());
}

#[test]
fn an_unlock_time_beyond_the_clock_never_comes() {
    let mut late = sale();
    late.initialization_timestamp = i64::MAX;
    late.lock_duration = i64::MAX;
    let accounts = accounts_for(late, position());
    assert_eq!(run(&accounts, i64::MAX), Err(custom(EscrowError::SolStillLocked)));
}

#[test]
fn a_share_is_withdrawn_once() {
    let mut accounts = accounts();
    let plan = run(&accounts, CREATED + LOCK).unwrap();
    accounts[1].data = plan.global_escrow.to_bytes();
    accounts[2].data = plan.investor.to_bytes();
    accounts[3].lamports -= plan.amount;
    assert_eq!(run(&accounts, CREATED + LOCK), Err(custom(EscrowError::NoSolToWithdraw)));
    assert_eq!(run(&accounts, CREATED + LOCK + 1_000_000), Err(custom(EscrowError::NoSolToWithdraw)));
    // Even with the pool refilled.
    accounts[3].lamports = u64::MAX;
    assert_eq!(run(&accounts, CREATED + LOCK), Err(custom(EscrowError::NoSolToWithdraw)));
}

#[test]
fn a_withdrawal_needs_its_accounts() {
    let mut accounts = accounts();
    assert_eq!(accounts.len(), WITHDRAW_ACCOUNTS);
    accounts.pop();
    assert_eq!(run(&accounts, CREATED + LOCK), Err(ProgramError::NotEnoughAccountKeys));
}

#[test]
fn the_caller_must_sign() {
    let mut accounts = accounts();
    accounts[0].is_signer = false;
    assert_eq!(run(&accounts, CREATED + LOCK), Err(ProgramError::MissingRequiredSignature));
}

#[test]
fn the_position_must_belong_to_the_program() {
    let mut accounts = accounts();
    accounts[2].owner = addr(9);
    assert_eq!(run(&accounts, CREATED + LOCK), Err(custom(EscrowError::InvalidPDA)));
}

#[test]
fn records_must_decode() {
    let mut accounts = self::accounts();
    accounts[1].data.pop();
    assert_eq!(run(&accounts, CREATED + LOCK), Err(ProgramError::BorshIoError));
    let mut accounts = self::accounts();
    accounts[2].data[97] = 9;
    assert_eq!(run(&accounts, CREATED + LOCK), Err(ProgramError::BorshIoError));
}

#[test]
fn only_the_beneficiary_withdraws() {
    let mut accounts = self::accounts();
    accounts[0].key = addr(7);
    assert_eq!(run(&accounts, CREATED + LOCK), Err(custom(EscrowError::Unauthorized)));
    // Nor may the funds go to another wallet.
    let mut accounts = self::accounts();
    accounts[4].key = addr(7);
    assert_eq!(run(&accounts, CREATED + LOCK), Err(custom(EscrowError::Unauthorized)));
}

#[test]
fn the_addresses_must_be_the_derived_ones() {
    let refused = Err(custom(EscrowError::InvalidPDA));
    let mut accounts = self::accounts();
    accounts[2].key = addr(9);
    assert_eq!(run(&accounts, CREATED + LOCK), refused);
    let mut accounts = self::accounts();
    accounts[3].key = addr(9);
    assert_eq!(run(&accounts, CREATED + LOCK), refused);
    // The position names the sale that is passed.
    let mut accounts = self::accounts();
    accounts[1].key = addr(9);
    assert_eq!(run(&accounts, CREATED + LOCK), refused);
}

#[test]
fn the_pool_must_hold_the_share_and_stay_alive() {
    let mut accounts = accounts();
    accounts[3].lamports = 499_999_999;
    assert_eq!(run(&accounts, CREATED + LOCK), Err(custom(EscrowError::NoSolToWithdraw)));
    accounts[3].lamports = 500_000_000;
    assert_eq!(run(&accounts, CREATED + LOCK), Err(custom(EscrowError::NotRentExempt)));
    accounts[3].lamports = 500_000_000 + RENT - 1;
    assert_eq!(run(&accounts, CREATED + LOCK), Err(custom(EscrowError::NotRentExempt)));
    accounts[3].lamports = 500_000_000 + RENT;
    assert_eq!(run(&accounts, CREATED + LOCK).unwrap().amount, 500_000_000);
}

#[test]
fn the_withdrawn_total_must_fit() {
    let mut full = sale();
    full.total_sol_withdrawn = u64::MAX - 499_999_999;
    let accounts = accounts_for(full, position());
    assert_eq!(run(&accounts, CREATED + LOCK), Err(custom(EscrowError::AmountOverflow)));
    full.total_sol_withdrawn = u64::MAX - 500_000_000;
    let accounts = accounts_for(full, position());
    assert_eq!(run(&accounts, CREATED + LOCK).unwrap().global_escrow.total_sol_withdrawn, u64::MAX);
}

#[test]
fn the_withdrawn_status_is_told_before_the_caller() {
    let mut done = position();
    done.status = InvestorStatus::SolWithdrawn;
    let mut accounts = accounts_for(sale(), done);
    accounts[0].key = addr(7);
    assert_eq!(run(&accounts, CREATED + LOCK), Err(custom(EscrowError::NoSolToWithdraw)));
}

#[test]
fn a_withdrawal_with_given_addresses_is_decided_alike() {
    let accounts = accounts();
    let held = find_investor_pda(&addr(7), &addr(8), &program());
    let pool = find_sol_vault_pda(&addr(7), &addr(8), &program());
    assert_eq!(
        plan_withdrawal(&program(), &accounts, CREATED + LOCK, RENT, held, pool),
        run(&accounts, CREATED + LOCK)
    );
    assert_eq!(
        plan_withdrawal(&program(), &accounts, CREATED + LOCK, RENT, None, pool),
        Err(custom(EscrowError::InvalidPDA))
    );
    assert_eq!(
        plan_withdrawal(&program(), &accounts, CREATED + LOCK, RENT, held, Some((addr(9), 1))),
        Err(custom(EscrowError::InvalidPDA))
    );
}

#[test]
fn a_withdrawal_pays_before_it_stores() {
    let accounts = accounts();
    let plan = run(&accounts, CREATED + LOCK).unwrap();
    assert_eq!(
        plan.steps(),
        vec![
            Step::ReleaseLamports { from: accounts[3].key, to: addr(4), amount: 500_000_000 },
            Step::StoreSaleRecord { account: addr(8), record: plan.global_escrow },
            Step::StorePosition { account: accounts[2].key, position: plan.investor },
        ]
    );
}

#[test]
fn a_withdraw_instruction_is_decided_as_the_withdrawal() {
    let accounts = accounts();
    let data = EscrowInstruction::WithdrawLockedSol.to_bytes();
    let host = HostFacts { current_timestamp: CREATED + LOCK, rent_exempt_minimum: RENT, price_round: None };
    assert_eq!(
        process_instruction(&program(), &accounts, &data, &host),
        Ok(Outcome::Withdraw(run(&accounts, CREATED + LOCK).unwrap()))
    );
    let early = HostFacts { current_timestamp: CREATED + LOCK - 1, ..host };
    assert_eq!(
        process_instruction(&program(), &accounts, &data, &early),
        Err(custom(EscrowError::SolStillLocked))
    );
    let dear = HostFacts { rent_exempt_minimum: RENT + 2, ..host };
    assert_eq!(
        process_instruction(&program(), &accounts, &data, &dear),
        Err(custom(EscrowError::NotRentExempt))
    );
}
