use ondrix_escrow::account::{check_derived, AccountView};
use ondrix_escrow::address::{
    find_global_escrow_pda, find_token_vault_pda, Address, CHAINLINK_PROGRAM_ID, SOL_USD_FEED,
    SYSTEM_PROGRAM_ID, TOKEN_PROGRAM_ID,
};
use ondrix_escrow::error::{EscrowError, ProgramError};
use ondrix_escrow::instruction::EscrowInstruction;
use ondrix_escrow::processor::{process_instruction, HostFacts, Outcome};
use ondrix_escrow::state::GlobalEscrow;
use ondrix_escrow::status::EscrowStatus;

const NOW: i64 = 1_700_000_000;

fn addr(n: u8) -> Address {
    Address::new([n; 32])
}

fn program() -> Address {
    addr(42)
}

fn plain(key: Address) -> AccountView {
    AccountView { key, owner: Address::new(SYSTEM_PROGRAM_ID), lamports: 1_000_000_000, is_signer: false, data: vec![] }
}

fn host() -> HostFacts {
    HostFacts { current_timestamp: NOW, rent_exempt_minimum: 890_880, price_round: None }
}

fn sale() -> GlobalEscrow {
    GlobalEscrow {
        is_initialized: true,
        initializer_pubkey: addr(1),
        token_mint_pubkey: addr(2),
        recipient_wallet: addr(4),
        total_tokens_available: 1_000_000,
        tokens_sold: 400_000,
        total_sol_deposited: 55,
        total_sol_withdrawn: 5,
        lock_duration: 3600,
        bump_seed: 254,
        oracle_program_id: addr(5),
        price_feed_pubkey: addr(6),
        min_sol_investment: 1_000_000,
        max_sol_investment: 10_000_000_000_000,
        price_staleness_threshold: 300,
        sale_end_timestamp: NOW,
        initialization_timestamp: NOW - 86_400,
    }
}

fn sale_account() -> AccountView {
    let mut record = plain(addr(8));
    record.owner = program();
    record.data = sale().to_bytes();
    record
}

#[test]
fn bytes_that_are_no_instruction_are_refused() {
    let refused = Err(ProgramError::from(EscrowError::InvalidInstruction));
    assert_eq!(process_instruction(&program(), &vec![], &[], &host()), refused);
    assert_eq!(process_instruction(&program(), &vec![], &[9], &host()), refused);
    assert_eq!(process_instruction(&program(), &vec![], &[3, 0], &host()), refused);
    assert_eq!(process_instruction(&program(), &vec![sale_account(), plain(addr(9))], &[1, 2, 3], &host()), refused);
}

#[test]
fn a_status_instruction_reads_the_sale() {
    let accounts = vec![sale_account(), plain(addr(9))];
    let data = EscrowInstruction::GetEscrowStatus.to_bytes();
    assert_eq!(
        process_instruction(&program(), &accounts, &data, &host()),
        Ok(Outcome::Status(EscrowStatus {
            is_initialized: true,
            total_tokens_available: 1_000_000,
            tokens_sold: 400_000,
            total_sol_deposited: 55,
            total_sol_withdrawn: 5,
            lock_duration: 3600,
        }))
    );
}

#[test]
fn an_initialize_instruction_creates_the_sale() {
    let (record, bump) = find_global_escrow_pda(&addr(1), &addr(2), &program()).unwrap();
    let (vault, _) = find_token_vault_pda(&record, &program()).unwrap();
    let mut operator = plain(addr(1));
    operator.is_signer = true;
    let accounts = vec![
        operator,
        plain(record),
        plain(addr(2)),
        plain(vault),
        plain(addr(3)),
        plain(addr(4)),
        plain(Address::new(TOKEN_PROGRAM_ID)),
        plain(addr(5)),
        plain(Address::new(SYSTEM_PROGRAM_ID)),
        plain(Address::new(CHAINLINK_PROGRAM_ID)),
        plain(Address::new(SOL_USD_FEED)),
    ];
    let data = EscrowInstruction::InitializeEscrow {
        token_amount: 1_000_000,
        lock_duration: 3600,
        sale_end_timestamp: NOW + 10,
        min_sol_investment: 1,
        max_sol_investment: 2,
        price_staleness_threshold: 3,
    }
    .to_bytes();
    match process_instruction(&program(), &accounts, &data, &host()) {
        Ok(Outcome::Initialize(plan)) => {
            assert_eq!(plan.token_amount, 1_000_000);
            assert_eq!(plan.global_escrow.bump_seed, bump);
            assert_eq!(plan.global_escrow.initialization_timestamp, NOW);
            assert_eq!(plan.global_escrow.sale_end_timestamp, NOW + 10);
            assert_eq!(plan.global_escrow.price_staleness_threshold, 3);
        }
        other => panic!("unexpected outcome: {:?}", other),
    }
}

#[test]
fn a_close_instruction_reclaims_the_unsold_tokens() {
    let mut beneficiary = plain(addr(4));
    beneficiary.is_signer = true;
    let (vault, _) = find_token_vault_pda(&addr(8), &program()).unwrap();
    let accounts = vec![
        beneficiary,
        sale_account(),
        plain(vault),
        plain(addr(10)),
        plain(Address::new(TOKEN_PROGRAM_ID)),
        plain(addr(9)),
    ];
    let data = EscrowInstruction::CloseSale.to_bytes();
    match process_instruction(&program(), &accounts, &data, &host()) {
        Ok(Outcome::CloseSale(plan)) => assert_eq!(plan.unsold_tokens, 600_000),
        other => panic!("unexpected outcome: {:?}", other),
    }
    let early = HostFacts { current_timestamp: NOW - 1, ..host() };
    assert_eq!(
        process_instruction(&program(), &accounts, &data, &early),
        Err(ProgramError::from(EscrowError::InvalidEscrowStatus))
    );
}

#[test]
fn each_instruction_asks_for_its_own_accounts() {
    let too_few = Err(ProgramError::NotEnoughAccountKeys);
    let one = vec![sale_account()];
    let deposit = EscrowInstruction::DepositSol { sol_amount: 1_000_000_000 }.to_bytes();
    assert_eq!(process_instruction(&program(), &one, &deposit, &host()), too_few);
    assert_eq!(process_instruction(&program(), &one, &EscrowInstruction::WithdrawLockedSol.to_bytes(), &host()), too_few);
    assert_eq!(process_instruction(&program(), &one, &EscrowInstruction::GetEscrowStatus.to_bytes(), &host()), too_few);
    assert_eq!(process_instruction(&program(), &one, &EscrowInstruction::CloseSale.to_bytes(), &host()), too_few);
    let six = vec![sale_account(), sale_account(), sale_account(), sale_account(), sale_account(), sale_account()];
    // Six accounts are enough to close a sale, not to withdraw from one.
    assert_eq!(
        process_instruction(&program(), &six, &EscrowInstruction::CloseSale.to_bytes(), &host()),
        Err(ProgramError::MissingRequiredSignature)
    );
    assert_eq!(process_instruction(&program(), &six, &EscrowInstruction::WithdrawLockedSol.to_bytes(), &host()), too_few);
}

#[test]
fn a_supplied_address_is_held_against_the_derived_one() {
    let refused = Err(ProgramError::from(EscrowError::InvalidPDA));
    assert_eq!(check_derived(&Some((addr(1), 250)), &addr(1)), Ok(250));
    assert_eq!(check_derived(&Some((addr(1), 250)), &addr(2)), refused);
    assert_eq!(check_derived(&None, &addr(1)), refused);
}
