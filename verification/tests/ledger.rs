use ondrix_escrow::account::AccountView;
use ondrix_escrow::address::{
    find_associated_token_address, find_global_escrow_pda, find_investor_pda,
    find_sol_vault_pda, find_token_vault_pda, Address, ASSOCIATED_TOKEN_PROGRAM_ID,
    CHAINLINK_PROGRAM_ID, SOL_USD_FEED, SYSTEM_PROGRAM_ID, TOKEN_PROGRAM_ID,
};
use ondrix_escrow::close_sale::process_close_sale;
use ondrix_escrow::deposit::process_deposit_sol;
use ondrix_escrow::error::{EscrowError, ProgramError};
use ondrix_escrow::initialize::process_initialize_escrow;
use ondrix_escrow::oracle::PriceRound;
use ondrix_escrow::state::{GlobalEscrow, InvestorAccount, InvestorStatus};
use ondrix_escrow::withdraw::process_withdraw_locked_sol;
use solana_program::program_option::COption;
use solana_program::program_pack::Pack;
use solana_program::pubkey::Pubkey;

const CREATED: i64 = 1_700_000_000;
const LOCK: i64 = 3600;
const RENT: u64 = 890_880;

fn addr(n: u8) -> Address {
    Address::new([n; 32])
}

fn program() -> Address {
    addr(42)
}

fn operator() -> Address {
    addr(1)
}

fn mint() -> Address {
    addr(2)
}

fn beneficiary() -> Address {
    addr(4)
}

fn plain(key: Address) -> AccountView {
    AccountView { key, owner: Address::new(SYSTEM_PROGRAM_ID), lamports: 0, is_signer: false, data: vec![] }
}

fn signer(key: Address) -> AccountView {
    AccountView { is_signer: true, ..plain(key) }
}

/// The accounts of one sale as a host would keep them.
struct World {
    sale_key: Address,
    sale: Vec<u8>,
    investors: Vec<Address>,
    positions: Vec<Option<Vec<u8>>>,
    pools: Vec<u64>,
    paid_out: u64,
}

fn token_bytes(owner: Address) -> Vec<u8> {
    let account = spl_token::state::Account {
        mint: Pubkey::new_from_array(mint().bytes),
        owner: Pubkey::new_from_array(owner.bytes),
        amount: 0,
        delegate: COption::None,
        state: spl_token::state::AccountState::Initialized,
        is_native: COption::None,
        delegated_amount: 0,
        close_authority: COption::None,
    };
    let mut bytes = vec![0u8; 165];
    spl_token::state::Account::pack(account, &mut bytes).unwrap();
    bytes
}

impl World {
    fn create(investors: Vec<Address>) -> World {
        let (sale_key, _) = find_global_escrow_pda(&operator(), &mint(), &program()).unwrap();
        let (vault, _) = find_token_vault_pda(&sale_key, &program()).unwrap();
        let accounts = vec![
            signer(operator()),
            plain(sale_key),
            plain(mint()),
            plain(vault),
            plain(addr(3)),
            plain(beneficiary()),
            plain(Address::new(TOKEN_PROGRAM_ID)),
            plain(Address::new(ASSOCIATED_TOKEN_PROGRAM_ID)),
            plain(Address::new(SYSTEM_PROGRAM_ID)),
            plain(Address::new(CHAINLINK_PROGRAM_ID)),
            plain(Address::new(SOL_USD_FEED)),
        ];
        let plan = process_initialize_escrow(
            &program(),
            &accounts,
            100_000_000_000_000,
            LOCK,
            CREATED + 86_400,
            1_000_000,
            10_000_000_000,
            300,
            CREATED,
        )
        .unwrap();
        let count = investors.len();
        World {
            sale_key,
            sale: plan.global_escrow.to_bytes(),
            investors,
            positions: vec![None; count],
            pools: vec![0; count],
            paid_out: 0,
        }
    }

    fn record(&self) -> GlobalEscrow {
        GlobalEscrow::try_from_slice(&self.sale).unwrap()
    }

    fn position(&self, who: usize) -> Option<InvestorAccount> {
        self.positions[who].as_ref().map(|bytes| InvestorAccount::try_from_slice(bytes).unwrap())
    }

    fn sale_account(&self) -> AccountView {
        AccountView { owner: program(), data: self.sale.clone(), ..plain(self.sale_key) }
    }

    fn position_account(&self, who: usize) -> AccountView {
        let (key, _) = find_investor_pda(&self.investors[who], &self.sale_key, &program()).unwrap();
        match &self.positions[who] {
            Some(bytes) => AccountView { owner: program(), data: bytes.clone(), ..plain(key) },
            None => plain(key),
        }
    }

    fn pool_account(&self, who: usize) -> AccountView {
        let (key, _) = find_sol_vault_pda(&self.investors[who], &self.sale_key, &program()).unwrap();
        if self.positions[who].is_some() {
            AccountView { owner: program(), lamports: self.pools[who], ..plain(key) }
        } else {
            plain(key)
        }
    }

    fn deposit(&mut self, who: usize, amount: u64, now: i64) -> Result<u64, ProgramError> {
        let investor = self.investors[who];
        let (vault, _) = find_token_vault_pda(&self.sale_key, &program()).unwrap();
        let wallet = find_associated_token_address(&investor, &mint()).unwrap();
        let accounts = vec![
            signer(investor),
            self.sale_account(),
            self.position_account(who),
            self.pool_account(who),
            plain(vault),
            AccountView { owner: Address::new(TOKEN_PROGRAM_ID), data: token_bytes(investor), ..plain(wallet) },
            plain(beneficiary()),
            plain(Address::new(TOKEN_PROGRAM_ID)),
            plain(Address::new(CHAINLINK_PROGRAM_ID)),
            plain(Address::new(SOL_USD_FEED)),
            plain(Address::new(SYSTEM_PROGRAM_ID)),
            plain(addr(20)),
            plain(mint()),
            plain(Address::new(ASSOCIATED_TOKEN_PROGRAM_ID)),
            plain(addr(21)),
        ];
        let round = Some(PriceRound { round_id: 1, slot: 1, timestamp: now as u32, answer: 10_000_000_000 });
        let plan = process_deposit_sol(&program(), &accounts, amount, round, now)?;
        if plan.create_sol_vault {
            self.pools[who] = RENT;
        }
        self.pools[who] += plan.sol_to_lock;
        self.sale = plan.global_escrow.to_bytes();
        self.positions[who] = Some(plan.investor.to_bytes());
        Ok(plan.tokens_to_receive)
    }

    fn withdraw(&mut self, who: usize, now: i64) -> Result<u64, ProgramError> {
        let accounts = vec![
            signer(beneficiary()),
            self.sale_account(),
            self.position_account(who),
            self.pool_account(who),
            plain(beneficiary()),
            plain(Address::new(SYSTEM_PROGRAM_ID)),
            plain(addr(20)),
        ];
        let plan = process_withdraw_locked_sol(&program(), &accounts, now, RENT)?;
        self.pools[who] -= plan.amount;
        self.paid_out += plan.amount;
        self.sale = plan.global_escrow.to_bytes();
        self.positions[who] = Some(plan.investor.to_bytes());
        Ok(plan.amount)
    }

    fn close(&mut self, now: i64) -> Result<u64, ProgramError> {
        let (vault, _) = find_token_vault_pda(&self.sale_key, &program()).unwrap();
        let accounts = vec![
            signer(beneficiary()),
            self.sale_account(),
            plain(vault),
            plain(addr(30)),
            plain(Address::new(TOKEN_PROGRAM_ID)),
            plain(addr(20)),
        ];
        let plan = process_close_sale(&program(), &accounts, now)?;
        self.sale = plan.global_escrow.to_bytes();
        Ok(plan.unsold_tokens)
    }

    /// What holds of the totals after every operation.
    fn check(&self) {
        let sale = self.record();
        let positions: Vec<InvestorAccount> = (0..self.investors.len()).filter_map(|who| self.position(who)).collect();
        let deposited: u64 = positions.iter().map(|p| p.sol_deposited).sum();
        let issued: u64 = positions.iter().map(|p| p.tokens_received).sum();
        assert!(sale.tokens_sold <= sale.total_tokens_available);
        assert_eq!(sale.tokens_sold, issued);
        assert_eq!(sale.total_sol_deposited, deposited);
        assert_eq!(sale.total_sol_withdrawn, self.paid_out);
        assert!(sale.total_sol_withdrawn <= sale.total_sol_deposited / 2);
        for position in positions {
            assert!(position.sol_deposited >= sale.min_sol_investment);
            assert!(position.sol_deposited <= sale.max_sol_investment);
            assert_ne!(position.status, InvestorStatus::Uninitialized);
        }
        assert!(sale.is_initialized);
        assert_eq!(sale.lock_duration, LOCK);
        assert_eq!(sale.oracle_program_id, Address::new(CHAINLINK_PROGRAM_ID));
        assert_eq!(sale.price_feed_pubkey, Address::new(SOL_USD_FEED));
        assert_eq!(sale.recipient_wallet, beneficiary());
    }
}

#[test]
fn the_totals_follow_the_positions_through_a_sale() {
    let mut world = World::create(vec![addr(11), addr(12), addr(13)]);
    world.check();
    // At $100 a payment of 100_000 lamports is a cent, and a cent buys a
    // tenth of a token.
    assert_eq!(world.deposit(0, 1_000_000_001, CREATED + 10), Ok(1_000_000_000_000));
    world.check();
    assert_eq!(world.deposit(1, 3_000_000, CREATED + 20), Ok(3_000_000_000));
    world.check();
    assert_eq!(world.deposit(0, 7_000_000, CREATED + 30), Ok(7_000_000_000));
    world.check();
    assert_eq!(world.withdraw(0, CREATED + LOCK - 1), Err(ProgramError::from(EscrowError::SolStillLocked)));
    world.check();
    assert_eq!(world.withdraw(0, CREATED + LOCK), Ok(503_500_000));
    world.check();
    assert_eq!(world.withdraw(0, CREATED + LOCK), Err(ProgramError::from(EscrowError::NoSolToWithdraw)));
    world.check();
    // A position that was paid out may pay in again and stays paid out.
    assert_eq!(world.deposit(0, 5_000_000, CREATED + LOCK + 5), Ok(5_000_000_000));
    world.check();
    assert_eq!(world.position(0).unwrap().status, InvestorStatus::SolWithdrawn);
    assert_eq!(world.withdraw(0, CREATED + LOCK + 10), Err(ProgramError::from(EscrowError::NoSolToWithdraw)));
    assert_eq!(world.withdraw(1, CREATED + LOCK + 10), Ok(1_500_000));
    world.check();
    // An investor without a position has nothing to withdraw from.
    assert_eq!(world.withdraw(2, CREATED + LOCK + 10), Err(ProgramError::from(EscrowError::InvalidPDA)));
    assert_eq!(world.deposit(2, 10_000_000_001, CREATED + LOCK + 20), Err(ProgramError::from(EscrowError::InvestmentExceedsMaximum)));
    assert_eq!(world.deposit(2, 10_000_000_000, CREATED + LOCK + 20), Ok(10_000_000_000_000));
    world.check();
    assert_eq!(world.withdraw(2, CREATED + LOCK + 30), Ok(5_000_000_000));
    world.check();
    let sale = world.record();
    assert_eq!(sale.total_sol_deposited, 11_015_000_001);
    assert_eq!(sale.total_sol_withdrawn, 5_505_000_000);
    assert_eq!(sale.tokens_sold, 11_015_000_000_000);
    // The sale ends: the unsold tokens are reclaimed once, and no more are
    // sold.
    let end = CREATED + 86_400;
    assert_eq!(world.close(end - 1), Err(ProgramError::from(EscrowError::InvalidEscrowStatus)));
    assert_eq!(world.close(end), Ok(100_000_000_000_000 - 11_015_000_000_000));
    world.check();
    assert_eq!(world.close(end), Err(ProgramError::from(EscrowError::NotEnoughTokens)));
    assert_eq!(world.close(end + 1), Err(ProgramError::from(EscrowError::NotEnoughTokens)));
    assert_eq!(world.deposit(1, 3_000_000, end + 2), Err(ProgramError::from(EscrowError::NotEnoughTokens)));
    world.check();
    let closed = world.record();
    assert_eq!(closed.tokens_sold, 11_015_000_000_000);
    assert_eq!(closed.total_tokens_available, 11_015_000_000_000);
    assert_eq!(closed.total_sol_deposited, 11_015_000_001);
}

#[test]
fn the_offer_bounds_the_sale() {
    let mut world = World::create(vec![addr(11), addr(12)]);
    let mut sale = world.record();
    sale.total_tokens_available = 10_000_000_000;
    world.sale = sale.to_bytes();
    assert_eq!(world.deposit(0, 6_000_000, CREATED + 10), Ok(6_000_000_000));
    assert_eq!(world.deposit(1, 4_100_000, CREATED + 10), Err(ProgramError::from(EscrowError::NotEnoughTokens)));
    assert_eq!(world.deposit(1, 4_099_999, CREATED + 10), Ok(4_000_000_000));
    world.check();
    assert_eq!(world.record().tokens_sold, 10_000_000_000);
    assert_eq!(world.deposit(0, 1_000_000, CREATED + 20), Err(ProgramError::from(EscrowError::NotEnoughTokens)));
    world.check();
}
