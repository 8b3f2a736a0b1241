use ondrix_escrow::address::Address;
use ondrix_escrow::error::{EscrowError, ProgramError};
use ondrix_escrow::oracle::{get_chainlink_price, PriceRound};
use ondrix_escrow::state::GlobalEscrow;

fn addr(n: u8) -> Address {
    Address::new([n; 32])
}

fn sale() -> GlobalEscrow {
    GlobalEscrow {
        is_initialized: true,
        initializer_pubkey: addr(1),
        token_mint_pubkey: addr(2),
        recipient_wallet: addr(3),
        total_tokens_available: 1_000_000_000_000_000_000,
        tokens_sold: 0,
        total_sol_deposited: 0,
        total_sol_withdrawn: 0,
        lock_duration: 3600,
        bump_seed: 254,
        oracle_program_id: addr(4),
        price_feed_pubkey: addr(5),
        min_sol_investment: 1_000_000,
        max_sol_investment: 10_000_000_000_000,
        price_staleness_threshold: 300,
        sale_end_timestamp: 1_800_000_000,
        initialization_timestamp: 1_700_000_000,
    }
}

fn round(answer: i128, timestamp: u32) -> Option<PriceRound> {
    Some(PriceRound { round_id: 1, slot: 2, timestamp, answer })
}

fn invalid() -> ProgramError {
    ProgramError::from(EscrowError::InvalidPriceFeed)
}

#[test]
fn a_fresh_positive_reading_is_taken() {
    let res = get_chainlink_price(&addr(5), &addr(4), &sale(), round(21_700_000_000, 1_700_000_000), 1_700_000_100);
    assert_eq!(res, Ok((21_700_000_000, 1_700_000_000)));
}

#[test]
fn another_oracle_program_is_refused() {
    let res = get_chainlink_price(&addr(5), &addr(9), &sale(), round(21_700_000_000, 1_700_000_000), 1_700_000_100);
    assert_eq!(res, Err(invalid()));
}

#[test]
fn another_feed_is_refused() {
    let res = get_chainlink_price(&addr(9), &addr(4), &sale(), round(21_700_000_000, 1_700_000_000), 1_700_000_100);
    assert_eq!(res, Err(invalid()));
}

#[test]
fn a_failed_read_is_refused() {
    let res = get_chainlink_price(&addr(5), &addr(4), &sale(), None, 1_700_000_100);
    assert_eq!(res, Err(invalid()));
}

#[test]
fn a_reading_is_stale_beyond_the_bound() {
    let stale = Err(ProgramError::from(EscrowError::StalePriceData));
    let at = 1_700_000_000u32;
    let reading = round(21_700_000_000, at);
    assert_eq!(
        get_chainlink_price(&addr(5), &addr(4), &sale(), reading, at as i64 + 300),
        Ok((21_700_000_000, at as i64))
    );
    assert_eq!(get_chainlink_price(&addr(5), &addr(4), &sale(), reading, at as i64 + 301), stale);
    assert_eq!(get_chainlink_price(&addr(5), &addr(4), &sale(), reading, i64::MAX), stale);
}

#[test]
fn a_reading_from_the_future_is_not_stale() {
    let reading = round(21_700_000_000, u32::MAX);
    assert_eq!(
        get_chainlink_price(&addr(5), &addr(4), &sale(), reading, i64::MIN),
        Ok((21_700_000_000, u32::MAX as i64))
    );
}

#[test]
fn the_bound_is_compared_without_wrapping() {
    let mut config = sale();
    config.price_staleness_threshold = u64::MAX;
    let reading = round(1, 0);
    assert_eq!(get_chainlink_price(&addr(5), &addr(4), &config, reading, i64::MAX), Ok((1, 0)));
    config.price_staleness_threshold = 0;
    assert_eq!(get_chainlink_price(&addr(5), &addr(4), &config, reading, 0), Ok((1, 0)));
    assert_eq!(
        get_chainlink_price(&addr(5), &addr(4), &config, reading, 1),
        Err(ProgramError::from(EscrowError::StalePriceData))
    );
}

#[test]
fn a_price_must_be_positive() {
    let now = 1_700_000_100;
    assert_eq!(get_chainlink_price(&addr(5), &addr(4), &sale(), round(0, 1_700_000_000), now), Err(invalid()));
    assert_eq!(get_chainlink_price(&addr(5), &addr(4), &sale(), round(-1, 1_700_000_000), now), Err(invalid()));
    assert_eq!(get_chainlink_price(&addr(5), &addr(4), &sale(), round(i128::MIN, 1_700_000_000), now), Err(invalid()));
    assert_eq!(get_chainlink_price(&addr(5), &addr(4), &sale(), round(1, 1_700_000_000), now), Ok((1, 1_700_000_000)));
}

#[test]
fn staleness_is_told_before_the_sign_of_the_price() {
    let res = get_chainlink_price(&addr(5), &addr(4), &sale(), round(-1, 0), 1_700_000_100);
    assert_eq!(res, Err(ProgramError::from(EscrowError::StalePriceData)));
}

#[test]
fn a_price_beyond_64_bits_is_refused() {
    let now = 1_700_000_100;
    let at = 1_700_000_000;
    assert_eq!(
        get_chainlink_price(&addr(5), &addr(4), &sale(), round(u64::MAX as i128, at), now),
        Ok((u64::MAX, at as i64))
    );
    assert_eq!(
        get_chainlink_price(&addr(5), &addr(4), &sale(), round(1i128 << 64, at), now),
        Err(invalid())
    );
    assert_eq!(
        get_chainlink_price(&addr(5), &addr(4), &sale(), round((1i128 << 64) + 5, at), now),
        Err(invalid())
    );
    assert_eq!(
        get_chainlink_price(&addr(5), &addr(4), &sale(), round(i128::MAX, at), now),
        Err(invalid())
    );
}
