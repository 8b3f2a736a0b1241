//! The oracle adapter: which price reading a sale accepts.

use vstd::prelude::*;
use crate::address::Address;
use crate::error::{EscrowError, ProgramError, escrow_failure};
use crate::state::GlobalEscrow;

verus! {

/// One reading of the price feed, as the oracle program reports it.
#[derive(Debug, Clone, Copy, PartialEq, Eq, Structural)]
pub struct PriceRound {
    pub round_id: u32,
    /// Slot in which the report reached the chain.
    pub slot: u64,
    /// When the oracle observed the price, in seconds.
    pub timestamp: u32,
    /// The price, with the feed's decimal places.
    pub answer: i128,
}

/// Whether an answer is a price that the escrow can take: positive, and
/// within 64 bits.
pub open spec fn is_price(answer: i128) -> bool {
    0 < answer <= u64::MAX
}

/// Whether a reading observed at `observed_at` is too old at `now` for a
/// bound of `threshold` seconds.
pub open spec fn is_stale(now: i64, observed_at: u32, threshold: u64) -> bool {
    now - observed_at > threshold as int
}

/// The price and observation time that a sale takes from a reading, or why
/// it takes none. The first condition that fails decides the error:
///
/// - the oracle program or the feed is not the one that the sale was bound
///   to at creation: `InvalidPriceFeed`;
/// - no reading was obtained: `InvalidPriceFeed`;
/// - the reading is older than the sale's bound: `StalePriceData`;
/// - the answer is zero, negative or beyond 64 bits: `InvalidPriceFeed`.
///
/// The price is the answer as it was reported.
pub open spec fn spec_chainlink_price(
    price_feed: Address,
    oracle_program: Address,
    global_escrow: GlobalEscrow,
    round: Option<PriceRound>,
    current_timestamp: i64,
) -> Result<(u64, i64), ProgramError> {
    if oracle_program != global_escrow.oracle_program_id {
        Err(escrow_failure(EscrowError::InvalidPriceFeed))
    } else if price_feed != global_escrow.price_feed_pubkey {
        Err(escrow_failure(EscrowError::InvalidPriceFeed))
    } else if round is None {
        Err(escrow_failure(EscrowError::InvalidPriceFeed))
    } else if is_stale(
        current_timestamp,
        round->Some_0.timestamp,
        global_escrow.price_staleness_threshold,
    ) {
        Err(escrow_failure(EscrowError::StalePriceData))
    } else if !is_price(round->Some_0.answer) {
        Err(escrow_failure(EscrowError::InvalidPriceFeed))
    } else {
        Ok((round->Some_0.answer as u64, round->Some_0.timestamp as i64))
    }
}

/// Validates a reading of the price feed against the sale's binding and
/// returns its price and observation time. `round` is what the oracle
/// program returned for the feed, `None` where the read failed.
pub fn get_chainlink_price(
    price_feed: &Address,
    oracle_program: &Address,
    global_escrow: &GlobalEscrow,
    round: Option<PriceRound>,
    current_timestamp: i64,
) -> (res: Result<(u64, i64), ProgramError>)
    ensures
        res == spec_chainlink_price(
            *price_feed,
            *oracle_program,
            *global_escrow,
            round,
            current_timestamp,
        ),
        res matches Ok((price, observed_at)) ==> ({
            &&& round matches Some(reading) && price == reading.answer && observed_at
                == reading.timestamp
            &&& price > 0
            &&& current_timestamp - observed_at <= global_escrow.price_staleness_threshold
        }),
{
    let invalid: ProgramError = ProgramError::Custom(EscrowError::InvalidPriceFeed.code());
    if *oracle_program != global_escrow.oracle_program_id {
        return Err(invalid);
    }
    if *price_feed != global_escrow.price_feed_pubkey {
        return Err(invalid);
    }
    let round: PriceRound = match round {
        Some(round) => round,
        None => {
            return Err(invalid);
        },
    };
    let age: i128 = current_timestamp as i128 - round.timestamp as i128;
    if age > global_escrow.price_staleness_threshold as i128 {
        return Err(ProgramError::Custom(EscrowError::StalePriceData.code()));
    }
    if round.answer <= 0 || round.answer > u64::MAX as i128 {
        return Err(invalid);
    }
    Ok((round.answer as u64, round.timestamp as i64))
}

} // verus!
