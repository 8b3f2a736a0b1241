//! Fixed-point pricing: how many sale tokens a payment buys at an oracle
//! price.

use vstd::prelude::*;
use crate::error::{EscrowError, ProgramError, escrow_failure};

verus! {

/// Price of one sale token, in US cents.
pub const TOKEN_PRICE_USD_CENTS: u64 = 10;

/// Cents in one US dollar.
pub const USD_CENTS_SCALE: u64 = 100;

/// Decimal places of the oracle's USD price.
pub const CHAINLINK_USD_DECIMALS: u8 = 8;

/// Decimal places of the sale token.
pub const TOKEN_DECIMALS: u8 = 9;

/// Lamports in one SOL.
pub const SOL_LAMPORTS: u64 = 1_000_000_000;

/// Default bound on the age of a price, in seconds.
pub const PRICE_STALENESS_THRESHOLD: u64 = 300;

/// Default smallest payment, in lamports.
pub const MIN_SOL_INVESTMENT_LAMPORTS: u64 = 1_000_000;

/// Default largest cumulative payment of one investor, in lamports.
pub const MAX_SOL_INVESTMENT_LAMPORTS: u64 = 10_000_000_000_000;

/// Oracle price units in one cent: the price carries
/// `CHAINLINK_USD_DECIMALS` places, a cent carries two.
pub const PRICE_UNITS_PER_CENT: u64 = 1_000_000;

/// Smallest token units in one sale token: ten to the `TOKEN_DECIMALS`.
pub const TOKEN_UNIT: u64 = 1_000_000_000;

/// `a * b / c`, rounded toward zero, over the unbounded naturals.
pub open spec fn mul_div(a: nat, b: nat, c: nat) -> nat
    recommends
        c > 0,
{
    (a * b) / c
}

/// What [`checked_mul_div`] returns: the quotient where the divisor is not
/// zero and the quotient fits 64 bits, `AmountOverflow` otherwise.
pub open spec fn spec_checked_mul_div(a: u64, b: u64, c: u64) -> Result<u64, ProgramError> {
    if c != 0 && mul_div(a as nat, b as nat, c as nat) <= u64::MAX {
        Ok(mul_div(a as nat, b as nat, c as nat) as u64)
    } else {
        Err(escrow_failure(EscrowError::AmountOverflow))
    }
}

/// Value of a payment in oracle price units: lamports times price, per SOL.
pub open spec fn payment_value(lamports: nat, price: nat) -> nat {
    mul_div(lamports, price, SOL_LAMPORTS as nat)
}

/// Value of a payment in whole US cents.
pub open spec fn payment_cents(lamports: nat, price: nat) -> nat {
    payment_value(lamports, price) / (PRICE_UNITS_PER_CENT as nat)
}

/// Smallest token units that a payment buys, each step rounded toward zero.
pub open spec fn token_quantity(lamports: nat, price: nat) -> nat {
    mul_div(payment_cents(lamports, price), TOKEN_UNIT as nat, TOKEN_PRICE_USD_CENTS as nat)
}

/// What [`calculate_tokens_for_sol`] returns: the token quantity where it
/// fits 64 bits, `AmountOverflow` otherwise. No step is lost by looking at
/// the last one only: where the value of the payment does not fit 64 bits,
/// neither does the token quantity ([`lemma_value_overflow_is_token_overflow`]).
pub open spec fn spec_calculate_tokens_for_sol(lamports: u64, price: u64) -> Result<
    u64,
    ProgramError,
> {
    if token_quantity(lamports as nat, price as nat) <= u64::MAX {
        Ok(token_quantity(lamports as nat, price as nat) as u64)
    } else {
        Err(escrow_failure(EscrowError::AmountOverflow))
    }
}

/// The product of two 64-bit values fits 128 bits.
proof fn lemma_product_fits(a: u64, b: u64)
    ensures
        a * b <= u128::MAX,
        a * b >= 0,
{
    assert(a * b <= 0xffff_ffff_ffff_ffff * 0xffff_ffff_ffff_ffff) by (nonlinear_arith)
        requires
            0 <= a <= 0xffff_ffff_ffff_ffff,
            0 <= b <= 0xffff_ffff_ffff_ffff,
    ;
    assert(a * b >= 0) by (nonlinear_arith)
        requires
            0 <= a,
            0 <= b,
    ;
}

/// `a * b / c` with a 128-bit intermediate product.
pub fn checked_mul_div(a: u64, b: u64, c: u64) -> (res: Result<u64, ProgramError>)
    ensures
        res == spec_checked_mul_div(a, b, c),
{
    proof {
        lemma_product_fits(a, b);
    }
    let overflow: ProgramError = ProgramError::Custom(EscrowError::AmountOverflow.code());
    let product: u128 = match (a as u128).checked_mul(b as u128) {
        Some(p) => p,
        None => {
            return Err(overflow);
        },
    };
    if c == 0 {
        return Err(overflow);
    }
    let quotient: u128 = product / (c as u128);
    if quotient > u64::MAX as u128 {
        Err(overflow)
    } else {
        Ok(quotient as u64)
    }
}

/// Tokens for a payment of `sol_amount_lamports` at `sol_usd_price`, the
/// price of one SOL in USD with `CHAINLINK_USD_DECIMALS` places.
pub fn calculate_tokens_for_sol(sol_amount_lamports: u64, sol_usd_price: u64) -> (res: Result<
    u64,
    ProgramError,
>)
    ensures
        res == spec_calculate_tokens_for_sol(sol_amount_lamports, sol_usd_price),
{
    let sol_value_usd: u64 = match checked_mul_div(sol_amount_lamports, sol_usd_price, SOL_LAMPORTS) {
        Ok(v) => v,
        Err(e) => {
            return Err(e);
        },
    };
    let sol_value_cents: u64 = sol_value_usd / PRICE_UNITS_PER_CENT;
    checked_mul_div(sol_value_cents, TOKEN_UNIT, TOKEN_PRICE_USD_CENTS)
}

/// A payment whose value in oracle price units does not fit 64 bits buys
/// more tokens than fit 64 bits: a cent is worth fewer price units than a
/// cent's worth of tokens has token units.
pub proof fn lemma_value_overflow_is_token_overflow(lamports: nat, price: nat)
    requires
        payment_value(lamports, price) > u64::MAX,
    ensures
        token_quantity(lamports, price) > u64::MAX,
{
}

/// The token quantity does not decrease when the payment or the price grows.
pub proof fn lemma_token_quantity_monotonic(
    payment: nat,
    price: nat,
    larger_payment: nat,
    higher_price: nat,
)
    requires
        payment <= larger_payment,
        price <= higher_price,
    ensures
        token_quantity(payment, price) <= token_quantity(larger_payment, higher_price),
{
    assert(payment * price <= larger_payment * higher_price) by (nonlinear_arith)
        requires
            payment <= larger_payment,
            price <= higher_price,
    ;
    let cents = payment_cents(payment, price);
    let more_cents = payment_cents(larger_payment, higher_price);
    assert(cents <= more_cents);
    assert(cents * (TOKEN_UNIT as nat) <= more_cents * (TOKEN_UNIT as nat));
}

/// For a fixed price, a payment at least as large buys at least as many
/// tokens: where the larger payment is priced, so is the smaller, and for no
/// more tokens.
pub proof fn lemma_tokens_monotonic_in_payment(smaller: u64, larger: u64, price: u64)
    requires
        smaller <= larger,
        spec_calculate_tokens_for_sol(larger, price) is Ok,
    ensures
        spec_calculate_tokens_for_sol(smaller, price) is Ok,
        spec_calculate_tokens_for_sol(smaller, price)->Ok_0 <= spec_calculate_tokens_for_sol(
            larger,
            price,
        )->Ok_0,
{
    lemma_token_quantity_monotonic(smaller as nat, price as nat, larger as nat, price as nat);
}

/// For a fixed payment, a price at least as high buys at least as many
/// tokens: where the higher price is accepted, so is the lower, and for no
/// more tokens.
pub proof fn lemma_tokens_monotonic_in_price(lamports: u64, lower: u64, higher: u64)
    requires
        lower <= higher,
        spec_calculate_tokens_for_sol(lamports, higher) is Ok,
    ensures
        spec_calculate_tokens_for_sol(lamports, lower) is Ok,
        spec_calculate_tokens_for_sol(lamports, lower)->Ok_0 <= spec_calculate_tokens_for_sol(
            lamports,
            higher,
        )->Ok_0,
{
    lemma_token_quantity_monotonic(lamports as nat, lower as nat, lamports as nat, higher as nat);
}

/// Rounding is toward zero at every step, so the tokens issued are never
/// worth more than the payment: tokens times the token price, in oracle
/// price units per SOL, is at most lamports times price times the token unit.
pub proof fn lemma_token_quantity_never_overcounts(lamports: nat, price: nat)
    ensures
        token_quantity(lamports, price) * TOKEN_PRICE_USD_CENTS * PRICE_UNITS_PER_CENT
            * SOL_LAMPORTS <= lamports * price * TOKEN_UNIT,
{
    let product = lamports * price;
    let value = payment_value(lamports, price);
    let cents = payment_cents(lamports, price);
    let tokens = token_quantity(lamports, price);
    assert(value * 1_000_000_000 <= product);
    assert(cents * 1_000_000 <= value);
    assert(tokens * 10 <= cents * 1_000_000_000);
    assert(tokens * TOKEN_PRICE_USD_CENTS * PRICE_UNITS_PER_CENT * SOL_LAMPORTS == (tokens * 10)
        * 1_000_000 * 1_000_000_000);
    assert(lamports * price * TOKEN_UNIT == product * 1_000_000_000);
}

} // verus!
