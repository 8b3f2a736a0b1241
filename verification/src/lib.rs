//! Token-sale escrow engine.
//!
//! Investors pay in lamports and receive sale tokens priced from a USD feed.
//! Half of every payment goes to the sale's beneficiary at once; the other
//! half stays locked in a per-investor pool until the sale's unlock time,
//! when the beneficiary may withdraw it. After the sale has ended the
//! beneficiary reclaims the tokens that were not sold.
//!
//! This crate holds the rules of that escrow: pricing, oracle validation,
//! address derivation, the account records with their byte layouts, and the
//! decision behind each operation. It moves no funds itself. The host
//! program reads the accounts, the clock, the rent and the price feed, hands
//! them in as plain values, and takes back a plan whose steps it carries
//! out in order; a refusal leaves nothing to carry out.
//!
//! - [`pricing`]: tokens for a payment at a price.
//! - [`oracle`]: which price reading a sale accepts.
//! - [`address`]: addresses and the derivation of the escrow's own.
//! - [`state`], [`instruction`], [`wire`]: records, instructions, bytes.
//! - [`initialize`], [`deposit`], [`withdraw`], [`close_sale`], [`status`]:
//!   the five operations.
//! - [`processor`]: dispatch of an instruction to its operation.
//! - [`steps`]: the effects that a plan asks of the host.
//! - [`ledger`]: what the operations keep true of a sale and all its
//!   positions together.
//! - [`account`], [`token_account`], [`error`]: the accounts as the host
//!   shows them, the investor's token account, and the failures.

pub mod account;
pub mod address;
pub mod close_sale;
pub mod deposit;
pub mod error;
pub mod initialize;
pub mod instruction;
pub mod ledger;
pub mod oracle;
pub mod pricing;
pub mod processor;
pub mod state;
pub mod status;
pub mod steps;
pub mod token_account;
pub mod wire;
pub mod withdraw;
