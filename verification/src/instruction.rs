//! The five operations of the escrow and their instruction bytes.

use vstd::prelude::*;
use vstd::bytes::spec_u64_to_le_bytes;
use crate::error::ProgramError;
use crate::wire::{
    lemma_i64_u64_casts, lemma_u64_bytes_round_trip, lemma_u64_round_trip, read_i64, read_u64,
    spec_i64_to_le_bytes, spec_read_i64, spec_read_u64, write_i64, write_u64,
};

verus! {

/// Bytes of an `InitializeEscrow` instruction: the tag and six fields.
pub const INITIALIZE_ESCROW_LEN: usize = 49;

/// Bytes of a `DepositSol` instruction: the tag and the amount.
pub const DEPOSIT_SOL_LEN: usize = 9;

/// An operation of the escrow. The accounts of each are passed in the
/// order that its processing function documents.
#[derive(Debug, Clone, Copy, PartialEq, Eq, Structural)]
pub enum EscrowInstruction {
    /// Create the sale and move the offered tokens into the token vault.
    InitializeEscrow {
        token_amount: u64,
        lock_duration: i64,
        sale_end_timestamp: i64,
        min_sol_investment: u64,
        max_sol_investment: u64,
        price_staleness_threshold: u64,
    },
    /// Pay lamports and receive tokens at the oracle price.
    DepositSol { sol_amount: u64 },
    /// Pay an investor's locked share out to the beneficiary.
    WithdrawLockedSol,
    /// Read the sale's totals.
    GetEscrowStatus,
    /// Reclaim the unsold tokens after the sale has ended.
    CloseSale,
}

impl EscrowInstruction {
    /// The instruction bytes: a tag byte for the operation, then its fields
    /// in order, low byte first.
    pub open spec fn spec_encode(self) -> Seq<u8> {
        match self {
            EscrowInstruction::InitializeEscrow {
                token_amount,
                lock_duration,
                sale_end_timestamp,
                min_sol_investment,
                max_sol_investment,
                price_staleness_threshold,
            } => seq![0u8] + spec_u64_to_le_bytes(token_amount) + spec_i64_to_le_bytes(
                lock_duration,
            ) + spec_i64_to_le_bytes(sale_end_timestamp) + spec_u64_to_le_bytes(
                min_sol_investment,
            ) + spec_u64_to_le_bytes(max_sol_investment) + spec_u64_to_le_bytes(
                price_staleness_threshold,
            ),
            EscrowInstruction::DepositSol { sol_amount } => seq![1u8] + spec_u64_to_le_bytes(
                sol_amount,
            ),
            EscrowInstruction::WithdrawLockedSol => seq![2u8],
            EscrowInstruction::GetEscrowStatus => seq![3u8],
            EscrowInstruction::CloseSale => seq![4u8],
        }
    }

    /// The instruction that `bytes` hold: there is one where the first byte
    /// is a tag and exactly the fields of that operation follow.
    pub open spec fn spec_decode(bytes: Seq<u8>) -> Result<EscrowInstruction, ProgramError> {
        if bytes.len() == 0 {
            Err(ProgramError::BorshIoError)
        } else if bytes[0] == 0 && bytes.len() == INITIALIZE_ESCROW_LEN {
            Ok(
                EscrowInstruction::InitializeEscrow {
                    token_amount: spec_read_u64(bytes, 1),
                    lock_duration: spec_read_i64(bytes, 9),
                    sale_end_timestamp: spec_read_i64(bytes, 17),
                    min_sol_investment: spec_read_u64(bytes, 25),
                    max_sol_investment: spec_read_u64(bytes, 33),
                    price_staleness_threshold: spec_read_u64(bytes, 41),
                },
            )
        } else if bytes[0] == 1 && bytes.len() == DEPOSIT_SOL_LEN {
            Ok(EscrowInstruction::DepositSol { sol_amount: spec_read_u64(bytes, 1) })
        } else if bytes[0] == 2 && bytes.len() == 1 {
            Ok(EscrowInstruction::WithdrawLockedSol)
        } else if bytes[0] == 3 && bytes.len() == 1 {
            Ok(EscrowInstruction::GetEscrowStatus)
        } else if bytes[0] == 4 && bytes.len() == 1 {
            Ok(EscrowInstruction::CloseSale)
        } else {
            Err(ProgramError::BorshIoError)
        }
    }

    /// The bytes of the instruction.
    pub fn to_bytes(&self) -> (out: Vec<u8>)
        ensures
            out@ == self.spec_encode(),
    {
        let mut out: Vec<u8> = Vec::new();
        match *self {
            EscrowInstruction::InitializeEscrow {
                token_amount,
                lock_duration,
                sale_end_timestamp,
                min_sol_investment,
                max_sol_investment,
                price_staleness_threshold,
            } => {
                out.push(0);
                assert(out@ =~= seq![0u8]);
                write_u64(&mut out, token_amount);
                write_i64(&mut out, lock_duration);
                write_i64(&mut out, sale_end_timestamp);
                write_u64(&mut out, min_sol_investment);
                write_u64(&mut out, max_sol_investment);
                write_u64(&mut out, price_staleness_threshold);
            },
            EscrowInstruction::DepositSol { sol_amount } => {
                out.push(1);
                assert(out@ =~= seq![1u8]);
                write_u64(&mut out, sol_amount);
            },
            EscrowInstruction::WithdrawLockedSol => {
                out.push(2);
                assert(out@ =~= seq![2u8]);
            },
            EscrowInstruction::GetEscrowStatus => {
                out.push(3);
                assert(out@ =~= seq![3u8]);
            },
            EscrowInstruction::CloseSale => {
                out.push(4);
                assert(out@ =~= seq![4u8]);
            },
        }
        out
    }

    /// Reads an instruction from its bytes: all of them, and no more.
    pub fn try_from_slice(data: &[u8]) -> (res: Result<EscrowInstruction, ProgramError>)
        ensures
            res == EscrowInstruction::spec_decode(data@),
            res matches Ok(instruction) ==> instruction.spec_encode() == data@,
    {
        let len: usize = data.len();
        if len == 0 {
            return Err(ProgramError::BorshIoError);
        }
        let tag: u8 = data[0];
        if tag == 0 && len == INITIALIZE_ESCROW_LEN {
            let instruction = EscrowInstruction::InitializeEscrow {
                token_amount: read_u64(data, 1),
                lock_duration: read_i64(data, 9),
                sale_end_timestamp: read_i64(data, 17),
                min_sol_investment: read_u64(data, 25),
                max_sol_investment: read_u64(data, 33),
                price_staleness_threshold: read_u64(data, 41),
            };
            proof {
                Self::lemma_encode_decode(data@);
            }
            Ok(instruction)
        } else if tag == 1 && len == DEPOSIT_SOL_LEN {
            let instruction = EscrowInstruction::DepositSol { sol_amount: read_u64(data, 1) };
            proof {
                Self::lemma_encode_decode(data@);
            }
            Ok(instruction)
        } else if tag == 2 && len == 1 {
            proof {
                Self::lemma_encode_decode(data@);
            }
            Ok(EscrowInstruction::WithdrawLockedSol)
        } else if tag == 3 && len == 1 {
            proof {
                Self::lemma_encode_decode(data@);
            }
            Ok(EscrowInstruction::GetEscrowStatus)
        } else if tag == 4 && len == 1 {
            proof {
                Self::lemma_encode_decode(data@);
            }
            Ok(EscrowInstruction::CloseSale)
        } else {
            Err(ProgramError::BorshIoError)
        }
    }

    /// Writing the instruction that bytes hold gives those bytes back:
    /// bytes hold an instruction only as its encoding.
    pub proof fn lemma_encode_decode(bytes: Seq<u8>)
        requires
            EscrowInstruction::spec_decode(bytes) is Ok,
        ensures
            EscrowInstruction::spec_decode(bytes)->Ok_0.spec_encode() == bytes,
    {
        let instruction = EscrowInstruction::spec_decode(bytes)->Ok_0;
        if bytes[0] == 0 {
            lemma_u64_bytes_round_trip(bytes.subrange(1, 9));
            lemma_u64_bytes_round_trip(bytes.subrange(9, 17));
            lemma_u64_bytes_round_trip(bytes.subrange(17, 25));
            lemma_u64_bytes_round_trip(bytes.subrange(25, 33));
            lemma_u64_bytes_round_trip(bytes.subrange(33, 41));
            lemma_u64_bytes_round_trip(bytes.subrange(41, 49));
            lemma_i64_u64_casts(0, spec_read_u64(bytes, 9));
            lemma_i64_u64_casts(0, spec_read_u64(bytes, 17));
        } else if bytes[0] == 1 {
            lemma_u64_bytes_round_trip(bytes.subrange(1, 9));
        }
        assert(instruction.spec_encode() =~= bytes);
    }

    /// Reading the bytes of an instruction gives the instruction back.
    pub proof fn lemma_decode_encode(instruction: EscrowInstruction)
        ensures
            EscrowInstruction::spec_decode(instruction.spec_encode()) matches Ok(decoded)
                && decoded == instruction,
    {
        let bytes = instruction.spec_encode();
        match instruction {
            EscrowInstruction::InitializeEscrow {
                token_amount,
                lock_duration,
                sale_end_timestamp,
                min_sol_investment,
                max_sol_investment,
                price_staleness_threshold,
            } => {
                lemma_u64_round_trip(token_amount);
                lemma_u64_round_trip(lock_duration as u64);
                lemma_u64_round_trip(sale_end_timestamp as u64);
                lemma_u64_round_trip(min_sol_investment);
                lemma_u64_round_trip(max_sol_investment);
                lemma_u64_round_trip(price_staleness_threshold);
                lemma_i64_u64_casts(lock_duration, 0);
                lemma_i64_u64_casts(sale_end_timestamp, 0);
                assert(bytes.subrange(1, 9) =~= spec_u64_to_le_bytes(token_amount));
                assert(bytes.subrange(9, 17) =~= spec_i64_to_le_bytes(lock_duration));
                assert(bytes.subrange(17, 25) =~= spec_i64_to_le_bytes(sale_end_timestamp));
                assert(bytes.subrange(25, 33) =~= spec_u64_to_le_bytes(min_sol_investment));
                assert(bytes.subrange(33, 41) =~= spec_u64_to_le_bytes(max_sol_investment));
                assert(bytes.subrange(41, 49) =~= spec_u64_to_le_bytes(
                    price_staleness_threshold,
                ));
            },
            EscrowInstruction::DepositSol { sol_amount } => {
                lemma_u64_round_trip(sol_amount);
                assert(bytes.subrange(1, 9) =~= spec_u64_to_le_bytes(sol_amount));
            },
            _ => {},
        }
    }
}

} // verus!
