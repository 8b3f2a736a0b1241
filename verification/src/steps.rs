//! The effects that the host carries out for an accepted operation, one
//! after the other.

use vstd::prelude::*;
use vstd::slice::slice_to_vec;
use crate::address::{
    Address, GLOBAL_ESCROW_SEED, INVESTOR_SEED, SOL_VAULT_SEED, TOKEN_VAULT_SEED,
    global_escrow_seeds, investor_seeds, seed_bytes, sol_vault_seeds, token_vault_seeds,
};
use crate::state::{GlobalEscrow, InvestorAccount};

verus! {

/// The seeds that sign for one of the escrow's derived addresses.
#[derive(Debug, Clone, Copy, PartialEq, Eq)]
pub enum Seeds {
    /// The sale record of an operator and a token.
    SaleRecord { initializer: Address, token_mint: Address, bump: u8 },
    /// An investor's position in a sale.
    Position { investor: Address, global_escrow: Address, bump: u8 },
    /// The token vault of a sale.
    TokenVault { global_escrow: Address, bump: u8 },
    /// An investor's fund-lock pool in a sale.
    SolVault { investor: Address, global_escrow: Address, bump: u8 },
}

impl Seeds {
    /// The seeds that sign for the record of a sale: those of its operator
    /// and its token, with the bump seed that the record keeps.
    pub open spec fn spec_of_sale(global_escrow: GlobalEscrow) -> Seeds {
        Seeds::SaleRecord {
            initializer: global_escrow.initializer_pubkey,
            token_mint: global_escrow.token_mint_pubkey,
            bump: global_escrow.bump_seed,
        }
    }

    /// The seeds that sign for the record of a sale.
    pub fn of_sale(global_escrow: &GlobalEscrow) -> (seeds: Seeds)
        ensures
            seeds == Seeds::spec_of_sale(*global_escrow),
    {
        Seeds::SaleRecord {
            initializer: global_escrow.initializer_pubkey,
            token_mint: global_escrow.token_mint_pubkey,
            bump: global_escrow.bump_seed,
        }
    }

    /// The seeds from which the address is derived, without the bump seed.
    pub open spec fn spec_derivation(self) -> Seq<Seq<u8>> {
        match self {
            Seeds::SaleRecord { initializer, token_mint, bump } => global_escrow_seeds(
                initializer@,
                token_mint@,
            ),
            Seeds::Position { investor, global_escrow, bump } => investor_seeds(
                investor@,
                global_escrow@,
            ),
            Seeds::TokenVault { global_escrow, bump } => token_vault_seeds(global_escrow@),
            Seeds::SolVault { investor, global_escrow, bump } => sol_vault_seeds(
                investor@,
                global_escrow@,
            ),
        }
    }

    /// The bump seed of the address.
    pub open spec fn spec_bump(self) -> u8 {
        match self {
            Seeds::SaleRecord { initializer, token_mint, bump } => bump,
            Seeds::Position { investor, global_escrow, bump } => bump,
            Seeds::TokenVault { global_escrow, bump } => bump,
            Seeds::SolVault { investor, global_escrow, bump } => bump,
        }
    }

    /// The seeds that sign for the address: those of its derivation, then
    /// the bump seed as one byte.
    pub open spec fn spec_signer_seeds(self) -> Seq<Seq<u8>> {
        self.spec_derivation().push(seq![self.spec_bump()])
    }

    /// The seeds that sign for the address.
    pub fn signer_seeds(&self) -> (seeds: Vec<Vec<u8>>)
        ensures
            seed_bytes(seeds@) == self.spec_signer_seeds(),
    {
        let mut seeds: Vec<Vec<u8>> = Vec::new();
        let mut last: Vec<u8> = Vec::new();
        match self {
            Seeds::SaleRecord { initializer, token_mint, bump } => {
                seeds.push(slice_to_vec(GLOBAL_ESCROW_SEED.as_slice()));
                seeds.push(slice_to_vec(initializer.bytes.as_slice()));
                seeds.push(slice_to_vec(token_mint.bytes.as_slice()));
                last.push(*bump);
            },
            Seeds::Position { investor, global_escrow, bump } => {
                seeds.push(slice_to_vec(INVESTOR_SEED.as_slice()));
                seeds.push(slice_to_vec(investor.bytes.as_slice()));
                seeds.push(slice_to_vec(global_escrow.bytes.as_slice()));
                last.push(*bump);
            },
            Seeds::TokenVault { global_escrow, bump } => {
                seeds.push(slice_to_vec(TOKEN_VAULT_SEED.as_slice()));
                seeds.push(slice_to_vec(global_escrow.bytes.as_slice()));
                last.push(*bump);
            },
            Seeds::SolVault { investor, global_escrow, bump } => {
                seeds.push(slice_to_vec(SOL_VAULT_SEED.as_slice()));
                seeds.push(slice_to_vec(investor.bytes.as_slice()));
                seeds.push(slice_to_vec(global_escrow.bytes.as_slice()));
                last.push(*bump);
            },
        }
        assert(last@ =~= seq![self.spec_bump()]);
        seeds.push(last);
        assert(seed_bytes(seeds@) =~= self.spec_signer_seeds());
        seeds
    }
}

/// One effect on the accounts.
#[derive(Debug, Clone, Copy, PartialEq, Eq)]
pub enum Step {
    /// Create an account of the escrow program at a derived address, with
    /// `space` bytes and the balance that keeps it alive; `payer` pays and
    /// `seeds` sign for the address.
    CreateAccount { payer: Address, account: Address, space: u64, seeds: Seeds },
    /// Create the token vault at its derived address as an account of the
    /// token program and initialize it for `mint` with `authority` over it;
    /// `payer` pays and `seeds` sign for the address.
    CreateTokenVault { payer: Address, vault: Address, mint: Address, authority: Address, seeds: Seeds },
    /// Move lamports out of a wallet whose holder signed.
    TransferLamports { from: Address, to: Address, amount: u64 },
    /// Move lamports out of a pool that the escrow program owns.
    ReleaseLamports { from: Address, to: Address, amount: u64 },
    /// Move tokens from one token account to another. `authority` is who may
    /// spend from the source: a signer of the transaction where `seeds` is
    /// `None`, else the derived address that `seeds` sign for.
    TransferTokens {
        source: Address,
        destination: Address,
        authority: Address,
        amount: u64,
        signer: Option<Seeds>,
    },
    /// Write the bytes of a sale record into its account.
    StoreSaleRecord { account: Address, record: GlobalEscrow },
    /// Write the bytes of a position into its account.
    StorePosition { account: Address, position: InvestorAccount },
}

impl Step {
    /// Whether the step writes one of the escrow's records.
    pub open spec fn is_store(self) -> bool {
        self is StoreSaleRecord || self is StorePosition
    }
}

/// Whether the records are written last: once a step writes a record, every
/// later step does. All funds and tokens have then moved before the first
/// record changes.
pub open spec fn stores_come_last(steps: Seq<Step>) -> bool {
    forall|i: int, j: int|
        0 <= i < j < steps.len() && (#[trigger] steps[i]).is_store() ==> (#[trigger] steps[j]).is_store()
}

} // verus!
