//! What the host shows the escrow of the accounts passed to an operation.

use vstd::prelude::*;
use crate::address::Address;
use crate::error::{EscrowError, ProgramError, escrow_failure};

verus! {

/// One account passed to an operation, as it stands when the operation
/// starts.
#[derive(Debug, Clone, PartialEq, Eq)]
pub struct AccountView {
    /// The account's address.
    pub key: Address,
    /// The program that owns the account.
    pub owner: Address,
    /// The account's balance.
    pub lamports: u64,
    /// Whether the account's holder signed the transaction.
    pub is_signer: bool,
    /// The account's bytes.
    pub data: Vec<u8>,
}

/// Whether `supplied` is the address that was derived; none was derived
/// where `derived` is `None`.
pub open spec fn is_derived(derived: Option<(Address, u8)>, supplied: Address) -> bool {
    derived matches Some((address, _)) && address == supplied
}

/// The bump seed of a derived address that matches the supplied one, or
/// `InvalidPDA`.
pub open spec fn spec_check_derived(derived: Option<(Address, u8)>, supplied: Address) -> Result<
    u8,
    ProgramError,
> {
    if is_derived(derived, supplied) {
        Ok(derived->Some_0.1)
    } else {
        Err(escrow_failure(EscrowError::InvalidPDA))
    }
}

/// Holds a supplied address against the derived one: the operation goes on
/// with the bump seed where they are the same address, and is refused with
/// `InvalidPDA` where they differ or none could be derived.
pub fn check_derived(derived: &Option<(Address, u8)>, supplied: &Address) -> (res: Result<
    u8,
    ProgramError,
>)
    ensures
        res == spec_check_derived(*derived, *supplied),
{
    match derived {
        Some((address, bump)) => {
            if *address == *supplied {
                Ok(*bump)
            } else {
                Err(ProgramError::Custom(EscrowError::InvalidPDA.code()))
            }
        },
        None => Err(ProgramError::Custom(EscrowError::InvalidPDA.code())),
    }
}

} // verus!
