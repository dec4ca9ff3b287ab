//! The boundary to the token ledger. The ledger keeps balances and supply;
//! this library decides which call is made on a vault's behalf and hands the
//! ledger's answer on.

use crate::address::Address;
use crate::error::VaultError;
use vstd::prelude::*;

verus! {

/// A call into the token ledger, for the host to perform as one
/// all-or-nothing step.
#[derive(Clone, Copy, Debug, PartialEq, Eq)]
pub enum LedgerCall {
    /// Create `amount` new units of `mint` in the account `to`.
    MintTo { program: Address, mint: Address, to: Address, authority: Address, amount: u64 },
    /// Destroy `amount` units of `mint` held by the account `from`.
    Burn { program: Address, mint: Address, from: Address, authority: Address, amount: u64 },
}

/// Concludes an operation with the ledger's answer to its call: success as
/// it is, a refusal with the ledger's own error code.
pub fn settle(outcome: Result<(), u64>) -> (result: Result<(), VaultError>)
    ensures
        result == match outcome {
            Ok(_) => Ok::<(), VaultError>(()),
            Err(code) => Err(VaultError::LedgerRejected { code }),
        },
{
    match outcome {
        Ok(_) => Ok(()),
        Err(code) => Err(VaultError::LedgerRejected { code }),
    }
}

} // verus!
