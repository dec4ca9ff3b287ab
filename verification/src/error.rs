//! The ways in which a vault operation fails.

use vstd::prelude::*;

verus! {

/// Why an operation was refused. Every failure aborts the operation as a
/// whole and is handed to the caller as it is.
#[derive(Clone, Copy, Debug, PartialEq, Eq, Structural)]
pub enum VaultError {
    /// A vault record already stands at the address derived for the mint.
    AlreadyExists,
    /// The nonce does not reproduce the address derived for the mint.
    InvalidDerivation,
    /// The named authority is not among the authenticated signers.
    Unauthenticated,
    /// The amount to mint or burn is zero.
    InvalidAmount,
    /// The ledger refused the call; `code` is the ledger's own error, untouched.
    LedgerRejected { code: u64 },
}

} // verus!
