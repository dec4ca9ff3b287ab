//! A custodial vault over a single token mint: the authority model that binds
//! a vault record to its mint and gates the mint and burn calls made on its
//! behalf.
//!
//! A vault record stands at an address that nobody chooses: it is derived
//! from the mint, and each mint has one ([`derivation`], [`registry`]).
//! [`create_vault`] creates the record once, for an authority that has
//! signed. [`deposit`] and [`withdraw`] decide which call goes to the token
//! ledger; the host performs the call as one all-or-nothing step and
//! [`settle`] hands the ledger's answer on. The ledger keeps balances and
//! supply; nothing of them is kept here.
//!
//! [`deposit`]: vault::deposit::deposit
//! [`withdraw`]: vault::withdraw::withdraw

pub mod address;
pub mod derivation;
pub mod error;
pub mod ledger;
pub mod registrar;
pub mod registry;
pub mod types;
pub mod vault;

pub use address::Address;
pub use error::VaultError;
pub use ledger::{settle, LedgerCall};
pub use registrar::{create_vault, CreateVault};
pub use registry::{Registry, VaultAccount};
pub use types::Vault;
pub use vault::deposit::{deposit, Deposit};
pub use vault::withdraw::{withdraw, Withdraw};
