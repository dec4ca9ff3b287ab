//! The custodial operations on an existing vault.

pub mod deposit;
pub mod withdraw;
