//! Deposit: minting on a vault's behalf.

use crate::address::Address;
use crate::error::VaultError;
use crate::ledger::LedgerCall;
use crate::types::Vault;
use vstd::prelude::*;

verus! {

/// What a deposit acts on.
#[derive(Clone, Copy, Debug, PartialEq, Eq)]
pub struct Deposit {
    /// The balance account that receives the new units.
    pub user_token_account: Address,
    /// The vault whose mint is minted.
    pub vault: Vault,
    /// The principal presented to the ledger as the minting authority.
    pub mint_authority: Address,
    /// The ledger that is called.
    pub token_program: Address,
}

/// Decides the ledger call of a deposit: one call that mints `amount` units
/// of the vault's mint into the destination, under the authority presented.
/// A deposit of nothing is refused and makes no call.
///
/// The authority recorded in the vault takes no part: whoever the ledger
/// accepts as minting authority can deposit.
pub fn deposit(ctx: &Deposit, amount: u64) -> (call: Result<LedgerCall, VaultError>)
    ensures
        amount == 0 ==> call == Err::<LedgerCall, VaultError>(VaultError::InvalidAmount),
        amount > 0 ==> call == Ok::<LedgerCall, VaultError>(
            LedgerCall::MintTo {
                program: ctx.token_program,
                mint: ctx.vault.mint,
                to: ctx.user_token_account,
                authority: ctx.mint_authority,
                amount,
            },
        ),
{
    if amount == 0 {
        return Err(VaultError::InvalidAmount);
    }
    Ok(
        LedgerCall::MintTo {
            program: ctx.token_program,
            mint: ctx.vault.mint,
            to: ctx.user_token_account,
            authority: ctx.mint_authority,
            amount,
        },
    )
}

} // verus!
