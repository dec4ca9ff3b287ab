//! Withdraw: burning on a vault's behalf.

use crate::address::Address;
use crate::error::VaultError;
use crate::ledger::LedgerCall;
use crate::types::Vault;
use vstd::prelude::*;

verus! {

/// What a withdrawal acts on.
#[derive(Clone, Copy, Debug, PartialEq, Eq)]
pub struct Withdraw {
    /// The balance account that the units are taken from.
    pub user_token_account: Address,
    /// The vault whose mint is burned.
    pub vault: Vault,
    /// The principal presented to the ledger as the burning authority.
    pub mint_authority: Address,
    /// The ledger that is called.
    pub token_program: Address,
}

/// Decides the ledger call of a withdrawal: one call that burns `amount`
/// units of the vault's mint from the source, under the authority presented.
/// A withdrawal of nothing is refused and makes no call. Whether the source
/// holds `amount` units is the ledger's to judge.
///
/// The authority recorded in the vault takes no part: whoever the ledger
/// accepts as burning authority can withdraw.
pub fn withdraw(ctx: &Withdraw, amount: u64) -> (call: Result<LedgerCall, VaultError>)
    ensures
        amount == 0 ==> call == Err::<LedgerCall, VaultError>(VaultError::InvalidAmount),
        amount > 0 ==> call == Ok::<LedgerCall, VaultError>(
            LedgerCall::Burn {
                program: ctx.token_program,
                mint: ctx.vault.mint,
                from: ctx.user_token_account,
                authority: ctx.mint_authority,
                amount,
            },
        ),
{
    if amount == 0 {
        return Err(VaultError::InvalidAmount);
    }
    Ok(
        LedgerCall::Burn {
            program: ctx.token_program,
            mint: ctx.vault.mint,
            from: ctx.user_token_account,
            authority: ctx.mint_authority,
            amount,
        },
    )
}

} // verus!
