//! The registrar: creates the vault record of a mint, once, at the address
//! derived for that mint.

use crate::address::Address;
use crate::derivation::{
    derived_address, derived_nonce_is_canonical, derived_vault, reproduced_address,
    reproduced_vault, vault_address,
};
use crate::error::VaultError;
use crate::registry::{placed, Registry, VaultAccount};
use crate::types::Vault;
use vstd::prelude::*;

verus! {

/// A request to create the vault of a mint.
#[derive(Debug)]
pub struct CreateVault {
    /// The mint that the vault will custody.
    pub mint: Address,
    /// The principal that will administer the vault.
    pub authority: Address,
    /// The principals that have signed the request.
    pub signers: Vec<Address>,
}

/// Whether `principal` is among `signers`.
pub fn authenticated(signers: &Vec<Address>, principal: &Address) -> (signed: bool)
    ensures
        signed == signers@.contains(*principal),
{
    let mut i: usize = 0;
    while i < signers.len()
        invariant
            i <= signers@.len(),
            forall|j: int| 0 <= j < i ==> signers@[j] != *principal,
        decreases signers@.len() - i,
    {
        if signers[i].same(principal) {
            return true;
        }
        i += 1;
    }
    false
}

/// What a request comes to, given what the derivation says of it: `derived`
/// is the address derived for the mint, `occupied` tells whether a record
/// stands there, and `reproduced` is the address that the nonce reproduces.
///
/// A record that already stands at the derived address is reported before a
/// nonce that does not reproduce that address, and that before an authority
/// that has not signed. Where nothing can be derived for the mint, no nonce
/// reproduces anything.
pub open spec fn decision(
    ctx: CreateVault,
    bump: u8,
    derived: Option<Address>,
    occupied: bool,
    reproduced: Option<Address>,
) -> Result<VaultAccount, VaultError> {
    match derived {
        None => Err(VaultError::InvalidDerivation),
        Some(address) => if occupied {
            Err(VaultError::AlreadyExists)
        } else if reproduced != Some(address) {
            Err(VaultError::InvalidDerivation)
        } else if !ctx.signers@.contains(ctx.authority) {
            Err(VaultError::Unauthenticated)
        } else {
            Ok(
                VaultAccount {
                    address,
                    vault: Vault { mint: ctx.mint, authority: ctx.authority, bump },
                },
            )
        },
    }
}

/// Decides a request from what the derivation says of it: the account to
/// create, or the reason why none is created.
pub fn decide(
    ctx: &CreateVault,
    bump: u8,
    derived: Option<Address>,
    occupied: bool,
    reproduced: Option<Address>,
) -> (decided: Result<VaultAccount, VaultError>)
    ensures
        decided == decision(*ctx, bump, derived, occupied, reproduced),
{
    let address = match derived {
        None => {
            return Err(VaultError::InvalidDerivation);
        },
        Some(address) => address,
    };
    if occupied {
        return Err(VaultError::AlreadyExists);
    }
    let valid = match reproduced {
        None => false,
        Some(other) => other.same(&address),
    };
    if !valid {
        return Err(VaultError::InvalidDerivation);
    }
    if !authenticated(&ctx.signers, &ctx.authority) {
        return Err(VaultError::Unauthenticated);
    }
    Ok(VaultAccount { address, vault: Vault { mint: ctx.mint, authority: ctx.authority, bump } })
}

/// What creating a vault comes to, given the records that exist under
/// `program`: the new account, or the reason why none is created.
pub open spec fn create_vault_outcome(
    records: Map<Address, Vault>,
    program: Address,
    ctx: CreateVault,
    bump: u8,
) -> Result<VaultAccount, VaultError> {
    decision(
        ctx,
        bump,
        derived_address(program, ctx.mint),
        derived_address(program, ctx.mint) matches Some(address) && records.dom().contains(address),
        reproduced_vault(program, ctx.mint, bump),
    )
}

/// The records that exist after an attempt to create a vault: one more
/// where it succeeded, the same where it failed.
pub open spec fn records_after(
    records: Map<Address, Vault>,
    outcome: Result<VaultAccount, VaultError>,
) -> Map<Address, Vault> {
    match outcome {
        Ok(account) => records.insert(account.address, account.vault),
        Err(_) => records,
    }
}

/// Creates the vault record of `ctx.mint` at the address derived for that
/// mint, with `ctx.authority` as its authority and `bump` as its nonce.
///
/// A failure leaves the registry as it was.
pub fn create_vault(registry: &mut Registry, ctx: &CreateVault, bump: u8) -> (created: Result<
    VaultAccount,
    VaultError,
>)
    requires
        old(registry).wf(),
    ensures
        final(registry).wf(),
        final(registry).owner() == old(registry).owner(),
        created == create_vault_outcome(old(registry)@, old(registry).owner(), *ctx, bump),
        final(registry)@ == records_after(old(registry)@, created),
        created is Err ==> *final(registry) == *old(registry),
{
    let program = registry.program();
    let derived = match vault_address(&program, &ctx.mint) {
        None => None,
        Some((address, _)) => Some(address),
    };
    let occupied = match derived {
        None => false,
        Some(address) => registry.contains(&address),
    };
    let reproduced = reproduced_address(&program, &ctx.mint, bump);
    let decided = decide(ctx, bump, derived, occupied, reproduced);
    if let Ok(account) = decided {
        registry.insert(account);
    }
    decided
}

/// A request that is valid and whose derived address is free is granted:
/// where the derivation yields an address that `bump` reproduces, no record
/// stands there yet and the authority has signed, the vault is created at
/// that address with the values of the request.
pub proof fn valid_request_is_granted(
    records: Map<Address, Vault>,
    program: Address,
    ctx: CreateVault,
    bump: u8,
    address: Address,
)
    requires
        derived_address(program, ctx.mint) == Some(address),
        reproduced_vault(program, ctx.mint, bump) == Some(address),
        ctx.signers@.contains(ctx.authority),
        !records.dom().contains(address),
    ensures
        create_vault_outcome(records, program, ctx, bump) == Ok::<VaultAccount, VaultError>(
            VaultAccount {
                address,
                vault: Vault { mint: ctx.mint, authority: ctx.authority, bump },
            },
        ),
{
}

/// The derived nonce is a valid one: a request that carries the nonce
/// derived for its mint is granted, where its authority has signed and no
/// record stands at the derived address.
pub proof fn derived_nonce_is_granted(
    records: Map<Address, Vault>,
    program: Address,
    ctx: CreateVault,
    address: Address,
    nonce: u8,
)
    requires
        derived_vault(program, ctx.mint) == Some((address, nonce)),
        ctx.signers@.contains(ctx.authority),
        !records.dom().contains(address),
    ensures
        create_vault_outcome(records, program, ctx, nonce) == Ok::<VaultAccount, VaultError>(
            VaultAccount {
                address,
                vault: Vault { mint: ctx.mint, authority: ctx.authority, bump: nonce },
            },
        ),
{
    derived_nonce_is_canonical(program, ctx.mint);
}

/// A created vault is found again by derivation: the address it was given
/// is the one derived for its mint and the one that its own nonce
/// reproduces, it was free before, and the record stands there afterwards.
pub proof fn created_vault_is_rederived(
    records: Map<Address, Vault>,
    program: Address,
    ctx: CreateVault,
    bump: u8,
)
    ensures
        create_vault_outcome(records, program, ctx, bump) matches Ok(account) ==> {
            &&& account.vault.mint == ctx.mint
            &&& placed(program, account.address, account.vault)
            &&& !records.dom().contains(account.address)
            &&& records_after(records, Ok(account))[account.address] == account.vault
        },
{
}

/// A mint gets one vault: once a request for a mint has been granted, or
/// refused because its vault exists, every further request for that mint is
/// refused with `AlreadyExists`, whatever its authority, signers and nonce,
/// and adds no record.
pub proof fn second_creation_is_refused(
    records: Map<Address, Vault>,
    program: Address,
    first: CreateVault,
    first_bump: u8,
    second: CreateVault,
    second_bump: u8,
)
    requires
        first.mint == second.mint,
        create_vault_outcome(records, program, first, first_bump) is Ok || create_vault_outcome(
            records,
            program,
            first,
            first_bump,
        ) == Err::<VaultAccount, VaultError>(VaultError::AlreadyExists),
    ensures
        ({
            let after = records_after(
                records,
                create_vault_outcome(records, program, first, first_bump),
            );
            &&& create_vault_outcome(after, program, second, second_bump) == Err::<
                VaultAccount,
                VaultError,
            >(VaultError::AlreadyExists)
            &&& records_after(after, create_vault_outcome(after, program, second, second_bump))
                == after
        }),
{
}

} // verus!
