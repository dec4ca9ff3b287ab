use anchor_lang::prelude::Pubkey;
use strategy_vault::derivation::vault_address;
use strategy_vault::registrar::{authenticated, decide};
use strategy_vault::{
    create_vault, Address, CreateVault, Registry, Vault, VaultAccount, VaultError,
};

const PROGRAM: [u8; 32] = [7u8; 32];
const MINT: [u8; 32] = [1u8; 32];
const AUTHORITY: [u8; 32] = [2u8; 32];

fn request(mint: [u8; 32], authority: [u8; 32], signers: &[[u8; 32]]) -> CreateVault {
    CreateVault {
        mint: Address::new(mint),
        authority: Address::new(authority),
        signers: signers.iter().map(|bytes| Address::new(*bytes)).collect(),
    }
}

fn nonce_of(mint: [u8; 32]) -> u8 {
    vault_address(&Address::new(PROGRAM), &Address::new(mint)).unwrap().1
}

#[test]
fn create_vault_places_the_record_at_the_derived_address() {
    let mut registry = Registry::new(Address::new(PROGRAM));
    assert_eq!(registry.len(), 0);
    let nonce = nonce_of(MINT);
    let created = create_vault(&mut registry, &request(MINT, AUTHORITY, &[AUTHORITY]), nonce);

    let (key, found_nonce) =
        Pubkey::find_program_address(&[b"vault", &MINT], &Pubkey::new_from_array(PROGRAM));
    assert_eq!(nonce, found_nonce);
    let expected = VaultAccount {
        address: Address::new(key.to_bytes()),
        vault: Vault { mint: Address::new(MINT), authority: Address::new(AUTHORITY), bump: nonce },
    };
    assert_eq!(created, Ok(expected));
    assert_eq!(registry.len(), 1);
    assert_eq!(registry.get(&expected.address), Some(expected.vault));
    assert!(registry.contains(&expected.address));
    assert_eq!(registry.locate(&Address::new(MINT)), Some(expected));
    assert_eq!(registry.program(), Address::new(PROGRAM));
}

#[test]
fn create_vault_known_answer() {
    let mut registry = Registry::new(Address::new(PROGRAM));
    let mint = [12u8; 32];
    let created = create_vault(&mut registry, &request(mint, AUTHORITY, &[AUTHORITY]), 252);
    let account = created.unwrap();
    assert_eq!(
        account.address.bytes,
        [
            113, 169, 162, 41, 115, 189, 153, 170, 52, 114, 154, 162, 90, 72, 102, 248, 189, 173,
            13, 148, 233, 22, 219, 41, 164, 51, 185, 116, 231, 221, 27, 77,
        ]
    );
    assert_eq!(account.vault.mint.bytes, mint);
    assert_eq!(account.vault.authority.bytes, AUTHORITY);
    assert_eq!(account.vault.bump, 252);
}

#[test]
fn created_vault_is_found_again_by_derivation() {
    let mut registry = Registry::new(Address::new(PROGRAM));
    let nonce = nonce_of(MINT);
    let account =
        create_vault(&mut registry, &request(MINT, AUTHORITY, &[AUTHORITY]), nonce).unwrap();
    let rederived = vault_address(&Address::new(PROGRAM), &account.vault.mint).unwrap();
    assert_eq!(rederived.0, account.address);
    let reproduced = Pubkey::create_program_address(
        &[b"vault", &account.vault.mint.bytes, &[account.vault.bump]],
        &Pubkey::new_from_array(PROGRAM),
    )
    .unwrap();
    assert_eq!(reproduced.to_bytes(), account.address.bytes);
}

#[test]
fn create_vault_twice_fails_with_already_exists() {
    let mut registry = Registry::new(Address::new(PROGRAM));
    let nonce = nonce_of(MINT);
    let first = create_vault(&mut registry, &request(MINT, AUTHORITY, &[AUTHORITY]), nonce);
    let account = first.unwrap();

    let again = create_vault(&mut registry, &request(MINT, AUTHORITY, &[AUTHORITY]), nonce);
    assert_eq!(again, Err(VaultError::AlreadyExists));
    assert_eq!(registry.len(), 1);
    assert_eq!(registry.get(&account.address), Some(account.vault));
}

#[test]
fn a_second_request_for_the_mint_is_refused_whatever_else_it_holds() {
    let mut registry = Registry::new(Address::new(PROGRAM));
    let nonce = nonce_of(MINT);
    let account =
        create_vault(&mut registry, &request(MINT, AUTHORITY, &[AUTHORITY]), nonce).unwrap();

    let other = [9u8; 32];
    let by_another = create_vault(&mut registry, &request(MINT, other, &[other]), nonce);
    assert_eq!(by_another, Err(VaultError::AlreadyExists));
    let unsigned = create_vault(&mut registry, &request(MINT, other, &[]), nonce);
    assert_eq!(unsigned, Err(VaultError::AlreadyExists));
    let wrong_nonce =
        create_vault(&mut registry, &request(MINT, AUTHORITY, &[AUTHORITY]), nonce.wrapping_sub(1));
    assert_eq!(wrong_nonce, Err(VaultError::AlreadyExists));

    assert_eq!(registry.len(), 1);
    assert_eq!(registry.locate(&Address::new(MINT)), Some(account));
    assert_eq!(account.vault.authority, Address::new(AUTHORITY));
}

#[test]
fn every_mint_gets_its_own_vault() {
    let mut registry = Registry::new(Address::new(PROGRAM));
    let mut addresses = Vec::new();
    for seed in 0u8..8 {
        let mint = [seed; 32];
        let account =
            create_vault(&mut registry, &request(mint, AUTHORITY, &[AUTHORITY]), nonce_of(mint))
                .unwrap();
        assert!(!addresses.contains(&account.address));
        addresses.push(account.address);
    }
    assert_eq!(registry.len(), 8);
    for seed in 0u8..8 {
        let found = registry.locate(&Address::new([seed; 32])).unwrap();
        assert_eq!(found.vault.mint, Address::new([seed; 32]));
        assert_eq!(found.address, addresses[seed as usize]);
    }
    assert_eq!(registry.locate(&Address::new([8u8; 32])), None);
}

#[test]
fn a_nonce_that_does_not_reproduce_the_address_is_refused() {
    let mut registry = Registry::new(Address::new(PROGRAM));
    // For this mint the derivation finds 252: 253 lands on the curve, 251
    // reproduces another address.
    let mint = [12u8; 32];
    assert_eq!(nonce_of(mint), 252);
    for nonce in [253u8, 251, 0] {
        let refused = create_vault(&mut registry, &request(mint, AUTHORITY, &[AUTHORITY]), nonce);
        assert_eq!(refused, Err(VaultError::InvalidDerivation));
        assert_eq!(registry.len(), 0);
    }
    let granted = create_vault(&mut registry, &request(mint, AUTHORITY, &[AUTHORITY]), 252);
    assert!(granted.is_ok());
}

#[test]
fn an_authority_that_did_not_sign_is_refused() {
    let mut registry = Registry::new(Address::new(PROGRAM));
    let nonce = nonce_of(MINT);
    let named_only = create_vault(&mut registry, &request(MINT, AUTHORITY, &[]), nonce);
    assert_eq!(named_only, Err(VaultError::Unauthenticated));
    let signed_by_others =
        create_vault(&mut registry, &request(MINT, AUTHORITY, &[[3u8; 32], [4u8; 32]]), nonce);
    assert_eq!(signed_by_others, Err(VaultError::Unauthenticated));
    assert_eq!(registry.len(), 0);
    assert_eq!(registry.locate(&Address::new(MINT)), None);

    let among_several = create_vault(
        &mut registry,
        &request(MINT, AUTHORITY, &[[3u8; 32], AUTHORITY, [4u8; 32]]),
        nonce,
    );
    assert!(among_several.is_ok());
}

#[test]
fn create_vault_can_be_tried_again_after_a_refusal() {
    let mut registry = Registry::new(Address::new(PROGRAM));
    let nonce = nonce_of(MINT);
    assert_eq!(
        create_vault(&mut registry, &request(MINT, AUTHORITY, &[]), nonce),
        Err(VaultError::Unauthenticated)
    );
    let granted = create_vault(&mut registry, &request(MINT, AUTHORITY, &[AUTHORITY]), nonce);
    assert!(granted.is_ok());
    assert_eq!(registry.len(), 1);
}

#[test]
fn a_wrong_nonce_is_reported_before_a_missing_signature() {
    let mut registry = Registry::new(Address::new(PROGRAM));
    let refused = create_vault(&mut registry, &request([12u8; 32], AUTHORITY, &[]), 251);
    assert_eq!(refused, Err(VaultError::InvalidDerivation));
}

#[test]
fn decide_grants_a_valid_request() {
    let address = Address::new([5u8; 32]);
    let decided = decide(&request(MINT, AUTHORITY, &[AUTHORITY]), 33, Some(address), false, Some(address));
    assert_eq!(
        decided,
        Ok(VaultAccount {
            address,
            vault: Vault { mint: Address::new(MINT), authority: Address::new(AUTHORITY), bump: 33 },
        })
    );
}

#[test]
fn decide_names_each_refusal() {
    let address = Address::new([5u8; 32]);
    let other = Address::new([6u8; 32]);
    let signed = request(MINT, AUTHORITY, &[AUTHORITY]);
    let unsigned = request(MINT, AUTHORITY, &[[3u8; 32]]);

    assert_eq!(decide(&signed, 1, None, false, Some(address)), Err(VaultError::InvalidDerivation));
    assert_eq!(decide(&signed, 1, None, false, None), Err(VaultError::InvalidDerivation));
    assert_eq!(decide(&signed, 1, Some(address), true, Some(address)), Err(VaultError::AlreadyExists));
    assert_eq!(decide(&signed, 1, Some(address), false, Some(other)), Err(VaultError::InvalidDerivation));
    assert_eq!(decide(&signed, 1, Some(address), false, None), Err(VaultError::InvalidDerivation));
    assert_eq!(decide(&unsigned, 1, Some(address), false, Some(address)), Err(VaultError::Unauthenticated));
}

#[test]
fn decide_reports_refusals_in_order() {
    let address = Address::new([5u8; 32]);
    let other = Address::new([6u8; 32]);
    let unsigned = request(MINT, AUTHORITY, &[]);
    // Occupied, wrong nonce and no signature at once.
    assert_eq!(decide(&unsigned, 1, Some(address), true, Some(other)), Err(VaultError::AlreadyExists));
    // Wrong nonce and no signature.
    assert_eq!(decide(&unsigned, 1, Some(address), false, Some(other)), Err(VaultError::InvalidDerivation));
    // Nothing derived: reported even where `occupied` is set.
    assert_eq!(decide(&unsigned, 1, None, true, None), Err(VaultError::InvalidDerivation));
}

#[test]
fn authenticated_looks_for_the_principal_among_the_signers() {
    let a = Address::new([1u8; 32]);
    let b = Address::new([2u8; 32]);
    let c = Address::new([3u8; 32]);
    assert!(!authenticated(&vec![], &a));
    assert!(authenticated(&vec![a], &a));
    assert!(!authenticated(&vec![b, c], &a));
    assert!(authenticated(&vec![b, c, a], &a));
    assert!(authenticated(&vec![a, a], &a));
    let mut near = [1u8; 32];
    near[31] = 0;
    assert!(!authenticated(&vec![Address::new(near)], &a));
}

#[test]
fn registries_of_different_programs_derive_different_addresses() {
    let mut one = Registry::new(Address::new([7u8; 32]));
    let mut two = Registry::new(Address::new([8u8; 32]));
    let in_one = create_vault(
        &mut one,
        &request(MINT, AUTHORITY, &[AUTHORITY]),
        vault_address(&Address::new([7u8; 32]), &Address::new(MINT)).unwrap().1,
    )
    .unwrap();
    let in_two = create_vault(
        &mut two,
        &request(MINT, AUTHORITY, &[AUTHORITY]),
        vault_address(&Address::new([8u8; 32]), &Address::new(MINT)).unwrap().1,
    )
    .unwrap();
    assert_ne!(in_one.address, in_two.address);
    assert_eq!(two.get(&in_one.address), None);
}
