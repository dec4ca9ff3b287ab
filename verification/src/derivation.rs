//! Deterministic addressing. The address of a vault record is never chosen
//! by a caller: it is derived from a fixed domain tag, the mint and the
//! program that owns the record, together with the nonce that makes the
//! derivation valid.

use crate::address::{address_of, address_of_bytes, Address};
use anchor_lang::prelude::Pubkey;
use vstd::prelude::*;

verus! {

/// The domain tag of vault records: the ASCII bytes of `vault`.
pub const VAULT_TAG: [u8; 5] = [118, 97, 117, 108, 116];

/// What `Pubkey::create_program_address` returns for the given seeds and
/// program: the address they hash to, or nothing where it refuses them.
pub uninterp spec fn program_address(seeds: Seq<Seq<u8>>, program: Seq<u8>) -> Option<Seq<u8>>;

/// The search for a nonce, from `from` downwards and not below one: the
/// first nonce that, added to the seeds as a seed of one byte, gives a
/// program address, and that address.
pub open spec fn searched_program_address(seeds: Seq<Seq<u8>>, program: Seq<u8>, from: nat) -> Option<
    (Seq<u8>, u8),
>
    decreases from,
{
    if from == 0 {
        None
    } else {
        match program_address(seeds.push(seq![from as u8]), program) {
            Some(address) => Some((address, from as u8)),
            None => searched_program_address(seeds, program, (from - 1) as nat),
        }
    }
}

/// Calls `Pubkey::try_find_program_address` on two seeds.
///
/// Trusted: the outside function tries the nonces 255, 254 and so on down
/// to 1, hands each with the seeds to `Pubkey::create_program_address`, and
/// returns the first address that comes back with its nonce, or `None`
/// where none comes back. It gives up early on seeds that are too long;
/// for those no nonce gives an address.
#[verifier::external_body]
fn find_program_address(first: &[u8], second: &[u8], program: &Address) -> (found: Option<
    (Address, u8),
>)
    ensures
        searched_program_address(seq![first@, second@], program@, 255) == match found {
            Some((address, nonce)) => Some((address@, nonce)),
            None => None,
        },
{
    Pubkey::try_find_program_address(&[first, second], &Pubkey::new_from_array(program.bytes))
        .map(|(key, nonce)| (Address { bytes: key.to_bytes() }, nonce))
}

/// Calls `Pubkey::create_program_address` on three seeds.
///
/// Trusted: the result is the one named by [`program_address`], an error of
/// the outside function standing as `None`.
#[verifier::external_body]
fn create_program_address(first: &[u8], second: &[u8], third: &[u8], program: &Address) -> (created:
    Option<Address>)
    ensures
        program_address(seq![first@, second@, third@], program@) == match created {
            Some(address) => Some(address@),
            None => None,
        },
{
    Pubkey::create_program_address(
        &[first, second, third],
        &Pubkey::new_from_array(program.bytes),
    ).ok().map(|key| Address { bytes: key.to_bytes() })
}

/// The address that the tag, `mint` and `nonce` reproduce under `program`.
pub open spec fn reproduced_vault(program: Address, mint: Address, nonce: u8) -> Option<Address> {
    match program_address(seq![VAULT_TAG@, mint@, seq![nonce]], program@) {
        Some(bytes) => Some(address_of(bytes)),
        None => None,
    }
}

/// The address derived for the vault of `mint` under `program`, with its
/// nonce: the largest nonce that reproduces an address, and that address.
pub open spec fn derived_vault(program: Address, mint: Address) -> Option<(Address, u8)> {
    match searched_program_address(seq![VAULT_TAG@, mint@], program@, 255) {
        Some((bytes, nonce)) => Some((address_of(bytes), nonce)),
        None => None,
    }
}

/// The address derived for the vault of `mint` under `program`.
pub open spec fn derived_address(program: Address, mint: Address) -> Option<Address> {
    match derived_vault(program, mint) {
        Some((address, _)) => Some(address),
        None => None,
    }
}

/// What a search finds is an address under the nonce found, and no nonce
/// above that one, up to where the search began, gives an address.
pub proof fn search_finds_the_largest_nonce(seeds: Seq<Seq<u8>>, program: Seq<u8>, from: nat)
    requires
        from <= 255,
    ensures
        match searched_program_address(seeds, program, from) {
            Some((address, nonce)) => {
                &&& 1 <= nonce <= from
                &&& program_address(seeds.push(seq![nonce]), program) == Some(address)
                &&& forall|other: u8|
                    nonce < other <= from ==> program_address(
                        #[trigger] seeds.push(seq![other]),
                        program,
                    ) is None
            },
            None => forall|other: u8|
                1 <= other <= from ==> program_address(#[trigger] seeds.push(seq![other]), program)
                    is None,
        },
    decreases from,
{
    if from > 0 {
        search_finds_the_largest_nonce(seeds, program, (from - 1) as nat);
    }
}

/// The derived nonce is valid and canonical: it reproduces the derived
/// address, and no larger nonce reproduces any address. Where nothing is
/// derived, no nonce from one up reproduces an address.
pub proof fn derived_nonce_is_canonical(program: Address, mint: Address)
    ensures
        match derived_vault(program, mint) {
            Some((address, nonce)) => {
                &&& nonce >= 1
                &&& reproduced_vault(program, mint, nonce) == Some(address)
                &&& forall|other: u8|
                    other > nonce ==> #[trigger] reproduced_vault(program, mint, other) is None
            },
            None => forall|other: u8|
                other >= 1 ==> #[trigger] reproduced_vault(program, mint, other) is None,
        },
{
    let seeds = seq![VAULT_TAG@, mint@];
    search_finds_the_largest_nonce(seeds, program@, 255);
    assert forall|other: u8| seeds.push(seq![other]) == seq![VAULT_TAG@, mint@, seq![other]] by {
        assert(seeds.push(seq![other]) =~= seq![VAULT_TAG@, mint@, seq![other]]);
    }
}

/// Derives the address of the vault record of `mint`, and a nonce that
/// reproduces it.
pub fn vault_address(program: &Address, mint: &Address) -> (derived: Option<(Address, u8)>)
    ensures
        derived == derived_vault(*program, *mint),
        derived matches Some((address, nonce)) ==> reproduced_vault(*program, *mint, nonce)
            == Some(address),
{
    let derived = find_program_address(&VAULT_TAG, &mint.bytes, program);
    proof {
        derived_nonce_is_canonical(*program, *mint);
        if let Some((address, _)) = derived {
            address_of_bytes(address);
        }
    }
    derived
}

/// The address that `nonce` reproduces with the tag and `mint`, where the
/// derivation accepts that nonce.
pub fn reproduced_address(program: &Address, mint: &Address, nonce: u8) -> (reproduced: Option<
    Address,
>)
    ensures
        reproduced == reproduced_vault(*program, *mint, nonce),
{
    let seed: [u8; 1] = [nonce];
    assert(seed@ =~= seq![nonce]);
    let reproduced = create_program_address(&VAULT_TAG, &mint.bytes, &seed, program);
    proof {
        if let Some(address) = reproduced {
            address_of_bytes(address);
        }
    }
    reproduced
}

} // verus!
