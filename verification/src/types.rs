//! The vault record and its fixed byte layout.

use crate::address::{
    address_of, address_of_bytes, address_of_has_bytes, Address, ADDRESS_LEN,
};
use vstd::prelude::*;

verus! {

/// The number of bytes of the tag that opens a stored record.
pub const TAG_LEN: usize = 8;

/// The number of bytes of a stored record: the tag, the mint, the authority
/// and one byte for the nonce.
pub const VAULT_SPACE: usize = TAG_LEN + ADDRESS_LEN + ADDRESS_LEN + 1;

/// The persistent state of a vault: the mint it custodies, the principal
/// that administers it, and the nonce that reproduces its own address.
#[derive(Clone, Copy, Debug, PartialEq, Eq)]
pub struct Vault {
    pub mint: Address,
    pub authority: Address,
    pub bump: u8,
}

impl Vault {
    /// The stored form of the record under the given tag: the tag, the
    /// mint, the authority, the nonce.
    pub open spec fn layout(self, tag: Seq<u8>) -> Seq<u8> {
        tag + self.mint@ + self.authority@ + seq![self.bump]
    }

    /// The record that `bytes` store under the given tag. Bytes of any
    /// other length than [`VAULT_SPACE`], or under another tag, store none.
    pub open spec fn parsed(tag: Seq<u8>, bytes: Seq<u8>) -> Option<Vault> {
        if bytes.len() == VAULT_SPACE && bytes.subrange(0, 8) == tag {
            Some(
                Vault {
                    mint: address_of(bytes.subrange(8, 40)),
                    authority: address_of(bytes.subrange(40, 72)),
                    bump: bytes[72],
                },
            )
        } else {
            None
        }
    }

    /// Writes the record in its stored form.
    pub fn encode(&self, tag: &[u8; 8]) -> (bytes: Vec<u8>)
        ensures
            bytes@ == self.layout(tag@),
            bytes@.len() == VAULT_SPACE,
    {
        let mut bytes: Vec<u8> = Vec::new();
        let mut i: usize = 0;
        while i < 8
            invariant
                i <= 8,
                bytes@ == tag@.subrange(0, i as int),
            decreases 8 - i,
        {
            bytes.push(tag[i]);
            i += 1;
        }
        assert(bytes@ == tag@);
        self.mint.append_to(&mut bytes);
        self.authority.append_to(&mut bytes);
        bytes.push(self.bump);
        bytes
    }

    /// Reads a record from its stored form.
    pub fn decode(tag: &[u8; 8], bytes: &[u8]) -> (record: Option<Vault>)
        ensures
            record == Vault::parsed(tag@, bytes@),
    {
        if bytes.len() != VAULT_SPACE {
            return None;
        }
        let mut i: usize = 0;
        while i < 8
            invariant
                i <= 8,
                bytes@.len() == VAULT_SPACE,
                bytes@.subrange(0, i as int) == tag@.subrange(0, i as int),
            decreases 8 - i,
        {
            if bytes[i] != tag[i] {
                assert(bytes@.subrange(0, 8)[i as int] != tag@[i as int]);
                return None;
            }
            assert(bytes@.subrange(0, i + 1) == bytes@.subrange(0, i as int).push(bytes@[i as int]));
            assert(tag@.subrange(0, i + 1) == tag@.subrange(0, i as int).push(tag@[i as int]));
            i += 1;
        }
        assert(tag@.subrange(0, 8) == tag@);
        let mint = Address::read_from(bytes, 8);
        let authority = Address::read_from(bytes, 40);
        proof {
            address_of_bytes(mint);
            address_of_bytes(authority);
        }
        Some(Vault { mint, authority, bump: bytes[72] })
    }
}

/// What was stored is read back: the stored form of a record, under a tag
/// of [`TAG_LEN`] bytes, stores that record.
pub proof fn stored_record_reads_back(vault: Vault, tag: Seq<u8>)
    requires
        tag.len() == TAG_LEN,
    ensures
        vault.layout(tag).len() == VAULT_SPACE,
        Vault::parsed(tag, vault.layout(tag)) == Some(vault),
{
    let bytes = vault.layout(tag);
    assert(bytes.subrange(0, 8) == tag);
    assert(bytes.subrange(8, 40) == vault.mint@);
    assert(bytes.subrange(40, 72) == vault.authority@);
    address_of_bytes(vault.mint);
    address_of_bytes(vault.authority);
}

/// What is read was stored: bytes that store a record are the stored form
/// of that record.
pub proof fn read_record_was_stored(tag: Seq<u8>, bytes: Seq<u8>)
    ensures
        Vault::parsed(tag, bytes) matches Some(vault) ==> vault.layout(tag) == bytes,
{
    if let Some(vault) = Vault::parsed(tag, bytes) {
        let mint = bytes.subrange(8, 40);
        let authority = bytes.subrange(40, 72);
        address_of_has_bytes(mint);
        address_of_has_bytes(authority);
        assert(vault.layout(tag) =~= bytes);
    }
}

} // verus!
