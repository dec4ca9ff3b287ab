//! Account addresses: thirty-two bytes that name a mint, a principal, a
//! program or a vault record.

use vstd::prelude::*;

verus! {

/// The number of bytes in an address.
pub const ADDRESS_LEN: usize = 32;

/// The address of an account.
#[derive(Clone, Copy, Debug, PartialEq, Eq, Hash)]
pub struct Address {
    pub bytes: [u8; 32],
}

impl View for Address {
    type V = Seq<u8>;

    open spec fn view(&self) -> Seq<u8> {
        self.bytes@
    }
}

impl Address {
    /// The address made of the given bytes.
    pub fn new(bytes: [u8; 32]) -> (address: Address)
        ensures
            address.bytes == bytes,
            address@ == bytes@,
    {
        Address { bytes }
    }

    /// Whether two addresses hold the same bytes.
    pub fn same(&self, other: &Address) -> (equal: bool)
        ensures
            equal == (self@ == other@),
            equal == (*self == *other),
    {
        let mut i: usize = 0;
        while i < 32
            invariant
                i <= 32,
                forall|j: int| 0 <= j < i ==> self.bytes[j] == other.bytes[j],
            decreases 32 - i,
        {
            if self.bytes[i] != other.bytes[i] {
                return false;
            }
            i += 1;
        }
        proof {
            assert(self.bytes =~= other.bytes);
        }
        true
    }

    /// Appends the bytes of the address to `out`.
    pub(crate) fn append_to(&self, out: &mut Vec<u8>)
        ensures
            final(out)@ == old(out)@ + self@,
    {
        let ghost before = out@;
        let mut i: usize = 0;
        while i < 32
            invariant
                i <= 32,
                out@ == before + self@.subrange(0, i as int),
            decreases 32 - i,
        {
            out.push(self.bytes[i]);
            i += 1;
        }
        assert(self@.subrange(0, 32) == self@);
    }

    /// Reads the address that stands in `bytes` from position `at` on.
    pub(crate) fn read_from(bytes: &[u8], at: usize) -> (address: Address)
        requires
            at + 32 <= bytes.len(),
        ensures
            address@ == bytes@.subrange(at as int, at + 32),
    {
        let mut out: [u8; 32] = [0u8; 32];
        let mut i: usize = 0;
        while i < 32
            invariant
                i <= 32,
                at + 32 <= bytes.len(),
                forall|j: int| 0 <= j < i ==> out@[j] == bytes@[at + j],
            decreases 32 - i,
        {
            out[i] = bytes[at + i];
            i += 1;
        }
        assert(out@ =~= bytes@.subrange(at as int, at + 32));
        Address { bytes: out }
    }
}

/// The address that holds the given bytes.
pub open spec fn address_of(bytes: Seq<u8>) -> Address {
    choose|address: Address| address@ == bytes
}

/// Addresses with the same bytes are the same address.
pub proof fn address_by_bytes(a: Address, b: Address)
    ensures
        (a@ == b@) == (a == b),
{
    if a@ == b@ {
        assert forall|i: int| 0 <= i < 32 implies a.bytes[i] == b.bytes[i] by {
            assert(a@[i] == b@[i]);
        }
        assert(a.bytes =~= b.bytes);
    }
}

/// An address is the one that holds its bytes.
pub proof fn address_of_bytes(a: Address)
    ensures
        address_of(a@) == a,
{
    address_by_bytes(address_of(a@), a);
}

/// Thirty-two bytes are the bytes of an address.
pub proof fn address_of_has_bytes(bytes: Seq<u8>)
    requires
        bytes.len() == 32,
    ensures
        address_of(bytes)@ == bytes,
{
    let b = bytes;
    let witness = Address {
        bytes: [
            b[0], b[1], b[2], b[3], b[4], b[5], b[6], b[7], b[8], b[9], b[10], b[11], b[12], b[13],
            b[14], b[15], b[16], b[17], b[18], b[19], b[20], b[21], b[22], b[23], b[24], b[25],
            b[26], b[27], b[28], b[29], b[30], b[31],
        ],
    };
    assert(witness@ =~= bytes);
}

} // verus!
