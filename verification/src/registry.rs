//! The vault records that exist under one program, each at the address
//! derived for its mint.

use crate::address::Address;
use crate::derivation::{derived_address, reproduced_vault, vault_address};
use crate::types::Vault;
use vstd::prelude::*;

verus! {

/// A vault record together with the address it stands at.
#[derive(Clone, Copy, Debug, PartialEq, Eq)]
pub struct VaultAccount {
    pub address: Address,
    pub vault: Vault,
}

/// Whether `vault` belongs at `address` under `program`: the address is the
/// one derived for the vault's mint, and the vault's nonce reproduces it.
pub open spec fn placed(program: Address, address: Address, vault: Vault) -> bool {
    &&& derived_address(program, vault.mint) == Some(address)
    &&& reproduced_vault(program, vault.mint, vault.bump) == Some(address)
}

/// The vault of `mint` among `records`: what stands at the address derived
/// for `mint`, where that is a record of this mint.
pub open spec fn located(records: Map<Address, Vault>, program: Address, mint: Address) -> Option<
    VaultAccount,
> {
    match derived_address(program, mint) {
        Some(address) if records.dom().contains(address) && records[address].mint == mint => Some(
            VaultAccount { address, vault: records[address] },
        ),
        _ => None,
    }
}

/// Whether some account of `accounts` stands at `address`.
spec fn holds(accounts: Seq<VaultAccount>, address: Address) -> bool {
    exists|i: int| 0 <= i < accounts.len() && (#[trigger] accounts[i]).address == address
}

/// The position in `accounts` of an account that stands at `address`.
spec fn slot(accounts: Seq<VaultAccount>, address: Address) -> int {
    choose|i: int| 0 <= i < accounts.len() && (#[trigger] accounts[i]).address == address
}

/// No two accounts of `accounts` stand at one address.
spec fn distinct(accounts: Seq<VaultAccount>) -> bool {
    forall|i: int, j: int|
        0 <= i < j < accounts.len() ==> (#[trigger] accounts[i]).address != (
        #[trigger] accounts[j]).address
}

/// The records of `accounts`, by their addresses.
spec fn records(accounts: Seq<VaultAccount>) -> Map<Address, Vault> {
    Map::new(
        |address: Address| holds(accounts, address),
        |address: Address| accounts[slot(accounts, address)].vault,
    )
}

/// Adding an account at a free address adds its record and no other.
proof fn records_after_push(accounts: Seq<VaultAccount>, account: VaultAccount)
    requires
        distinct(accounts),
        !holds(accounts, account.address),
    ensures
        distinct(accounts.push(account)),
        records(accounts.push(account)) == records(accounts).insert(account.address, account.vault),
{
    let grown = accounts.push(account);
    let last = accounts.len() as int;
    assert forall|i: int, j: int| 0 <= i < j < grown.len() implies (#[trigger] grown[i]).address
        != (#[trigger] grown[j]).address by {
        if j < last {
            assert(grown[i] == accounts[i] && grown[j] == accounts[j]);
        } else {
            assert(grown[i] == accounts[i]);
        }
    }
    assert(grown[last] == account);
    assert forall|address: Address| holds(grown, address) <==> (holds(accounts, address) || address
        == account.address) by {
        if holds(grown, address) {
            let i = slot(grown, address);
            if i < last {
                assert(accounts[i] == grown[i]);
            }
        }
        if holds(accounts, address) {
            let i = slot(accounts, address);
            assert(grown[i] == accounts[i]);
        }
    }
    assert forall|address: Address| holds(grown, address) implies #[trigger] records(grown)[address]
        == records(accounts).insert(account.address, account.vault)[address] by {
        let i = slot(grown, address);
        if address == account.address {
            if i < last {
                assert(accounts[i] == grown[i]);
            }
        } else {
            assert(accounts[i] == grown[i]);
            let k = slot(accounts, address);
            if k < i {
                assert(accounts[k].address != accounts[i].address);
            } else if i < k {
                assert(accounts[i].address != accounts[k].address);
            }
        }
    }
    assert(records(grown) =~= records(accounts).insert(account.address, account.vault));
}

/// Accounts at distinct addresses hold as many records as there are accounts.
proof fn counted_records(accounts: Seq<VaultAccount>)
    requires
        distinct(accounts),
    ensures
        records(accounts).dom().finite(),
        records(accounts).dom().len() == accounts.len(),
    decreases accounts.len(),
{
    if accounts.len() == 0 {
        assert(records(accounts).dom() =~= Set::<Address>::empty());
    } else {
        let front = accounts.drop_last();
        let last = accounts.last();
        assert(accounts == front.push(last));
        assert forall|i: int, j: int| 0 <= i < j < front.len() implies (#[trigger] front[i]).address
            != (#[trigger] front[j]).address by {
            assert(front[i] == accounts[i] && front[j] == accounts[j]);
        }
        if holds(front, last.address) {
            let i = slot(front, last.address);
            assert(front[i] == accounts[i]);
            assert(accounts[i].address != accounts[accounts.len() - 1].address);
        }
        counted_records(front);
        records_after_push(front, last);
        assert(records(accounts).dom() =~= records(front).dom().insert(last.address));
    }
}

/// The vault records of one program.
pub struct Registry {
    program: Address,
    accounts: Vec<VaultAccount>,
}

impl View for Registry {
    type V = Map<Address, Vault>;

    /// The records, by their addresses.
    closed spec fn view(&self) -> Map<Address, Vault> {
        records(self.accounts@)
    }
}

impl Registry {
    /// The program under which the records are derived.
    pub closed spec fn owner(&self) -> Address {
        self.program
    }

    /// Every record stands once, at the address derived for its mint, with a
    /// nonce that reproduces that address.
    pub closed spec fn wf(&self) -> bool {
        &&& distinct(self.accounts@)
        &&& forall|i: int|
            0 <= i < self.accounts@.len() ==> placed(
                self.program,
                (#[trigger] self.accounts@[i]).address,
                self.accounts@[i].vault,
            )
    }

    /// A registry that holds no record yet.
    pub fn new(program: Address) -> (registry: Registry)
        ensures
            registry.wf(),
            registry.owner() == program,
            registry@ == Map::<Address, Vault>::empty(),
    {
        let registry = Registry { program, accounts: Vec::new() };
        assert(registry@ =~= Map::<Address, Vault>::empty());
        registry
    }

    /// The program under which the records are derived.
    pub fn program(&self) -> (program: Address)
        ensures
            program == self.owner(),
    {
        self.program
    }

    /// The number of records.
    pub fn len(&self) -> (count: usize)
        requires
            self.wf(),
        ensures
            self@.dom().finite(),
            count == self@.dom().len(),
    {
        proof {
            counted_records(self.accounts@);
        }
        self.accounts.len()
    }

    /// The record that stands at `address`, if there is one.
    pub fn get(&self, address: &Address) -> (found: Option<Vault>)
        requires
            self.wf(),
        ensures
            found == if self@.dom().contains(*address) {
                Some(self@[*address])
            } else {
                None
            },
    {
        let mut i: usize = 0;
        while i < self.accounts.len()
            invariant
                self.wf(),
                i <= self.accounts@.len(),
                forall|j: int| 0 <= j < i ==> (#[trigger] self.accounts@[j]).address != *address,
            decreases self.accounts@.len() - i,
        {
            if self.accounts[i].address.same(address) {
                proof {
                    let k = slot(self.accounts@, *address);
                    if k < i {
                        assert(self.accounts@[k].address != self.accounts@[i as int].address);
                    } else if i < k {
                        assert(self.accounts@[i as int].address != self.accounts@[k].address);
                    }
                }
                return Some(self.accounts[i].vault);
            }
            i += 1;
        }
        None
    }

    /// Whether a record stands at `address`.
    pub fn contains(&self, address: &Address) -> (present: bool)
        requires
            self.wf(),
        ensures
            present == self@.dom().contains(*address),
    {
        self.get(address).is_some()
    }

    /// Finds the vault of `mint` again: derives its address and reads what
    /// stands there.
    pub fn locate(&self, mint: &Address) -> (found: Option<VaultAccount>)
        requires
            self.wf(),
        ensures
            found == located(self@, self.owner(), *mint),
    {
        match vault_address(&self.program, mint) {
            None => None,
            Some((address, _)) => match self.get(&address) {
                None => None,
                Some(vault) => {
                    if vault.mint.same(mint) {
                        Some(VaultAccount { address, vault })
                    } else {
                        None
                    }
                },
            },
        }
    }

    /// Puts a record at a free address where it belongs.
    pub(crate) fn insert(&mut self, account: VaultAccount)
        requires
            old(self).wf(),
            !old(self)@.dom().contains(account.address),
            placed(old(self).owner(), account.address, account.vault),
        ensures
            final(self).wf(),
            final(self).owner() == old(self).owner(),
            final(self)@ == old(self)@.insert(account.address, account.vault),
    {
        proof {
            records_after_push(self.accounts@, account);
        }
        self.accounts.push(account);
    }

    /// Every record of a well-formed registry stands where it belongs: at
    /// the address derived for its mint, which its nonce reproduces.
    pub proof fn records_are_placed(&self, address: Address)
        requires
            self.wf(),
            self@.dom().contains(address),
        ensures
            placed(self.owner(), address, self@[address]),
    {
        let i = slot(self.accounts@, address);
        assert(placed(self.program, self.accounts@[i].address, self.accounts@[i].vault));
    }

    /// A mint has one vault record at most: two records of one mint stand
    /// at one address.
    pub proof fn one_record_per_mint(&self, first: Address, second: Address)
        requires
            self.wf(),
            self@.dom().contains(first),
            self@.dom().contains(second),
            self@[first].mint == self@[second].mint,
        ensures
            first == second,
    {
        self.records_are_placed(first);
        self.records_are_placed(second);
    }
}

} // verus!
