//! Addresses as plain data, with the equality and the strict total order
//! that the pool's canonical token ordering relies on.

use std::cmp::Ordering;
use vstd::prelude::*;

verus! {

/// Number of bytes in the key of an address.
pub const KEY_LEN: usize = 32;

/// Which of the two families of ledger identities an address belongs to.
///
/// Accounts sort before contracts.
#[derive(Clone, Copy, Debug, PartialEq, Eq, Structural)]
pub enum AddressKind {
    /// An account, identified by its ed25519 public key.
    Account,
    /// A contract, identified by the hash that names it.
    Contract,
}

/// An address: its kind and its 32-byte key.
///
/// Two addresses are equal when kind and key are equal. Addresses are
/// ordered by kind first and then by key, byte by byte.
#[derive(Clone, Copy, Debug)]
pub struct Address {
    pub kind: AddressKind,
    pub key: [u8; 32],
}

/// Position of a kind in the order of addresses.
pub open spec fn kind_rank(kind: AddressKind) -> int {
    match kind {
        AddressKind::Account => 0,
        AddressKind::Contract => 1,
    }
}

/// `a` and `b` agree on every index below `i`.
pub open spec fn agree_below(a: Seq<u8>, b: Seq<u8>, i: int) -> bool {
    forall|j: int| 0 <= j < i ==> a[j] == b[j]
}

/// Lexicographic order on keys: at the first index where they differ,
/// `a` holds the smaller byte.
pub open spec fn key_precedes(a: Seq<u8>, b: Seq<u8>) -> bool {
    exists|i: int|
        0 <= i < a.len() && i < b.len() && agree_below(a, b, i) && #[trigger] a[i] < b[i]
}

impl Address {
    /// The strict order of addresses: by kind, then by key.
    pub open spec fn precedes(self, other: Address) -> bool {
        kind_rank(self.kind) < kind_rank(other.kind) || (self.kind == other.kind && key_precedes(
            self.key@,
            other.key@,
        ))
    }

    /// The account whose key is 32 zero bytes.
    pub open spec fn is_zero(self) -> bool {
        self.kind == AddressKind::Account && forall|i: int| 0 <= i < 32 ==> self.key@[i] == 0u8
    }

    /// Builds an account address from its public key.
    pub fn account(key: [u8; 32]) -> (address: Address)
        ensures
            address == (Address { kind: AddressKind::Account, key }),
    {
        Address { kind: AddressKind::Account, key }
    }

    /// Builds a contract address from its identifying hash.
    pub fn contract(key: [u8; 32]) -> (address: Address)
        ensures
            address == (Address { kind: AddressKind::Contract, key }),
    {
        Address { kind: AddressKind::Contract, key }
    }

    /// Whether `self` and `other` are the same address.
    pub fn same_as(&self, other: &Address) -> (r: bool)
        ensures
            r == (*self == *other),
    {
        let same_kind = match (self.kind, other.kind) {
            (AddressKind::Account, AddressKind::Account) => true,
            (AddressKind::Contract, AddressKind::Contract) => true,
            _ => false,
        };
        if !same_kind {
            return false;
        }
        let mut i: usize = 0;
        while i < KEY_LEN
            invariant
                i <= KEY_LEN,
                agree_below(self.key@, other.key@, i as int),
            decreases KEY_LEN - i,
        {
            if self.key[i] != other.key[i] {
                return false;
            }
            i += 1;
        }
        assert(self.key =~= other.key);
        true
    }

    /// Whether `self` comes strictly before `other` in the order of addresses.
    pub fn sorts_before(&self, other: &Address) -> (r: bool)
        ensures
            r == self.precedes(*other),
    {
        match (self.kind, other.kind) {
            (AddressKind::Account, AddressKind::Contract) => {
                return true;
            },
            (AddressKind::Contract, AddressKind::Account) => {
                return false;
            },
            _ => {},
        }
        let mut i: usize = 0;
        while i < KEY_LEN
            invariant
                i <= KEY_LEN,
                self.kind == other.kind,
                agree_below(self.key@, other.key@, i as int),
            decreases KEY_LEN - i,
        {
            if self.key[i] != other.key[i] {
                proof {
                    lemma_first_difference_decides(self.key@, other.key@, i as int);
                }
                return self.key[i] < other.key[i];
            }
            i += 1;
        }
        false
    }
}

/// Once two keys agree below `i` and differ at `i`, the bytes at `i` decide
/// their order.
pub proof fn lemma_first_difference_decides(a: Seq<u8>, b: Seq<u8>, i: int)
    requires
        0 <= i < a.len(),
        i < b.len(),
        agree_below(a, b, i),
        a[i] != b[i],
    ensures
        key_precedes(a, b) == (a[i] < b[i]),
        key_precedes(b, a) == (b[i] < a[i]),
{
    assert(agree_below(b, a, i));
    if key_precedes(a, b) {
        let k = choose|k: int|
            0 <= k < a.len() && k < b.len() && agree_below(a, b, k) && #[trigger] a[k] < b[k];
        assert(k == i);
    }
    if key_precedes(b, a) {
        let k = choose|k: int|
            0 <= k < b.len() && k < a.len() && agree_below(b, a, k) && #[trigger] b[k] < a[k];
        assert(k == i);
    }
}

impl PartialEq for Address {
    fn eq(&self, other: &Self) -> (r: bool) {
        self.same_as(other)
    }
}

impl vstd::std_specs::cmp::PartialEqSpecImpl for Address {
    open spec fn obeys_eq_spec() -> bool {
        true
    }

    open spec fn eq_spec(&self, other: &Self) -> bool {
        *self == *other
    }
}

impl Eq for Address {

}

impl PartialOrd for Address {
    fn partial_cmp(&self, other: &Self) -> (r: Option<Ordering>) {
        if self.sorts_before(other) {
            Some(Ordering::Less)
        } else if other.sorts_before(self) {
            Some(Ordering::Greater)
        } else {
            proof {
                lemma_order_is_total(*self, *other);
            }
            Some(Ordering::Equal)
        }
    }
}

impl vstd::std_specs::cmp::PartialOrdSpecImpl for Address {
    open spec fn obeys_partial_cmp_spec() -> bool {
        true
    }

    open spec fn partial_cmp_spec(&self, other: &Self) -> Option<Ordering> {
        if self.precedes(*other) {
            Some(Ordering::Less)
        } else if other.precedes(*self) {
            Some(Ordering::Greater)
        } else {
            Some(Ordering::Equal)
        }
    }
}

/// No address comes before itself.
pub proof fn lemma_order_is_irreflexive(a: Address)
    ensures
        !a.precedes(a),
{
}

/// Of two addresses, at most one comes before the other.
pub proof fn lemma_order_is_asymmetric(a: Address, b: Address)
    ensures
        !(a.precedes(b) && b.precedes(a)),
{
    if a.kind == b.kind && key_precedes(a.key@, b.key@) {
        let i = choose|i: int|
            0 <= i < 32 && agree_below(a.key@, b.key@, i) && #[trigger] a.key@[i] < b.key@[i];
        lemma_first_difference_decides(a.key@, b.key@, i);
    }
}

/// Two distinct addresses are ordered one way or the other.
pub proof fn lemma_order_is_total(a: Address, b: Address)
    ensures
        a == b || a.precedes(b) || b.precedes(a),
{
    if a.kind == b.kind {
        if agree_below(a.key@, b.key@, 32) {
            assert(a.key =~= b.key);
        } else {
            let i = lemma_first_difference(a.key@, b.key@, 32);
            lemma_first_difference_decides(a.key@, b.key@, i);
        }
    }
}

/// The order of addresses is transitive.
pub proof fn lemma_order_is_transitive(a: Address, b: Address, c: Address)
    requires
        a.precedes(b),
        b.precedes(c),
    ensures
        a.precedes(c),
{
    if a.kind == b.kind && b.kind == c.kind {
        let i = choose|i: int|
            0 <= i < 32 && agree_below(a.key@, b.key@, i) && #[trigger] a.key@[i] < b.key@[i];
        let j = choose|j: int|
            0 <= j < 32 && agree_below(b.key@, c.key@, j) && #[trigger] b.key@[j] < c.key@[j];
        let k = if i <= j {
            i
        } else {
            j
        };
        assert(agree_below(a.key@, c.key@, k));
        assert(a.key@[k] < c.key@[k]);
    }
}

/// Two keys that do not agree below `n` have a first index where they differ.
proof fn lemma_first_difference(a: Seq<u8>, b: Seq<u8>, n: int) -> (i: int)
    requires
        0 <= n,
        !agree_below(a, b, n),
    ensures
        0 <= i < n,
        agree_below(a, b, i),
        a[i] != b[i],
    decreases n,
{
    if n == 0 {
        0
    } else if agree_below(a, b, n - 1) {
        n - 1
    } else {
        lemma_first_difference(a, b, n - 1)
    }
}

} // verus!
