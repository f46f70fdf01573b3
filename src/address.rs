//! Account and contract addresses.

use vstd::prelude::*;

verus! {

/// A 32-byte hash, as used for addresses and remote event identifiers.
pub type Hash32 = [u8; 32];

/// Whether two 32-byte hashes are equal.
pub fn hash_eq(a: &Hash32, b: &Hash32) -> (r: bool)
    ensures
        r == (*a == *b),
{
    let mut i: usize = 0;
    while i < 32
        invariant
            i <= 32,
            forall|j: int| 0 <= j < i ==> a[j] == b[j],
        decreases 32 - i,
    {
        if a[i] != b[i] {
            return false;
        }
        i = i + 1;
    }
    proof {
        assert(*a =~= *b);
    }
    true
}

/// An address on the local chain: an account or a contract package, each named by a hash.
#[derive(Clone, Copy, Debug, Hash)]
pub enum Address {
    Account(Hash32),
    Contract(Hash32),
}

impl PartialEq for Address {
    fn eq(&self, other: &Address) -> (r: bool) {
        match (self, other) {
            (Address::Account(a), Address::Account(b)) => hash_eq(a, b),
            (Address::Contract(a), Address::Contract(b)) => hash_eq(a, b),
            _ => false,
        }
    }
}

impl vstd::std_specs::cmp::PartialEqSpecImpl for Address {
    open spec fn obeys_eq_spec() -> bool {
        true
    }

    open spec fn eq_spec(&self, other: &Address) -> bool {
        *self == *other
    }
}

impl Eq for Address {
}

} // verus!
