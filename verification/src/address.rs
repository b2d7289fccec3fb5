//! Identities of wallets, launches and token mints.

use vstd::prelude::*;

verus! {

/// A 32-byte identity. Two addresses name the same wallet, launch or mint
/// exactly when all their bytes agree.
#[derive(Clone, Copy, Debug, Eq)]
pub struct Address {
    pub bytes: [u8; 32],
}

impl PartialEq for Address {
    fn eq(&self, other: &Address) -> (same: bool) {
        let mut i: usize = 0;
        while i < 32
            invariant
                i <= 32,
                forall|j: int| 0 <= j < i ==> self.bytes[j] == other.bytes[j],
            decreases 32 - i,
        {
            if self.bytes[i] != other.bytes[i] {
                return false;
            }
            i += 1;
        }
        proof {
            lemma_address_extensional(*self, *other);
        }
        true
    }
}

impl vstd::std_specs::cmp::PartialEqSpecImpl for Address {
    open spec fn obeys_eq_spec() -> bool {
        true
    }

    open spec fn eq_spec(&self, other: &Address) -> bool {
        *self == *other
    }
}

/// Addresses that agree byte for byte are the same address.
pub proof fn lemma_address_extensional(a: Address, b: Address)
    requires
        forall|i: int| 0 <= i < 32 ==> a.bytes[i] == b.bytes[i],
    ensures
        a == b,
{
    assert(a.bytes =~= b.bytes);
}

impl Address {
    /// Every byte of the address is zero: the address names nothing yet.
    pub open spec fn is_zero(self) -> bool {
        forall|i: int| 0 <= i < 32 ==> self.bytes[i] == 0
    }
}

impl Default for Address {
    /// The address that names nothing: all bytes zero.
    fn default() -> (address: Address)
        ensures
            address.is_zero(),
    {
        Address { bytes: [0u8; 32] }
    }
}

} // verus!
