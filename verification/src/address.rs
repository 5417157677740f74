use vstd::prelude::*;
use vstd::std_specs::cmp::PartialEqSpecImpl;

verus! {

/// A 32-byte identity on the ledger: a wallet, an asset type (mint), or a
/// record that the protocol addresses deterministically.
#[derive(Clone, Copy, Debug, Eq)]
pub struct Address {
    pub bytes: [u8; 32],
}

impl PartialEq for Address {
    fn eq(&self, other: &Address) -> (same: bool) {
        let mut i: usize = 0;
        while i < 32
            invariant
                i <= 32,
                forall|j: int| 0 <= j < i ==> self.bytes[j] == other.bytes[j],
            decreases 32 - i,
        {
            if self.bytes[i] != other.bytes[i] {
                return false;
            }
            i += 1;
        }
        assert(self.bytes =~= other.bytes);
        true
    }
}

impl PartialEqSpecImpl for Address {
    open spec fn obeys_eq_spec() -> bool {
        true
    }

    open spec fn eq_spec(&self, other: &Address) -> bool {
        *self == *other
    }
}

impl Default for Address {
    /// The all-zero identity.
    fn default() -> (zero: Address)
        ensures
            zero.is_zero(),
    {
        Address { bytes: [0u8; 32] }
    }
}

impl Address {
    /// Whether this is the all-zero identity, which stands for "not set".
    pub open spec fn is_zero(&self) -> bool {
        forall|i: int| 0 <= i < 32 ==> self.bytes[i] == 0u8
    }

    /// Whether this identity is the all-zero one.
    pub fn is_default(&self) -> (unset: bool)
        ensures
            unset == self.is_zero(),
    {
        let zero = Address::default();
        let same = *self == zero;
        proof {
            if same {
                assert(self.bytes == zero.bytes);
            } else if self.is_zero() {
                assert(self.bytes =~= zero.bytes);
            }
        }
        same
    }
}

} // verus!
