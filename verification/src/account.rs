//! Account identities.

use vstd::prelude::*;

verus! {

/// The identity of an account: thirty-two bytes that the ledger never looks into.
///
/// The ledger only carries identities around and compares them. Two accounts are the
/// same account exactly when all their bytes agree.
#[derive(Clone, Copy, Debug)]
pub struct Account(pub [u8; 32]);

impl PartialEq for Account {
    fn eq(&self, other: &Account) -> (same: bool) {
        let mut i: usize = 0;
        while i < 32
            invariant
                i <= 32,
                forall|j: int| 0 <= j < i ==> self.0[j] == other.0[j],
            decreases 32 - i,
        {
            if self.0[i] != other.0[i] {
                return false;
            }
            i += 1;
        }
        assert(self.0 =~= other.0);
        true
    }
}

impl Eq for Account {

}

impl vstd::std_specs::cmp::PartialEqSpecImpl for Account {
    open spec fn obeys_eq_spec() -> bool {
        true
    }

    open spec fn eq_spec(&self, other: &Account) -> bool {
        *self == *other
    }
}

} // verus!
