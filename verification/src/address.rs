//! Ledger addresses as plain values.

use vstd::prelude::*;

verus! {

/// The address of an account or of a contract on the ledger, in its textual
/// form: the 56 ASCII characters of its strkey (`G...` for an account, `C...`
/// for a contract). Two addresses are the same exactly when these agree.
#[derive(Debug, Clone, Copy, Eq)]
pub struct Address {
    pub strkey: [u8; 56],
}

impl Address {
    /// Whether both name the same account or contract.
    pub fn same_as(&self, other: &Address) -> (same: bool)
        ensures
            same == (*self == *other),
    {
        let mut i: usize = 0;
        while i < 56
            invariant
                i <= 56,
                forall|j: int| 0 <= j < i ==> self.strkey@[j] == other.strkey@[j],
            decreases 56 - i,
        {
            if self.strkey[i] != other.strkey[i] {
                return false;
            }
            i = i + 1;
        }
        assert(self.strkey =~= other.strkey);
        true
    }
}

impl PartialEq for Address {
    fn eq(&self, other: &Address) -> (same: bool) {
        self.same_as(other)
    }
}

impl vstd::std_specs::cmp::PartialEqSpecImpl for Address {
    open spec fn obeys_eq_spec() -> bool {
        true
    }

    open spec fn eq_spec(&self, other: &Address) -> bool {
        *self == *other
    }
}

} // verus!
