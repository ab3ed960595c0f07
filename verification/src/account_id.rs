//! Plain 32-byte account addresses.
//!
//! Every identity this crate reasons about (owners, vault records, token
//! accounts, counterparties, programs) is a 32-byte address held as plain
//! bytes, so that contracts can speak of it directly.

use vstd::prelude::*;

verus! {

broadcast use vstd::array::group_array_axioms;

/// A 32-byte account address.
#[derive(Clone, Copy, Debug)]
pub struct AccountId {
    pub bytes: [u8; 32],
}

impl View for AccountId {
    type V = Seq<u8>;

    open spec fn view(&self) -> Seq<u8> {
        self.bytes@
    }
}

impl AccountId {
    /// Two addresses are the same value exactly when they hold the same
    /// bytes.
    pub proof fn lemma_view_injective(a: AccountId, b: AccountId)
        ensures
            (a@ == b@) <==> (a == b),
    {
        if a@ == b@ {
            assert(forall|i: int| 0 <= i < 32 ==> a.bytes[i] == b.bytes[i]);
            assert(a.bytes =~= b.bytes);
        }
    }
}

impl PartialEq for AccountId {
    fn eq(&self, other: &AccountId) -> (r: bool) {
        let mut i: usize = 0;
        while i < 32
            invariant
                0 <= i <= 32,
                forall|j: int| 0 <= j < i ==> self.bytes[j] == other.bytes[j],
            decreases 32 - i,
        {
            if self.bytes[i] != other.bytes[i] {
                assert(self@[i as int] != other@[i as int]);
                return false;
            }
            i += 1;
        }
        assert(self@ =~= other@);
        true
    }
}

impl vstd::std_specs::cmp::PartialEqSpecImpl for AccountId {
    open spec fn obeys_eq_spec() -> bool {
        true
    }

    open spec fn eq_spec(&self, other: &AccountId) -> bool {
        self@ == other@
    }
}

} // verus!
