use vstd::prelude::*;

use crate::bytes::zeros;

verus! {

/// A 32-byte account address.
#[derive(Clone, Copy, Debug)]
pub struct Pubkey {
    pub bytes: [u8; 32],
}

impl View for Pubkey {
    type V = Seq<u8>;

    open spec fn view(&self) -> Seq<u8> {
        self.bytes@
    }
}

impl PartialEq for Pubkey {
    fn eq(&self, other: &Self) -> (r: bool) {
        let mut i: usize = 0;
        while i < 32
            invariant
                i <= 32,
                forall|j: int| 0 <= j < i ==> self.bytes@[j] == other.bytes@[j],
            decreases 32 - i,
        {
            if self.bytes[i] != other.bytes[i] {
                return false;
            }
            i = i + 1;
        }
        assert(self.bytes =~= other.bytes);
        true
    }
}

impl Eq for Pubkey {}

impl vstd::std_specs::cmp::PartialEqSpecImpl for Pubkey {
    open spec fn obeys_eq_spec() -> bool {
        true
    }

    open spec fn eq_spec(&self, other: &Self) -> bool {
        *self == *other
    }
}

impl Pubkey {
    /// The all-zero address, which marks an unset key.
    pub fn zero() -> (k: Pubkey)
        ensures
            k@ == zeros(32),
    {
        let k = Pubkey { bytes: [0u8; 32] };
        assert(k@ =~= zeros(32));
        k
    }

    /// Whether this is the all-zero address.
    pub open spec fn is_zero(self) -> bool {
        self@ == zeros(32)
    }

    /// Test for the all-zero address.
    pub fn is_unset(&self) -> (r: bool)
        ensures
            r == self.is_zero(),
    {
        let zero = Pubkey::zero();
        proof {
            if self.is_zero() {
                Pubkey::lemma_view_injective(*self, zero);
            }
        }
        *self == zero
    }

    /// Keys with the same bytes are the same key.
    pub proof fn lemma_view_injective(a: Pubkey, b: Pubkey)
        requires
            a@ == b@,
        ensures
            a == b,
    {
        assert(a.bytes =~= b.bytes);
    }
}

} // verus!
