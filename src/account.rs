use vstd::prelude::*;

verus! {

/// Number of bytes in an account identity.
pub const ACCOUNT_LEN: usize = 20;

/// An opaque account identity: twenty bytes compared for equality only.
#[derive(Clone, Copy, Debug, Default, Hash)]
pub struct AccountId {
    pub bytes: [u8; 20],
}

impl AccountId {
    /// The identity with the given bytes.
    pub fn from_bytes(bytes: [u8; 20]) -> (r: AccountId)
        ensures
            r.bytes == bytes,
    {
        AccountId { bytes }
    }
}

impl PartialEq for AccountId {
    fn eq(&self, o: &AccountId) -> (r: bool) {
        let mut i: usize = 0;
        while i < ACCOUNT_LEN
            invariant
                0 <= i <= ACCOUNT_LEN,
                self.bytes@.len() == ACCOUNT_LEN,
                o.bytes@.len() == ACCOUNT_LEN,
                forall|j: int| 0 <= j < i ==> self.bytes@[j] == o.bytes@[j],
            decreases ACCOUNT_LEN - i,
        {
            if self.bytes[i] != o.bytes[i] {
                return false;
            }
            i = i + 1;
        }
        proof {
            assert(self.bytes =~= o.bytes);
        }
        true
    }
}

impl Eq for AccountId {
}

impl vstd::std_specs::cmp::PartialEqSpecImpl for AccountId {
    open spec fn obeys_eq_spec() -> bool {
        true
    }

    open spec fn eq_spec(&self, o: &AccountId) -> bool {
        *self == *o
    }
}

} // verus!
