use vstd::prelude::*;
use crate::pubkey::Pubkey;

verus! {

/// The membership registry of one organization.
pub struct DaoInfo {
    pub members: Vec<Pubkey>,
}

impl DaoInfo {
    /// The identities this registry admits.
    pub open spec fn has_member(&self, key: Pubkey) -> bool {
        self.members@.contains(key)
    }

    /// Whether `key` is one of the registry's members.
    pub fn is_member(&self, key: &Pubkey) -> (r: bool)
        ensures
            r == self.has_member(*key),
    {
        let mut i: usize = 0;
        while i < self.members.len()
            invariant
                0 <= i <= self.members@.len(),
                forall|j: int| 0 <= j < i ==> self.members@[j] != *key,
            decreases self.members@.len() - i,
        {
            if self.members[i] == *key {
                return true;
            }
            i = i + 1;
        }
        false
    }
}

} // verus!
