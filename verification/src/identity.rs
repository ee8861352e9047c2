//! Identities and the ownership gate.

use vstd::prelude::*;
use crate::constants::PUBLIC_KEY_LENGTH;

verus! {

/// A 32-byte public identifier of a wallet. Two identities are the same exactly
/// when their bytes are.
#[derive(Debug, Clone, Copy, Eq)]
pub struct Identity {
    pub bytes: [u8; PUBLIC_KEY_LENGTH],
}

impl PartialEq for Identity {
    fn eq(&self, other: &Self) -> (same: bool) {
        let mut i: usize = 0;
        while i < PUBLIC_KEY_LENGTH
            invariant
                i <= PUBLIC_KEY_LENGTH,
                forall|j: int| 0 <= j < i ==> self.bytes@[j] == other.bytes@[j],
            decreases PUBLIC_KEY_LENGTH - i,
        {
            if self.bytes[i] != other.bytes[i] {
                return false;
            }
            i += 1;
        }
        assert(self.bytes@ =~= other.bytes@);
        true
    }
}

impl View for Identity {
    type V = Seq<u8>;

    /// The 32 bytes.
    open spec fn view(&self) -> Seq<u8> {
        self.bytes@
    }
}

impl vstd::std_specs::cmp::PartialEqSpecImpl for Identity {
    open spec fn obeys_eq_spec() -> bool {
        true
    }

    open spec fn eq_spec(&self, other: &Self) -> bool {
        self.bytes@ == other.bytes@
    }
}

/// The caller is not the owner that the record names.
#[derive(Debug, Clone, Copy, PartialEq, Eq, Structural)]
pub struct NotOwner;

impl Identity {
    /// The identity with the given bytes.
    pub fn new(bytes: [u8; PUBLIC_KEY_LENGTH]) -> (id: Identity)
        ensures
            id.bytes == bytes,
    {
        Identity { bytes }
    }

}

impl Default for Identity {
    /// The all-zero identity.
    fn default() -> (id: Identity)
        ensures
            id@ == Seq::new(PUBLIC_KEY_LENGTH as nat, |i: int| 0u8),
    {
        let id = Identity { bytes: [0u8; PUBLIC_KEY_LENGTH] };
        assert(id.bytes@ =~= Seq::new(PUBLIC_KEY_LENGTH as nat, |i: int| 0u8));
        id
    }
}

/// The ownership gate: passes exactly when the caller is the record's owner.
pub fn authorize(record_owner: &Identity, caller: &Identity) -> (r: Result<(), NotOwner>)
    ensures
        r is Ok <==> record_owner@ == caller@,
{
    if *record_owner == *caller {
        Ok(())
    } else {
        Err(NotOwner)
    }
}

} // verus!
