use vstd::prelude::*;

verus! {

/// An opaque principal identifier, as handed to the engine by the host's
/// authentication layer: 32 bytes, equality-comparable. The all-zero value
/// is the distinguished "unassigned" sentinel (the default a fresh record's
/// driver field carries before any party accepts).
#[derive(Clone, Copy, Debug, Eq)]
pub struct Identity {
    pub bytes: [u8; 32],
}

impl Identity {
    /// The sentinel: every byte zero.
    pub open spec fn is_unassigned_spec(self) -> bool {
        forall|i: int| 0 <= i < 32 ==> self.bytes[i] == 0u8
    }

    /// The "no party assigned" value a fresh record starts with.
    pub fn unassigned() -> (r: Identity)
        ensures
            r.is_unassigned_spec(),
    {
        Identity { bytes: [0u8; 32] }
    }

    /// Whether this identity is the unassigned sentinel.
    pub fn is_unassigned(&self) -> (r: bool)
        ensures
            r == self.is_unassigned_spec(),
    {
        let mut i: usize = 0;
        while i < 32
            invariant
                i <= 32,
                forall|j: int| 0 <= j < i ==> self.bytes[j] == 0u8,
            decreases 32 - i,
        {
            if self.bytes[i] != 0 {
                return false;
            }
            i += 1;
        }
        true
    }
}

impl PartialEq for Identity {
    fn eq(&self, other: &Identity) -> (r: bool) {
        let mut i: usize = 0;
        while i < 32
            invariant
                i <= 32,
                forall|j: int| 0 <= j < i ==> self.bytes[j] == other.bytes[j],
            decreases 32 - i,
        {
            if self.bytes[i] != other.bytes[i] {
                proof {
                    assert(self.bytes[i as int] != other.bytes[i as int]);
                }
                return false;
            }
            i += 1;
        }
        proof {
            assert(self.bytes@ =~= other.bytes@);
            assert(self.bytes =~= other.bytes);
        }
        true
    }
}

impl vstd::std_specs::cmp::PartialEqSpecImpl for Identity {
    open spec fn obeys_eq_spec() -> bool {
        true
    }

    open spec fn eq_spec(&self, other: &Identity) -> bool {
        self.bytes == other.bytes
    }
}

} // verus!
