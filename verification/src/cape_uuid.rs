use vstd::prelude::*;

verus! {

/// A CAPE-OPEN universally unique identifier: sixteen bytes.
#[derive(Debug, Copy, Clone, Hash)]
pub struct CapeUUID {
    pub data: [u8; 16],
}

impl CapeUUID {
    /// The null identifier: all sixteen bytes are zero.
    pub fn null() -> (r: Self)
        ensures
            forall|i: int| 0 <= i < 16 ==> r.data[i] == 0u8,
    {
        CapeUUID { data: [0u8; 16] }
    }

    /// Identifier with the given bytes, in order.
    pub fn from_slice(slice: &[u8; 16]) -> (r: Self)
        ensures
            r.data@ == slice@,
    {
        CapeUUID { data: *slice }
    }

    /// Whether all sixteen bytes are zero.
    pub fn is_null(&self) -> (r: bool)
        ensures
            r == (forall|i: int| 0 <= i < 16 ==> self.data[i] == 0u8),
    {
        let mut i: usize = 0;
        while i < 16
            invariant
                0 <= i <= 16,
                forall|j: int| 0 <= j < i ==> self.data[j] == 0u8,
            decreases 16 - i,
        {
            if self.data[i] != 0 {
                return false;
            }
            i = i + 1;
        }
        true
    }
}

impl PartialEq for CapeUUID {
    /// Two identifiers are equal when their bytes are.
    fn eq(&self, other: &Self) -> (r: bool) {
        let mut i: usize = 0;
        while i < 16
            invariant
                0 <= i <= 16,
                forall|j: int| 0 <= j < i ==> self.data[j] == other.data[j],
            decreases 16 - i,
        {
            if self.data[i] != other.data[i] {
                return false;
            }
            i = i + 1;
        }
        assert(self.data@ =~= other.data@);
        true
    }
}

impl vstd::std_specs::cmp::PartialEqSpecImpl for CapeUUID {
    open spec fn obeys_eq_spec() -> bool {
        true
    }

    open spec fn eq_spec(&self, other: &Self) -> bool {
        self.data@ == other.data@
    }
}

impl Eq for CapeUUID {
}

} // verus!
