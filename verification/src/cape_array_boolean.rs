use vstd::prelude::*;
use crate::cape_types::{CapeBoolean, COBIAERR_INVALIDARGUMENT};
use crate::cape_error::COBIAError;
use crate::cape_array::{CapeArrayIn, CapeArrayOut, CapeArrayTarget, ICapeArrayBoolean};
use crate::cape_data_traits::{CapeArrayBooleanProviderIn, CapeArrayBooleanProviderOut};

use crate::cape_display::{bracketed, display_u32, int_texts_u32};

verus! {

/// Read-only view of a CAPE-OPEN boolean array.
pub type CapeArrayBooleanIn<'a> = CapeArrayIn<'a, CapeBoolean, ICapeArrayBoolean>;

/// Writable view of a CAPE-OPEN boolean array.
pub type CapeArrayBooleanOut<'a> = CapeArrayOut<'a, CapeBoolean, ICapeArrayBoolean>;

impl<'a> CapeArrayBooleanOut<'a> {
    /// Replaces the content by that of any CAPE-OPEN boolean array: sizes the
    /// array, then copies the elements.
    pub fn set<T: CapeArrayBooleanProviderIn>(&mut self, array: &T) -> (r: Result<(), COBIAError>)
        ensures
            (old(self).growable() || array.provided_booleans().len() == 1) ==> r is Ok
                && final(self).current() == array.provided_booleans(),
            !(old(self).growable() || array.provided_booleans().len() == 1)
                ==> r == Err::<(), COBIAError>(COBIAError::Code(COBIAERR_INVALIDARGUMENT))
                && final(self).current() == old(self).current()
                && *final(self) == *old(self),
            final(self).growable() == old(self).growable(),
            (match (final(self).target, old(self).target) {
                (CapeArrayTarget::Growable(x, _), CapeArrayTarget::Growable(y, _)) => *final(x) == *final(y),
                (CapeArrayTarget::Single(x), CapeArrayTarget::Single(y)) => *final(x) == *final(y),
                _ => false,
            }),
    {
        let source = array.as_cape_array_boolean_in();
        self.put_array(source.as_slice())
    }
}

impl<'a> CapeArrayBooleanProviderIn for CapeArrayBooleanIn<'a> {
    open spec fn provided_booleans(&self) -> Seq<CapeBoolean> {
        self@
    }

    fn as_cape_array_boolean_in(&self) -> (r: CapeArrayBooleanIn<'_>) {
        self.clone()
    }
}

impl<'a> CapeArrayBooleanProviderOut for CapeArrayBooleanOut<'a> {
    open spec fn held_booleans(&self) -> Seq<CapeBoolean> {
        self.current()
    }

    open spec fn growable_booleans(&self) -> bool {
        self.growable()
    }

    open spec fn fill_boolean(&self) -> CapeBoolean {
        self.fill()
    }

    fn as_cape_array_boolean_out(&mut self) -> (r: CapeArrayBooleanOut<'_>) {
        self.reborrow()
    }
}

/// The booleans of CAPE-OPEN boolean values: zero is false, anything else
/// is true.
pub open spec fn as_bools(s: Seq<CapeBoolean>) -> Seq<bool> {
    Seq::new(s.len(), |i: int| s[i] != 0)
}

/// The booleans of CAPE-OPEN boolean values.
pub fn to_bool_vec(s: &[CapeBoolean]) -> (r: Vec<bool>)
    ensures
        r@ == as_bools(s@),
{
    let mut v: Vec<bool> = Vec::new();
    let mut i: usize = 0;
    while i < s.len()
        invariant
            0 <= i <= s@.len(),
            v@ == as_bools(s@.take(i as int)),
        decreases s@.len() - i,
    {
        v.push(s[i] != 0);
        i = i + 1;
        assert(v@ =~= as_bools(s@.take(i as int)));
    }
    assert(s@.take(s@.len() as int) =~= s@);
    v
}

impl<'a> CapeArrayBooleanIn<'a> {
    /// The elements as booleans.
    pub fn as_bool_vec(&self) -> (r: Vec<bool>)
        ensures
            r@ == as_bools(self@),
    {
        to_bool_vec(self.as_slice())
    }

    /// The elements in decimal, separated by commas, between square
    /// brackets: `[1, 0]`.
    pub fn to_string(&self) -> (r: String)
        ensures
            r@ == bracketed(int_texts_u32(self@)),
    {
        display_u32(self.as_slice())
    }
}

impl<'a> CapeArrayBooleanOut<'a> {
    /// The elements as booleans.
    pub fn as_bool_vec(&self) -> (r: Vec<bool>)
        ensures
            r@ == as_bools(self.current()),
    {
        let v = self.as_vec();
        to_bool_vec(v.as_slice())
    }

    /// The elements in decimal, separated by commas, between square
    /// brackets: `[1, 0]`.
    pub fn to_string(&self) -> (r: String)
        ensures
            r@ == bracketed(int_texts_u32(self.current())),
    {
        let v = self.as_vec();
        display_u32(v.as_slice())
    }
}

} // verus!
