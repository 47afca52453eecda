use vstd::prelude::*;
use crate::cape_types::{CapeInteger, COBIAERR_INVALIDARGUMENT};
use crate::cape_error::COBIAError;
use crate::cape_array::{CapeArrayIn, CapeArrayOut, CapeArrayTarget, ICapeArrayInteger};
use crate::cape_data_traits::{CapeArrayIntegerProviderIn, CapeArrayIntegerProviderOut};

use crate::cape_display::{bracketed, display_i32, int_texts_i32};

verus! {

/// Read-only view of a CAPE-OPEN integer array.
pub type CapeArrayIntegerIn<'a> = CapeArrayIn<'a, CapeInteger, ICapeArrayInteger>;

/// Writable view of a CAPE-OPEN integer array.
pub type CapeArrayIntegerOut<'a> = CapeArrayOut<'a, CapeInteger, ICapeArrayInteger>;

impl<'a> CapeArrayIntegerOut<'a> {
    /// Replaces the content by that of any CAPE-OPEN integer array: sizes the
    /// array, then copies the elements.
    pub fn set<T: CapeArrayIntegerProviderIn>(&mut self, array: &T) -> (r: Result<(), COBIAError>)
        ensures
            (old(self).growable() || array.provided_integers().len() == 1) ==> r is Ok
                && final(self).current() == array.provided_integers(),
            !(old(self).growable() || array.provided_integers().len() == 1)
                ==> r == Err::<(), COBIAError>(COBIAError::Code(COBIAERR_INVALIDARGUMENT))
                && final(self).current() == old(self).current()
                && *final(self) == *old(self),
            final(self).growable() == old(self).growable(),
            (match (final(self).target, old(self).target) {
                (CapeArrayTarget::Growable(x, _), CapeArrayTarget::Growable(y, _)) => *final(x) == *final(y),
                (CapeArrayTarget::Single(x), CapeArrayTarget::Single(y)) => *final(x) == *final(y),
                _ => false,
            }),
    {
        let source = array.as_cape_array_integer_in();
        self.put_array(source.as_slice())
    }
}

impl<'a> CapeArrayIntegerProviderIn for CapeArrayIntegerIn<'a> {
    open spec fn provided_integers(&self) -> Seq<CapeInteger> {
        self@
    }

    fn as_cape_array_integer_in(&self) -> (r: CapeArrayIntegerIn<'_>) {
        self.clone()
    }
}

impl<'a> CapeArrayIntegerProviderOut for CapeArrayIntegerOut<'a> {
    open spec fn held_integers(&self) -> Seq<CapeInteger> {
        self.current()
    }

    open spec fn growable_integers(&self) -> bool {
        self.growable()
    }

    open spec fn fill_integer(&self) -> CapeInteger {
        self.fill()
    }

    fn as_cape_array_integer_out(&mut self) -> (r: CapeArrayIntegerOut<'_>) {
        self.reborrow()
    }
}

impl<'a> CapeArrayIntegerIn<'a> {
    /// The elements in decimal, separated by commas, between square
    /// brackets: `[1, 2]`.
    pub fn to_string(&self) -> (r: String)
        ensures
            r@ == bracketed(int_texts_i32(self@)),
    {
        display_i32(self.as_slice())
    }
}

impl<'a> CapeArrayIntegerOut<'a> {
    /// The elements in decimal, separated by commas, between square
    /// brackets: `[1, 2]`.
    pub fn to_string(&self) -> (r: String)
        ensures
            r@ == bracketed(int_texts_i32(self.current())),
    {
        let v = self.as_vec();
        display_i32(v.as_slice())
    }
}

} // verus!
