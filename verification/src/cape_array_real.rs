use vstd::prelude::*;
use crate::cape_types::{CapeReal, COBIAERR_INVALIDARGUMENT};
use crate::cape_error::COBIAError;
use crate::cape_array::{CapeArrayIn, CapeArrayOut, CapeArrayTarget, ICapeArrayReal};
use crate::cape_data_traits::{CapeArrayRealProviderIn, CapeArrayRealProviderOut};

verus! {

/// Read-only view of a CAPE-OPEN real array.
pub type CapeArrayRealIn<'a> = CapeArrayIn<'a, CapeReal, ICapeArrayReal>;

/// Writable view of a CAPE-OPEN real array.
pub type CapeArrayRealOut<'a> = CapeArrayOut<'a, CapeReal, ICapeArrayReal>;

impl<'a> CapeArrayRealOut<'a> {
    /// Replaces the content by that of any CAPE-OPEN real array: sizes the
    /// array, then copies the elements.
    pub fn set<T: CapeArrayRealProviderIn>(&mut self, array: &T) -> (r: Result<(), COBIAError>)
        ensures
            (old(self).growable() || array.provided_reals().len() == 1) ==> r is Ok
                && final(self).current() == array.provided_reals(),
            !(old(self).growable() || array.provided_reals().len() == 1)
                ==> r == Err::<(), COBIAError>(COBIAError::Code(COBIAERR_INVALIDARGUMENT))
                && final(self).current() == old(self).current()
                && *final(self) == *old(self),
            final(self).growable() == old(self).growable(),
            (match (final(self).target, old(self).target) {
                (CapeArrayTarget::Growable(x, _), CapeArrayTarget::Growable(y, _)) => *final(x) == *final(y),
                (CapeArrayTarget::Single(x), CapeArrayTarget::Single(y)) => *final(x) == *final(y),
                _ => false,
            }),
    {
        let source = array.as_cape_array_real_in();
        self.put_array(source.as_slice())
    }
}

impl<'a> CapeArrayRealProviderIn for CapeArrayRealIn<'a> {
    open spec fn provided_reals(&self) -> Seq<CapeReal> {
        self@
    }

    fn as_cape_array_real_in(&self) -> (r: CapeArrayRealIn<'_>) {
        self.clone()
    }
}

impl<'a> CapeArrayRealProviderOut for CapeArrayRealOut<'a> {
    open spec fn held_reals(&self) -> Seq<CapeReal> {
        self.current()
    }

    open spec fn growable_reals(&self) -> bool {
        self.growable()
    }

    open spec fn fill_real(&self) -> CapeReal {
        self.fill()
    }

    fn as_cape_array_real_out(&mut self) -> (r: CapeArrayRealOut<'_>) {
        self.reborrow()
    }
}

} // verus!
