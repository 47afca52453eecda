use vstd::prelude::*;
use crate::cape_types::{CapeReal, CAPE_REAL_NAN};
use crate::cape_array::{CapeArrayIn, CapeArrayOut, CapeArrayTarget};
use crate::cape_array_real::{CapeArrayRealIn, CapeArrayRealOut};
use crate::cape_data_traits::{CapeArrayRealProviderIn, CapeArrayRealProviderOut};

verus! {

/// A single real that can be passed as a CAPE-OPEN real array of exactly
/// one element. Its size cannot change.
pub struct CapeArrayRealScalar {
    value: CapeReal,
}

impl View for CapeArrayRealScalar {
    type V = CapeReal;

    closed spec fn view(&self) -> CapeReal {
        self.value
    }
}

impl CapeArrayRealScalar {
    /// A scalar holding NaN.
    pub fn new() -> (r: Self)
        ensures
            r@ == CAPE_REAL_NAN,
    {
        CapeArrayRealScalar { value: CAPE_REAL_NAN }
    }

    /// A scalar holding `value`.
    pub fn from(value: CapeReal) -> (r: Self)
        ensures
            r@ == value,
    {
        CapeArrayRealScalar { value }
    }

    /// The value.
    pub fn value(&self) -> (r: CapeReal)
        ensures
            r == self@,
    {
        self.value
    }

    /// Replaces the value.
    pub fn set(&mut self, value: CapeReal)
        ensures
            final(self)@ == value,
    {
        self.value = value;
    }

    /// The value, for modification in place.
    pub fn as_mut(&mut self) -> (r: &mut CapeReal)
        ensures
            *r == old(self)@,
            final(self)@ == *final(r),
    {
        &mut self.value
    }
}

impl Clone for CapeArrayRealScalar {
    fn clone(&self) -> (r: Self)
        ensures
            r@ == self@,
    {
        CapeArrayRealScalar { value: self.value }
    }
}

impl CapeArrayRealProviderIn for CapeArrayRealScalar {
    open spec fn provided_reals(&self) -> Seq<CapeReal> {
        seq![self@]
    }

    fn as_cape_array_real_in(&self) -> (r: CapeArrayRealIn<'_>) {
        CapeArrayIn::new(std::slice::from_ref(&self.value))
    }
}

impl CapeArrayRealProviderOut for CapeArrayRealScalar {
    open spec fn held_reals(&self) -> Seq<CapeReal> {
        seq![self@]
    }

    open spec fn growable_reals(&self) -> bool {
        false
    }

    open spec fn fill_real(&self) -> CapeReal {
        self@
    }

    fn as_cape_array_real_out(&mut self) -> (r: CapeArrayRealOut<'_>)
        ensures
            r.target matches CapeArrayTarget::Single(x) && *x == old(self)@ && final(self)@ == *final(x),
    {
        CapeArrayOut { target: CapeArrayTarget::Single(&mut self.value), interface_type: core::marker::PhantomData }
    }
}

} // verus!
