use vstd::prelude::*;
use crate::cape_types::{CapeReal, CapeInteger, CapeByte, CapeBoolean};
use crate::cape_array::CapeArrayIn;
use crate::cape_array_real::CapeArrayRealIn;
use crate::cape_array_integer::CapeArrayIntegerIn;
use crate::cape_array_byte::CapeArrayByteIn;
use crate::cape_array_boolean::CapeArrayBooleanIn;
use crate::cape_array_enumeration::CapeArrayEnumerationIn;
use crate::cape_data_traits::{CapeArrayRealProviderIn, CapeArrayIntegerProviderIn, CapeArrayByteProviderIn, CapeArrayBooleanProviderIn, CapeArrayEnumerationProviderIn};

verus! {

/// A borrowed slice that can be passed where a CAPE-OPEN array input
/// argument is expected, without copying the elements.
pub struct CapeArraySlice<'a, Element: Copy> {
    slice: &'a [Element],
}

impl<'a, Element: Copy> View for CapeArraySlice<'a, Element> {
    type V = Seq<Element>;

    closed spec fn view(&self) -> Seq<Element> {
        self.slice@
    }
}

impl<'a, Element: Copy> CapeArraySlice<'a, Element> {
    /// An array over the elements of `slice`.
    pub fn new(slice: &'a [Element]) -> (r: Self)
        ensures
            r@ == slice@,
    {
        CapeArraySlice { slice }
    }

    /// The elements.
    pub fn as_slice(&self) -> (r: &'a [Element])
        ensures
            r@ == self@,
    {
        self.slice
    }

    /// Number of elements.
    pub fn size(&self) -> (r: usize)
        ensures
            r == self@.len(),
    {
        self.as_slice().len()
    }
}

/// A borrowed slice of reals, passed as a CAPE-OPEN real array.
pub type CapeArrayRealSlice<'a> = CapeArraySlice<'a, CapeReal>;

/// A borrowed slice of integers, passed as a CAPE-OPEN integer array.
pub type CapeArrayIntegerSlice<'a> = CapeArraySlice<'a, CapeInteger>;

/// A borrowed slice of bytes, passed as a CAPE-OPEN byte array.
pub type CapeArrayByteSlice<'a> = CapeArraySlice<'a, CapeByte>;

/// A borrowed slice of booleans, passed as a CAPE-OPEN boolean array.
pub type CapeArrayBooleanSlice<'a> = CapeArraySlice<'a, CapeBoolean>;

/// A borrowed slice of enumeration values, passed as a CAPE-OPEN
/// enumeration array.
pub type CapeArrayEnumerationSlice<'a, Element> = CapeArraySlice<'a, Element>;

impl<'a> CapeArrayRealProviderIn for CapeArrayRealSlice<'a> {
    open spec fn provided_reals(&self) -> Seq<CapeReal> {
        self@
    }

    fn as_cape_array_real_in(&self) -> (r: CapeArrayRealIn<'_>) {
        CapeArrayIn::new(self.slice)
    }
}

impl<'a> CapeArrayIntegerProviderIn for CapeArrayIntegerSlice<'a> {
    open spec fn provided_integers(&self) -> Seq<CapeInteger> {
        self@
    }

    fn as_cape_array_integer_in(&self) -> (r: CapeArrayIntegerIn<'_>) {
        CapeArrayIn::new(self.slice)
    }
}

impl<'a> CapeArrayByteProviderIn for CapeArrayByteSlice<'a> {
    open spec fn provided_bytes(&self) -> Seq<CapeByte> {
        self@
    }

    fn as_cape_array_byte_in(&self) -> (r: CapeArrayByteIn<'_>) {
        CapeArrayIn::new(self.slice)
    }
}

impl<'a> CapeArrayBooleanProviderIn for CapeArrayBooleanSlice<'a> {
    open spec fn provided_booleans(&self) -> Seq<CapeBoolean> {
        self@
    }

    fn as_cape_array_boolean_in(&self) -> (r: CapeArrayBooleanIn<'_>) {
        CapeArrayIn::new(self.slice)
    }
}

impl<'a, Element: Copy> CapeArrayEnumerationProviderIn<Element> for CapeArrayEnumerationSlice<'a, Element> {
    open spec fn provided_enumerations(&self) -> Seq<Element> {
        self@
    }

    fn as_cape_array_enumeration_in(&self) -> (r: CapeArrayEnumerationIn<'_, Element>) {
        CapeArrayIn::new(self.slice)
    }
}

} // verus!
