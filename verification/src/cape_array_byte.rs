use vstd::prelude::*;
use crate::cape_types::{CapeByte, COBIAERR_INVALIDARGUMENT};
use crate::cape_error::COBIAError;
use crate::cape_array::{CapeArrayIn, CapeArrayOut, CapeArrayTarget, ICapeArrayByte};
use crate::cape_data_traits::{CapeArrayByteProviderIn, CapeArrayByteProviderOut};

use crate::cape_display::{bracketed, display_u8, int_texts_u8};

verus! {

/// Read-only view of a CAPE-OPEN byte array.
pub type CapeArrayByteIn<'a> = CapeArrayIn<'a, CapeByte, ICapeArrayByte>;

/// Writable view of a CAPE-OPEN byte array.
pub type CapeArrayByteOut<'a> = CapeArrayOut<'a, CapeByte, ICapeArrayByte>;

impl<'a> CapeArrayByteOut<'a> {
    /// Replaces the content by that of any CAPE-OPEN byte array: sizes the
    /// array, then copies the elements.
    pub fn set<T: CapeArrayByteProviderIn>(&mut self, array: &T) -> (r: Result<(), COBIAError>)
        ensures
            (old(self).growable() || array.provided_bytes().len() == 1) ==> r is Ok
                && final(self).current() == array.provided_bytes(),
            !(old(self).growable() || array.provided_bytes().len() == 1)
                ==> r == Err::<(), COBIAError>(COBIAError::Code(COBIAERR_INVALIDARGUMENT))
                && final(self).current() == old(self).current()
                && *final(self) == *old(self),
            final(self).growable() == old(self).growable(),
            (match (final(self).target, old(self).target) {
                (CapeArrayTarget::Growable(x, _), CapeArrayTarget::Growable(y, _)) => *final(x) == *final(y),
                (CapeArrayTarget::Single(x), CapeArrayTarget::Single(y)) => *final(x) == *final(y),
                _ => false,
            }),
    {
        let source = array.as_cape_array_byte_in();
        self.put_array(source.as_slice())
    }
}

impl<'a> CapeArrayByteProviderIn for CapeArrayByteIn<'a> {
    open spec fn provided_bytes(&self) -> Seq<CapeByte> {
        self@
    }

    fn as_cape_array_byte_in(&self) -> (r: CapeArrayByteIn<'_>) {
        self.clone()
    }
}

impl<'a> CapeArrayByteProviderOut for CapeArrayByteOut<'a> {
    open spec fn held_bytes(&self) -> Seq<CapeByte> {
        self.current()
    }

    open spec fn growable_bytes(&self) -> bool {
        self.growable()
    }

    open spec fn fill_byte(&self) -> CapeByte {
        self.fill()
    }

    fn as_cape_array_byte_out(&mut self) -> (r: CapeArrayByteOut<'_>) {
        self.reborrow()
    }
}

impl<'a> CapeArrayByteIn<'a> {
    /// The elements in decimal, separated by commas, between square
    /// brackets: `[1, 2]`.
    pub fn to_string(&self) -> (r: String)
        ensures
            r@ == bracketed(int_texts_u8(self@)),
    {
        display_u8(self.as_slice())
    }
}

impl<'a> CapeArrayByteOut<'a> {
    /// The elements in decimal, separated by commas, between square
    /// brackets: `[1, 2]`.
    pub fn to_string(&self) -> (r: String)
        ensures
            r@ == bracketed(int_texts_u8(self.current())),
    {
        let v = self.as_vec();
        display_u8(v.as_slice())
    }
}

} // verus!
