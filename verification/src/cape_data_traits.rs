use vstd::prelude::*;
use crate::cape_types::CapeCharacter;
use crate::cape_string::{CapeStringIn, CapeStringOut};
use crate::cape_value::{CapeValueIn, CapeValueOut};
use crate::cape_value_impl::CapeValueModel;
use crate::cape_types::{CapeReal, CapeInteger, CapeByte, CapeBoolean};
use crate::cape_array::CapeArrayTarget;
use crate::cape_array_real::{CapeArrayRealIn, CapeArrayRealOut};
use crate::cape_array_integer::{CapeArrayIntegerIn, CapeArrayIntegerOut};
use crate::cape_array_byte::{CapeArrayByteIn, CapeArrayByteOut};
use crate::cape_array_boolean::{CapeArrayBooleanIn, CapeArrayBooleanOut};
use crate::cape_array_enumeration::{CapeArrayEnumerationIn, CapeArrayEnumerationOut};
use crate::cape_array_string::{CapeArrayStringIn, CapeArrayStringOut, string_views};
use crate::cape_array_value::{CapeArrayValueIn, CapeArrayValueOut, value_views};


verus! {

/// Any object that holds a CAPE-OPEN string that can be read and compared.
pub trait CapeStringConstProvider {
    /// The characters of the string, without the terminating null.
    spec fn const_chars(&self) -> Seq<CapeCharacter>;

    /// The null terminated character data.
    fn as_capechar_const(&self) -> (r: &[CapeCharacter])
        ensures
            r@ == self.const_chars().push('\0'),
    ;

    /// The null terminated character data and the number of characters
    /// before the terminating null.
    fn as_capechar_const_with_length(&self) -> (r: (&[CapeCharacter], usize))
        ensures
            r.0@ == self.const_chars().push('\0'),
            r.1 == self.const_chars().len(),
    ;
}

/// Any object that can be passed as a CAPE-OPEN string input argument.
pub trait CapeStringProviderIn {
    /// The characters the object provides.
    spec fn provided_string(&self) -> Seq<CapeCharacter>;

    /// A read-only view of the string.
    fn as_cape_string_in(&self) -> (r: CapeStringIn<'_>)
        ensures
            r@ == self.provided_string(),
    ;
}

/// Any object that can be passed as a CAPE-OPEN string output argument.
pub trait CapeStringProviderOut {
    /// The characters the object holds.
    spec fn held_string(&self) -> Seq<CapeCharacter>;

    /// A writable view of the string: what is written through it is what
    /// the object holds afterwards.
    fn as_cape_string_out(&mut self) -> (r: CapeStringOut<'_>)
        ensures
            r.current() == old(self).held_string(),
            final(self).held_string() == (*final(r.target))@,
    ;
}

/// Any object that can be passed as a CAPE-OPEN value input argument.
pub trait CapeValueProviderIn {
    /// The value the object provides.
    spec fn provided_value(&self) -> CapeValueModel;

    /// A read-only view of the value.
    fn as_cape_value_in(&self) -> (r: CapeValueIn<'_>)
        ensures
            r@ == self.provided_value(),
    ;
}

/// Any object that can be passed as a CAPE-OPEN value output argument.
pub trait CapeValueProviderOut {
    /// The value the object holds.
    spec fn held_value(&self) -> CapeValueModel;

    /// A writable view of the value: what is written through it is what the
    /// object holds afterwards.
    fn as_cape_value_out(&mut self) -> (r: CapeValueOut<'_>)
        ensures
            r.current() == old(self).held_value(),
            final(self).held_value() == (*final(r.target))@,
    ;
}

/// Any object that can be passed as a CAPE-OPEN real array input argument.
pub trait CapeArrayRealProviderIn {
    /// The elements the object provides.
    spec fn provided_reals(&self) -> Seq<CapeReal>;

    /// A read-only view of the array.
    fn as_cape_array_real_in(&self) -> (r: CapeArrayRealIn<'_>)
        ensures
            r@ == self.provided_reals(),
    ;
}

/// Any object that can be passed as a CAPE-OPEN real array output argument.
pub trait CapeArrayRealProviderOut {
    /// The elements the object holds.
    spec fn held_reals(&self) -> Seq<CapeReal>;

    /// Whether the number of elements can change.
    spec fn growable_reals(&self) -> bool;

    /// The element new places are filled with when the array grows.
    spec fn fill_real(&self) -> CapeReal;

    /// A writable view of the array: what is written through it is what the
    /// object holds afterwards.
    fn as_cape_array_real_out(&mut self) -> (r: CapeArrayRealOut<'_>)
        ensures
            r.current() == old(self).held_reals(),
            r.growable() == old(self).growable_reals(),
            r.growable() ==> r.fill() == old(self).fill_real(),
            final(self).held_reals() == (match r.target {
                CapeArrayTarget::Growable(v, _) => (*final(v))@,
                CapeArrayTarget::Single(x) => seq![*final(x)],
            }),
    ;
}

/// Any object that can be passed as a CAPE-OPEN integer array input argument.
pub trait CapeArrayIntegerProviderIn {
    /// The elements the object provides.
    spec fn provided_integers(&self) -> Seq<CapeInteger>;

    /// A read-only view of the array.
    fn as_cape_array_integer_in(&self) -> (r: CapeArrayIntegerIn<'_>)
        ensures
            r@ == self.provided_integers(),
    ;
}

/// Any object that can be passed as a CAPE-OPEN integer array output argument.
pub trait CapeArrayIntegerProviderOut {
    /// The elements the object holds.
    spec fn held_integers(&self) -> Seq<CapeInteger>;

    /// Whether the number of elements can change.
    spec fn growable_integers(&self) -> bool;

    /// The element new places are filled with when the array grows.
    spec fn fill_integer(&self) -> CapeInteger;

    /// A writable view of the array: what is written through it is what the
    /// object holds afterwards.
    fn as_cape_array_integer_out(&mut self) -> (r: CapeArrayIntegerOut<'_>)
        ensures
            r.current() == old(self).held_integers(),
            r.growable() == old(self).growable_integers(),
            r.growable() ==> r.fill() == old(self).fill_integer(),
            final(self).held_integers() == (match r.target {
                CapeArrayTarget::Growable(v, _) => (*final(v))@,
                CapeArrayTarget::Single(x) => seq![*final(x)],
            }),
    ;
}

/// Any object that can be passed as a CAPE-OPEN byte array input argument.
pub trait CapeArrayByteProviderIn {
    /// The elements the object provides.
    spec fn provided_bytes(&self) -> Seq<CapeByte>;

    /// A read-only view of the array.
    fn as_cape_array_byte_in(&self) -> (r: CapeArrayByteIn<'_>)
        ensures
            r@ == self.provided_bytes(),
    ;
}

/// Any object that can be passed as a CAPE-OPEN byte array output argument.
pub trait CapeArrayByteProviderOut {
    /// The elements the object holds.
    spec fn held_bytes(&self) -> Seq<CapeByte>;

    /// Whether the number of elements can change.
    spec fn growable_bytes(&self) -> bool;

    /// The element new places are filled with when the array grows.
    spec fn fill_byte(&self) -> CapeByte;

    /// A writable view of the array: what is written through it is what the
    /// object holds afterwards.
    fn as_cape_array_byte_out(&mut self) -> (r: CapeArrayByteOut<'_>)
        ensures
            r.current() == old(self).held_bytes(),
            r.growable() == old(self).growable_bytes(),
            r.growable() ==> r.fill() == old(self).fill_byte(),
            final(self).held_bytes() == (match r.target {
                CapeArrayTarget::Growable(v, _) => (*final(v))@,
                CapeArrayTarget::Single(x) => seq![*final(x)],
            }),
    ;
}

/// Any object that can be passed as a CAPE-OPEN boolean array input argument.
pub trait CapeArrayBooleanProviderIn {
    /// The elements the object provides.
    spec fn provided_booleans(&self) -> Seq<CapeBoolean>;

    /// A read-only view of the array.
    fn as_cape_array_boolean_in(&self) -> (r: CapeArrayBooleanIn<'_>)
        ensures
            r@ == self.provided_booleans(),
    ;
}

/// Any object that can be passed as a CAPE-OPEN boolean array output argument.
pub trait CapeArrayBooleanProviderOut {
    /// The elements the object holds.
    spec fn held_booleans(&self) -> Seq<CapeBoolean>;

    /// Whether the number of elements can change.
    spec fn growable_booleans(&self) -> bool;

    /// The element new places are filled with when the array grows.
    spec fn fill_boolean(&self) -> CapeBoolean;

    /// A writable view of the array: what is written through it is what the
    /// object holds afterwards.
    fn as_cape_array_boolean_out(&mut self) -> (r: CapeArrayBooleanOut<'_>)
        ensures
            r.current() == old(self).held_booleans(),
            r.growable() == old(self).growable_booleans(),
            r.growable() ==> r.fill() == old(self).fill_boolean(),
            final(self).held_booleans() == (match r.target {
                CapeArrayTarget::Growable(v, _) => (*final(v))@,
                CapeArrayTarget::Single(x) => seq![*final(x)],
            }),
    ;
}

/// Any object that can be passed as a CAPE-OPEN enumeration array input
/// argument.
pub trait CapeArrayEnumerationProviderIn<Element: Copy> {
    /// The elements the object provides.
    spec fn provided_enumerations(&self) -> Seq<Element>;

    /// A read-only view of the array.
    fn as_cape_array_enumeration_in(&self) -> (r: CapeArrayEnumerationIn<'_, Element>)
        ensures
            r@ == self.provided_enumerations(),
    ;
}

/// Any object that can be passed as a CAPE-OPEN enumeration array output
/// argument.
pub trait CapeArrayEnumerationProviderOut<Element: Copy> {
    /// The elements the object holds.
    spec fn held_enumerations(&self) -> Seq<Element>;

    /// Whether the number of elements can change.
    spec fn growable_enumerations(&self) -> bool;

    /// A writable view of the array: what is written through it is what the
    /// object holds afterwards.
    fn as_cape_array_enumeration_out(&mut self) -> (r: CapeArrayEnumerationOut<'_, Element>)
        ensures
            r.current() == old(self).held_enumerations(),
            r.growable() == old(self).growable_enumerations(),
            final(self).held_enumerations() == (match r.target {
                CapeArrayTarget::Growable(v, _) => (*final(v))@,
                CapeArrayTarget::Single(x) => seq![*final(x)],
            }),
    ;
}

/// Any object that can be passed as a CAPE-OPEN string array input argument.
pub trait CapeArrayStringProviderIn {
    /// The strings the object provides.
    spec fn provided_strings(&self) -> Seq<Seq<char>>;

    /// A read-only view of the array.
    fn as_cape_array_string_in(&self) -> (r: CapeArrayStringIn<'_>)
        ensures
            r@ == self.provided_strings(),
    ;
}

/// Any object that can be passed as a CAPE-OPEN string array output
/// argument.
pub trait CapeArrayStringProviderOut {
    /// The strings the object holds.
    spec fn held_strings(&self) -> Seq<Seq<char>>;

    /// A writable view of the array: what is written through it is what the
    /// object holds afterwards.
    fn as_cape_array_string_out(&mut self) -> (r: CapeArrayStringOut<'_>)
        ensures
            r.current() == old(self).held_strings(),
            final(self).held_strings() == string_views((*final(r.target))@),
    ;
}

/// Any object that can be passed as a CAPE-OPEN value array input argument.
pub trait CapeArrayValueProviderIn {
    /// The values the object provides.
    spec fn provided_values(&self) -> Seq<CapeValueModel>;

    /// A read-only view of the array.
    fn as_cape_array_value_in(&self) -> (r: CapeArrayValueIn<'_>)
        ensures
            r@ == self.provided_values(),
    ;
}

/// Any object that can be passed as a CAPE-OPEN value array output
/// argument.
pub trait CapeArrayValueProviderOut {
    /// The values the object holds.
    spec fn held_values(&self) -> Seq<CapeValueModel>;

    /// A writable view of the array: what is written through it is what the
    /// object holds afterwards.
    fn as_cape_array_value_out(&mut self) -> (r: CapeArrayValueOut<'_>)
        ensures
            r.current() == old(self).held_values(),
            final(self).held_values() == value_views((*final(r.target))@),
    ;
}

} // verus!
