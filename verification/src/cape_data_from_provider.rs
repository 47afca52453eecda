use vstd::prelude::*;
use crate::cape_types::CapeCharacter;
use crate::cape_string::{CapeStringIn, CapeStringOut};
use crate::cape_data_traits::{CapeStringProviderIn, CapeStringProviderOut};
use crate::cape_array::CapeArrayTarget;
use crate::cape_types::{CapeReal, CapeInteger, CapeByte, CapeBoolean};
use crate::cape_array_real::{CapeArrayRealIn, CapeArrayRealOut};
use crate::cape_data_traits::{CapeArrayRealProviderIn, CapeArrayRealProviderOut};
use crate::cape_array_integer::{CapeArrayIntegerIn, CapeArrayIntegerOut};
use crate::cape_data_traits::{CapeArrayIntegerProviderIn, CapeArrayIntegerProviderOut};
use crate::cape_array_byte::{CapeArrayByteIn, CapeArrayByteOut};
use crate::cape_data_traits::{CapeArrayByteProviderIn, CapeArrayByteProviderOut};
use crate::cape_array_boolean::{CapeArrayBooleanIn, CapeArrayBooleanOut};
use crate::cape_data_traits::{CapeArrayBooleanProviderIn, CapeArrayBooleanProviderOut};
use crate::cape_array_enumeration::{CapeArrayEnumerationIn, CapeArrayEnumerationOut};
use crate::cape_data_traits::{CapeArrayEnumerationProviderIn, CapeArrayEnumerationProviderOut};
use crate::cape_value::{CapeValueIn, CapeValueOut};
use crate::cape_value_impl::CapeValueModel;
use crate::cape_data_traits::{CapeValueProviderIn, CapeValueProviderOut};
use crate::cape_array_string::{CapeArrayStringIn, CapeArrayStringOut, string_views};
use crate::cape_data_traits::{CapeArrayStringProviderIn, CapeArrayStringProviderOut};
use crate::cape_array_value::{CapeArrayValueIn, CapeArrayValueOut, value_views};
use crate::cape_data_traits::{CapeArrayValueProviderIn, CapeArrayValueProviderOut};

verus! {

/// Holds the input view of a string provider for the duration of a call
/// that takes a CAPE-OPEN string as input.
pub struct CapeStringInFromProvider<'a> {
    interface: CapeStringIn<'a>,
}

impl<'a> View for CapeStringInFromProvider<'a> {
    type V = Seq<CapeCharacter>;

    closed spec fn view(&self) -> Seq<CapeCharacter> {
        self.interface@
    }
}

impl<'a> CapeStringInFromProvider<'a> {
    /// Takes the input view of `provider`.
    pub fn from<T: CapeStringProviderIn>(provider: &'a T) -> (r: Self)
        ensures
            r@ == provider.provided_string(),
    {
        CapeStringInFromProvider { interface: provider.as_cape_string_in() }
    }

    /// The input view, as passed to the callee.
    pub fn as_cape_string_in(&mut self) -> (r: CapeStringIn<'_>)
        ensures
            r@ == old(self)@,
            final(self)@ == old(self)@,
    {
        self.interface
    }
}

/// Holds the output view of a string provider for the duration of a call
/// that takes a CAPE-OPEN string as output.
pub struct CapeStringOutFromProvider<'a> {
    pub interface: CapeStringOut<'a>,
}

impl<'a> CapeStringOutFromProvider<'a> {
    /// Takes the output view of `provider`: what is written through it is
    /// what `provider` holds afterwards.
    pub fn from<T: CapeStringProviderOut>(provider: &'a mut T) -> (r: Self)
        ensures
            r.interface.current() == old(provider).held_string(),
            final(provider).held_string() == (*final(r.interface.target))@,
    {
        CapeStringOutFromProvider { interface: provider.as_cape_string_out() }
    }

    /// The output view, as passed to the callee.
    pub fn as_cape_string_out(&mut self) -> (r: CapeStringOut<'_>)
        ensures
            r.current() == old(self).interface.current(),
            final(self).interface.current() == (*final(r.target))@,
            *final(final(self).interface.target) == *final(old(self).interface.target),
    {
        CapeStringOut { target: &mut *self.interface.target }
    }
}

/// Holds the input view of a real array provider for the duration of a
/// call that takes a CAPE-OPEN real array as input.
pub struct CapeArrayRealInFromProvider<'a> {
    interface: CapeArrayRealIn<'a>,
}

impl<'a> View for CapeArrayRealInFromProvider<'a> {
    type V = Seq<CapeReal>;

    closed spec fn view(&self) -> Seq<CapeReal> {
        self.interface@
    }
}

impl<'a> CapeArrayRealInFromProvider<'a> {
    /// Takes the input view of `provider`.
    pub fn from<T: CapeArrayRealProviderIn>(provider: &'a T) -> (r: Self)
        ensures
            r@ == provider.provided_reals(),
    {
        CapeArrayRealInFromProvider { interface: provider.as_cape_array_real_in() }
    }

    /// The input view, as passed to the callee.
    pub fn as_cape_array_real_in(&mut self) -> (r: CapeArrayRealIn<'_>)
        ensures
            r@ == old(self)@,
            final(self)@ == old(self)@,
    {
        self.interface.clone()
    }
}

/// Holds the output view of a real array provider for the duration of a
/// call that takes a CAPE-OPEN real array as output.
pub struct CapeArrayRealOutFromProvider<'a> {
    pub interface: CapeArrayRealOut<'a>,
}

impl<'a> CapeArrayRealOutFromProvider<'a> {
    /// Takes the output view of `provider`: what is written through it is
    /// what `provider` holds afterwards.
    pub fn from<T: CapeArrayRealProviderOut>(provider: &'a mut T) -> (r: Self)
        ensures
            r.interface.current() == old(provider).held_reals(),
            r.interface.growable() == old(provider).growable_reals(),
            r.interface.growable() ==> r.interface.fill() == old(provider).fill_real(),
            final(provider).held_reals() == (match r.interface.target {
                CapeArrayTarget::Growable(v, _) => (*final(v))@,
                CapeArrayTarget::Single(x) => seq![*final(x)],
            }),
            r.interface.target matches CapeArrayTarget::Single(x) ==> final(provider).held_reals()[0] == *final(x),
    {
        CapeArrayRealOutFromProvider { interface: provider.as_cape_array_real_out() }
    }

    /// The output view, as passed to the callee.
    pub fn as_cape_array_real_out(&mut self) -> (r: CapeArrayRealOut<'_>)
        ensures
            r.current() == old(self).interface.current(),
            r.growable() == old(self).interface.growable(),
            r.fill() == old(self).interface.fill(),
            final(self).interface.current() == (match r.target {
                CapeArrayTarget::Growable(v, _) => (*final(v))@,
                CapeArrayTarget::Single(x) => seq![*final(x)],
            }),
            (match (final(self).interface.target, old(self).interface.target) {
                (CapeArrayTarget::Growable(x, _), CapeArrayTarget::Growable(y, _)) => *final(x) == *final(y),
                (CapeArrayTarget::Single(x), CapeArrayTarget::Single(y)) => *final(x) == *final(y),
                _ => false,
            }),
            r.target matches CapeArrayTarget::Single(x) ==> final(self).interface.current()[0] == *final(x),
    {
        self.interface.reborrow()
    }
}

/// Holds the input view of a integer array provider for the duration of a
/// call that takes a CAPE-OPEN integer array as input.
pub struct CapeArrayIntegerInFromProvider<'a> {
    interface: CapeArrayIntegerIn<'a>,
}

impl<'a> View for CapeArrayIntegerInFromProvider<'a> {
    type V = Seq<CapeInteger>;

    closed spec fn view(&self) -> Seq<CapeInteger> {
        self.interface@
    }
}

impl<'a> CapeArrayIntegerInFromProvider<'a> {
    /// Takes the input view of `provider`.
    pub fn from<T: CapeArrayIntegerProviderIn>(provider: &'a T) -> (r: Self)
        ensures
            r@ == provider.provided_integers(),
    {
        CapeArrayIntegerInFromProvider { interface: provider.as_cape_array_integer_in() }
    }

    /// The input view, as passed to the callee.
    pub fn as_cape_array_integer_in(&mut self) -> (r: CapeArrayIntegerIn<'_>)
        ensures
            r@ == old(self)@,
            final(self)@ == old(self)@,
    {
        self.interface.clone()
    }
}

/// Holds the output view of a integer array provider for the duration of a
/// call that takes a CAPE-OPEN integer array as output.
pub struct CapeArrayIntegerOutFromProvider<'a> {
    pub interface: CapeArrayIntegerOut<'a>,
}

impl<'a> CapeArrayIntegerOutFromProvider<'a> {
    /// Takes the output view of `provider`: what is written through it is
    /// what `provider` holds afterwards.
    pub fn from<T: CapeArrayIntegerProviderOut>(provider: &'a mut T) -> (r: Self)
        ensures
            r.interface.current() == old(provider).held_integers(),
            r.interface.growable() == old(provider).growable_integers(),
            r.interface.growable() ==> r.interface.fill() == old(provider).fill_integer(),
            final(provider).held_integers() == (match r.interface.target {
                CapeArrayTarget::Growable(v, _) => (*final(v))@,
                CapeArrayTarget::Single(x) => seq![*final(x)],
            }),
    {
        CapeArrayIntegerOutFromProvider { interface: provider.as_cape_array_integer_out() }
    }

    /// The output view, as passed to the callee.
    pub fn as_cape_array_integer_out(&mut self) -> (r: CapeArrayIntegerOut<'_>)
        ensures
            r.current() == old(self).interface.current(),
            r.growable() == old(self).interface.growable(),
            r.fill() == old(self).interface.fill(),
            final(self).interface.current() == (match r.target {
                CapeArrayTarget::Growable(v, _) => (*final(v))@,
                CapeArrayTarget::Single(x) => seq![*final(x)],
            }),
            (match (final(self).interface.target, old(self).interface.target) {
                (CapeArrayTarget::Growable(x, _), CapeArrayTarget::Growable(y, _)) => *final(x) == *final(y),
                (CapeArrayTarget::Single(x), CapeArrayTarget::Single(y)) => *final(x) == *final(y),
                _ => false,
            }),
            r.target matches CapeArrayTarget::Single(x) ==> final(self).interface.current()[0] == *final(x),
    {
        self.interface.reborrow()
    }
}

/// Holds the input view of a byte array provider for the duration of a
/// call that takes a CAPE-OPEN byte array as input.
pub struct CapeArrayByteInFromProvider<'a> {
    interface: CapeArrayByteIn<'a>,
}

impl<'a> View for CapeArrayByteInFromProvider<'a> {
    type V = Seq<CapeByte>;

    closed spec fn view(&self) -> Seq<CapeByte> {
        self.interface@
    }
}

impl<'a> CapeArrayByteInFromProvider<'a> {
    /// Takes the input view of `provider`.
    pub fn from<T: CapeArrayByteProviderIn>(provider: &'a T) -> (r: Self)
        ensures
            r@ == provider.provided_bytes(),
    {
        CapeArrayByteInFromProvider { interface: provider.as_cape_array_byte_in() }
    }

    /// The input view, as passed to the callee.
    pub fn as_cape_array_byte_in(&mut self) -> (r: CapeArrayByteIn<'_>)
        ensures
            r@ == old(self)@,
            final(self)@ == old(self)@,
    {
        self.interface.clone()
    }
}

/// Holds the output view of a byte array provider for the duration of a
/// call that takes a CAPE-OPEN byte array as output.
pub struct CapeArrayByteOutFromProvider<'a> {
    pub interface: CapeArrayByteOut<'a>,
}

impl<'a> CapeArrayByteOutFromProvider<'a> {
    /// Takes the output view of `provider`: what is written through it is
    /// what `provider` holds afterwards.
    pub fn from<T: CapeArrayByteProviderOut>(provider: &'a mut T) -> (r: Self)
        ensures
            r.interface.current() == old(provider).held_bytes(),
            r.interface.growable() == old(provider).growable_bytes(),
            r.interface.growable() ==> r.interface.fill() == old(provider).fill_byte(),
            final(provider).held_bytes() == (match r.interface.target {
                CapeArrayTarget::Growable(v, _) => (*final(v))@,
                CapeArrayTarget::Single(x) => seq![*final(x)],
            }),
    {
        CapeArrayByteOutFromProvider { interface: provider.as_cape_array_byte_out() }
    }

    /// The output view, as passed to the callee.
    pub fn as_cape_array_byte_out(&mut self) -> (r: CapeArrayByteOut<'_>)
        ensures
            r.current() == old(self).interface.current(),
            r.growable() == old(self).interface.growable(),
            r.fill() == old(self).interface.fill(),
            final(self).interface.current() == (match r.target {
                CapeArrayTarget::Growable(v, _) => (*final(v))@,
                CapeArrayTarget::Single(x) => seq![*final(x)],
            }),
            (match (final(self).interface.target, old(self).interface.target) {
                (CapeArrayTarget::Growable(x, _), CapeArrayTarget::Growable(y, _)) => *final(x) == *final(y),
                (CapeArrayTarget::Single(x), CapeArrayTarget::Single(y)) => *final(x) == *final(y),
                _ => false,
            }),
            r.target matches CapeArrayTarget::Single(x) ==> final(self).interface.current()[0] == *final(x),
    {
        self.interface.reborrow()
    }
}

/// Holds the input view of a boolean array provider for the duration of a
/// call that takes a CAPE-OPEN boolean array as input.
pub struct CapeArrayBooleanInFromProvider<'a> {
    interface: CapeArrayBooleanIn<'a>,
}

impl<'a> View for CapeArrayBooleanInFromProvider<'a> {
    type V = Seq<CapeBoolean>;

    closed spec fn view(&self) -> Seq<CapeBoolean> {
        self.interface@
    }
}

impl<'a> CapeArrayBooleanInFromProvider<'a> {
    /// Takes the input view of `provider`.
    pub fn from<T: CapeArrayBooleanProviderIn>(provider: &'a T) -> (r: Self)
        ensures
            r@ == provider.provided_booleans(),
    {
        CapeArrayBooleanInFromProvider { interface: provider.as_cape_array_boolean_in() }
    }

    /// The input view, as passed to the callee.
    pub fn as_cape_array_boolean_in(&mut self) -> (r: CapeArrayBooleanIn<'_>)
        ensures
            r@ == old(self)@,
            final(self)@ == old(self)@,
    {
        self.interface.clone()
    }
}

/// Holds the output view of a boolean array provider for the duration of a
/// call that takes a CAPE-OPEN boolean array as output.
pub struct CapeArrayBooleanOutFromProvider<'a> {
    pub interface: CapeArrayBooleanOut<'a>,
}

impl<'a> CapeArrayBooleanOutFromProvider<'a> {
    /// Takes the output view of `provider`: what is written through it is
    /// what `provider` holds afterwards.
    pub fn from<T: CapeArrayBooleanProviderOut>(provider: &'a mut T) -> (r: Self)
        ensures
            r.interface.current() == old(provider).held_booleans(),
            r.interface.growable() == old(provider).growable_booleans(),
            r.interface.growable() ==> r.interface.fill() == old(provider).fill_boolean(),
            final(provider).held_booleans() == (match r.interface.target {
                CapeArrayTarget::Growable(v, _) => (*final(v))@,
                CapeArrayTarget::Single(x) => seq![*final(x)],
            }),
    {
        CapeArrayBooleanOutFromProvider { interface: provider.as_cape_array_boolean_out() }
    }

    /// The output view, as passed to the callee.
    pub fn as_cape_array_boolean_out(&mut self) -> (r: CapeArrayBooleanOut<'_>)
        ensures
            r.current() == old(self).interface.current(),
            r.growable() == old(self).interface.growable(),
            r.fill() == old(self).interface.fill(),
            final(self).interface.current() == (match r.target {
                CapeArrayTarget::Growable(v, _) => (*final(v))@,
                CapeArrayTarget::Single(x) => seq![*final(x)],
            }),
            (match (final(self).interface.target, old(self).interface.target) {
                (CapeArrayTarget::Growable(x, _), CapeArrayTarget::Growable(y, _)) => *final(x) == *final(y),
                (CapeArrayTarget::Single(x), CapeArrayTarget::Single(y)) => *final(x) == *final(y),
                _ => false,
            }),
            r.target matches CapeArrayTarget::Single(x) ==> final(self).interface.current()[0] == *final(x),
    {
        self.interface.reborrow()
    }
}

/// Holds the input view of a enumeration array provider for the duration of a
/// call that takes a CAPE-OPEN enumeration array as input.
pub struct CapeArrayEnumerationInFromProvider<'a, Element: Copy> {
    interface: CapeArrayEnumerationIn<'a, Element>,
}

impl<'a, Element: Copy> View for CapeArrayEnumerationInFromProvider<'a, Element> {
    type V = Seq<Element>;

    closed spec fn view(&self) -> Seq<Element> {
        self.interface@
    }
}

impl<'a, Element: Copy> CapeArrayEnumerationInFromProvider<'a, Element> {
    /// Takes the input view of `provider`.
    pub fn from<T: CapeArrayEnumerationProviderIn<Element>>(provider: &'a T) -> (r: Self)
        ensures
            r@ == provider.provided_enumerations(),
    {
        CapeArrayEnumerationInFromProvider { interface: provider.as_cape_array_enumeration_in() }
    }

    /// The input view, as passed to the callee.
    pub fn as_cape_array_enumeration_in(&mut self) -> (r: CapeArrayEnumerationIn<'_, Element>)
        ensures
            r@ == old(self)@,
            final(self)@ == old(self)@,
    {
        self.interface.clone()
    }
}

/// Holds the output view of a enumeration array provider for the duration of a
/// call that takes a CAPE-OPEN enumeration array as output.
pub struct CapeArrayEnumerationOutFromProvider<'a, Element: Copy> {
    pub interface: CapeArrayEnumerationOut<'a, Element>,
}

impl<'a, Element: Copy> CapeArrayEnumerationOutFromProvider<'a, Element> {
    /// Takes the output view of `provider`: what is written through it is
    /// what `provider` holds afterwards.
    pub fn from<T: CapeArrayEnumerationProviderOut<Element>>(provider: &'a mut T) -> (r: Self)
        ensures
            r.interface.current() == old(provider).held_enumerations(),
            r.interface.growable() == old(provider).growable_enumerations(),
            final(provider).held_enumerations() == (match r.interface.target {
                CapeArrayTarget::Growable(v, _) => (*final(v))@,
                CapeArrayTarget::Single(x) => seq![*final(x)],
            }),
    {
        CapeArrayEnumerationOutFromProvider { interface: provider.as_cape_array_enumeration_out() }
    }

    /// The output view, as passed to the callee.
    pub fn as_cape_array_enumeration_out(&mut self) -> (r: CapeArrayEnumerationOut<'_, Element>)
        ensures
            r.current() == old(self).interface.current(),
            r.growable() == old(self).interface.growable(),
            r.fill() == old(self).interface.fill(),
            final(self).interface.current() == (match r.target {
                CapeArrayTarget::Growable(v, _) => (*final(v))@,
                CapeArrayTarget::Single(x) => seq![*final(x)],
            }),
            (match (final(self).interface.target, old(self).interface.target) {
                (CapeArrayTarget::Growable(x, _), CapeArrayTarget::Growable(y, _)) => *final(x) == *final(y),
                (CapeArrayTarget::Single(x), CapeArrayTarget::Single(y)) => *final(x) == *final(y),
                _ => false,
            }),
            r.target matches CapeArrayTarget::Single(x) ==> final(self).interface.current()[0] == *final(x),
    {
        self.interface.reborrow()
    }
}

/// Holds the input view of a value provider for the duration of a call
/// that takes a CAPE-OPEN value as input.
pub struct CapeValueInFromProvider<'a> {
    interface: CapeValueIn<'a>,
}

impl<'a> View for CapeValueInFromProvider<'a> {
    type V = CapeValueModel;

    closed spec fn view(&self) -> CapeValueModel {
        self.interface@
    }
}

impl<'a> CapeValueInFromProvider<'a> {
    /// Takes the input view of `provider`.
    pub fn from<T: CapeValueProviderIn>(provider: &'a T) -> (r: Self)
        ensures
            r@ == provider.provided_value(),
    {
        CapeValueInFromProvider { interface: provider.as_cape_value_in() }
    }

    /// The input view, as passed to the callee.
    pub fn as_cape_value_in(&mut self) -> (r: CapeValueIn<'_>)
        ensures
            r@ == old(self)@,
            final(self)@ == old(self)@,
    {
        self.interface
    }
}

/// Holds the output view of a value provider for the duration of a call
/// that takes a CAPE-OPEN value as output.
pub struct CapeValueOutFromProvider<'a> {
    pub interface: CapeValueOut<'a>,
}

impl<'a> CapeValueOutFromProvider<'a> {
    /// Takes the output view of `provider`: what is written through it is
    /// what `provider` holds afterwards.
    pub fn from<T: CapeValueProviderOut>(provider: &'a mut T) -> (r: Self)
        ensures
            r.interface.current() == old(provider).held_value(),
            final(provider).held_value() == (*final(r.interface.target))@,
    {
        CapeValueOutFromProvider { interface: provider.as_cape_value_out() }
    }

    /// The output view, as passed to the callee.
    pub fn as_cape_value_out(&mut self) -> (r: CapeValueOut<'_>)
        ensures
            r.current() == old(self).interface.current(),
            final(self).interface.current() == (*final(r.target))@,
            *final(final(self).interface.target) == *final(old(self).interface.target),
    {
        CapeValueOut { target: &mut *self.interface.target }
    }
}

/// Holds the input view of a string array provider for the duration of a
/// call that takes a CAPE-OPEN string array as input.
pub struct CapeArrayStringInFromProvider<'a> {
    interface: CapeArrayStringIn<'a>,
}

impl<'a> View for CapeArrayStringInFromProvider<'a> {
    type V = Seq<Seq<char>>;

    closed spec fn view(&self) -> Seq<Seq<char>> {
        self.interface@
    }
}

impl<'a> CapeArrayStringInFromProvider<'a> {
    /// Takes the input view of `provider`.
    pub fn from<T: CapeArrayStringProviderIn>(provider: &'a T) -> (r: Self)
        ensures
            r@ == provider.provided_strings(),
    {
        CapeArrayStringInFromProvider { interface: provider.as_cape_array_string_in() }
    }

    /// The input view, as passed to the callee.
    pub fn as_cape_array_string_in(&mut self) -> (r: CapeArrayStringIn<'_>)
        ensures
            r@ == old(self)@,
            final(self)@ == old(self)@,
    {
        self.interface
    }
}

/// Holds the output view of a string array provider for the duration of a
/// call that takes a CAPE-OPEN string array as output.
pub struct CapeArrayStringOutFromProvider<'a> {
    pub interface: CapeArrayStringOut<'a>,
}

impl<'a> CapeArrayStringOutFromProvider<'a> {
    /// Takes the output view of `provider`: what is written through it is
    /// what `provider` holds afterwards.
    pub fn from<T: CapeArrayStringProviderOut>(provider: &'a mut T) -> (r: Self)
        ensures
            r.interface.current() == old(provider).held_strings(),
            final(provider).held_strings() == string_views((*final(r.interface.target))@),
    {
        CapeArrayStringOutFromProvider { interface: provider.as_cape_array_string_out() }
    }

    /// The output view, as passed to the callee.
    pub fn as_cape_array_string_out(&mut self) -> (r: CapeArrayStringOut<'_>)
        ensures
            r.current() == old(self).interface.current(),
            final(self).interface.current() == string_views((*final(r.target))@),
            *final(final(self).interface.target) == *final(old(self).interface.target),
    {
        CapeArrayStringOut { target: &mut *self.interface.target }
    }
}

/// Holds the input view of a value array provider for the duration of a
/// call that takes a CAPE-OPEN value array as input.
pub struct CapeArrayValueInFromProvider<'a> {
    interface: CapeArrayValueIn<'a>,
}

impl<'a> View for CapeArrayValueInFromProvider<'a> {
    type V = Seq<CapeValueModel>;

    closed spec fn view(&self) -> Seq<CapeValueModel> {
        self.interface@
    }
}

impl<'a> CapeArrayValueInFromProvider<'a> {
    /// Takes the input view of `provider`.
    pub fn from<T: CapeArrayValueProviderIn>(provider: &'a T) -> (r: Self)
        ensures
            r@ == provider.provided_values(),
    {
        CapeArrayValueInFromProvider { interface: provider.as_cape_array_value_in() }
    }

    /// The input view, as passed to the callee.
    pub fn as_cape_array_value_in(&mut self) -> (r: CapeArrayValueIn<'_>)
        ensures
            r@ == old(self)@,
            final(self)@ == old(self)@,
    {
        self.interface
    }
}

/// Holds the output view of a value array provider for the duration of a
/// call that takes a CAPE-OPEN value array as output.
pub struct CapeArrayValueOutFromProvider<'a> {
    pub interface: CapeArrayValueOut<'a>,
}

impl<'a> CapeArrayValueOutFromProvider<'a> {
    /// Takes the output view of `provider`: what is written through it is
    /// what `provider` holds afterwards.
    pub fn from<T: CapeArrayValueProviderOut>(provider: &'a mut T) -> (r: Self)
        ensures
            r.interface.current() == old(provider).held_values(),
            final(provider).held_values() == value_views((*final(r.interface.target))@),
    {
        CapeArrayValueOutFromProvider { interface: provider.as_cape_array_value_out() }
    }

    /// The output view, as passed to the callee.
    pub fn as_cape_array_value_out(&mut self) -> (r: CapeArrayValueOut<'_>)
        ensures
            r.current() == old(self).interface.current(),
            final(self).interface.current() == value_views((*final(r.target))@),
            *final(final(self).interface.target) == *final(old(self).interface.target),
    {
        CapeArrayValueOut { target: &mut *self.interface.target }
    }
}

} // verus!
