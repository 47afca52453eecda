use vstd::prelude::*;
use crate::cape_types::{CapeInteger, CapeReal, CapeBoolean, CapeCharacter, COBIAERR_NOERROR, COBIAERR_NOSUCHITEM, CapeResult, real_eq, real_equal, is_nan_bits, is_zero_bits};
use crate::cobia_enums::{CapeValueType, value_type_raw};
use crate::cape_error::COBIAError;
use crate::cape_value::CapeValueIn;
use crate::cape_data_traits::CapeValueProviderIn;

verus! {

broadcast use vstd::string::group_string_axioms;

/// Content of a CAPE-OPEN value.
#[derive(Debug)]
pub enum CapeValueContent {
    Empty,
    String(String),
    Integer(CapeInteger),
    Boolean(bool),
    Real(CapeReal),
}

/// The content of a value, with a string taken as its characters.
pub enum CapeValueModel {
    Empty,
    String(Seq<char>),
    Integer(CapeInteger),
    Boolean(bool),
    Real(CapeReal),
}

impl View for CapeValueContent {
    type V = CapeValueModel;

    open spec fn view(&self) -> CapeValueModel {
        match self {
            CapeValueContent::Empty => CapeValueModel::Empty,
            CapeValueContent::String(s) => CapeValueModel::String(s@),
            CapeValueContent::Integer(i) => CapeValueModel::Integer(*i),
            CapeValueContent::Boolean(b) => CapeValueModel::Boolean(*b),
            CapeValueContent::Real(r) => CapeValueModel::Real(*r),
        }
    }
}

/// Value type of a content.
pub open spec fn model_type(m: CapeValueModel) -> CapeValueType {
    match m {
        CapeValueModel::Empty => CapeValueType::Empty,
        CapeValueModel::String(_) => CapeValueType::String,
        CapeValueModel::Integer(_) => CapeValueType::Integer,
        CapeValueModel::Boolean(_) => CapeValueType::Boolean,
        CapeValueModel::Real(_) => CapeValueType::Real,
    }
}

/// Equality of two contents: same type and equal value, reals compared by
/// IEEE 754 equality.
pub open spec fn value_equal(a: CapeValueModel, b: CapeValueModel) -> bool {
    match (a, b) {
        (CapeValueModel::Empty, CapeValueModel::Empty) => true,
        (CapeValueModel::String(x), CapeValueModel::String(y)) => x == y,
        (CapeValueModel::Integer(x), CapeValueModel::Integer(y)) => x == y,
        (CapeValueModel::Boolean(x), CapeValueModel::Boolean(y)) => x == y,
        (CapeValueModel::Real(x), CapeValueModel::Real(y)) => real_equal(x, y),
        _ => false,
    }
}

/// Equality of contents is symmetric, and every content but a NaN real
/// equals itself.
pub proof fn law_value_equality(a: CapeValueModel, b: CapeValueModel)
    ensures
        value_equal(a, b) == value_equal(b, a),
        !(a matches CapeValueModel::Real(x) && is_nan_bits(x)) ==> value_equal(a, a),
{
}

/// Values of any type but real are equal exactly when they hold the same
/// content; equal values always have the same type; two reals are equal as
/// IEEE 754 doubles are: neither is a NaN, and their bits are equal or both
/// are zeros.
pub proof fn law_value_equal_is_same_content(a: CapeValueModel, b: CapeValueModel)
    ensures
        !(a is Real) ==> (value_equal(a, b) <==> a == b),
        value_equal(a, b) ==> model_type(a) == model_type(b),
        a matches CapeValueModel::Real(x) ==> (b matches CapeValueModel::Real(y) ==> (value_equal(a, b)
            <==> !is_nan_bits(x) && !is_nan_bits(y) && (x == y || (is_zero_bits(x) && is_zero_bits(y))))),
{
}

/// Compares two contents: same type and equal value, reals compared by
/// IEEE 754 equality.
pub fn content_eq(a: &CapeValueContent, b: &CapeValueContent) -> (r: bool)
    ensures
        r == value_equal(a@, b@),
{
    match (a, b) {
        (CapeValueContent::Empty, CapeValueContent::Empty) => true,
        (CapeValueContent::String(x), CapeValueContent::String(y)) => x.eq(y),
        (CapeValueContent::Integer(x), CapeValueContent::Integer(y)) => *x == *y,
        (CapeValueContent::Boolean(x), CapeValueContent::Boolean(y)) => *x == *y,
        (CapeValueContent::Real(x), CapeValueContent::Real(y)) => real_eq(*x, *y),
        _ => false,
    }
}

impl PartialEq for CapeValueContent {
    fn eq(&self, other: &Self) -> (r: bool) {
        content_eq(self, other)
    }
}

impl vstd::std_specs::cmp::PartialEqSpecImpl for CapeValueContent {
    open spec fn obeys_eq_spec() -> bool {
        true
    }

    open spec fn eq_spec(&self, other: &Self) -> bool {
        value_equal(self@, other@)
    }
}

/// A copy of a content.
pub fn copy_content(c: &CapeValueContent) -> (r: CapeValueContent)
    ensures
        r@ == c@,
{
    match c {
        CapeValueContent::Empty => CapeValueContent::Empty,
        CapeValueContent::String(s) => CapeValueContent::String(s.clone()),
        CapeValueContent::Integer(i) => CapeValueContent::Integer(*i),
        CapeValueContent::Boolean(b) => CapeValueContent::Boolean(*b),
        CapeValueContent::Real(x) => CapeValueContent::Real(*x),
    }
}

impl Clone for CapeValueContent {
    fn clone(&self) -> (r: Self)
        ensures
            r@ == self@,
    {
        copy_content(self)
    }
}

/// Default CAPE-OPEN value implementation: holds an empty, string,
/// integer, boolean or real value.
#[derive(Debug)]
pub struct CapeValueImpl {
    value: CapeValueContent,
}

impl View for CapeValueImpl {
    type V = CapeValueModel;

    closed spec fn view(&self) -> CapeValueModel {
        self.value@
    }
}

impl CapeValueImpl {
    /// An empty value.
    pub fn new() -> (r: Self)
        ensures
            r@ == CapeValueModel::Empty,
    {
        CapeValueImpl { value: CapeValueContent::Empty }
    }

    /// A string value with the characters of `value`.
    pub fn from_str(value: &str) -> (r: Self)
        ensures
            r@ == CapeValueModel::String(value@),
    {
        CapeValueImpl { value: CapeValueContent::String(value.to_string()) }
    }

    /// A string value, taking ownership of `value`.
    pub fn from_string(value: String) -> (r: Self)
        ensures
            r@ == CapeValueModel::String(value@),
    {
        CapeValueImpl { value: CapeValueContent::String(value) }
    }

    /// A value with the given content.
    pub fn from_content(value: CapeValueContent) -> (r: Self)
        ensures
            r@ == value@,
    {
        CapeValueImpl { value }
    }

    /// An integer value.
    pub fn from_integer(value: CapeInteger) -> (r: Self)
        ensures
            r@ == CapeValueModel::Integer(value),
    {
        CapeValueImpl { value: CapeValueContent::Integer(value) }
    }

    /// A boolean value.
    pub fn from_boolean(value: bool) -> (r: Self)
        ensures
            r@ == CapeValueModel::Boolean(value),
    {
        CapeValueImpl { value: CapeValueContent::Boolean(value) }
    }

    /// A real value.
    pub fn from_real(value: CapeReal) -> (r: Self)
        ensures
            r@ == CapeValueModel::Real(value),
    {
        CapeValueImpl { value: CapeValueContent::Real(value) }
    }

    /// Makes the value empty.
    pub fn reset(&mut self)
        ensures
            final(self)@ == CapeValueModel::Empty,
    {
        self.value = CapeValueContent::Empty;
    }

    /// Makes the value a string, taking ownership of `value`.
    pub fn set_string(&mut self, value: String)
        ensures
            final(self)@ == CapeValueModel::String(value@),
    {
        self.value = CapeValueContent::String(value);
    }

    /// Makes the value a string with the characters of `value`.
    pub fn set_str(&mut self, value: &str)
        ensures
            final(self)@ == CapeValueModel::String(value@),
    {
        self.value = CapeValueContent::String(value.to_string());
    }

    /// Makes the value an integer.
    pub fn set_integer(&mut self, value: CapeInteger)
        ensures
            final(self)@ == CapeValueModel::Integer(value),
    {
        self.value = CapeValueContent::Integer(value);
    }

    /// Makes the value a boolean.
    pub fn set_boolean(&mut self, value: bool)
        ensures
            final(self)@ == CapeValueModel::Boolean(value),
    {
        self.value = CapeValueContent::Boolean(value);
    }

    /// Makes the value a real.
    pub fn set_real(&mut self, value: CapeReal)
        ensures
            final(self)@ == CapeValueModel::Real(value),
    {
        self.value = CapeValueContent::Real(value);
    }

    /// Copies the content of any CAPE-OPEN value.
    pub fn set<T: CapeValueProviderIn>(&mut self, val: &T) -> (r: Result<(), COBIAError>)
        ensures
            r is Ok,
            final(self)@ == val.provided_value(),
    {
        let value = val.as_cape_value_in();
        let c = value.content();
        self.value = copy_content(c);
        Ok(())
    }

    /// The content.
    pub fn value_ref(&self) -> (r: &CapeValueContent)
        ensures
            r@ == self@,
    {
        &self.value
    }

    /// The content, for modification in place.
    pub fn value_ref_mut(&mut self) -> (r: &mut CapeValueContent)
        ensures
            (*r)@ == old(self)@,
            final(self)@ == (*final(r))@,
    {
        &mut self.value
    }

    /// A copy of the content.
    pub fn value(&self) -> (r: CapeValueContent)
        ensures
            r@ == self@,
    {
        copy_content(&self.value)
    }

    /// The value type, as the value reports it.
    pub fn get_value_type(&self) -> (r: CapeValueType)
        ensures
            r == model_type(self@),
    {
        match &self.value {
            CapeValueContent::Empty => CapeValueType::Empty,
            CapeValueContent::String(_) => CapeValueType::String,
            CapeValueContent::Integer(_) => CapeValueType::Integer,
            CapeValueContent::Boolean(_) => CapeValueType::Boolean,
            CapeValueContent::Real(_) => CapeValueType::Real,
        }
    }

    /// Replaces the content by a copy of `value`.
    pub fn set_content(&mut self, value: &CapeValueContent)
        ensures
            final(self)@ == value@,
    {
        self.value = copy_content(value);
    }
}

impl Clone for CapeValueImpl {
    fn clone(&self) -> (r: Self)
        ensures
            r@ == self@,
    {
        CapeValueImpl { value: copy_content(&self.value) }
    }
}

impl<T: CapeValueProviderIn> PartialEq<T> for CapeValueImpl {
    /// Same type and equal value as any CAPE-OPEN value; reals compare by
    /// IEEE 754 equality.
    fn eq(&self, other: &T) -> (r: bool) {
        let source = other.as_cape_value_in();
        content_eq(&self.value, source.content())
    }
}

impl<T: CapeValueProviderIn> vstd::std_specs::cmp::PartialEqSpecImpl<T> for CapeValueImpl {
    open spec fn obeys_eq_spec() -> bool {
        true
    }

    open spec fn eq_spec(&self, other: &T) -> bool {
        value_equal(self@, other.provided_value())
    }
}

impl Default for CapeValueImpl {
    fn default() -> (r: Self)
        ensures
            r@ == CapeValueModel::Empty,
    {
        CapeValueImpl::new()
    }
}

} // verus!
