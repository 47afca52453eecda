use vstd::prelude::*;
use crate::cape_types::{CapeInteger, CapeReal, COBIAERR_NOSUCHITEM};
use crate::cobia_enums::CapeValueType;
use crate::cape_error::COBIAError;
use crate::cape_value_impl::{CapeValueImpl, CapeValueContent, CapeValueModel, model_type, copy_content};
use crate::cape_data_traits::{CapeValueProviderIn, CapeValueProviderOut};
use crate::cape_display::{quoted, int_text, decimal, push_int, push_str};
use crate::cape_text::string_of;

verus! {

broadcast use vstd::string::group_string_axioms;

/// The error for an item that does not exist: what every getter of a value
/// reports for a content of another type, and what arrays report for an
/// index past their end.
pub open spec fn no_such_item() -> COBIAError {
    COBIAError::Code(COBIAERR_NOSUCHITEM)
}

/// Read-only view of a CAPE-OPEN value, as received for an input argument.
#[derive(Debug, Clone, Copy)]
pub struct CapeValueIn<'a> {
    value: &'a CapeValueImpl,
}

impl<'a> View for CapeValueIn<'a> {
    type V = CapeValueModel;

    closed spec fn view(&self) -> CapeValueModel {
        (*self.value)@
    }
}

/// The string of a content, or the error for any other content.
pub open spec fn string_of_model(m: CapeValueModel, r: Result<String, COBIAError>) -> bool {
    match m {
        CapeValueModel::String(s) => r matches Ok(t) && t@ == s,
        _ => r == Err::<String, COBIAError>(no_such_item()),
    }
}

/// The integer of a content, or the error for any other content.
pub open spec fn integer_of_model(m: CapeValueModel) -> Result<CapeInteger, COBIAError> {
    match m {
        CapeValueModel::Integer(i) => Ok(i),
        _ => Err(no_such_item()),
    }
}

/// The boolean of a content, or the error for any other content.
pub open spec fn boolean_of_model(m: CapeValueModel) -> Result<bool, COBIAError> {
    match m {
        CapeValueModel::Boolean(b) => Ok(b),
        _ => Err(no_such_item()),
    }
}

/// The real of a content, or the error for any other content.
pub open spec fn real_of_model(m: CapeValueModel) -> Result<CapeReal, COBIAError> {
    match m {
        CapeValueModel::Real(x) => Ok(x),
        _ => Err(no_such_item()),
    }
}

/// What a value gives back of what was written to it: the getter of the
/// written type gives the written content, every other getter reports
/// `COBIAERR_NOSUCHITEM`, and the type is the written type.
pub proof fn law_value_read_back(i: CapeInteger, b: bool, x: CapeReal, s: Seq<char>, t: String)
    ensures
        integer_of_model(CapeValueModel::Integer(i)) == Ok::<CapeInteger, COBIAError>(i),
        boolean_of_model(CapeValueModel::Boolean(b)) == Ok::<bool, COBIAError>(b),
        real_of_model(CapeValueModel::Real(x)) == Ok::<CapeReal, COBIAError>(x),
        string_of_model(CapeValueModel::String(s), Ok::<String, COBIAError>(t)) <==> t@ == s,
        integer_of_model(CapeValueModel::Boolean(b)) == Err::<CapeInteger, COBIAError>(no_such_item()),
        integer_of_model(CapeValueModel::Empty) == Err::<CapeInteger, COBIAError>(no_such_item()),
        boolean_of_model(CapeValueModel::Integer(i)) == Err::<bool, COBIAError>(no_such_item()),
        real_of_model(CapeValueModel::String(s)) == Err::<CapeReal, COBIAError>(no_such_item()),
        string_of_model(CapeValueModel::Real(x), Err::<String, COBIAError>(no_such_item())),
        model_type(CapeValueModel::Integer(i)) == CapeValueType::Integer,
        model_type(CapeValueModel::String(s)) == CapeValueType::String,
        model_type(CapeValueModel::Empty) == CapeValueType::Empty,
{
}

/// A value as text: a string between double quotes, an integer in
/// decimal, `true` or `false`, `<empty>`; a real is displayed as
/// `real_text`, the text of its double.
pub open spec fn value_display(m: CapeValueModel, real_text: Seq<char>) -> Seq<char> {
    match m {
        CapeValueModel::String(s) => quoted(s),
        CapeValueModel::Integer(i) => int_text(i as int),
        CapeValueModel::Boolean(b) => if b { "true"@ } else { "false"@ },
        CapeValueModel::Real(_) => real_text,
        CapeValueModel::Empty => "<empty>"@,
    }
}

/// The type a value reports is the one whose getter succeeds: a value of
/// type integer, boolean or real is exactly one whose integer, boolean or
/// real getter gives a result, a string value one whose string getter does
/// not report `COBIAERR_NOSUCHITEM`, and an empty value one for which every
/// getter does.
pub proof fn law_value_type_is_getter_type(m: CapeValueModel)
    ensures
        model_type(m) == CapeValueType::Integer <==> integer_of_model(m) is Ok,
        model_type(m) == CapeValueType::Boolean <==> boolean_of_model(m) is Ok,
        model_type(m) == CapeValueType::Real <==> real_of_model(m) is Ok,
        model_type(m) == CapeValueType::String <==> !string_of_model(m, Err::<String, COBIAError>(no_such_item())),
        model_type(m) == CapeValueType::Empty <==> (integer_of_model(m) is Err && boolean_of_model(m) is Err
            && real_of_model(m) is Err && string_of_model(m, Err::<String, COBIAError>(no_such_item()))),
{
}

/// The decimal text of a number starts with a digit.
proof fn lemma_decimal_starts_with_digit(n: nat)
    ensures
        decimal(n).len() >= 1,
        '0' <= decimal(n)[0] <= '9',
    decreases n,
{
    if n >= 10 {
        lemma_decimal_starts_with_digit(n / 10);
        assert(decimal(n)[0] == decimal(n / 10)[0]);
    }
}

/// How values are displayed: an integer as its decimal text (a minus sign
/// first when negative), a boolean as `true` or `false`, a string between
/// double quotes; among values that are not reals, exactly the empty one
/// displays as `<empty>`.
pub proof fn law_value_display(m: CapeValueModel, real_text: Seq<char>)
    ensures
        m matches CapeValueModel::Integer(i) ==> value_display(m, real_text) == int_text(i as int),
        m matches CapeValueModel::Integer(i) ==> (value_display(m, real_text)[0] == '-' <==> i < 0),
        m matches CapeValueModel::Boolean(b) ==> value_display(m, real_text) == (if b { "true"@ } else { "false"@ }),
        m matches CapeValueModel::String(s) ==> value_display(m, real_text).len() == s.len() + 2
            && value_display(m, real_text)[0] == '"'
            && value_display(m, real_text).subrange(1, s.len() as int + 1) == s
            && value_display(m, real_text)[s.len() as int + 1] == '"',
        !(m is Real) ==> (value_display(m, real_text) == "<empty>"@ <==> m is Empty),
{
    reveal_strlit("<empty>");
    reveal_strlit("true");
    reveal_strlit("false");
    let d = value_display(m, real_text);
    match m {
        CapeValueModel::Integer(i) => {
            if i < 0 {
                lemma_decimal_starts_with_digit((-i) as nat);
                assert(d[0] == '-');
            } else {
                lemma_decimal_starts_with_digit(i as nat);
            }
            assert(d[0] != '<');
        },
        CapeValueModel::String(s) => {
            assert(d[0] == '"');
            assert(d.subrange(1, s.len() as int + 1) =~= s);
        },
        CapeValueModel::Boolean(b) => {
            assert(d[0] != '<');
        },
        _ => {},
    }
}

/// Appends the text of a content; a real is displayed as `real_text`.
pub fn push_value_display(c: &CapeValueContent, real_text: &str, out: &mut Vec<char>)
    ensures
        final(out)@ == old(out)@ + value_display(c@, real_text@),
{
    match c {
        CapeValueContent::String(s) => {
            out.push('"');
            push_str(out, s.as_str());
            out.push('"');
            assert(out@ =~= old(out)@ + value_display(c@, real_text@));
        },
        CapeValueContent::Integer(i) => push_int(*i as i64, out),
        CapeValueContent::Boolean(b) => {
            if *b {
                push_str(out, "true");
            } else {
                push_str(out, "false");
            }
        },
        CapeValueContent::Real(_) => push_str(out, real_text),
        CapeValueContent::Empty => push_str(out, "<empty>"),
    }
}

/// The text of a content; a real is displayed as `real_text`.
pub fn display_value(c: &CapeValueContent, real_text: &str) -> (r: String)
    ensures
        r@ == value_display(c@, real_text@),
{
    let mut out: Vec<char> = Vec::new();
    push_value_display(c, real_text, &mut out);
    assert(out@ =~= value_display(c@, real_text@));
    string_of(out.as_slice())
}

/// Reads the string of a content.
fn get_string_of(c: &CapeValueContent) -> (r: Result<String, COBIAError>)
    ensures
        string_of_model(c@, r),
{
    match c {
        CapeValueContent::String(s) => Ok(s.clone()),
        _ => Err(COBIAError::Code(COBIAERR_NOSUCHITEM)),
    }
}

/// Reads the integer of a content.
fn get_integer_of(c: &CapeValueContent) -> (r: Result<CapeInteger, COBIAError>)
    ensures
        r == integer_of_model(c@),
{
    match c {
        CapeValueContent::Integer(i) => Ok(*i),
        _ => Err(COBIAError::Code(COBIAERR_NOSUCHITEM)),
    }
}

/// Reads the boolean of a content.
fn get_boolean_of(c: &CapeValueContent) -> (r: Result<bool, COBIAError>)
    ensures
        r == boolean_of_model(c@),
{
    match c {
        CapeValueContent::Boolean(b) => Ok(*b),
        _ => Err(COBIAError::Code(COBIAERR_NOSUCHITEM)),
    }
}

/// Reads the real of a content.
fn get_real_of(c: &CapeValueContent) -> (r: Result<CapeReal, COBIAError>)
    ensures
        r == real_of_model(c@),
{
    match c {
        CapeValueContent::Real(x) => Ok(*x),
        _ => Err(COBIAError::Code(COBIAERR_NOSUCHITEM)),
    }
}

impl<'a> CapeValueIn<'a> {
    /// A view of the value `interface` holds.
    pub fn new(interface: &'a CapeValueImpl) -> (r: CapeValueIn<'a>)
        ensures
            r@ == interface@,
    {
        CapeValueIn { value: interface }
    }

    /// The content of the value.
    pub fn content(&self) -> (r: &'a CapeValueContent)
        ensures
            r@ == self@,
    {
        self.value.value_ref()
    }

    /// The value as text: a string between double quotes, an integer in
    /// decimal, `true` or `false`, `<empty>`; a real is displayed as
    /// `real_text`, the text of its double.
    pub fn to_string(&self, real_text: &str) -> (r: String)
        ensures
            r@ == value_display(self@, real_text@),
    {
        display_value(self.value.value_ref(), real_text)
    }

    /// The type of the value.
    pub fn get_type(&self) -> (r: Result<CapeValueType, COBIAError>)
        ensures
            r == Ok::<CapeValueType, COBIAError>(model_type(self@)),
    {
        Ok(self.value.get_value_type())
    }

    /// The string, if the value is a string.
    pub fn get_string(&self) -> (r: Result<String, COBIAError>)
        ensures
            string_of_model(self@, r),
    {
        get_string_of(self.value.value_ref())
    }

    /// The integer, if the value is an integer.
    pub fn get_integer(&self) -> (r: Result<CapeInteger, COBIAError>)
        ensures
            r == integer_of_model(self@),
    {
        get_integer_of(self.value.value_ref())
    }

    /// The boolean, if the value is a boolean.
    pub fn get_boolean(&self) -> (r: Result<bool, COBIAError>)
        ensures
            r == boolean_of_model(self@),
    {
        get_boolean_of(self.value.value_ref())
    }

    /// The real, if the value is a real.
    pub fn get_real(&self) -> (r: Result<CapeReal, COBIAError>)
        ensures
            r == real_of_model(self@),
    {
        get_real_of(self.value.value_ref())
    }
}

impl<'a> CapeValueProviderIn for CapeValueIn<'a> {
    open spec fn provided_value(&self) -> CapeValueModel {
        self@
    }

    fn as_cape_value_in(&self) -> (r: CapeValueIn<'_>) {
        *self
    }
}

/// Writable view of a CAPE-OPEN value, as received for an output argument.
#[derive(Debug)]
pub struct CapeValueOut<'a> {
    pub target: &'a mut CapeValueImpl,
}

impl<'a> CapeValueOut<'a> {
    /// The value the target holds now.
    pub open spec fn current(&self) -> CapeValueModel {
        (*self.target)@
    }

    /// A view that writes to `interface`.
    pub fn new(interface: &'a mut CapeValueImpl) -> (r: CapeValueOut<'a>)
        ensures
            r.current() == old(interface)@,
            *final(r.target) == *final(interface),
    {
        CapeValueOut { target: interface }
    }

    /// The value as text: a string between double quotes, an integer in
    /// decimal, `true` or `false`, `<empty>`; a real is displayed as
    /// `real_text`, the text of its double.
    pub fn to_string(&self, real_text: &str) -> (r: String)
        ensures
            r@ == value_display(self.current(), real_text@),
    {
        display_value(self.target.value_ref(), real_text)
    }

    /// The type of the value.
    pub fn get_type(&self) -> (r: Result<CapeValueType, COBIAError>)
        ensures
            r == Ok::<CapeValueType, COBIAError>(model_type(self.current())),
    {
        Ok(self.target.get_value_type())
    }

    /// The string, if the value is a string.
    pub fn get_string(&self) -> (r: Result<String, COBIAError>)
        ensures
            string_of_model(self.current(), r),
    {
        get_string_of(self.target.value_ref())
    }

    /// The integer, if the value is an integer.
    pub fn get_integer(&self) -> (r: Result<CapeInteger, COBIAError>)
        ensures
            r == integer_of_model(self.current()),
    {
        get_integer_of(self.target.value_ref())
    }

    /// The boolean, if the value is a boolean.
    pub fn get_boolean(&self) -> (r: Result<bool, COBIAError>)
        ensures
            r == boolean_of_model(self.current()),
    {
        get_boolean_of(self.target.value_ref())
    }

    /// The real, if the value is a real.
    pub fn get_real(&self) -> (r: Result<CapeReal, COBIAError>)
        ensures
            r == real_of_model(self.current()),
    {
        get_real_of(self.target.value_ref())
    }

    /// Makes the value a string with the characters of `value`.
    pub fn set_string(&mut self, value: &str) -> (r: Result<(), COBIAError>)
        ensures
            r is Ok,
            final(self).current() == CapeValueModel::String(value@),
            *final(final(self).target) == *final(old(self).target),
    {
        self.target.set_str(value);
        Ok(())
    }

    /// Makes the value an integer.
    pub fn set_integer(&mut self, value: CapeInteger) -> (r: Result<(), COBIAError>)
        ensures
            r is Ok,
            final(self).current() == CapeValueModel::Integer(value),
            *final(final(self).target) == *final(old(self).target),
    {
        self.target.set_integer(value);
        Ok(())
    }

    /// Makes the value a boolean.
    pub fn set_boolean(&mut self, value: bool) -> (r: Result<(), COBIAError>)
        ensures
            r is Ok,
            final(self).current() == CapeValueModel::Boolean(value),
            *final(final(self).target) == *final(old(self).target),
    {
        self.target.set_boolean(value);
        Ok(())
    }

    /// Makes the value a real.
    pub fn set_real(&mut self, value: CapeReal) -> (r: Result<(), COBIAError>)
        ensures
            r is Ok,
            final(self).current() == CapeValueModel::Real(value),
            *final(final(self).target) == *final(old(self).target),
    {
        self.target.set_real(value);
        Ok(())
    }

    /// Makes the value empty.
    pub fn set_empty(&mut self) -> (r: Result<(), COBIAError>)
        ensures
            r is Ok,
            final(self).current() == CapeValueModel::Empty,
            *final(final(self).target) == *final(old(self).target),
    {
        self.target.reset();
        Ok(())
    }

    /// Copies the content of any CAPE-OPEN value.
    pub fn set<T: CapeValueProviderIn>(&mut self, value: &T) -> (r: Result<(), COBIAError>)
        ensures
            r is Ok,
            final(self).current() == value.provided_value(),
            *final(final(self).target) == *final(old(self).target),
    {
        self.target.set(value)
    }
}

impl<'a> CapeValueProviderOut for CapeValueOut<'a> {
    open spec fn held_value(&self) -> CapeValueModel {
        self.current()
    }

    fn as_cape_value_out(&mut self) -> (r: CapeValueOut<'_>) {
        CapeValueOut { target: &mut *self.target }
    }
}

impl CapeValueProviderIn for CapeValueImpl {
    open spec fn provided_value(&self) -> CapeValueModel {
        self@
    }

    fn as_cape_value_in(&self) -> (r: CapeValueIn<'_>) {
        CapeValueIn::new(self)
    }
}

impl CapeValueProviderOut for CapeValueImpl {
    open spec fn held_value(&self) -> CapeValueModel {
        self@
    }

    fn as_cape_value_out(&mut self) -> (r: CapeValueOut<'_>) {
        CapeValueOut::new(self)
    }
}

} // verus!
