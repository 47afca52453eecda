use vstd::prelude::*;
use crate::cape_types::{CapeResult, COBIAERR_CAPEOPENERROR, COBIAERR_UNKNOWNERROR};
use crate::cape_uuid::CapeUUID;
use crate::cape_text::{chars_of, string_of};
use crate::cape_display::{decimal, push_decimal, push_str};

verus! {

broadcast use vstd::string::group_string_axioms;

/// A property of an external error: its text, or the code with which the
/// object failed to give it.
#[derive(Debug)]
pub enum CapeErrorProperty {
    Text(String),
    Failed(CapeResult),
}

/// A CAPE-OPEN error reported by an object: the error text, the scope and
/// source where it arose, and the error that caused it, if any.
///
/// Each property is what the object answered when it was asked: the text
/// or, when the object failed to answer, the code it failed with.
#[derive(Debug)]
pub struct CapeError {
    pub text: CapeErrorProperty,
    pub scope: CapeErrorProperty,
    pub source: CapeErrorProperty,
    pub cause: Option<Box<CapeError>>,
}

/// Two properties hold the same text, or failed with the same code.
pub open spec fn same_property(a: CapeErrorProperty, b: CapeErrorProperty) -> bool {
    match (a, b) {
        (CapeErrorProperty::Text(x), CapeErrorProperty::Text(y)) => x@ == y@,
        (CapeErrorProperty::Failed(x), CapeErrorProperty::Failed(y)) => x == y,
        _ => false,
    }
}

/// Two errors have the same properties, and the same chain of causes.
pub open spec fn same_error(a: CapeError, b: CapeError) -> bool
    decreases a,
{
    &&& same_property(a.text, b.text)
    &&& same_property(a.scope, b.scope)
    &&& same_property(a.source, b.source)
    &&& match (a.cause, b.cause) {
        (Some(x), Some(y)) => same_error(*x, *y),
        (None, None) => true,
        _ => false,
    }
}

/// A copy of a property.
pub fn copy_property(p: &CapeErrorProperty) -> (r: CapeErrorProperty)
    ensures
        same_property(*p, r),
{
    match p {
        CapeErrorProperty::Text(t) => CapeErrorProperty::Text(t.clone()),
        CapeErrorProperty::Failed(c) => CapeErrorProperty::Failed(*c),
    }
}

impl CapeError {
    /// A copy of the error and of its chain of causes.
    pub fn duplicate(&self) -> (r: Self)
        ensures
            same_error(*self, r),
        decreases self,
    {
        let cause = match &self.cause {
            Some(c) => {
                let d = c.duplicate();
                Some(Box::new(d))
            },
            None => None,
        };
        CapeError {
            text: copy_property(&self.text),
            scope: copy_property(&self.scope),
            source: copy_property(&self.source),
            cause,
        }
    }

    /// An error with the given properties.
    pub fn new(
        text: CapeErrorProperty,
        scope: CapeErrorProperty,
        source: CapeErrorProperty,
        cause: Option<CapeError>,
    ) -> (r: Self)
        ensures
            r.text == text,
            r.scope == scope,
            r.source == source,
            r.cause == (match cause { Some(c) => Some(Box::new(c)), None => None }),
    {
        let cause = match cause {
            Some(c) => Some(Box::new(c)),
            None => None,
        };
        CapeError { text, scope, source, cause }
    }

    /// The error text, or the code of the failure to get it.
    pub fn get_error_text(&self) -> (r: Result<String, COBIAError>)
        ensures
            match self.text {
                CapeErrorProperty::Text(t) => r matches Ok(s) && s@ == t@,
                CapeErrorProperty::Failed(c) => r == Err::<String, COBIAError>(COBIAError::Code(c)),
            },
    {
        match &self.text {
            CapeErrorProperty::Text(t) => Ok(t.clone()),
            CapeErrorProperty::Failed(c) => Err(COBIAError::Code(*c)),
        }
    }

    /// The scope, or the code of the failure to get it.
    pub fn get_scope(&self) -> (r: Result<String, COBIAError>)
        ensures
            match self.scope {
                CapeErrorProperty::Text(t) => r matches Ok(s) && s@ == t@,
                CapeErrorProperty::Failed(c) => r == Err::<String, COBIAError>(COBIAError::Code(c)),
            },
    {
        match &self.scope {
            CapeErrorProperty::Text(t) => Ok(t.clone()),
            CapeErrorProperty::Failed(c) => Err(COBIAError::Code(*c)),
        }
    }

    /// The source, or the code of the failure to get it.
    pub fn get_source(&self) -> (r: Result<String, COBIAError>)
        ensures
            match self.source {
                CapeErrorProperty::Text(t) => r matches Ok(s) && s@ == t@,
                CapeErrorProperty::Failed(c) => r == Err::<String, COBIAError>(COBIAError::Code(c)),
            },
    {
        match &self.source {
            CapeErrorProperty::Text(t) => Ok(t.clone()),
            CapeErrorProperty::Failed(c) => Err(COBIAError::Code(*c)),
        }
    }
}

impl CapeError {
    /// A copy of the error that caused this one, if any.
    pub fn get_cause(&self) -> (r: Option<CapeError>)
        ensures
            match self.cause {
                Some(c) => r matches Some(e) && same_error(*c, e),
                None => r is None,
            },
    {
        match &self.cause {
            Some(c) => Some(c.duplicate()),
            None => None,
        }
    }

    /// The error and its chain of causes as text: for each error the
    /// place it arose, its text, and `, caused by: ` before its cause.
    pub fn to_string(&self) -> (r: String)
        ensures
            r@ == error_display(*self),
    {
        let mut out: Vec<char> = Vec::new();
        append_error_display(self, &mut out);
        string_of(out.as_slice())
    }
}

/// The text of a property that was given, if it was.
pub open spec fn given(p: CapeErrorProperty) -> Option<Seq<char>> {
    match p {
        CapeErrorProperty::Text(t) => Some(t@),
        CapeErrorProperty::Failed(_) => None,
    }
}

/// Where an error arose, as it is displayed: `in <scope> of <source>: `
/// with both, `in <scope>` with the scope alone, `<source>: ` with the
/// source alone, nothing with neither.
pub open spec fn place_display(e: CapeError) -> Seq<char> {
    match (given(e.scope), given(e.source)) {
        (Some(scope), Some(source)) => "in "@ + scope + " of "@ + source + ": "@,
        (Some(scope), None) => "in "@ + scope,
        (None, Some(source)) => source + ": "@,
        (None, None) => Seq::empty(),
    }
}

/// The text of an error, as it is displayed: `Unknown error` when the
/// text could not be had.
pub open spec fn text_display(e: CapeError) -> Seq<char> {
    match given(e.text) {
        Some(t) => t,
        None => "Unknown error"@,
    }
}

/// An error and its chain of causes, as displayed.
pub open spec fn error_display(e: CapeError) -> Seq<char>
    decreases e,
{
    place_display(e) + text_display(e) + match e.cause {
        Some(c) => ", caused by: "@ + error_display(*c),
        None => Seq::empty(),
    }
}

/// Appends the display of an error and its chain of causes.
fn append_error_display(e: &CapeError, out: &mut Vec<char>)
    ensures
        final(out)@ == old(out)@ + error_display(*e),
    decreases e,
{
    let start = Ghost(out@);
    match (&e.scope, &e.source) {
        (CapeErrorProperty::Text(scope), CapeErrorProperty::Text(source)) => {
            push_str(out, "in ");
            push_str(out, scope.as_str());
            push_str(out, " of ");
            push_str(out, source.as_str());
            push_str(out, ": ");
        },
        (CapeErrorProperty::Text(scope), CapeErrorProperty::Failed(_)) => {
            push_str(out, "in ");
            push_str(out, scope.as_str());
        },
        (CapeErrorProperty::Failed(_), CapeErrorProperty::Text(source)) => {
            push_str(out, source.as_str());
            push_str(out, ": ");
        },
        (CapeErrorProperty::Failed(_), CapeErrorProperty::Failed(_)) => {},
    }
    assert(out@ =~= start@ + place_display(*e));
    match &e.text {
        CapeErrorProperty::Text(t) => push_str(out, t.as_str()),
        CapeErrorProperty::Failed(_) => push_str(out, "Unknown error"),
    }
    assert(out@ =~= start@ + place_display(*e) + text_display(*e));
    match &e.cause {
        Some(c) => {
            push_str(out, ", caused by: ");
            append_error_display(c, out);
        },
        None => {},
    }
    assert(out@ =~= start@ + error_display(*e));
}

impl Clone for CapeErrorProperty {
    fn clone(&self) -> (r: Self)
        ensures
            same_property(*self, r),
    {
        copy_property(self)
    }
}

impl Clone for CapeError {
    fn clone(&self) -> (r: Self)
        ensures
            same_error(*self, r),
    {
        self.duplicate()
    }
}

/// A COBIA error.
///
/// - `Message`: an internal error message;
/// - `MessageWithCause`: an internal error message caused by an error of an
///   external CAPE-OPEN component;
/// - `Code`: a COBIA error code;
/// - `CAPEOPEN`: an error returned by an external CAPE-OPEN component.
#[derive(Debug)]
pub enum COBIAError {
    Message(String),
    MessageWithCause(String, CapeError),
    Code(CapeResult),
    CAPEOPEN(CapeError),
}

impl COBIAError {
    /// The error as a code: the code itself for `Code`, and
    /// `COBIAERR_UNKNOWNERROR` for every other kind of error.
    pub fn as_code(&self) -> (r: CapeResult)
        ensures
            r == (match *self {
                COBIAError::Code(c) => c,
                _ => COBIAERR_UNKNOWNERROR,
            }),
    {
        match self {
            COBIAError::Code(code) => *code,
            _ => COBIAERR_UNKNOWNERROR,
        }
    }

    /// The error for a failed call on an object, given the object's last
    /// error: for `COBIAERR_CAPEOPENERROR` the object's last error when it
    /// has one, and otherwise the code itself.
    pub fn from_last_error(code: CapeResult, last_error: Option<CapeError>) -> (r: Self)
        ensures
            r == (if code == COBIAERR_CAPEOPENERROR && last_error is Some {
                COBIAError::CAPEOPEN(last_error->0)
            } else {
                COBIAError::Code(code)
            }),
    {
        if code == COBIAERR_CAPEOPENERROR {
            match last_error {
                Some(err) => COBIAError::CAPEOPEN(err),
                None => COBIAError::Code(code),
            }
        } else {
            COBIAError::Code(code)
        }
    }

    /// The error for a failed call on `object`: for
    /// `COBIAERR_CAPEOPENERROR` the object's last error when it reports
    /// one; otherwise the code itself.
    pub fn from_object<T: CapeSmartPointer>(code: CapeResult, object: &T) -> (r: Self)
        ensures
            code != COBIAERR_CAPEOPENERROR ==> r == COBIAError::Code(code),
            code == COBIAERR_CAPEOPENERROR ==> (r is CAPEOPEN || r == COBIAError::Code(code)),
    {
        if code == COBIAERR_CAPEOPENERROR {
            let e = object.last_error();
            Self::from_last_error(code, e)
        } else {
            COBIAError::Code(code)
        }
    }
}

/// Two COBIA errors of the same kind, with the same message, code or
/// errors.
pub open spec fn same_cobia_error(a: COBIAError, b: COBIAError) -> bool {
    match (a, b) {
        (COBIAError::Message(x), COBIAError::Message(y)) => x@ == y@,
        (COBIAError::MessageWithCause(x, c), COBIAError::MessageWithCause(y, d)) => x@ == y@ && same_error(c, d),
        (COBIAError::Code(x), COBIAError::Code(y)) => x == y,
        (COBIAError::CAPEOPEN(c), COBIAError::CAPEOPEN(d)) => same_error(c, d),
        _ => false,
    }
}

impl Clone for COBIAError {
    fn clone(&self) -> (r: Self)
        ensures
            same_cobia_error(*self, r),
    {
        match self {
            COBIAError::Message(m) => COBIAError::Message(m.clone()),
            COBIAError::MessageWithCause(m, c) => COBIAError::MessageWithCause(m.clone(), c.duplicate()),
            COBIAError::Code(code) => COBIAError::Code(*code),
            COBIAError::CAPEOPEN(c) => COBIAError::CAPEOPEN(c.duplicate()),
        }
    }
}

/// A COBIA error as text: the message (and `, caused by ` with the cause);
/// for a code the description COBIA gives of it (`code_description`), or
/// `COBIA error code: ` and the code; for a CAPE-OPEN error its display.
pub open spec fn cobia_error_display(e: COBIAError, code_description: Option<Seq<char>>) -> Seq<char> {
    match e {
        COBIAError::Message(m) => m@,
        COBIAError::MessageWithCause(m, c) => m@ + ", caused by "@ + error_display(c),
        COBIAError::Code(code) => match code_description {
            Some(d) => d,
            None => "COBIA error code: "@ + decimal(code as nat),
        },
        COBIAError::CAPEOPEN(c) => error_display(c),
    }
}

impl COBIAError {
    /// The error as text. For a `Code`, `code_description` is the
    /// description COBIA gives of the code, `None` when it has none.
    pub fn to_string(&self, code_description: Option<&str>) -> (r: String)
        ensures
            r@ == cobia_error_display(*self, match code_description {
                Some(d) => Some(d@),
                None => None,
            }),
    {
        match self {
            COBIAError::Message(m) => m.clone(),
            COBIAError::MessageWithCause(m, c) => {
                let mut out = chars_of(m.as_str());
                push_str(&mut out, ", caused by ");
                append_error_display(c, &mut out);
                string_of(out.as_slice())
            },
            COBIAError::Code(code) => match code_description {
                Some(d) => d.to_string(),
                None => {
                    let mut out = chars_of("COBIA error code: ");
                    push_decimal(*code as u64, &mut out);
                    string_of(out.as_slice())
                },
            },
            COBIAError::CAPEOPEN(c) => c.to_string(),
        }
    }
}

/// A handle to an interface of an external COBIA object.
///
/// Implemented for the handles of each CAPE-OPEN interface.
pub trait CapeSmartPointer {
    /// The identifier of the interface the handle refers to.
    fn get_interface_id() -> CapeUUID;

    /// The last error the object reported, if it reports one.
    fn last_error(&self) -> Option<CapeError>;
}

/// How an error with all its properties given is displayed: where it arose
/// (`in <scope> of <source>: `), then its text; a cause follows after
/// `, caused by: ` as it is displayed on its own. An error whose text could
/// not be had, with neither scope nor source, displays as `Unknown error`.
pub proof fn law_error_display(text: String, scope: String, source: String, e: CapeError)
    ensures
        e.text == CapeErrorProperty::Text(text) && e.scope == CapeErrorProperty::Text(scope)
            && e.source == CapeErrorProperty::Text(source) && e.cause is None
            ==> error_display(e) == "in "@ + scope@ + " of "@ + source@ + ": "@ + text@,
        e.cause matches Some(c) ==> error_display(e) == error_display(
            (CapeError { text: e.text, scope: e.scope, source: e.source, cause: None }),
        ) + ", caused by: "@ + error_display(*c),
        e.text is Failed && e.scope is Failed && e.source is Failed && e.cause is None
            ==> error_display(e) == "Unknown error"@,
{
    let bare = CapeError { text: e.text, scope: e.scope, source: e.source, cause: None };
    assert(error_display(bare) =~= place_display(e) + text_display(e));
    if e.cause is None {
        assert(error_display(e) =~= place_display(e) + text_display(e));
        if e.text is Failed && e.scope is Failed && e.source is Failed {
            assert(error_display(e) =~= "Unknown error"@);
        }
    }
}

/// A message with a cause is displayed as the message alone would be, then
/// `, caused by `, then the cause as it is displayed as a CAPE-OPEN error
/// of its own (and as `CapeError::to_string` gives it).
pub proof fn law_cobia_error_display(m: String, c: CapeError, d: Option<Seq<char>>)
    ensures
        cobia_error_display(COBIAError::Message(m), d) == m@,
        cobia_error_display(COBIAError::CAPEOPEN(c), d) == error_display(c),
        cobia_error_display(COBIAError::MessageWithCause(m, c), d)
            == cobia_error_display(COBIAError::Message(m), d) + ", caused by "@
            + cobia_error_display(COBIAError::CAPEOPEN(c), d),
{
}

} // verus!
