use vstd::prelude::*;
use crate::cape_types::{CapeResult, COBIAERR_NOERROR, COBIAERR_NOSUCHITEM};
use crate::cape_text::{chars_of, string_of};
use crate::cape_display::{decimal, push_decimal};
use crate::cape_string::CapeStringOut;
use crate::cape_error::{CapeError, CapeErrorProperty, COBIAError, same_error};

verus! {

broadcast use vstd::string::group_string_axioms;

/// The text that stands for a COBIA error code that COBIA could not
/// describe.
pub open spec fn code_text(code: CapeResult) -> Seq<char> {
    "COBIA error code: "@ + decimal(code as nat)
}

/// The text of a COBIA error code that COBIA could not describe:
/// `COBIA error code: ` and the code in decimal.
pub fn code_to_text(code: CapeResult) -> (r: String)
    ensures
        r@ == code_text(code),
{
    let mut out = chars_of("COBIA error code: ");
    push_decimal(code as u64, &mut out);
    string_of(out.as_slice())
}

/// An error object as this library hands it to COBIA: the error text, the
/// scope and source where it arose, and the error that caused it.
pub struct CapeErrorImpl {
    text: String,
    scope: String,
    source: String,
    cause: Option<CapeError>,
}

impl CapeErrorImpl {
    /// The error text.
    pub closed spec fn text(&self) -> Seq<char> {
        self.text@
    }

    /// The scope where the error arose.
    pub closed spec fn scope(&self) -> Seq<char> {
        self.scope@
    }

    /// The component where the error arose.
    pub closed spec fn source(&self) -> Seq<char> {
        self.source@
    }

    /// The error that caused it, if any.
    pub closed spec fn cause(&self) -> Option<CapeError> {
        self.cause
    }

    /// The error object for `err`, raised in `scope` of `source`.
    ///
    /// The text is the message of a `Message` or `MessageWithCause`, the
    /// text of a `CAPEOPEN` error, and for a `Code` the description that
    /// COBIA gives of the code (`code_description`, `None` when COBIA has
    /// none), or else `COBIA error code: ` and the code. The cause is
    /// that of `MessageWithCause`, or the cause of a `CAPEOPEN` error.
    /// The text of a `CAPEOPEN` error must have been available.
    pub fn new(err: &COBIAError, scope: &str, source: &str, code_description: Option<&str>) -> (r: Self)
        requires
            err matches COBIAError::CAPEOPEN(e) ==> e.text is Text,
        ensures
            r.scope() == scope@,
            r.source() == source@,
            match *err {
                COBIAError::Message(m) => r.text() == m@ && r.cause() is None,
                COBIAError::MessageWithCause(m, c) => r.text() == m@
                    && (r.cause() matches Some(x) && same_error(c, x)),
                COBIAError::Code(code) => r.cause() is None && r.text() == (match code_description {
                    Some(d) => d@,
                    None => code_text(code),
                }),
                COBIAError::CAPEOPEN(e) => (e.text matches CapeErrorProperty::Text(t) && r.text() == t@)
                    && match e.cause {
                        Some(c) => r.cause() matches Some(x) && same_error(*c, x),
                        None => r.cause() is None,
                    },
            },
    {
        let mut cause: Option<CapeError> = None;
        let text: String = match err {
            COBIAError::Message(s) => s.clone(),
            COBIAError::Code(code) => {
                match code_description {
                    Some(d) => d.to_string(),
                    None => code_to_text(*code),
                }
            },
            COBIAError::CAPEOPEN(e) => {
                cause = e.get_cause();
                match e.get_error_text() {
                    Ok(t) => t,
                    Err(_) => String::new(),
                }
            },
            COBIAError::MessageWithCause(msg, because) => {
                cause = Some(because.duplicate());
                msg.clone()
            },
        };
        CapeErrorImpl { text, scope: scope.to_string(), source: source.to_string(), cause }
    }

    /// Writes the error text; always succeeds.
    pub fn get_error_text(&self, error_text: &mut CapeStringOut) -> (r: CapeResult)
        ensures
            r == COBIAERR_NOERROR,
            final(error_text).current() == self.text(),
            *final(final(error_text).target) == *final(old(error_text).target),
    {
        let _ = error_text.set_string(self.text.as_str());
        COBIAERR_NOERROR
    }

    /// Writes the scope; always succeeds.
    pub fn get_scope(&self, error_scope: &mut CapeStringOut) -> (r: CapeResult)
        ensures
            r == COBIAERR_NOERROR,
            final(error_scope).current() == self.scope(),
            *final(final(error_scope).target) == *final(old(error_scope).target),
    {
        let _ = error_scope.set_string(self.scope.as_str());
        COBIAERR_NOERROR
    }

    /// Writes the source; always succeeds.
    pub fn get_source(&self, component_description: &mut CapeStringOut) -> (r: CapeResult)
        ensures
            r == COBIAERR_NOERROR,
            final(component_description).current() == self.source(),
            *final(final(component_description).target) == *final(old(component_description).target),
    {
        let _ = component_description.set_string(self.source.as_str());
        COBIAERR_NOERROR
    }

    /// Gives the cause: `COBIAERR_NOSUCHITEM` when there is none.
    pub fn get_cause(&self, cause: &mut Option<CapeError>) -> (r: CapeResult)
        ensures
            match self.cause() {
                Some(c) => r == COBIAERR_NOERROR && (*final(cause) matches Some(x) && same_error(c, x)),
                None => r == COBIAERR_NOSUCHITEM && *final(cause) == *old(cause),
            },
    {
        match &self.cause {
            Some(c) => {
                *cause = Some(c.duplicate());
                COBIAERR_NOERROR
            },
            None => COBIAERR_NOSUCHITEM,
        }
    }

    /// The error as a COBIA object reports it to the caller: every
    /// property given, and the cause.
    pub fn as_cape_error(&self) -> (r: CapeError)
        ensures
            r.text matches CapeErrorProperty::Text(t) && t@ == self.text(),
            r.scope matches CapeErrorProperty::Text(t) && t@ == self.scope(),
            r.source matches CapeErrorProperty::Text(t) && t@ == self.source(),
            match self.cause() {
                Some(c) => r.cause matches Some(x) && same_error(c, *x),
                None => r.cause is None,
            },
    {
        let cause = match &self.cause {
            Some(c) => Some(c.duplicate()),
            None => None,
        };
        CapeError::new(
            CapeErrorProperty::Text(self.text.clone()),
            CapeErrorProperty::Text(self.scope.clone()),
            CapeErrorProperty::Text(self.source.clone()),
            cause,
        )
    }
}

} // verus!
