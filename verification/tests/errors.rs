use lib::cape_error::{CapeError, CapeErrorProperty, COBIAError};
use lib::cape_error_impl::{CapeErrorImpl, code_to_text};
use lib::cape_display::push_decimal;
use lib::cape_string_impl::CapeStringImpl;
use lib::cape_string::CapeStringOut;
use lib::cape_types::{COBIAERR_NOERROR, COBIAERR_NOSUCHITEM, COBIAERR_UNKNOWNERROR, COBIAERR_CAPEOPENERROR, COBIAERR_DENIED};

fn text(s: &str) -> CapeErrorProperty {
    CapeErrorProperty::Text(s.to_string())
}

fn simple_error(t: &str) -> CapeError {
    CapeError::new(text(t), text("Calculate"), text("Flash"), None)
}

#[test]
fn error_getters() {
    let e = CapeError::new(text("bad input"), CapeErrorProperty::Failed(3), text("Flash"), None);
    assert_eq!(e.get_error_text().unwrap(), "bad input");
    match e.get_scope() {
        Err(COBIAError::Code(c)) => assert_eq!(c, 3),
        _ => panic!("scope was not available"),
    }
    assert_eq!(e.get_source().unwrap(), "Flash");
    assert!(e.get_cause().is_none());
}

#[test]
fn error_display_with_scope_and_source() {
    let e = simple_error("temperature out of range");
    assert_eq!(e.to_string(), "in Calculate of Flash: temperature out of range");
}

#[test]
fn error_display_partial_places() {
    let only_scope = CapeError::new(text("t"), text("S"), CapeErrorProperty::Failed(1), None);
    assert_eq!(only_scope.to_string(), "in St");
    let only_source = CapeError::new(text("t"), CapeErrorProperty::Failed(1), text("Src"), None);
    assert_eq!(only_source.to_string(), "Src: t");
    let neither = CapeError::new(CapeErrorProperty::Failed(1), CapeErrorProperty::Failed(1), CapeErrorProperty::Failed(1), None);
    assert_eq!(neither.to_string(), "Unknown error");
}

#[test]
fn error_display_with_cause_chain() {
    let cause = simple_error("root cause");
    let e = CapeError::new(text("outer"), text("Run"), text("Unit"), Some(cause));
    assert_eq!(e.to_string(), "in Run of Unit: outer, caused by: in Calculate of Flash: root cause");
    let c = e.get_cause().unwrap();
    assert_eq!(c.get_error_text().unwrap(), "root cause");
    let d = e.clone();
    assert_eq!(d.to_string(), e.to_string());
}

#[test]
fn cobia_error_as_code() {
    assert_eq!(COBIAError::Code(COBIAERR_DENIED).as_code(), COBIAERR_DENIED);
    assert_eq!(COBIAError::Message("x".to_string()).as_code(), COBIAERR_UNKNOWNERROR);
    assert_eq!(COBIAError::CAPEOPEN(simple_error("x")).as_code(), COBIAERR_UNKNOWNERROR);
    assert_eq!(COBIAError::MessageWithCause("x".to_string(), simple_error("y")).as_code(), COBIAERR_UNKNOWNERROR);
}

#[test]
fn cobia_error_from_last_error() {
    match COBIAError::from_last_error(COBIAERR_CAPEOPENERROR, Some(simple_error("e"))) {
        COBIAError::CAPEOPEN(e) => assert_eq!(e.get_error_text().unwrap(), "e"),
        _ => panic!("a reported error must be passed on"),
    }
    match COBIAError::from_last_error(COBIAERR_CAPEOPENERROR, None) {
        COBIAError::Code(c) => assert_eq!(c, COBIAERR_CAPEOPENERROR),
        _ => panic!("without a last error the code stays"),
    }
    match COBIAError::from_last_error(COBIAERR_DENIED, Some(simple_error("e"))) {
        COBIAError::Code(c) => assert_eq!(c, COBIAERR_DENIED),
        _ => panic!("other codes stay codes"),
    }
}

#[test]
fn decimal_text_of_codes() {
    assert_eq!(code_to_text(0), "COBIA error code: 0");
    assert_eq!(code_to_text(7), "COBIA error code: 7");
    assert_eq!(code_to_text(1234567), "COBIA error code: 1234567");
    assert_eq!(code_to_text(u32::MAX), "COBIA error code: 4294967295");
    let mut v = vec!['x'];
    push_decimal(105, &mut v);
    assert_eq!(v, vec!['x', '1', '0', '5']);
}

#[test]
fn error_impl_from_message() {
    let e = CapeErrorImpl::new(&COBIAError::Message("failed".to_string()), "Calculate", "Flash", None);
    let mut s = CapeStringImpl::new();
    assert_eq!(e.get_error_text(&mut CapeStringOut::new(&mut s)), COBIAERR_NOERROR);
    assert_eq!(s.as_string(), "failed");
    assert_eq!(e.get_scope(&mut CapeStringOut::new(&mut s)), COBIAERR_NOERROR);
    assert_eq!(s.as_string(), "Calculate");
    assert_eq!(e.get_source(&mut CapeStringOut::new(&mut s)), COBIAERR_NOERROR);
    assert_eq!(s.as_string(), "Flash");
    let mut cause = None;
    assert_eq!(e.get_cause(&mut cause), COBIAERR_NOSUCHITEM);
    assert!(cause.is_none());
}

#[test]
fn error_impl_from_code() {
    let described = CapeErrorImpl::new(&COBIAError::Code(COBIAERR_DENIED), "s", "o", Some("Access denied"));
    assert_eq!(described.as_cape_error().get_error_text().unwrap(), "Access denied");
    let bare = CapeErrorImpl::new(&COBIAError::Code(42), "s", "o", None);
    assert_eq!(bare.as_cape_error().get_error_text().unwrap(), "COBIA error code: 42");
}

#[test]
fn error_impl_keeps_cause() {
    let because = simple_error("inner");
    let e = CapeErrorImpl::new(&COBIAError::MessageWithCause("outer".to_string(), because), "Run", "Unit", None);
    let mut cause = None;
    assert_eq!(e.get_cause(&mut cause), COBIAERR_NOERROR);
    assert_eq!(cause.unwrap().get_error_text().unwrap(), "inner");
    let as_error = e.as_cape_error();
    assert_eq!(as_error.to_string(), "in Run of Unit: outer, caused by: in Calculate of Flash: inner");
}

#[test]
fn error_impl_from_cape_open_error() {
    let inner = simple_error("deep");
    let reported = CapeError::new(text("reported"), text("A"), text("B"), Some(inner));
    let e = CapeErrorImpl::new(&COBIAError::CAPEOPEN(reported), "Mine", "Me", None);
    let r = e.as_cape_error();
    assert_eq!(r.get_error_text().unwrap(), "reported");
    assert_eq!(r.get_scope().unwrap(), "Mine");
    assert_eq!(r.get_cause().unwrap().get_error_text().unwrap(), "deep");
}
