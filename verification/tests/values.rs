use lib::cape_value_impl::{CapeValueImpl, CapeValueContent};
use lib::cape_value::{CapeValueIn, CapeValueOut};
use lib::cobia_enums::CapeValueType;
use lib::cape_error::COBIAError;
use lib::cape_types::COBIAERR_NOSUCHITEM;
use lib::cape_data_traits::{CapeValueProviderIn, CapeValueProviderOut};
use lib::cape_data_from_provider::{CapeValueInFromProvider, CapeValueOutFromProvider};

fn no_such_item<T: std::fmt::Debug>(r: Result<T, COBIAError>) -> bool {
    matches!(r, Err(COBIAError::Code(c)) if c == COBIAERR_NOSUCHITEM)
}

#[test]
fn value_impl_new_is_empty() {
    let v = CapeValueImpl::new();
    assert_eq!(v.get_value_type(), CapeValueType::Empty);
    assert_eq!(v.value(), CapeValueContent::Empty);
}

#[test]
fn value_impl_constructors() {
    assert_eq!(CapeValueImpl::from_integer(2).value(), CapeValueContent::Integer(2));
    assert_eq!(CapeValueImpl::from_boolean(true).value(), CapeValueContent::Boolean(true));
    assert_eq!(CapeValueImpl::from_real(2.5f64.to_bits()).value(), CapeValueContent::Real(2.5f64.to_bits()));
    assert_eq!(CapeValueImpl::from_str("1333-74-0").value(), CapeValueContent::String("1333-74-0".to_string()));
    assert_eq!(CapeValueImpl::from_string("H2".to_string()).get_value_type(), CapeValueType::String);
}

#[test]
fn value_impl_setters_replace_content() {
    let mut v = CapeValueImpl::new();
    v.set_integer(7);
    assert_eq!(v.value(), CapeValueContent::Integer(7));
    v.set_str("abc");
    assert_eq!(v.get_value_type(), CapeValueType::String);
    v.set_boolean(false);
    assert_eq!(v.value(), CapeValueContent::Boolean(false));
    v.set_real(1.0f64.to_bits());
    assert_eq!(v.get_value_type(), CapeValueType::Real);
    v.reset();
    assert_eq!(v.value(), CapeValueContent::Empty);
    v.set_content(&CapeValueContent::Integer(3));
    assert_eq!(v.value(), CapeValueContent::Integer(3));
}

#[test]
fn value_in_getters() {
    let v = CapeValueImpl::from_integer(2);
    let i = v.as_cape_value_in();
    assert_eq!(i.get_type().unwrap(), CapeValueType::Integer);
    assert_eq!(i.get_integer().unwrap(), 2);
    assert!(no_such_item(i.get_string()));
    assert!(no_such_item(i.get_boolean()));
    assert!(no_such_item(i.get_real()));
}

#[test]
fn value_in_string() {
    let v = CapeValueImpl::from_str("1333-74-0");
    let mut p = CapeValueInFromProvider::from(&v);
    let i = p.as_cape_value_in();
    assert_eq!(i.get_string().unwrap(), "1333-74-0");
    assert!(no_such_item(i.get_integer()));
}

#[test]
fn value_out_setters_write_through() {
    let mut v = CapeValueImpl::new();
    {
        let mut o = CapeValueOut::new(&mut v);
        o.set_real(2.5f64.to_bits()).unwrap();
        assert_eq!(f64::from_bits(o.get_real().unwrap()), 2.5);
    }
    assert_eq!(v.value(), CapeValueContent::Real(2.5f64.to_bits()));
    {
        let mut p = CapeValueOutFromProvider::from(&mut v);
        let mut o = p.as_cape_value_out();
        o.set_string("x").unwrap();
    }
    assert_eq!(v.value(), CapeValueContent::String("x".to_string()));
    {
        let mut o = v.as_cape_value_out();
        o.set_boolean(true).unwrap();
        assert_eq!(o.get_boolean().unwrap(), true);
        o.set_integer(-4).unwrap();
        assert_eq!(o.get_integer().unwrap(), -4);
        o.set_empty().unwrap();
        assert_eq!(o.get_type().unwrap(), CapeValueType::Empty);
    }
    assert_eq!(v.value(), CapeValueContent::Empty);
}

#[test]
fn value_out_set_copies_other_value() {
    let src = CapeValueImpl::from_integer(11);
    let mut dst = CapeValueImpl::from_str("old");
    {
        let mut o = dst.as_cape_value_out();
        o.set(&src).unwrap();
    }
    assert_eq!(dst.value(), CapeValueContent::Integer(11));
    let mut d2 = CapeValueImpl::new();
    d2.set(&CapeValueIn::new(&src)).unwrap();
    assert_eq!(d2.value(), CapeValueContent::Integer(11));
}

#[test]
fn value_equality() {
    let val1 = CapeValueImpl::from_integer(2);
    let val2 = CapeValueImpl::from_integer(2);
    let val3 = CapeValueImpl::from_boolean(true);
    assert!(val1 == val2);
    assert!(val1 != val3);
    assert!(CapeValueImpl::from_str("a") == CapeValueImpl::from_str("a"));
    assert!(CapeValueImpl::from_str("a") != CapeValueImpl::from_str("A"));
    assert!(CapeValueImpl::new() == CapeValueImpl::new());
}

#[test]
fn value_equality_of_reals_follows_ieee() {
    let nan = CapeValueImpl::from_real(f64::NAN.to_bits());
    assert!(nan != CapeValueImpl::from_real(f64::NAN.to_bits()));
    let pz = CapeValueImpl::from_real(0.0f64.to_bits());
    let nz = CapeValueImpl::from_real((-0.0f64).to_bits());
    assert!(pz == nz);
    assert!(CapeValueImpl::from_real(1.5f64.to_bits()) == CapeValueImpl::from_real(1.5f64.to_bits()));
    assert!(CapeValueImpl::from_real(1.5f64.to_bits()) != CapeValueImpl::from_real(2.5f64.to_bits()));
    assert!(CapeValueContent::Real(f64::NAN.to_bits()) != CapeValueContent::Real(f64::NAN.to_bits()));
    assert!(CapeValueContent::Real(0.0f64.to_bits()) == CapeValueContent::Real((-0.0f64).to_bits()));
}

#[test]
fn value_clone_and_default() {
    let v = CapeValueImpl::from_str("abc");
    let c = v.clone();
    assert!(c == v);
    let d = CapeValueImpl::default();
    assert_eq!(d.get_value_type(), CapeValueType::Empty);
    let content = CapeValueContent::String("q".to_string());
    assert_eq!(content.clone(), content);
}

#[test]
fn value_ref_mut_edits_in_place() {
    let mut v = CapeValueImpl::new();
    *v.value_ref_mut() = CapeValueContent::Integer(5);
    assert_eq!(*v.value_ref(), CapeValueContent::Integer(5));
}

#[test]
fn value_in_display_quotes_strings() {
    let v = CapeValueImpl::from_str("1333-74-0");
    assert_eq!(v.as_cape_value_in().to_string("unused"), "\"1333-74-0\"");
}

#[test]
fn value_in_display_each_type() {
    assert_eq!(CapeValueImpl::from_integer(4).as_cape_value_in().to_string(""), "4");
    assert_eq!(CapeValueImpl::from_integer(-12).as_cape_value_in().to_string(""), "-12");
    assert_eq!(CapeValueImpl::from_boolean(true).as_cape_value_in().to_string(""), "true");
    assert_eq!(CapeValueImpl::from_boolean(false).as_cape_value_in().to_string(""), "false");
    assert_eq!(CapeValueImpl::new().as_cape_value_in().to_string(""), "<empty>");
    let real = CapeValueImpl::from_real(2.5f64.to_bits());
    assert_eq!(real.as_cape_value_in().to_string(&format!("{}", 2.5f64)), "2.5");
}

#[test]
fn value_out_display_follows_writes() {
    let mut v = CapeValueImpl::new();
    let mut out = CapeValueOut::new(&mut v);
    assert_eq!(out.to_string(""), "<empty>");
    out.set_string("H2O").unwrap();
    assert_eq!(out.to_string(""), "\"H2O\"");
    out.set_integer(7).unwrap();
    assert_eq!(out.to_string(""), "7");
}

#[test]
fn value_array_display() {
    let data = vec![
        CapeValueImpl::from_integer(4),
        CapeValueImpl::from_boolean(true),
        CapeValueImpl::new(),
        CapeValueImpl::from_str("H2O"),
    ];
    let a = lib::cape_array_value::CapeArrayValueIn::new(&data);
    assert_eq!(a.to_string(&[]), "[4, true, <empty>, \"H2O\"]");
    let empty: Vec<CapeValueImpl> = Vec::new();
    assert_eq!(lib::cape_array_value::CapeArrayValueIn::new(&empty).to_string(&[]), "[]");
}

#[test]
fn value_array_display_takes_real_texts_by_position() {
    let mut data = vec![CapeValueImpl::from_real(1.5f64.to_bits()), CapeValueImpl::from_integer(2)];
    let out = lib::cape_array_value::CapeArrayValueOut::new(&mut data);
    assert_eq!(out.to_string(&["1.5"]), "[1.5, 2]");
    assert_eq!(lib::cape_array_value::display_values(&data, &[]), "[, 2]");
}
