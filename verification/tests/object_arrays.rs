use lib::cape_array_object_vec::{CapeArrayStringVec, CapeArrayValueVec};
use lib::cape_array_string::{CapeArrayStringIn, CapeArrayStringOut};
use lib::cape_array_value::{CapeArrayValueIn, CapeArrayValueOut};
use lib::cape_string_impl::CapeStringImpl;
use lib::cape_value_impl::{CapeValueImpl, CapeValueContent};
use lib::cobia_enums::CapeValueType;
use lib::cape_error::COBIAError;
use lib::cape_types::COBIAERR_NOSUCHITEM;
use lib::cape_data_traits::{CapeArrayStringProviderIn, CapeArrayStringProviderOut, CapeArrayValueProviderIn, CapeArrayValueProviderOut};
use lib::cape_data_from_provider::{CapeArrayStringInFromProvider, CapeArrayStringOutFromProvider, CapeArrayValueInFromProvider, CapeArrayValueOutFromProvider};

fn is_no_such_item<T>(r: &Result<T, COBIAError>) -> bool {
    matches!(r, Err(COBIAError::Code(c)) if *c == COBIAERR_NOSUCHITEM)
}

#[test]
fn string_vec_from_slice() {
    let arr = CapeArrayStringVec::from_slice(&["idealGasEnthalpy", "idealGasEntropy"]);
    assert_eq!(arr.size(), 2);
    assert!(!arr.is_empty());
    assert_eq!(arr.as_string_vec(), vec!["idealGasEnthalpy".to_string(), "idealGasEntropy".to_string()]);
    assert_eq!(arr.at(1).as_string(), "idealGasEntropy");
    assert_eq!(arr.as_vec().len(), 2);
    assert!(CapeArrayStringVec::new().is_empty());
}

#[test]
fn string_vec_resize() {
    let mut arr = CapeArrayStringVec::from_slice(&["a", "b", "c"]);
    arr.resize(2);
    assert_eq!(arr.as_string_vec(), vec!["a".to_string(), "b".to_string()]);
    arr.resize(4);
    assert_eq!(arr.as_string_vec(), vec!["a".to_string(), "b".to_string(), String::new(), String::new()]);
}

#[test]
fn string_vec_equality_and_set() {
    let a = CapeArrayStringVec::from_slice(&["x", "y"]);
    let b = CapeArrayStringVec::from_slice(&["x", "y"]);
    let c = CapeArrayStringVec::from_slice(&["x", "Y"]);
    assert!(a == b);
    assert!(a != c);
    assert!(a != CapeArrayStringVec::from_slice(&["x"]));
    let mut d = CapeArrayStringVec::new();
    d.set(&c).unwrap();
    assert!(d == c);
    let e = d.clone();
    assert!(e == c);
}

#[test]
fn string_vec_element_edit_and_iter() {
    let mut arr = CapeArrayStringVec::from_slice(&["one", "two"]);
    arr.at_mut(0).set_string("uno");
    let mut it = arr.iter();
    assert_eq!(it.next().unwrap().as_string(), "uno");
    assert_eq!(it.next().unwrap().as_string(), "two");
    assert!(it.next().is_none());
}

#[test]
fn string_array_in_view() {
    let arr = CapeArrayStringVec::from_slice(&["idealGasEnthalpy", "idealGasEntropy"]);
    let mut p = CapeArrayStringInFromProvider::from(&arr);
    let a = p.as_cape_array_string_in();
    assert_eq!(a.size(), 2);
    assert_eq!(a.as_string_vec(), vec!["idealGasEnthalpy".to_string(), "idealGasEntropy".to_string()]);
    assert_eq!(a.at(0).unwrap().as_string(), "idealGasEnthalpy");
    assert!(is_no_such_item(&a.at(2)));
    let mut it = a.iter();
    assert_eq!(it.next().unwrap().as_string(), "idealGasEnthalpy");
    assert_eq!(it.next().unwrap().as_string(), "idealGasEntropy");
    assert!(it.next().is_none());
}

#[test]
fn string_array_out_edits() {
    let mut arr = CapeArrayStringVec::new();
    {
        let mut p = CapeArrayStringOutFromProvider::from(&mut arr);
        let mut a = p.as_cape_array_string_out();
        a.put_array(&["idealGasEnthalpy", "idealGasEntropy"]).unwrap();
        assert_eq!(a.size(), 2);
        a.set_string(1, "density").unwrap();
        assert!(is_no_such_item(&a.set_string(2, "x")));
        a.resize(3).unwrap();
        a.at(2).unwrap().set_string("viscosity").unwrap();
        assert!(is_no_such_item(&a.at(3)));
        assert_eq!(a.as_string_vec(), vec!["idealGasEnthalpy".to_string(), "density".to_string(), "viscosity".to_string()]);
    }
    assert_eq!(arr.as_string_vec(), vec!["idealGasEnthalpy".to_string(), "density".to_string(), "viscosity".to_string()]);
}

#[test]
fn string_array_out_iter_writes_through() {
    let mut arr = CapeArrayStringVec::from_slice(&["a", "b"]);
    {
        let mut o = arr.as_cape_array_string_out();
        let mut it = o.iter();
        while let Some(mut s) = it.next() {
            s.set_string("z").unwrap();
        }
    }
    assert_eq!(arr.as_string_vec(), vec!["z".to_string(), "z".to_string()]);
}

#[test]
fn string_array_out_set_from_in() {
    let src = CapeArrayStringVec::from_slice(&["p", "q"]);
    let mut dst = CapeArrayStringVec::from_slice(&["old"]);
    {
        let mut o = dst.as_cape_array_string_out();
        o.set(&src.as_cape_array_string_in()).unwrap();
    }
    assert!(dst == src);
}

#[test]
fn string_array_views_over_storage() {
    let data = vec![CapeStringImpl::from_string("k")];
    let i = CapeArrayStringIn::new(&data);
    assert_eq!(i.as_string_vec(), vec!["k".to_string()]);
    let mut v = vec![CapeStringImpl::new()];
    {
        let mut o = CapeArrayStringOut::new(&mut v);
        o.set_string(0, "w").unwrap();
        assert!(!o.is_empty());
    }
    assert_eq!(v[0].as_string(), "w");
}

#[test]
fn value_vec_from_slice() {
    let arr = CapeArrayValueVec::from_slice(&[CapeValueContent::Integer(2), CapeValueContent::String("x".to_string()), CapeValueContent::Empty]);
    assert_eq!(arr.size(), 3);
    assert_eq!(arr.as_value_vec(), vec![CapeValueContent::Integer(2), CapeValueContent::String("x".to_string()), CapeValueContent::Empty]);
    assert_eq!(arr.at(0).get_value_type(), CapeValueType::Integer);
}

#[test]
fn value_vec_resize_equality_set() {
    let mut arr = CapeArrayValueVec::from_slice(&[CapeValueContent::Boolean(true)]);
    arr.resize(2);
    assert_eq!(arr.as_value_vec(), vec![CapeValueContent::Boolean(true), CapeValueContent::Empty]);
    let same = CapeArrayValueVec::from_slice(&[CapeValueContent::Boolean(true), CapeValueContent::Empty]);
    assert!(arr == same);
    let other = CapeArrayValueVec::from_slice(&[CapeValueContent::Boolean(false), CapeValueContent::Empty]);
    assert!(arr != other);
    let mut d = CapeArrayValueVec::new();
    d.set(&other).unwrap();
    assert!(d == other);
    assert!(d.clone() == other);
    let nan = CapeArrayValueVec::from_slice(&[CapeValueContent::Real(f64::NAN.to_bits())]);
    assert!(nan != CapeArrayValueVec::from_slice(&[CapeValueContent::Real(f64::NAN.to_bits())]));
}

#[test]
fn value_array_in_view() {
    let arr = CapeArrayValueVec::from_slice(&[CapeValueContent::Real(1.5f64.to_bits()), CapeValueContent::Integer(4)]);
    let mut p = CapeArrayValueInFromProvider::from(&arr);
    let a = p.as_cape_array_value_in();
    assert_eq!(a.size(), 2);
    assert_eq!(a.at(1).unwrap().get_integer().unwrap(), 4);
    assert!(is_no_such_item(&a.at(2)));
    assert_eq!(a.as_value_vec().unwrap(), vec![CapeValueContent::Real(1.5f64.to_bits()), CapeValueContent::Integer(4)]);
    let mut it = a.iter();
    assert_eq!(it.next().unwrap().get_type().unwrap(), CapeValueType::Real);
    assert_eq!(it.next().unwrap().get_type().unwrap(), CapeValueType::Integer);
    assert!(it.next().is_none());
}

#[test]
fn value_array_out_edits() {
    let mut arr = CapeArrayValueVec::new();
    {
        let mut p = CapeArrayValueOutFromProvider::from(&mut arr);
        let mut a = p.as_cape_array_value_out();
        a.put_array(&[CapeValueContent::Integer(1), CapeValueContent::Empty]).unwrap();
        a.put_value(1, CapeValueContent::Boolean(true)).unwrap();
        assert!(is_no_such_item(&a.put_value(5, CapeValueContent::Empty)));
        a.resize(3).unwrap();
        a.at(2).unwrap().set_string("s").unwrap();
        assert!(is_no_such_item(&a.at(3)));
        assert_eq!(a.as_value_vec().unwrap(), vec![CapeValueContent::Integer(1), CapeValueContent::Boolean(true), CapeValueContent::String("s".to_string())]);
    }
    assert_eq!(arr.size(), 3);
}

#[test]
fn value_array_out_iter_and_set() {
    let src = CapeArrayValueVec::from_slice(&[CapeValueContent::Integer(9)]);
    let mut dst = CapeArrayValueVec::from_slice(&[CapeValueContent::Empty, CapeValueContent::Empty]);
    {
        let mut o = dst.as_cape_array_value_out();
        {
            let mut it = o.iter();
            while let Some(mut v) = it.next() {
                v.set_integer(3).unwrap();
            }
        }
        assert_eq!(o.as_value_vec().unwrap(), vec![CapeValueContent::Integer(3), CapeValueContent::Integer(3)]);
        o.set(&src.as_cape_array_value_in()).unwrap();
    }
    assert!(dst == src);
    let data = vec![CapeValueImpl::from_integer(1)];
    let i = CapeArrayValueIn::new(&data);
    assert!(!i.is_empty());
    let mut v = vec![CapeValueImpl::new()];
    {
        let mut o = CapeArrayValueOut::new(&mut v);
        o.put_value(0, CapeValueContent::Integer(8)).unwrap();
    }
    assert_eq!(v[0].value(), CapeValueContent::Integer(8));
}
