use lib::cape_array::{CapeArrayIn, CapeArrayOut, CapeArrayTarget};
use lib::cape_array_vec::{CapeArrayRealVec, CapeArrayIntegerVec, CapeArrayByteVec, CapeArrayBooleanVec, CapeArrayEnumerationVec};
use lib::cape_array_real::{CapeArrayRealIn, CapeArrayRealOut};
use lib::cape_array_integer::{CapeArrayIntegerIn, CapeArrayIntegerOut};
use lib::cape_array_boolean::{CapeArrayBooleanIn, CapeArrayBooleanOut};
use lib::cape_array_slice::{CapeArraySlice, CapeArrayRealSlice, CapeArrayIntegerSlice};
use lib::cape_array_real_scalar::CapeArrayRealScalar;
use lib::cape_data_traits::{CapeArrayRealProviderIn, CapeArrayRealProviderOut, CapeArrayIntegerProviderIn, CapeArrayIntegerProviderOut, CapeArrayByteProviderIn, CapeArrayByteProviderOut, CapeArrayBooleanProviderIn, CapeArrayBooleanProviderOut, CapeArrayEnumerationProviderIn, CapeArrayEnumerationProviderOut};
use lib::cape_data_from_provider::{CapeArrayRealInFromProvider, CapeArrayRealOutFromProvider, CapeArrayIntegerInFromProvider, CapeArrayEnumerationInFromProvider, CapeArrayEnumerationOutFromProvider};
use lib::cobia_enums::CapePMCServiceType;
use lib::cape_error::COBIAError;
use lib::cape_types::{COBIAERR_INVALIDARGUMENT, CAPE_REAL_NAN};

fn r(x: f64) -> u64 {
    x.to_bits()
}

#[test]
fn real_vec_from_slice_and_access() {
    let arr = CapeArrayRealVec::from_slice(&[r(2.5), r(4.5)]);
    assert_eq!(arr.size(), 2);
    assert!(!arr.is_empty());
    assert_eq!(arr.as_vec(), &vec![r(2.5), r(4.5)]);
    assert_eq!(arr.at(1), r(4.5));
    assert_eq!(arr.as_slice(), &[r(2.5), r(4.5)]);
}

#[test]
fn real_vec_new_is_empty() {
    let arr = CapeArrayRealVec::new();
    assert!(arr.is_empty());
    assert_eq!(arr.size(), 0);
    let d = CapeArrayRealVec::default();
    assert!(d.is_empty());
}

#[test]
fn real_vec_resize_fills_with_nan() {
    let mut arr = CapeArrayRealVec::from_slice(&[r(1.0)]);
    arr.resize(3);
    assert_eq!(arr.size(), 3);
    assert_eq!(arr.at(0), r(1.0));
    assert!(f64::from_bits(arr.at(1)).is_nan());
    assert_eq!(arr.at(2), CAPE_REAL_NAN);
    arr.resize(1);
    assert_eq!(arr.as_vec(), &vec![r(1.0)]);
}

#[test]
fn real_vec_equality() {
    let arr1 = CapeArrayRealVec::from_slice(&[r(2.5), r(4.5)]);
    let arr2 = CapeArrayRealVec::from_slice(&[r(2.5), r(4.5)]);
    let arr3 = CapeArrayRealVec::from_slice(&[r(2.0), r(4.5)]);
    assert!(arr1 == arr2);
    assert!(arr1 != arr3);
    let nan = CapeArrayRealVec::from_slice(&[r(f64::NAN)]);
    assert!(nan != CapeArrayRealVec::from_slice(&[r(f64::NAN)]));
    let zeros = CapeArrayRealVec::from_slice(&[r(0.0)]);
    assert!(zeros == CapeArrayRealVec::from_slice(&[r(-0.0)]));
    assert!(arr1 != CapeArrayRealVec::from_slice(&[r(2.5)]));
}

#[test]
fn real_vec_set_from_provider() {
    let src = CapeArrayRealVec::from_slice(&[r(1.0), r(2.0), r(3.0)]);
    let mut dst = CapeArrayRealVec::new();
    dst.set(&src).unwrap();
    assert!(dst == src);
}

#[test]
fn real_array_in_view() {
    let arr = CapeArrayRealVec::from_vec(vec![r(1.0), r(1.1), r(1.2)]);
    let mut p = CapeArrayRealInFromProvider::from(&arr);
    let a = p.as_cape_array_real_in();
    assert_eq!(a.size(), 3);
    assert_eq!(a.as_vec(), vec![r(1.0), r(1.1), r(1.2)]);
    assert_eq!(a.at(2), r(1.2));
    let mut it = a.iter();
    assert_eq!(it.next(), Some(r(1.0)));
    assert_eq!(it.next(), Some(r(1.1)));
    assert_eq!(it.next(), Some(r(1.2)));
    assert_eq!(it.next(), None);
    let mut it2 = a.into_iter();
    assert_eq!(it2.next(), Some(r(1.0)));
}

#[test]
fn real_array_out_put_array_and_resize() {
    let mut arr = CapeArrayRealVec::new();
    {
        let mut p = CapeArrayRealOutFromProvider::from(&mut arr);
        let mut a = p.as_cape_array_real_out();
        a.put_array(&[r(4.5), r(6.5)]).unwrap();
        assert_eq!(a.size(), 2);
        a.set_at(0, r(1.5));
        a.resize(3).unwrap();
        assert!(f64::from_bits(a.at(2)).is_nan());
    }
    assert_eq!(arr.size(), 3);
    assert_eq!(arr.at(0), r(1.5));
    assert_eq!(arr.at(1), r(6.5));
}

#[test]
fn real_array_out_iterators() {
    let mut arr = CapeArrayRealVec::from_slice(&[r(1.0), r(2.0)]);
    let a = arr.as_cape_array_real_out();
    let mut it = a.iter();
    assert_eq!(it.next(), Some(r(1.0)));
    assert_eq!(it.next(), Some(r(2.0)));
    assert_eq!(it.next(), None);
    let mut it2 = a.into_iter();
    assert_eq!(it2.next(), Some(r(1.0)));
    assert_eq!(it2.next(), Some(r(2.0)));
    assert_eq!(it2.next(), None);
}

#[test]
fn real_array_out_set_from_in() {
    let src = CapeArrayRealVec::from_slice(&[r(7.0), r(8.0)]);
    let mut dst = CapeArrayRealVec::from_slice(&[r(1.0)]);
    {
        let mut o = dst.as_cape_array_real_out();
        let i = src.as_cape_array_real_in();
        o.set(&i).unwrap();
    }
    assert!(dst == src);
}

#[test]
fn real_scalar_is_single_element_array() {
    let s = CapeArrayRealScalar::new();
    assert!(f64::from_bits(s.value()).is_nan());
    let mut s = CapeArrayRealScalar::from(r(3.5));
    assert_eq!(s.value(), r(3.5));
    s.set(r(4.5));
    assert_eq!(s.value(), r(4.5));
    *s.as_mut() = r(5.5);
    assert_eq!(s.value(), r(5.5));
    let i = s.as_cape_array_real_in();
    assert_eq!(i.as_vec(), vec![r(5.5)]);
    let c = s.clone();
    assert_eq!(c.value(), r(5.5));
}

#[test]
fn real_scalar_refuses_other_sizes() {
    let mut s = CapeArrayRealScalar::from(r(1.0));
    {
        let mut o = s.as_cape_array_real_out();
        assert_eq!(o.size(), 1);
        match o.resize(2) {
            Err(COBIAError::Code(c)) => assert_eq!(c, COBIAERR_INVALIDARGUMENT),
            _ => panic!("resize to two elements must fail"),
        }
        assert!(o.resize(1).is_ok());
        match o.put_array(&[r(1.0), r(2.0)]) {
            Err(COBIAError::Code(c)) => assert_eq!(c, COBIAERR_INVALIDARGUMENT),
            _ => panic!("two elements must not fit"),
        }
        o.put_array(&[r(9.0)]).unwrap();
    }
    assert_eq!(s.value(), r(9.0));
}

#[test]
fn real_slice_passes_elements() {
    let data = [r(1.0), r(2.0)];
    let s = CapeArrayRealSlice::new(&data);
    assert_eq!(s.size(), 2);
    assert_eq!(s.as_slice(), &data);
    let i = s.as_cape_array_real_in();
    assert_eq!(i.as_vec(), vec![r(1.0), r(2.0)]);
    let v = CapeArrayRealVec::from_slice(&data);
    assert!(v == s);
}

#[test]
fn integer_vec_and_views() {
    let mut arr = CapeArrayIntegerVec::from_slice(&[1, 2, 3]);
    assert!(arr == CapeArrayIntegerVec::from_slice(&[1, 2, 3]));
    assert!(arr != CapeArrayIntegerVec::from_slice(&[1, 2]));
    arr.resize(5);
    assert_eq!(arr.as_vec(), &vec![1, 2, 3, 0, 0]);
    {
        let mut o = arr.as_cape_array_integer_out();
        o.put_array(&[9, 8]).unwrap();
    }
    assert_eq!(arr.as_vec(), &vec![9, 8]);
    let ints = [4, 5, 6];
    let sl = CapeArrayIntegerSlice::new(&ints);
    let mut p = CapeArrayIntegerInFromProvider::from(&sl);
    let i = p.as_cape_array_integer_in();
    assert_eq!(i.as_slice(), &[4, 5, 6]);
    arr.set(&sl).unwrap();
    assert_eq!(arr.as_vec(), &vec![4, 5, 6]);
    arr.set_at(0, 40);
    assert_eq!(arr.at(0), 40);
    arr.as_mut_vec().push(7);
    assert_eq!(arr.size(), 4);
}

#[test]
fn byte_vec() {
    let mut arr = CapeArrayByteVec::from_slice(&[1u8, 2u8]);
    arr.resize(3);
    assert_eq!(arr.as_vec(), &vec![1u8, 2u8, 0u8]);
    let i = arr.as_cape_array_byte_in();
    assert_eq!(i.size(), 3);
    {
        let mut o = arr.as_cape_array_byte_out();
        o.resize(1).unwrap();
    }
    assert!(arr == CapeArrayByteVec::from_slice(&[1u8]));
}

#[test]
fn boolean_vec_and_bool_views() {
    let arr = CapeArrayBooleanVec::from_bool_slice(&[true, false, true]);
    assert_eq!(arr.as_vec(), &vec![1u32, 0u32, 1u32]);
    let i = arr.as_cape_array_boolean_in();
    assert_eq!(i.as_bool_vec(), vec![true, false, true]);
    let mut raw = CapeArrayBooleanVec::from_slice(&[0u32, 7u32]);
    assert_eq!(raw.as_cape_array_boolean_in().as_bool_vec(), vec![false, true]);
    {
        let o = raw.as_cape_array_boolean_out();
        assert_eq!(o.as_bool_vec(), vec![false, true]);
    }
    raw.resize(3);
    assert_eq!(raw.as_vec(), &vec![0u32, 7u32, 0u32]);
}

#[test]
fn enumeration_vec_and_views() {
    let arr = CapeArrayEnumerationVec::from_slice(&[CapePMCServiceType::Inproc64, CapePMCServiceType::COM64]);
    let mut p = CapeArrayEnumerationInFromProvider::from(&arr);
    let a = p.as_cape_array_enumeration_in();
    assert_eq!(a.as_vec(), vec![CapePMCServiceType::Inproc64, CapePMCServiceType::COM64]);
    assert_eq!(a.size(), 2);
    let mut it = a.iter();
    assert_eq!(it.next().unwrap(), CapePMCServiceType::Inproc64);
    assert_eq!(it.next().unwrap(), CapePMCServiceType::COM64);
    assert!(!it.next().is_some());
    let e = CapeArrayEnumerationVec::<CapePMCServiceType>::new();
    assert!(e.as_cape_array_enumeration_in().is_empty());
}

#[test]
fn enumeration_vec_resize_and_out() {
    let mut arr = CapeArrayEnumerationVec::from_slice(&[CapePMCServiceType::Inproc64]);
    arr.resize(2, CapePMCServiceType::Local);
    assert_eq!(arr.as_vec(), &vec![CapePMCServiceType::Inproc64, CapePMCServiceType::Local]);
    {
        let mut p = CapeArrayEnumerationOutFromProvider::from(&mut arr);
        let mut o = p.as_cape_array_enumeration_out();
        o.put_array(&[CapePMCServiceType::COM32]).unwrap();
    }
    assert_eq!(arr.as_vec(), &vec![CapePMCServiceType::COM32]);
}

#[test]
fn generic_views_over_storage() {
    let data = [1i32, 2i32];
    let i: CapeArrayIntegerIn = CapeArrayIn::new(&data);
    assert_eq!(i.as_vec(), vec![1, 2]);
    let c = i.clone();
    assert_eq!(c.size(), 2);
    let mut v = vec![5i32];
    {
        let mut o: CapeArrayIntegerOut = CapeArrayOut::new(CapeArrayTarget::Growable(&mut v, 0));
        o.resize(3).unwrap();
        o.set_at(2, 9);
    }
    assert_eq!(v, vec![5, 0, 9]);
    let mut x = 3u32;
    {
        let mut o: CapeArrayBooleanOut = CapeArrayOut::new(CapeArrayTarget::Single(&mut x));
        o.set_at(0, 1);
        assert!(o.resize(0).is_err());
    }
    assert_eq!(x, 1);
    let b: CapeArrayBooleanIn = CapeArrayIn::new(&[1u32]);
    assert_eq!(b.at(0), 1);
    let generic = CapeArraySlice::new(&[1u8, 2u8]);
    assert_eq!(generic.size(), 2);
    let _unused: Option<CapeArrayRealIn> = None;
    let _unused_out: Option<CapeArrayRealOut> = None;
}

#[test]
fn real_scalar_through_provider_keeps_value_on_refused_resize() {
    let mut s = CapeArrayRealScalar::from(r(2.0));
    {
        let mut p = CapeArrayRealOutFromProvider::from(&mut s);
        let mut o = p.as_cape_array_real_out();
        match o.resize(2) {
            Err(COBIAError::Code(c)) => assert_eq!(c, COBIAERR_INVALIDARGUMENT),
            _ => panic!("a scalar cannot hold two elements"),
        }
    }
    assert_eq!(s.value(), r(2.0));
}
