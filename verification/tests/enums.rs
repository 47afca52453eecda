use lib::cobia_enums::{CapeRegistryValueType, CapeValueType, CapePMCServiceType, inproc_service_type};
use lib::cape_uuid::CapeUUID;

#[test]
fn value_type_from_raw() {
    assert_eq!(CapeValueType::from(0), Some(CapeValueType::String));
    assert_eq!(CapeValueType::from(3), Some(CapeValueType::Real));
    assert_eq!(CapeValueType::from(4), Some(CapeValueType::Empty));
    assert_eq!(CapeValueType::from(5), None);
    assert_eq!(CapeValueType::from(-1), None);
}

#[test]
fn value_type_names() {
    assert_eq!(CapeValueType::String.as_string(), "String");
    assert_eq!(CapeValueType::Boolean.as_string(), "Boolean");
    assert_eq!(CapeRegistryValueType::UUID.as_string(), "UUID");
    assert_eq!(CapePMCServiceType::COM64.as_string(), "COM64");
}

#[test]
fn value_type_iteration_in_raw_order() {
    let mut it = CapeValueType::iter();
    let mut all = Vec::new();
    while let Some(t) = it.next() {
        all.push(t);
    }
    assert_eq!(all, vec![CapeValueType::String, CapeValueType::Integer, CapeValueType::Boolean, CapeValueType::Real, CapeValueType::Empty]);
    assert_eq!(it.next(), None);
}

#[test]
fn registry_value_types() {
    assert_eq!(CapeRegistryValueType::from(1), Some(CapeRegistryValueType::Integer));
    assert_eq!(CapeRegistryValueType::from(4), None);
    let mut it = CapeRegistryValueType::iter();
    let mut n = 0;
    while let Some(_) = it.next() {
        n += 1;
    }
    assert_eq!(n, 4);
}

#[test]
fn service_types() {
    assert_eq!(CapePMCServiceType::from(0), Some(CapePMCServiceType::Inproc32));
    assert_eq!(CapePMCServiceType::from(5), Some(CapePMCServiceType::Local));
    assert_eq!(CapePMCServiceType::from(6), None);
    let mut it = CapePMCServiceType::iter();
    assert_eq!(it.next(), Some(CapePMCServiceType::Inproc32));
    assert_eq!(it.next(), Some(CapePMCServiceType::Inproc64));
    let expected = if usize::BITS == 64 { CapePMCServiceType::Inproc64 } else { CapePMCServiceType::Inproc32 };
    assert_eq!(inproc_service_type(), expected);
}

#[test]
fn uuid_null_and_equality() {
    let n = CapeUUID::null();
    assert!(n.is_null());
    let u = CapeUUID::from_slice(&[0x53, 0xa7, 0x4e, 0xe9, 0xad, 0xfa, 0x49, 0x16, 0xbe, 0x95, 0x04, 0xe9, 0x28, 0x3c, 0xc2, 0x2e]);
    assert!(!u.is_null());
    assert!(u == u.clone());
    assert!(u != n);
    assert_eq!(u.data[0], 0x53);
}
