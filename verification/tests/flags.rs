use lib::cape_flags::{CapePMCRegistrationFlags, CapePMCCreationFlags};

#[test]
fn registration_flags_values() {
    assert_eq!(CapePMCRegistrationFlags::empty().bits(), 0);
    assert_eq!(CapePMCRegistrationFlags::restricted_threading().bits(), 1);
    assert_eq!(CapePMCRegistrationFlags::all().bits(), 1);
    assert!(CapePMCRegistrationFlags::empty().is_empty());
    assert!(CapePMCRegistrationFlags::restricted_threading().is_all());
}

#[test]
fn registration_flags_from_bits() {
    assert_eq!(CapePMCRegistrationFlags::from_bits(1), Some(CapePMCRegistrationFlags::restricted_threading()));
    assert_eq!(CapePMCRegistrationFlags::from_bits(0), Some(CapePMCRegistrationFlags::empty()));
    assert_eq!(CapePMCRegistrationFlags::from_bits(2), None);
    assert_eq!(CapePMCRegistrationFlags::from_bits_truncate(3).bits(), 1);
    assert_eq!(CapePMCRegistrationFlags::from_bits_retain(3).bits(), 3);
}

#[test]
fn registration_flags_set_operations() {
    let r = CapePMCRegistrationFlags::restricted_threading();
    let e = CapePMCRegistrationFlags::empty();
    assert!(r.contains(e));
    assert!(!e.contains(r));
    assert!(r.intersects(r));
    assert!(!r.intersects(e));
    assert_eq!(e.union(r), r);
    assert_eq!(r.intersection(e), e);
    assert_eq!(r.difference(r), e);
    let mut f = e;
    f.insert(r);
    assert_eq!(f, r);
    f.remove(r);
    assert_eq!(f, e);
}

#[test]
fn creation_flags_values_and_operations() {
    let d = CapePMCCreationFlags::empty();
    let a = CapePMCCreationFlags::allow_restricted_threading();
    assert_eq!(d.bits(), 0);
    assert_eq!(a.bits(), 1);
    assert_eq!(CapePMCCreationFlags::all(), a);
    assert_eq!(CapePMCCreationFlags::from_bits(4), None);
    assert_eq!(CapePMCCreationFlags::from_bits(1), Some(a));
    assert_eq!(CapePMCCreationFlags::from_bits_truncate(-1), a);
    assert!(a.contains(d));
    assert_eq!(d.union(a), a);
    let mut f = a;
    f.remove(a);
    assert!(f.is_empty());
}
