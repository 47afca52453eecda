use std::hash::{Hash, Hasher};
use lib::cape_string_impl::CapeStringImpl;
use lib::cape_string_const::{CapeStringConstNoCase, CapeStringHashKey};
use lib::cape_string::{CapeStringIn, CapeStringOut};
use lib::cape_data_traits::{CapeStringConstProvider, CapeStringProviderIn, CapeStringProviderOut};
use lib::cape_data_from_provider::{CapeStringInFromProvider, CapeStringOutFromProvider};

#[test]
fn string_impl_new_is_empty() {
    let s = CapeStringImpl::new();
    assert_eq!(s.as_string(), "");
    assert!(s.is_empty());
}

#[test]
fn string_impl_from_string_round_trip() {
    let s = CapeStringImpl::from_string("idealGasEnthalpy");
    assert_eq!(s.as_string(), "idealGasEnthalpy");
    assert!(!s.is_empty());
}

#[test]
fn string_impl_as_slice_is_null_terminated() {
    let s = CapeStringImpl::from_string("abc");
    assert_eq!(s.as_slice(), &['a', 'b', 'c', '\0']);
    let (data, len) = s.as_capechar_const_with_length();
    assert_eq!(len, 3);
    assert_eq!(data[0], 'a');
    assert_eq!(data[3], '\0');
    let (_, len) = CapeStringImpl::from_string("idealGasEnthalpy").as_capechar_const_with_length();
    assert_eq!(len, 16);
}

#[test]
fn string_impl_set_string() {
    let mut s = CapeStringImpl::new();
    s.set_string("idealGasEnthalpy");
    assert_eq!(s.as_string(), "idealGasEnthalpy");
    s.set_string("");
    assert!(s.is_empty());
}

#[test]
fn string_impl_set_from_provider() {
    let mut s = CapeStringImpl::new();
    let other = CapeStringImpl::from_string("idealGasEnthalpy");
    s.set(&other);
    assert_eq!(s.as_string(), "idealGasEnthalpy");
}

#[test]
fn string_impl_case_mapping() {
    let s = CapeStringImpl::from_string("idealGasEnthalpy");
    assert_eq!(s.to_lowercase(), CapeStringImpl::from_string("idealgasenthalpy"));
    assert_eq!(s.to_uppercase(), CapeStringImpl::from_string("IDEALGASENTHALPY"));
}

#[test]
fn string_impl_eq_ignore_case() {
    let s1 = CapeStringImpl::from_string("idealGasEnthalpy");
    let s2 = CapeStringImpl::from_string("IDEALGASENTHALPY");
    assert_eq!(s1.eq_ignore_case(&s2), true);
    let s3 = CapeStringImpl::from_string("idealGasEntropy");
    assert_eq!(s1.eq_ignore_case(&s3), false);
}

#[test]
fn string_impl_eq_case_sensitive() {
    let s1 = CapeStringImpl::from_string("idealGasEnthalpy");
    let s2 = CapeStringImpl::from_string("IdealGasEnthalpy");
    let s3 = CapeStringImpl::from_string("idealGasEnthalpy");
    assert_eq!(s1.eq(&s2), false);
    assert_eq!(s1.eq(&s3), true);
    assert_eq!(s1 == s3, true);
    assert_eq!(s1 == s2, false);
}

#[test]
fn string_impl_clone_keeps_characters() {
    let s = CapeStringImpl::from_string("enthalpy");
    let c = s.clone();
    assert_eq!(c.as_string(), "enthalpy");
    assert!(c == s);
}

#[test]
fn string_const_no_case_stores_lower_case() {
    let s = CapeStringConstNoCase::from_string("idealGasEnthalpy");
    assert_eq!(s.as_string(), "idealgasenthalpy");
    let (_, len) = s.as_capechar_const_with_length();
    assert_eq!(len, 16);
}

#[test]
fn string_const_no_case_compares_ignoring_case() {
    let s = CapeStringConstNoCase::from_string("idealGasEnthalpy");
    let s2 = CapeStringImpl::from_string("IDEALGASENTHALPY");
    assert!(s == s2);
    let s3 = CapeStringImpl::from_string("idealGasEntropy");
    assert!(!(s == s3));
    let s4 = CapeStringConstNoCase::from_string("IdealGasEnthalpy");
    assert!(s == s4);
}

#[test]
fn string_const_no_case_from_option() {
    let s = CapeStringConstNoCase::from(Some("ABC"));
    assert_eq!(s.as_string(), "abc");
    let e = CapeStringConstNoCase::from(None);
    assert_eq!(e.as_string(), "");
}

#[test]
fn string_const_no_case_provides_input_string() {
    let s = CapeStringConstNoCase::from_string("Enthalpy");
    let i = s.as_cape_string_in();
    assert_eq!(i.as_string(), "enthalpy");
    let d = s.clone();
    assert_eq!(d.as_string(), "enthalpy");
}

#[test]
fn hash_key_owned_and_borrowed_compare_ignoring_case() {
    let owned = CapeStringHashKey::from_string("idealGasEnthalpy");
    let s = CapeStringImpl::from_string("IdealGasEnthalpy");
    let borrowed = CapeStringHashKey::from_string_constant(&s);
    assert!(owned == borrowed);
    assert!(borrowed == owned);
    let other = CapeStringImpl::from_string("entropy");
    let borrowed_other = CapeStringHashKey::from_string_constant(&other);
    assert!(!(owned == borrowed_other));
    assert_eq!(owned.as_string(), "idealgasenthalpy");
}

#[test]
fn hash_key_borrowed_to_borrowed() {
    let a = CapeStringImpl::from_string("ABC");
    let b = CapeStringImpl::from_string("abc");
    let ka = CapeStringHashKey::from_string_constant(&a);
    let kb = CapeStringHashKey::from_string_constant(&b);
    assert!(ka == kb);
    let kc = CapeStringHashKey::from_cape_char_const(&['a', 'B', 'c']);
    assert!(kc == ka);
}

#[test]
fn string_in_views_provider() {
    let s = CapeStringImpl::from_string("idealGasEnthalpy");
    let mut p = CapeStringInFromProvider::from(&s);
    let i = p.as_cape_string_in();
    assert_eq!(i.as_string(), "idealGasEnthalpy");
    let s2 = CapeStringImpl::from_string("IDEALGASENTHALPY");
    assert_eq!(i.eq_ignore_case(&s2), true);
    let s3 = CapeStringImpl::from_string("idealGasEnthalpy");
    assert_eq!(i.eq(&s2), false);
    assert_eq!(i.eq(&s3), true);
}

#[test]
fn string_in_empty() {
    let s = CapeStringImpl::new();
    let i = CapeStringIn::new(&s);
    assert_eq!(i.is_empty(), true);
    assert_eq!(i.as_string(), "");
}

#[test]
fn string_out_writes_through_to_provider() {
    let mut s = CapeStringImpl::new();
    {
        let mut p = CapeStringOutFromProvider::from(&mut s);
        let mut o = p.as_cape_string_out();
        o.set_string("idealGasEnthalpy").unwrap();
        assert_eq!(o.as_string(), "idealGasEnthalpy");
    }
    assert_eq!(s.as_string(), "idealGasEnthalpy");
}

#[test]
fn string_out_set_from_other_string() {
    let mut s = CapeStringImpl::from_string("old");
    let src = CapeStringImpl::from_string("new value");
    {
        let mut o = CapeStringOut::new(&mut s);
        o.set(&src).unwrap();
        assert!(o.eq(&src));
        assert!(o == src);
        assert!(!o.is_empty());
        let upper = CapeStringImpl::from_string("NEW VALUE");
        assert!(o.eq_ignore_case(&upper));
    }
    assert_eq!(s.as_string(), "new value");
}

#[test]
fn string_out_provider_reborrow() {
    let mut s = CapeStringImpl::from_string("x");
    {
        let mut o = s.as_cape_string_out();
        let mut inner = o.as_cape_string_out();
        inner.set_string("y").unwrap();
    }
    assert_eq!(s.as_string(), "y");
}

fn hash_of<T: std::hash::Hash>(t: &T) -> u64 {
    let mut h = std::collections::hash_map::DefaultHasher::new();
    t.hash(&mut h);
    std::hash::Hasher::finish(&h)
}

#[test]
fn equal_hash_keys_hash_alike() {
    let owned = CapeStringHashKey::from_string("Enthalpy");
    let s = CapeStringImpl::from_string("ENTHALPY");
    let borrowed = CapeStringHashKey::from_string_constant(&s);
    assert!(owned == borrowed);
    assert_eq!(hash_of(&owned), hash_of(&borrowed));
    let c = owned.clone();
    assert!(c == owned);
}

#[test]
fn case_insensitive_equality_is_an_equivalence() {
    let a = CapeStringImpl::from_string("Abc");
    let b = CapeStringImpl::from_string("aBC");
    let c = CapeStringImpl::from_string("ABC");
    assert!(a.eq_ignore_case(&a));
    assert!(a.eq_ignore_case(&b) && b.eq_ignore_case(&a));
    assert!(b.eq_ignore_case(&c) && a.eq_ignore_case(&c));
}

#[test]
fn empty_string_in_compares_as_empty_string() {
    let e = CapeStringImpl::new();
    let mut p = CapeStringInFromProvider::from(&e);
    let s = p.as_cape_string_in();
    assert!(s.eq(&CapeStringImpl::new()));
    assert!(!s.eq(&CapeStringImpl::from_string("a")));
    assert!(s.eq_ignore_case(&CapeStringImpl::new()));
    assert!(!s.eq_ignore_case(&CapeStringImpl::from_string("A")));
}

#[test]
fn hash_key_hashes_lowercased_characters() {
    static CHARS: [char; 3] = ['A', 'b', 'C'];
    assert_eq!(CapeStringHashKey::from_string("AbC").hash_chars(), vec!['a', 'b', 'c']);
    assert_eq!(CapeStringHashKey::Borrowed(&CHARS).hash_chars(), vec!['a', 'b', 'c']);
}

#[test]
fn hash_keys_equal_regardless_of_case_hash_alike() {
    static CHARS: [char; 3] = ['a', 'B', 'c'];
    let owned = CapeStringHashKey::from_string("AbC");
    let borrowed = CapeStringHashKey::Borrowed(&CHARS);
    assert!(owned == borrowed);
    let mut h1 = std::collections::hash_map::DefaultHasher::new();
    let mut h2 = std::collections::hash_map::DefaultHasher::new();
    owned.hash(&mut h1);
    borrowed.hash(&mut h2);
    assert_eq!(h1.finish(), h2.finish());
}

#[test]
fn hash_key_equality_in_every_combination() {
    static UPPER: [char; 4] = ['H', 'E', 'A', 'T'];
    static LOWER: [char; 4] = ['h', 'e', 'a', 't'];
    static OTHER: [char; 4] = ['h', 'e', 'a', 'd'];
    let owned = CapeStringHashKey::from_string("Heat");
    let owned_other = CapeStringHashKey::from_string("HEAD");
    assert!(owned == CapeStringHashKey::from_string("HEAT"));
    assert!(owned != owned_other);
    assert!(owned == CapeStringHashKey::Borrowed(&UPPER));
    assert!(CapeStringHashKey::Borrowed(&UPPER) == owned);
    assert!(CapeStringHashKey::Borrowed(&OTHER) != owned);
    assert!(CapeStringHashKey::Borrowed(&UPPER) == CapeStringHashKey::Borrowed(&LOWER));
    assert!(CapeStringHashKey::Borrowed(&UPPER) != CapeStringHashKey::Borrowed(&OTHER));
}
