use lib::cape_string_map::CapeOpenMap;
use lib::cape_string_const::{CapeStringConstNoCase, CapeStringHashKey};
use lib::cape_string_impl::CapeStringImpl;
use lib::cape_string::CapeStringIn;
use lib::cape_data_from_provider::CapeStringInFromProvider;

fn test_string_in(map: &CapeOpenMap<i32>, s: &CapeStringIn) {
    assert_eq!(map.get(s), Some(&1));
}

#[test]
fn map_case_insensitive_lookups() {
    let mut map = CapeOpenMap::new();
    map.insert(CapeStringHashKey::from_string("idealGasEnthalpy"), 1);
    map.insert(CapeStringHashKey::from_string("idealGasEntropy"), 2);
    assert_eq!(map.get(&CapeStringConstNoCase::from_string("IDEALGASENTHALPY")), Some(&1));
    assert_eq!(map.get(&CapeStringImpl::from_string("IDEALGASENTROPY")), Some(&2));
    let s2 = CapeStringImpl::from_string("IDEALGASENTHALPY");
    test_string_in(&map, &CapeStringInFromProvider::from(&s2).as_cape_string_in());
    assert_eq!(map.get(&CapeStringImpl::from_string("CriticalTemperature")), None);
}

#[test]
fn map_insert_replaces_value_of_same_key() {
    let mut map = CapeOpenMap::new();
    assert_eq!(map.insert(CapeStringHashKey::from_string("Key"), 1), None);
    assert_eq!(map.insert(CapeStringHashKey::from_string("KEY"), 2), Some(1));
    assert_eq!(map.len(), 1);
    assert_eq!(map.get(&CapeStringImpl::from_string("key")), Some(&2));
}

#[test]
fn map_insert_from_string_constant_and_contains() {
    let mut map = CapeOpenMap::new();
    assert_eq!(map.insert_from_cape_string_constant(CapeStringImpl::from_string("Pressure"), 10), None);
    assert!(map.contains_key(&CapeStringImpl::from_string("PRESSURE")));
    assert!(!map.contains_key(&CapeStringImpl::from_string("Temperature")));
    assert!(!map.is_empty());
}

#[test]
fn map_remove_and_remove_entry() {
    let mut map = CapeOpenMap::new();
    map.insert(CapeStringHashKey::from_string("a"), 1);
    map.insert(CapeStringHashKey::from_string("b"), 2);
    map.insert(CapeStringHashKey::from_string("c"), 3);
    assert_eq!(map.remove(CapeStringHashKey::from_string("B")), Some(2));
    assert_eq!(map.remove(CapeStringHashKey::from_string("B")), None);
    assert_eq!(map.len(), 2);
    let (k, v) = map.remove_entry(CapeStringHashKey::from_string("A")).unwrap();
    assert_eq!(k.as_string(), "a");
    assert_eq!(v, 1);
    assert_eq!(map.len(), 1);
    map.clear();
    assert!(map.is_empty());
}

#[test]
fn map_get_mut_edits_value() {
    let mut map = CapeOpenMap::new();
    map.insert(CapeStringHashKey::from_string("x"), 1);
    *map.get_mut(CapeStringHashKey::from_string("X")).unwrap() = 5;
    assert_eq!(map.get(&CapeStringImpl::from_string("x")), Some(&5));
    assert!(map.get_mut(CapeStringHashKey::from_string("y")).is_none());
}

#[test]
fn map_keys_values_iteration_in_insertion_order() {
    let mut map = CapeOpenMap::with_capacity(4);
    map.insert(CapeStringHashKey::from_string("One"), 1);
    map.insert(CapeStringHashKey::from_string("Two"), 2);
    let keys: Vec<String> = map.keys().iter().map(|k| k.as_string()).collect();
    assert_eq!(keys, vec!["one".to_string(), "two".to_string()]);
    assert_eq!(map.values(), vec![&1, &2]);
    let pairs: Vec<(String, i32)> = map.iter().iter().map(|(k, v)| (k.as_string(), **v)).collect();
    assert_eq!(pairs, vec![("one".to_string(), 1), ("two".to_string(), 2)]);
    let c = map.clone();
    assert_eq!(c.into_values(), vec![1, 2]);
    let owned: Vec<String> = map.into_keys().iter().map(|k| k.as_string()).collect();
    assert_eq!(owned, vec!["one".to_string(), "two".to_string()]);
}

#[test]
fn map_reserve_keeps_entries() {
    let mut map: CapeOpenMap<i32> = CapeOpenMap::default();
    map.insert(CapeStringHashKey::from_string("k"), 1);
    map.reserve(10);
    assert!(map.try_reserve(10).is_ok());
    assert_eq!(map.len(), 1);
}

#[test]
fn map_static_borrowed_key_is_lowercased() {
    static CHARS: [char; 3] = ['A', 'b', 'C'];
    let mut map = CapeOpenMap::new();
    map.insert(CapeStringHashKey::Borrowed(&CHARS), 7);
    assert_eq!(map.get(&CapeStringImpl::from_string("abc")), Some(&7));
}

#[test]
fn map_remove_after_insert_restores_absence() {
    let mut map = CapeOpenMap::new();
    map.insert(CapeStringHashKey::from_string("keep"), 1);
    map.insert(CapeStringHashKey::from_string("Temp"), 2);
    map.remove(CapeStringHashKey::from_string("TEMP"));
    assert_eq!(map.get(&CapeStringImpl::from_string("temp")), None);
    assert_eq!(map.get(&CapeStringImpl::from_string("KEEP")), Some(&1));
    assert_eq!(map.len(), 1);
}

#[test]
fn map_lookup_with_differently_cased_strings_finds_same_entry() {
    let mut map = CapeOpenMap::new();
    map.insert(CapeStringHashKey::from_string("MolecularWeight"), 3);
    for q in ["molecularweight", "MOLECULARWEIGHT", "mOlEcUlArWeIgHt"] {
        assert_eq!(map.get(&CapeStringImpl::from_string(q)), Some(&3));
    }
    assert_eq!(map.get(&CapeStringImpl::from_string("MolecularWeigh")), None);
}
