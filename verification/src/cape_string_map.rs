use vstd::prelude::*;
use crate::cape_types::CapeCharacter;
use crate::cape_text::{lower_each, eq_no_case, lemma_matches_lowered_is_lower_each, lemma_lower_each_eq_no_case};
use crate::cape_string::chars_equal;
use crate::cape_string_const::{CapeStringConstNoCase, CapeStringHashKey, key_chars, map_key, matches_lowered_slices};
use crate::cape_data_traits::CapeStringConstProvider;

verus! {

/// The map that takes each key of `ks` to the value at the same place in
/// `vs`.
pub open spec fn seq_map<V>(ks: Seq<Seq<char>>, vs: Seq<V>) -> Map<Seq<char>, V> {
    Map::new(|k: Seq<char>| ks.contains(k), |k: Seq<char>| vs[ks.index_of(k)])
}

/// In a sequence without duplicates, an element is found at its own place.
pub proof fn lemma_index_of_unique(ks: Seq<Seq<char>>, j: int)
    requires
        ks.no_duplicates(),
        0 <= j < ks.len(),
    ensures
        ks.contains(ks[j]),
        ks.index_of(ks[j]) == j,
{
    assert(ks.contains(ks[j]));
    let c = ks.index_of(ks[j]);
    assert(0 <= c < ks.len() && ks[c] == ks[j]);
}

/// Replacing the value at `i` maps the key at `i` to the new value.
pub proof fn lemma_seq_map_update<V>(ks: Seq<Seq<char>>, vs: Seq<V>, i: int, v: V)
    requires
        ks.no_duplicates(),
        ks.len() == vs.len(),
        0 <= i < ks.len(),
    ensures
        seq_map(ks, vs.update(i, v)) == seq_map(ks, vs).insert(ks[i], v),
{
    lemma_index_of_unique(ks, i);
    assert forall|k: Seq<char>| #[trigger] ks.contains(k) && k != ks[i] implies
        vs.update(i, v)[ks.index_of(k)] == vs[ks.index_of(k)] by {
        let j = ks.index_of(k);
        assert(0 <= j < ks.len() && ks[j] == k);
    }
    assert(seq_map(ks, vs.update(i, v)) =~= seq_map(ks, vs).insert(ks[i], v));
}

/// Appending a new key and its value adds them to the map.
pub proof fn lemma_seq_map_push<V>(ks: Seq<Seq<char>>, vs: Seq<V>, k: Seq<char>, v: V)
    requires
        ks.no_duplicates(),
        ks.len() == vs.len(),
        !ks.contains(k),
    ensures
        ks.push(k).no_duplicates(),
        seq_map(ks.push(k), vs.push(v)) == seq_map(ks, vs).insert(k, v),
{
    let nk = ks.push(k);
    assert forall|a: int, b: int| 0 <= a < nk.len() && 0 <= b < nk.len() && a != b implies nk[a] != nk[b] by {
        if a < ks.len() && b < ks.len() {
        } else if a < ks.len() {
            assert(ks[a] != k);
        } else {
            assert(ks[b] != k);
        }
    }
    lemma_index_of_unique(nk, ks.len() as int);
    assert forall|x: Seq<char>| #[trigger] nk.contains(x) && x != k implies
        ks.contains(x) && nk.index_of(x) == ks.index_of(x) by {
        let j = nk.index_of(x);
        assert(0 <= j < nk.len() && nk[j] == x);
        assert(j < ks.len());
        assert(ks[j] == x);
        lemma_index_of_unique(ks, j);
    }
    assert forall|x: Seq<char>| #[trigger] ks.contains(x) implies nk.contains(x) by {
        let j = ks.index_of(x);
        assert(nk[j] == x);
    }
    assert(seq_map(nk, vs.push(v)) =~= seq_map(ks, vs).insert(k, v));
}

/// Removing the entry at `i` removes its key from the map.
pub proof fn lemma_seq_map_remove<V>(ks: Seq<Seq<char>>, vs: Seq<V>, i: int)
    requires
        ks.no_duplicates(),
        ks.len() == vs.len(),
        0 <= i < ks.len(),
    ensures
        ks.remove(i).no_duplicates(),
        seq_map(ks.remove(i), vs.remove(i)) == seq_map(ks, vs).remove(ks[i]),
{
    let nk = ks.remove(i);
    assert forall|a: int, b: int| 0 <= a < nk.len() && 0 <= b < nk.len() && a != b implies nk[a] != nk[b] by {
        let oa = if a < i { a } else { a + 1 };
        let ob = if b < i { b } else { b + 1 };
        assert(nk[a] == ks[oa]);
        assert(nk[b] == ks[ob]);
    }
    assert forall|x: Seq<char>| #[trigger] nk.contains(x) implies
        ks.contains(x) && x != ks[i] && nk.index_of(x) == (if ks.index_of(x) < i { ks.index_of(x) } else { ks.index_of(x) - 1 }) by {
        let j = nk.index_of(x);
        assert(0 <= j < nk.len() && nk[j] == x);
        let oj = if j < i { j } else { j + 1 };
        assert(ks[oj] == x);
        lemma_index_of_unique(ks, oj);
    }
    assert forall|x: Seq<char>| #[trigger] ks.contains(x) && x != ks[i] implies nk.contains(x) by {
        let j = ks.index_of(x);
        assert(0 <= j < ks.len() && ks[j] == x);
        let nj = if j < i { j } else { j - 1 };
        assert(nk[nj] == x);
    }
    assert(seq_map(nk, vs.remove(i)) =~= seq_map(ks, vs).remove(ks[i]));
}

/// Map from CAPE-OPEN strings to values with case insensitive lookup.
///
/// Keys are stored as owned, lowercased keys; a lookup with any CAPE-OPEN
/// string finds the entry whose key is that string lowercased. Entries
/// keep the order in which their keys were first inserted.
#[derive(Debug)]
pub struct CapeOpenMap<V> {
    keys: Vec<CapeStringHashKey<'static>>,
    values: Vec<V>,
}

/// An owned key for the characters by which a map identifies `k`.
fn owned_key(k: CapeStringHashKey<'static>) -> (r: CapeStringHashKey<'static>)
    ensures
        r is Owned,
        key_chars(r) == map_key(k),
        map_key(r) == map_key(k),
{
    match k {
        CapeStringHashKey::Owned(c) => CapeStringHashKey::Owned(c),
        CapeStringHashKey::Borrowed(b) => CapeStringHashKey::Owned(CapeStringConstNoCase::from_chars(b)),
    }
}

/// The characters of an owned key.
fn owned_chars<'a>(k: &'a CapeStringHashKey<'static>) -> (r: &'a [CapeCharacter])
    requires
        *k is Owned,
    ensures
        r@ == key_chars(*k),
{
    match k {
        CapeStringHashKey::Owned(c) => {
            let (d, n) = c.as_capechar_const_with_length();
            let r = &d[0..n];
            assert(r@ =~= c@);
            r
        },
        CapeStringHashKey::Borrowed(b) => b,
    }
}

/// The characters of each key, in order.
pub open spec fn key_chars_seq(ks: Seq<CapeStringHashKey<'static>>) -> Seq<Seq<char>> {
    ks.map_values(|k: CapeStringHashKey<'static>| key_chars(k))
}

impl<V> CapeOpenMap<V> {
    /// The keys of the entries, in order.
    pub closed spec fn key_seq(&self) -> Seq<Seq<char>> {
        key_chars_seq(self.keys@)
    }

    /// The values of the entries, in order.
    pub closed spec fn value_seq(&self) -> Seq<V> {
        self.values@
    }

    /// Keys are owned and occur once, and each has a value.
    #[verifier::type_invariant]
    closed spec fn wf(&self) -> bool {
        &&& self.key_seq().no_duplicates()
        &&& forall|i: int| 0 <= i < self.keys@.len() ==> #[trigger] self.keys@[i] is Owned
        &&& self.keys@.len() == self.values@.len()
    }

    /// Under the invariant, the key at `i` leads to the value at `i`.
    proof fn lemma_entry(&self, i: int)
        requires
            self.wf(),
            0 <= i < self.key_seq().len(),
        ensures
            self@.contains_key(self.key_seq()[i]),
            self@[self.key_seq()[i]] == self.value_seq()[i],
            self.key_seq().index_of(self.key_seq()[i]) == i,
    {
        lemma_index_of_unique(self.key_seq(), i);
    }

    /// Under the invariant, the map has one key for each entry.
    proof fn lemma_len(&self)
        requires
            self.wf(),
        ensures
            self@.dom().finite(),
            self@.len() == self.key_seq().len(),
    {
        assert(self@.dom() =~= self.key_seq().to_set());
        self.key_seq().unique_seq_to_set();
        vstd::seq_lib::seq_to_set_is_finite(self.key_seq());
    }

    /// Position of the entry with key `key`, if any.
    fn position(&self, key: &[CapeCharacter]) -> (r: Option<usize>)
        requires
            self.wf(),
        ensures
            match r {
                Some(i) => i < self.key_seq().len() && self.key_seq()[i as int] == key@,
                None => !self@.contains_key(key@),
            },
    {
        let n = self.keys.len();
        let mut i: usize = 0;
        while i < n
            invariant
                0 <= i <= n,
                n == self.keys@.len(),
                self.wf(),
                forall|j: int| 0 <= j < i ==> self.key_seq()[j] != key@,
            decreases n - i,
        {
            let stored = owned_chars(&self.keys[i]);
            if chars_equal(stored, key) {
                return Some(i);
            }
            i = i + 1;
        }
        proof {
            if self.key_seq().contains(key@) {
                let j = self.key_seq().index_of(key@);
                assert(self.key_seq()[j] == key@);
            }
        }
        None
    }

    /// Position of the entry whose key is `key` lowercased, if any.
    fn position_lowered(&self, key: &[CapeCharacter]) -> (r: Option<usize>)
        requires
            self.wf(),
        ensures
            match r {
                Some(i) => i < self.key_seq().len() && self.key_seq()[i as int] == lower_each(key@),
                None => !self@.contains_key(lower_each(key@)),
            },
    {
        let n = self.keys.len();
        let mut i: usize = 0;
        while i < n
            invariant
                0 <= i <= n,
                n == self.keys@.len(),
                self.wf(),
                forall|j: int| 0 <= j < i ==> self.key_seq()[j] != lower_each(key@),
            decreases n - i,
        {
            let stored = owned_chars(&self.keys[i]);
            proof {
                lemma_matches_lowered_is_lower_each(stored@, key@);
            }
            if matches_lowered_slices(stored, key) {
                return Some(i);
            }
            i = i + 1;
        }
        proof {
            if self.key_seq().contains(lower_each(key@)) {
                let j = self.key_seq().index_of(lower_each(key@));
                assert(self.key_seq()[j] == lower_each(key@));
            }
        }
        None
    }

    /// An empty map.
    pub fn new() -> (r: Self)
        ensures
            r@ == Map::<Seq<char>, V>::empty(),
    {
        let r = CapeOpenMap { keys: Vec::new(), values: Vec::new() };
        assert(r.key_seq() =~= Seq::<Seq<char>>::empty());
        assert(r@ =~= Map::<Seq<char>, V>::empty());
        r
    }

    /// An empty map with room for `capacity` entries.
    pub fn with_capacity(capacity: usize) -> (r: Self)
        ensures
            r@ == Map::<Seq<char>, V>::empty(),
    {
        let r = CapeOpenMap { keys: Vec::with_capacity(capacity), values: Vec::with_capacity(capacity) };
        assert(r.key_seq() =~= Seq::<Seq<char>>::empty());
        assert(r@ =~= Map::<Seq<char>, V>::empty());
        r
    }

    /// Number of entries.
    pub fn len(&self) -> (r: usize)
        ensures
            r == self@.len(),
    {
        proof {
            use_type_invariant(self);
            self.lemma_len();
        }
        self.keys.len()
    }

    /// Whether the map has no entries.
    pub fn is_empty(&self) -> (r: bool)
        ensures
            r == (self@.len() == 0),
    {
        proof {
            use_type_invariant(self);
            self.lemma_len();
        }
        self.keys.len() == 0
    }

    /// Removes all entries.
    pub fn clear(&mut self)
        ensures
            final(self)@ == Map::<Seq<char>, V>::empty(),
    {
        *self = CapeOpenMap::new();
    }

    /// Makes room for `additional` more entries; the entries stay.
    pub fn reserve(&mut self, additional: usize)
        ensures
            final(self)@ == old(self)@,
            final(self).key_seq() == old(self).key_seq(),
    {
        let mut m = CapeOpenMap::new();
        std::mem::swap(self, &mut m);
        proof {
            use_type_invariant(&m);
        }
        let CapeOpenMap { mut keys, mut values } = m;
        keys.reserve(additional);
        values.reserve(additional);
        *self = CapeOpenMap { keys, values };
        assert(self.key_seq() =~= old(self).key_seq());
    }

    /// Tries to make room for `additional` more entries; the entries stay
    /// whatever the outcome.
    pub fn try_reserve(&mut self, additional: usize) -> (r: Result<(), std::collections::TryReserveError>)
        ensures
            final(self)@ == old(self)@,
            final(self).key_seq() == old(self).key_seq(),
    {
        let mut m = CapeOpenMap::new();
        std::mem::swap(self, &mut m);
        proof {
            use_type_invariant(&m);
        }
        let CapeOpenMap { mut keys, mut values } = m;
        let r = match keys.try_reserve(additional) {
            Ok(()) => values.try_reserve(additional),
            Err(e) => Err(e),
        };
        *self = CapeOpenMap { keys, values };
        assert(self.key_seq() =~= old(self).key_seq());
        r
    }

    /// The value of the entry whose key is `k` regardless of case.
    pub fn get<Q: CapeStringConstProvider>(&self, k: &Q) -> (r: Option<&V>)
        ensures
            self@.contains_key(lower_each(k.const_chars())) ==> r == Some(&self@[lower_each(k.const_chars())]),
            !self@.contains_key(lower_each(k.const_chars())) ==> r is None,
    {
        proof {
            use_type_invariant(self);
        }
        let (d, n) = k.as_capechar_const_with_length();
        let key = &d[0..n];
        assert(key@ =~= k.const_chars());
        match self.position_lowered(key) {
            Some(i) => {
                proof {
                    self.lemma_entry(i as int);
                }
                Some(&self.values[i])
            },
            None => None,
        }
    }

    /// Whether an entry has the key `k` regardless of case.
    pub fn contains_key<Q: CapeStringConstProvider>(&self, k: &Q) -> (r: bool)
        ensures
            r == self@.contains_key(lower_each(k.const_chars())),
    {
        proof {
            use_type_invariant(self);
        }
        let (d, n) = k.as_capechar_const_with_length();
        let key = &d[0..n];
        assert(key@ =~= k.const_chars());
        match self.position_lowered(key) {
            Some(i) => {
                proof {
                    self.lemma_entry(i as int);
                }
                true
            },
            None => false,
        }
    }
}

impl<V> CapeOpenMap<V> {
    /// Inserts `v` under the key `k`; an existing entry with that key keeps
    /// its key and gets the new value. Returns the value it had.
    pub fn insert(&mut self, k: CapeStringHashKey<'static>, v: V) -> (r: Option<V>)
        ensures
            final(self)@ == old(self)@.insert(map_key(k), v),
            old(self)@.contains_key(map_key(k)) ==> r == Some(old(self)@[map_key(k)]),
            !old(self)@.contains_key(map_key(k)) ==> r is None,
    {
        let mut m = CapeOpenMap::new();
        std::mem::swap(self, &mut m);
        proof {
            use_type_invariant(&m);
        }
        let key = owned_key(k);
        let pos = m.position(owned_chars(&key));
        let CapeOpenMap { mut keys, mut values } = m;
        let ghost ks = key_chars_seq(keys@);
        let ghost vs = values@;
        match pos {
            Some(i) => {
                proof {
                    m.lemma_entry(i as int);
                    lemma_seq_map_update(ks, vs, i as int, v);
                }
                let old_value = values.remove(i);
                values.insert(i, v);
                assert(values@ =~= vs.update(i as int, v));
                *self = CapeOpenMap { keys, values };
                Some(old_value)
            },
            None => {
                proof {
                    lemma_seq_map_push(ks, vs, key_chars(key), v);
                }
                keys.push(key);
                values.push(v);
                assert(key_chars_seq(keys@) =~= ks.push(key_chars(key)));
                proof {
                    assert forall|j: int| 0 <= j < keys@.len() implies #[trigger] keys@[j] is Owned by {
                        if j < m.keys@.len() {
                            assert(m.keys@[j] is Owned);
                        }
                    }
                }
                *self = CapeOpenMap { keys, values };
                None
            },
        }
    }

    /// Inserts `v` under the characters of any CAPE-OPEN string, lowercased.
    /// Returns the value an existing entry with that key had.
    pub fn insert_from_cape_string_constant<T: CapeStringConstProvider>(&mut self, k: T, v: V) -> (r: Option<V>)
        ensures
            final(self)@ == old(self)@.insert(lower_each(k.const_chars()), v),
            old(self)@.contains_key(lower_each(k.const_chars())) ==> r == Some(old(self)@[lower_each(k.const_chars())]),
            !old(self)@.contains_key(lower_each(k.const_chars())) ==> r is None,
    {
        let (d, n) = k.as_capechar_const_with_length();
        let chars = &d[0..n];
        assert(chars@ =~= k.const_chars());
        let key = CapeStringHashKey::Owned(CapeStringConstNoCase::from_chars(chars));
        self.insert(key, v)
    }

    /// Removes the entry with key `k`, giving its key and value.
    pub fn remove_entry(&mut self, k: CapeStringHashKey<'static>) -> (r: Option<(CapeStringHashKey<'static>, V)>)
        ensures
            final(self)@ == old(self)@.remove(map_key(k)),
            old(self)@.contains_key(map_key(k)) ==> (r matches Some(e) && map_key(e.0) == map_key(k)
                && e.1 == old(self)@[map_key(k)]),
            !old(self)@.contains_key(map_key(k)) ==> r is None,
    {
        let mut m = CapeOpenMap::new();
        std::mem::swap(self, &mut m);
        proof {
            use_type_invariant(&m);
        }
        let key = owned_key(k);
        let pos = m.position(owned_chars(&key));
        match pos {
            Some(i) => {
                let CapeOpenMap { mut keys, mut values } = m;
                let ghost ks = key_chars_seq(keys@);
                let ghost vs = values@;
                let ghost old_keys = keys@;
                proof {
                    m.lemma_entry(i as int);
                    lemma_seq_map_remove(ks, vs, i as int);
                }
                let stored = keys.remove(i);
                let value = values.remove(i);
                assert(key_chars_seq(keys@) =~= ks.remove(i as int));
                proof {
                    assert forall|j: int| 0 <= j < keys@.len() implies #[trigger] keys@[j] is Owned by {
                        let oj = if j < i { j } else { j + 1 };
                        assert(keys@[j] == old_keys[oj]);
                        assert(old_keys[oj] is Owned);
                    }
                    assert(old_keys[i as int] is Owned);
                }
                *self = CapeOpenMap { keys, values };
                Some((stored, value))
            },
            None => {
                assert(m@ =~= m@.remove(map_key(k)));
                *self = m;
                None
            },
        }
    }

    /// Removes the entry with key `k`, giving its value.
    pub fn remove(&mut self, k: CapeStringHashKey<'static>) -> (r: Option<V>)
        ensures
            final(self)@ == old(self)@.remove(map_key(k)),
            old(self)@.contains_key(map_key(k)) ==> r == Some(old(self)@[map_key(k)]),
            !old(self)@.contains_key(map_key(k)) ==> r is None,
    {
        match self.remove_entry(k) {
            Some(e) => Some(e.1),
            None => None,
        }
    }

    /// The value of the entry with key `k`, for modification in place.
    pub fn get_mut(&mut self, k: CapeStringHashKey<'static>) -> (r: Option<&mut V>)
        ensures
            old(self)@.contains_key(map_key(k)) ==> (r matches Some(x) && *x == old(self)@[map_key(k)]
                && final(self)@ == old(self)@.insert(map_key(k), *final(x))),
            !old(self)@.contains_key(map_key(k)) ==> r is None && final(self)@ == old(self)@,
    {
        proof {
            use_type_invariant(&*self);
        }
        let key = owned_key(k);
        let pos = self.position(owned_chars(&key));
        match pos {
            Some(i) => {
                proof {
                    self.lemma_entry(i as int);
                    lemma_seq_map_update_all(self.key_seq(), self.value_seq(), i as int);
                }
                Some(&mut self.values[i])
            },
            None => None,
        }
    }

    /// The keys of the entries, in order.
    pub fn keys(&self) -> (r: Vec<&CapeStringHashKey<'static>>)
        ensures
            r@.len() == self.key_seq().len(),
            forall|i: int| 0 <= i < r@.len() ==> key_chars(*#[trigger] r@[i]) == self.key_seq()[i],
    {
        let mut v: Vec<&CapeStringHashKey<'static>> = Vec::new();
        let mut i: usize = 0;
        while i < self.keys.len()
            invariant
                0 <= i <= self.keys@.len(),
                v@.len() == i,
                forall|j: int| 0 <= j < i ==> key_chars(*#[trigger] v@[j]) == self.key_seq()[j],
            decreases self.keys@.len() - i,
        {
            v.push(&self.keys[i]);
            i = i + 1;
        }
        v
    }

    /// The values of the entries, in the order of their keys.
    pub fn values(&self) -> (r: Vec<&V>)
        ensures
            r@.len() == self.value_seq().len(),
            forall|i: int| 0 <= i < r@.len() ==> *#[trigger] r@[i] == self.value_seq()[i],
    {
        let mut v: Vec<&V> = Vec::new();
        let mut i: usize = 0;
        while i < self.values.len()
            invariant
                0 <= i <= self.values@.len(),
                v@.len() == i,
                forall|j: int| 0 <= j < i ==> *#[trigger] v@[j] == self.value_seq()[j],
            decreases self.values@.len() - i,
        {
            v.push(&self.values[i]);
            i = i + 1;
        }
        v
    }

    /// The entries, as pairs of key and value, in order.
    pub fn iter(&self) -> (r: Vec<(&CapeStringHashKey<'static>, &V)>)
        ensures
            r@.len() == self.key_seq().len(),
            forall|i: int| 0 <= i < r@.len() ==> key_chars(*(#[trigger] r@[i]).0) == self.key_seq()[i]
                && *r@[i].1 == self.value_seq()[i],
    {
        proof {
            use_type_invariant(self);
        }
        let mut v: Vec<(&CapeStringHashKey<'static>, &V)> = Vec::new();
        let mut i: usize = 0;
        while i < self.keys.len()
            invariant
                0 <= i <= self.keys@.len(),
                self.keys@.len() == self.values@.len(),
                v@.len() == i,
                forall|j: int| 0 <= j < i ==> key_chars(*(#[trigger] v@[j]).0) == self.key_seq()[j]
                    && *v@[j].1 == self.value_seq()[j],
            decreases self.keys@.len() - i,
        {
            v.push((&self.keys[i], &self.values[i]));
            i = i + 1;
        }
        v
    }
}

impl<V> CapeOpenMap<V> {
    /// The keys of the entries, in order, taking the map.
    pub fn into_keys(self) -> (r: Vec<CapeStringHashKey<'static>>)
        ensures
            r@.len() == self.key_seq().len(),
            forall|i: int| 0 <= i < r@.len() ==> key_chars(#[trigger] r@[i]) == self.key_seq()[i],
    {
        let CapeOpenMap { keys, values: _ } = self;
        keys
    }

    /// The values of the entries, in the order of their keys, taking the
    /// map.
    pub fn into_values(self) -> (r: Vec<V>)
        ensures
            r@ == self.value_seq(),
    {
        let CapeOpenMap { keys: _, values } = self;
        values
    }
}

impl<V: Clone> Clone for CapeOpenMap<V> {
    /// A copy with the same keys, in the same order, and a clone of each
    /// value.
    fn clone(&self) -> (r: Self)
        ensures
            r.key_seq() == self.key_seq(),
            r.value_seq().len() == self.value_seq().len(),
            forall|i: int| 0 <= i < r.value_seq().len() ==> cloned::<V>(self.value_seq()[i], #[trigger] r.value_seq()[i]),
    {
        proof {
            use_type_invariant(self);
        }
        let mut keys: Vec<CapeStringHashKey<'static>> = Vec::new();
        let mut values: Vec<V> = Vec::new();
        let mut i: usize = 0;
        while i < self.keys.len()
            invariant
                0 <= i <= self.keys@.len(),
                self.keys@.len() == self.values@.len(),
                keys@.len() == i,
                values@.len() == i,
                forall|j: int| 0 <= j < i ==> key_chars(#[trigger] keys@[j]) == key_chars(self.keys@[j])
                    && (keys@[j] is Owned) == (self.keys@[j] is Owned),
                forall|j: int| 0 <= j < i ==> cloned::<V>(self.values@[j], #[trigger] values@[j]),
            decreases self.keys@.len() - i,
        {
            keys.push(self.keys[i].duplicate());
            values.push(self.values[i].clone());
            i = i + 1;
        }
        assert(key_chars_seq(keys@) =~= self.key_seq());
        proof {
            assert forall|j: int| 0 <= j < keys@.len() implies #[trigger] keys@[j] is Owned by {
                assert(self.keys@[j] is Owned);
            }
        }
        CapeOpenMap { keys, values }
    }
}

impl<V> Default for CapeOpenMap<V> {
    fn default() -> (r: Self)
        ensures
            r@ == Map::<Seq<char>, V>::empty(),
    {
        CapeOpenMap::new()
    }
}

/// A value inserted under a key made from `s` is what a lookup with any
/// string `q` equal to `s` regardless of case finds; a lookup with a
/// string that differs from `s` regardless of case finds what it found
/// before.
pub proof fn law_lookup_after_insert<V>(m: Map<Seq<char>, V>, s: Seq<char>, v: V, q: Seq<char>)
    ensures
        eq_no_case(s, q) ==> m.insert(lower_each(s), v).contains_key(lower_each(q))
            && m.insert(lower_each(s), v)[lower_each(q)] == v,
        !eq_no_case(s, q) ==> (m.insert(lower_each(s), v).contains_key(lower_each(q)) == m.contains_key(lower_each(q)))
            && (m.contains_key(lower_each(q)) ==> m.insert(lower_each(s), v)[lower_each(q)] == m[lower_each(q)]),
{
    lemma_lower_each_eq_no_case(s, q);
}

/// Removing a key after inserting it leaves the map as removing it alone
/// would; in particular a key that was absent is absent again.
pub proof fn law_remove_after_insert<V>(m: Map<Seq<char>, V>, k: Seq<char>, v: V)
    ensures
        m.insert(k, v).remove(k) == m.remove(k),
        !m.contains_key(k) ==> m.insert(k, v).remove(k) == m,
{
    assert(m.insert(k, v).remove(k) =~= m.remove(k));
    if !m.contains_key(k) {
        assert(m.remove(k) =~= m);
    }
}

/// Replacing the value at `i`, whatever it becomes, maps the key at `i`
/// to it.
pub proof fn lemma_seq_map_update_all<V>(ks: Seq<Seq<char>>, vs: Seq<V>, i: int)
    requires
        ks.no_duplicates(),
        ks.len() == vs.len(),
        0 <= i < ks.len(),
    ensures
        forall|v: V| #[trigger] seq_map(ks, vs.update(i, v)) == seq_map(ks, vs).insert(ks[i], v),
{
    assert forall|v: V| #[trigger] seq_map(ks, vs.update(i, v)) == seq_map(ks, vs).insert(ks[i], v) by {
        lemma_seq_map_update(ks, vs, i, v);
    }
}


impl<V> View for CapeOpenMap<V> {
    type V = Map<Seq<char>, V>;

    /// Each key of an entry maps to its value.
    closed spec fn view(&self) -> Map<Seq<char>, V> {
        seq_map(self.key_seq(), self.value_seq())
    }
}

} // verus!
