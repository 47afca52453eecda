use vstd::prelude::*;
use crate::cape_types::CapeCharacter;
use crate::cape_text::{char_lower, lower_char, lower_each, matches_lowered, eq_no_case, chars_of, string_of, lemma_matches_lowered_is_lower_each, lemma_lower_each_eq_no_case};
use crate::cape_data_traits::{CapeStringConstProvider, CapeStringProviderIn};
use crate::cape_string::CapeStringIn;

verus! {

/// A string constant for case insensitive comparisons.
///
/// The characters are stored lowercased (each replaced by the first
/// character of its lowercase mapping) and followed by a terminating null,
/// so that comparing with another string only lowercases the other one.
/// Comparison (`==`) with any CAPE-OPEN string is case insensitive.
#[derive(Debug)]
pub struct CapeStringConstNoCase {
    data: Vec<CapeCharacter>,
}

impl View for CapeStringConstNoCase {
    type V = Seq<char>;

    /// The stored, lowercased characters, without the terminating null.
    closed spec fn view(&self) -> Seq<char> {
        self.data@.drop_last()
    }
}

impl CapeStringConstNoCase {
    #[verifier::type_invariant]
    closed spec fn inv(&self) -> bool {
        self.data@.len() >= 1 && self.data@.last() == '\0'
    }

    proof fn lemma_data(&self)
        requires
            self.inv(),
        ensures
            self.data@ == self@.push('\0'),
    {
        assert(self.data@ =~= self.data@.drop_last().push('\0'));
    }

    /// A constant holding the lowercased characters of `chars`.
    pub fn from_chars(chars: &[CapeCharacter]) -> (r: Self)
        ensures
            r@ == lower_each(chars@),
    {
        let mut data: Vec<CapeCharacter> = Vec::new();
        let mut i: usize = 0;
        while i < chars.len()
            invariant
                0 <= i <= chars@.len(),
                data@ == lower_each(chars@.take(i as int)),
            decreases chars@.len() - i,
        {
            let c = lower_char(chars[i]);
            data.push(c);
            i = i + 1;
            assert(data@ =~= lower_each(chars@.take(i as int)));
        }
        assert(chars@.take(chars@.len() as int) =~= chars@);
        data.push('\0');
        let r = CapeStringConstNoCase { data };
        assert(r.data@.drop_last() =~= lower_each(chars@));
        r
    }

    /// A constant holding the lowercased characters of `s`.
    pub fn from_string(s: &str) -> (r: Self)
        ensures
            r@ == lower_each(s@),
    {
        let chars = chars_of(s);
        Self::from_chars(chars.as_slice())
    }

    /// A constant holding the lowercased characters of CAPE-OPEN character
    /// data; `chars` are the characters without a terminating null.
    pub fn from_cape_char_const(chars: &[CapeCharacter]) -> (r: Self)
        ensures
            r@ == lower_each(chars@),
    {
        Self::from_chars(chars)
    }

    /// A constant from an optional string; `None` gives the empty string.
    pub fn from(s: Option<&str>) -> (r: Self)
        ensures
            s matches Some(t) ==> r@ == lower_each(t@),
            s is None ==> r@ == Seq::<char>::empty(),
    {
        match s {
            Some(t) => Self::from_string(t),
            None => {
                let mut data: Vec<CapeCharacter> = Vec::new();
                data.push('\0');
                let r = CapeStringConstNoCase { data };
                assert(r.data@.drop_last() =~= Seq::<char>::empty());
                r
            },
        }
    }

    /// The stored (lowercased) characters, as a `String`.
    pub fn as_string(&self) -> (r: String)
        ensures
            r@ == self@,
    {
        proof {
            use_type_invariant(self);
        }
        let n = self.data.len() - 1;
        string_of(&self.data.as_slice()[0..n])
    }

    /// A copy of the constant.
    pub fn duplicate(&self) -> (r: Self)
        ensures
            r@ == self@,
    {
        proof {
            use_type_invariant(self);
            self.lemma_data();
        }
        let r = CapeStringConstNoCase { data: vec_copy(&self.data) };
        r
    }

    /// Case insensitive comparison with any CAPE-OPEN string: equal
    /// lengths, and each stored character equals the lowercased character
    /// of `other` at the same place.
    pub fn eq<T: CapeStringConstProvider>(&self, other: &T) -> (r: bool)
        ensures
            r == matches_lowered(self@, other.const_chars()),
    {
        proof {
            use_type_invariant(self);
            self.lemma_data();
        }
        let (o, n) = other.as_capechar_const_with_length();
        let mine = &self.data.as_slice()[0..self.data.len() - 1];
        let theirs = &o[0..n];
        assert(mine@ =~= self@);
        assert(theirs@ =~= other.const_chars());
        matches_lowered_slices(mine, theirs)
    }
}

/// A copy of a vector of characters.
pub fn vec_copy(v: &Vec<CapeCharacter>) -> (r: Vec<CapeCharacter>)
    ensures
        r@ == v@,
{
    let mut out: Vec<CapeCharacter> = Vec::new();
    let mut i: usize = 0;
    while i < v.len()
        invariant
            0 <= i <= v@.len(),
            out@ == v@.take(i as int),
        decreases v@.len() - i,
    {
        out.push(v[i]);
        i = i + 1;
        assert(out@ =~= v@.take(i as int));
    }
    assert(v@.take(v@.len() as int) =~= v@);
    out
}

/// Whether the already lowercased `low` equals `other` once `other` is
/// lowercased, one character at a time.
pub fn matches_lowered_slices(low: &[CapeCharacter], other: &[CapeCharacter]) -> (r: bool)
    ensures
        r == matches_lowered(low@, other@),
{
    if low.len() != other.len() {
        return false;
    }
    let mut i: usize = 0;
    while i < low.len()
        invariant
            0 <= i <= low@.len(),
            low@.len() == other@.len(),
            forall|j: int| 0 <= j < i ==> low@[j] == #[trigger] char_lower(other@[j]),
        decreases low@.len() - i,
    {
        if low[i] != lower_char(other[i]) {
            return false;
        }
        i = i + 1;
    }
    true
}

/// Whether `a` and `b` are equal regardless of case, one lowercased
/// character at a time.
pub fn eq_no_case_slices(a: &[CapeCharacter], b: &[CapeCharacter]) -> (r: bool)
    ensures
        r == eq_no_case(a@, b@),
{
    if a.len() != b.len() {
        return false;
    }
    let mut i: usize = 0;
    while i < a.len()
        invariant
            0 <= i <= a@.len(),
            a@.len() == b@.len(),
            forall|j: int| 0 <= j < i ==> #[trigger] char_lower(a@[j]) == char_lower(b@[j]),
        decreases a@.len() - i,
    {
        if lower_char(a[i]) != lower_char(b[i]) {
            return false;
        }
        i = i + 1;
    }
    true
}

impl<T: CapeStringConstProvider> PartialEq<T> for CapeStringConstNoCase {
    /// Case insensitive comparison with any CAPE-OPEN string.
    fn eq(&self, other: &T) -> (r: bool) {
        proof {
            use_type_invariant(self);
            self.lemma_data();
        }
        let (o, n) = other.as_capechar_const_with_length();
        let mine = &self.data.as_slice()[0..self.data.len() - 1];
        let theirs = &o[0..n];
        assert(mine@ =~= self@);
        assert(theirs@ =~= other.const_chars());
        matches_lowered_slices(mine, theirs)
    }
}

impl<T: CapeStringConstProvider> vstd::std_specs::cmp::PartialEqSpecImpl<T> for CapeStringConstNoCase {
    open spec fn obeys_eq_spec() -> bool {
        true
    }

    open spec fn eq_spec(&self, other: &T) -> bool {
        matches_lowered(self@, other.const_chars())
    }
}

impl Eq for CapeStringConstNoCase {
}

impl Clone for CapeStringConstNoCase {
    fn clone(&self) -> (r: Self)
        ensures
            r@ == self@,
    {
        self.duplicate()
    }
}

impl CapeStringProviderIn for CapeStringConstNoCase {
    open spec fn provided_string(&self) -> Seq<CapeCharacter> {
        self@
    }

    fn as_cape_string_in(&self) -> (r: CapeStringIn<'_>) {
        CapeStringIn::new(self)
    }
}

impl CapeStringConstProvider for CapeStringConstNoCase {
    open spec fn const_chars(&self) -> Seq<CapeCharacter> {
        self@
    }

    fn as_capechar_const(&self) -> (r: &[CapeCharacter]) {
        proof {
            use_type_invariant(self);
            self.lemma_data();
        }
        self.data.as_slice()
    }

    fn as_capechar_const_with_length(&self) -> (r: (&[CapeCharacter], usize)) {
        proof {
            use_type_invariant(self);
            self.lemma_data();
        }
        (self.data.as_slice(), self.data.len() - 1)
    }
}

/// A constant made from a string equals (`==`) exactly the strings that
/// equal that string regardless of case.
pub proof fn lemma_no_case_constant_matches(s: Seq<char>, t: Seq<char>)
    ensures
        matches_lowered(lower_each(s), t) <==> eq_no_case(s, t),
{
    crate::cape_text::lemma_lower_each_matches(s, t);
}

/// Key for case insensitive lookups of CAPE-OPEN strings.
///
/// An owned key holds a lowercased constant; a borrowed key refers to the
/// characters of a string that lives elsewhere, without copying them.
#[derive(Debug)]
pub enum CapeStringHashKey<'a> {
    Owned(CapeStringConstNoCase),
    Borrowed(&'a [CapeCharacter]),
}

/// The characters a key refers to: lowercased for an owned key, as given
/// for a borrowed one.
pub open spec fn key_chars(k: CapeStringHashKey) -> Seq<char> {
    match k {
        CapeStringHashKey::Owned(c) => c@,
        CapeStringHashKey::Borrowed(b) => b@,
    }
}

/// Equality of keys, as `==` computes it: the characters that identify
/// one key are the other key's characters lowercased. The characters of an
/// owned key count as lowercased already, so the owned key of a pair is the
/// one compared as it is (the first, when both are owned).
pub open spec fn key_eq(a: CapeStringHashKey, b: CapeStringHashKey) -> bool {
    if a is Borrowed && b is Owned {
        key_chars(b) == lower_each(key_chars(a))
    } else {
        map_key(a) == lower_each(key_chars(b))
    }
}

impl<'a> CapeStringHashKey<'a> {
    /// An owned key for the characters of `s`.
    pub fn from_string(s: &str) -> (r: Self)
        ensures
            r matches CapeStringHashKey::Owned(c) && c@ == lower_each(s@),
    {
        CapeStringHashKey::Owned(CapeStringConstNoCase::from_string(s))
    }

    /// An owned key for CAPE-OPEN character data (without the terminating
    /// null).
    pub fn from_cape_char_const(chars: &[CapeCharacter]) -> (r: Self)
        ensures
            r matches CapeStringHashKey::Owned(c) && c@ == lower_each(chars@),
    {
        CapeStringHashKey::Owned(CapeStringConstNoCase::from_chars(chars))
    }

    /// A borrowed key for the characters of any CAPE-OPEN string.
    pub fn from_string_constant<'b, T: CapeStringConstProvider>(c: &'b T) -> (r: CapeStringHashKey<'b>)
        ensures
            r matches CapeStringHashKey::Borrowed(b) && b@ == c.const_chars(),
    {
        let (data, n) = c.as_capechar_const_with_length();
        let r = CapeStringHashKey::Borrowed(&data[0..n]);
        assert(data@.subrange(0, n as int) =~= c.const_chars());
        r
    }

    /// The characters of the key: lowercased for an owned key, as given
    /// for a borrowed one.
    pub fn as_string(&self) -> (r: String)
        ensures
            r@ == key_chars(*self),
    {
        match self {
            CapeStringHashKey::Owned(c) => c.as_string(),
            CapeStringHashKey::Borrowed(b) => string_of(b),
        }
    }

    /// A copy of the key.
    pub fn duplicate(&self) -> (r: CapeStringHashKey<'a>)
        ensures
            key_chars(r) == key_chars(*self),
            (r is Owned) == (*self is Owned),
    {
        match self {
            CapeStringHashKey::Owned(c) => CapeStringHashKey::Owned(c.duplicate()),
            CapeStringHashKey::Borrowed(b) => CapeStringHashKey::Borrowed(b),
        }
    }
}

impl<'a> PartialEq for CapeStringHashKey<'a> {
    /// Case insensitive comparison of two keys.
    fn eq(&self, other: &Self) -> (r: bool) {
        match (self, other) {
            (CapeStringHashKey::Owned(x), CapeStringHashKey::Owned(y)) => {
                proof {
                    lemma_matches_lowered_is_lower_each(x@, y@);
                }
                x.eq(y)
            },
            (CapeStringHashKey::Owned(x), CapeStringHashKey::Borrowed(y)) => {
                let (xd, xn) = x.as_capechar_const_with_length();
                let xs = &xd[0..xn];
                assert(xs@ =~= x@);
                proof {
                    lemma_matches_lowered_is_lower_each(x@, y@);
                }
                matches_lowered_slices(xs, y)
            },
            (CapeStringHashKey::Borrowed(x), CapeStringHashKey::Owned(y)) => {
                let (yd, yn) = y.as_capechar_const_with_length();
                let ys = &yd[0..yn];
                assert(ys@ =~= y@);
                proof {
                    lemma_matches_lowered_is_lower_each(y@, x@);
                }
                matches_lowered_slices(ys, x)
            },
            (CapeStringHashKey::Borrowed(x), CapeStringHashKey::Borrowed(y)) => {
                proof {
                    lemma_lower_each_eq_no_case(x@, y@);
                }
                eq_no_case_slices(x, y)
            },
        }
    }
}

impl<'a> vstd::std_specs::cmp::PartialEqSpecImpl for CapeStringHashKey<'a> {
    open spec fn obeys_eq_spec() -> bool {
        true
    }

    open spec fn eq_spec(&self, other: &Self) -> bool {
        key_eq(*self, *other)
    }
}

impl<'a> Eq for CapeStringHashKey<'a> {
}

impl<'a> Clone for CapeStringHashKey<'a> {
    fn clone(&self) -> (r: Self)
        ensures
            key_chars(r) == key_chars(*self),
            (r is Owned) == (*self is Owned),
    {
        self.duplicate()
    }
}

/// Feeds a character to a hasher, by std's `Hash` for `char`. Nothing is
/// stated of the hasher's state.
#[verifier::external_body]
fn hash_char<H: std::hash::Hasher>(c: char, state: &mut H) {
    std::hash::Hash::hash(&c, state)
}

/// The characters by which a key is identified, and which its hash is
/// made of: those of an owned key (already lowercased), or those of a
/// borrowed key lowercased.
pub open spec fn map_key(k: CapeStringHashKey) -> Seq<char> {
    match k {
        CapeStringHashKey::Owned(c) => c@,
        CapeStringHashKey::Borrowed(b) => lower_each(b@),
    }
}

impl<'a> CapeStringHashKey<'a> {
    /// The characters the hash of the key is made of, in order: the
    /// stored characters of an owned key, the lowercased characters of a
    /// borrowed one.
    pub fn hash_chars(&self) -> (r: Vec<CapeCharacter>)
        ensures
            r@ == map_key(*self),
    {
        match self {
            CapeStringHashKey::Owned(c) => {
                let (d, n) = c.as_capechar_const_with_length();
                let mut v: Vec<CapeCharacter> = Vec::new();
                let mut i: usize = 0;
                while i < n
                    invariant
                        0 <= i <= n,
                        n == c@.len(),
                        d@ == c@.push('\0'),
                        v@ == c@.take(i as int),
                    decreases n - i,
                {
                    v.push(d[i]);
                    i = i + 1;
                    assert(v@ =~= c@.take(i as int));
                }
                assert(c@.take(n as int) =~= c@);
                v
            },
            CapeStringHashKey::Borrowed(b) => {
                let mut v: Vec<CapeCharacter> = Vec::new();
                let mut i: usize = 0;
                while i < b.len()
                    invariant
                        0 <= i <= b@.len(),
                        v@ == lower_each(b@.take(i as int)),
                    decreases b@.len() - i,
                {
                    v.push(lower_char(b[i]));
                    i = i + 1;
                    assert(v@ =~= lower_each(b@.take(i as int)));
                }
                assert(b@.take(b@.len() as int) =~= b@);
                v
            },
        }
    }
}

/// Keys that compare equal are hashed from the same characters, so they
/// hash alike: always when one of them is borrowed, and for two owned keys
/// when the characters of the second are unchanged by lowercasing (as
/// those of a key made from a string are, where lowercasing a lowercase
/// character leaves it as it is).
pub proof fn law_equal_keys_hash_alike(a: CapeStringHashKey, b: CapeStringHashKey)
    requires
        key_eq(a, b),
        a is Owned && b is Owned ==> key_chars(b) == lower_each(key_chars(b)),
    ensures
        map_key(a) == map_key(b),
{
}

impl<'a> std::hash::Hash for CapeStringHashKey<'a> {
    /// Feeds the characters of `hash_chars` to the hasher, one at a time,
    /// so that keys that compare equal hash alike, whether owned or
    /// borrowed.
    fn hash<H: std::hash::Hasher>(&self, state: &mut H) {
        let chars = self.hash_chars();
        let mut i: usize = 0;
        while i < chars.len()
            invariant
                0 <= i <= chars@.len(),
            decreases chars@.len() - i,
        {
            hash_char(chars[i], state);
            i = i + 1;
        }
    }
}

/// Key equality is symmetric.
pub proof fn lemma_key_eq_symmetric_mixed(a: CapeStringHashKey, b: CapeStringHashKey)
    requires
        !(a is Owned && b is Owned),
    ensures
        key_eq(a, b) == key_eq(b, a),
{
}

} // verus!
