use vstd::prelude::*;
use crate::cape_types::CapeCharacter;
use crate::cape_text::{char_lower, lower_char, lower_agree, eq_no_case, chars_of, string_of, str_lower, str_upper, str_to_lowercase, str_to_uppercase};
use crate::cape_data_traits::CapeStringConstProvider;

verus! {

/// Default CAPE-OPEN string implementation.
///
/// COBIA passes strings as null terminated character data. This string
/// keeps its characters followed by a terminating null character, so that
/// the data can be handed out as is.
#[derive(Debug, Hash)]
pub struct CapeStringImpl {
    data: Vec<CapeCharacter>,
}

impl View for CapeStringImpl {
    type V = Seq<char>;

    /// The characters of the string, without the terminating null.
    closed spec fn view(&self) -> Seq<char> {
        self.data@.drop_last()
    }
}

impl CapeStringImpl {
    /// The stored data: the characters followed by the terminating null.
    pub open spec fn terminated(&self) -> Seq<char> {
        self@.push('\0')
    }

    #[verifier::type_invariant]
    closed spec fn inv(&self) -> bool {
        self.data@.len() >= 1 && self.data@.last() == '\0'
    }

    /// Under the invariant, the stored data is the string followed by one
    /// null character.
    proof fn lemma_data(&self)
        requires
            self.inv(),
        ensures
            self.data@ == self.terminated(),
    {
        assert(self.data@ =~= self.data@.drop_last().push('\0'));
    }

    /// The empty string.
    pub fn new() -> (r: Self)
        ensures
            r@ == Seq::<char>::empty(),
    {
        let mut data: Vec<CapeCharacter> = Vec::new();
        data.push('\0');
        let r = CapeStringImpl { data };
        assert(r.data@.drop_last() =~= Seq::<char>::empty());
        r
    }

    /// A string with the characters of `s`.
    pub fn from_string(s: &str) -> (r: Self)
        ensures
            r@ == s@,
    {
        let mut data = chars_of(s);
        data.push('\0');
        let r = CapeStringImpl { data };
        assert(r.data@.drop_last() =~= s@);
        r
    }

    /// A string with the given characters.
    pub fn from_chars(chars: &[CapeCharacter]) -> (r: Self)
        ensures
            r@ == chars@,
    {
        let mut data: Vec<CapeCharacter> = Vec::new();
        let mut i: usize = 0;
        while i < chars.len()
            invariant
                0 <= i <= chars@.len(),
                data@ == chars@.take(i as int),
            decreases chars@.len() - i,
        {
            data.push(chars[i]);
            i = i + 1;
            assert(data@ =~= chars@.take(i as int));
        }
        data.push('\0');
        let r = CapeStringImpl { data };
        assert(r.data@.drop_last() =~= chars@);
        r
    }

    /// The characters of the string, as a `String`.
    pub fn as_string(&self) -> (r: String)
        ensures
            r@ == self@,
    {
        proof {
            use_type_invariant(self);
            self.lemma_data();
        }
        let n = self.data.len() - 1;
        string_of(&self.data.as_slice()[0..n])
    }

    /// The data: the characters followed by the terminating null.
    pub fn as_slice(&self) -> (r: &[CapeCharacter])
        ensures
            r@ == self.terminated(),
    {
        proof {
            use_type_invariant(self);
            self.lemma_data();
        }
        self.data.as_slice()
    }

    /// Whether the string is empty: its first stored character is the null
    /// character (this is also the case for a string that starts with an
    /// embedded null).
    pub fn is_empty(&self) -> (r: bool)
        ensures
            r == (self.terminated()[0] == '\0'),
            self@.len() == 0 ==> r,
    {
        proof {
            use_type_invariant(self);
            self.lemma_data();
        }
        self.data[0] == '\0'
    }

    /// Replaces the characters by those of `s`.
    pub fn set_string(&mut self, s: &str)
        ensures
            final(self)@ == s@,
    {
        let mut data = chars_of(s);
        data.push('\0');
        self.data = data;
        assert(self.data@.drop_last() =~= s@);
    }

    /// Replaces the characters by those of any CAPE-OPEN string.
    pub fn set<T: CapeStringConstProvider>(&mut self, s: &T)
        ensures
            final(self)@ == s.const_chars(),
    {
        let (src, n) = s.as_capechar_const_with_length();
        let mut data: Vec<CapeCharacter> = Vec::new();
        let mut i: usize = 0;
        while i < n
            invariant
                0 <= i <= n,
                n == s.const_chars().len(),
                src@ == s.const_chars().push('\0'),
                data@ == s.const_chars().take(i as int),
            decreases n - i,
        {
            data.push(src[i]);
            i = i + 1;
            assert(data@ =~= s.const_chars().take(i as int));
        }
        data.push('\0');
        self.data = data;
        assert(self.data@.drop_last() =~= s.const_chars());
    }

    /// The string in lower case, by std's `str::to_lowercase`.
    pub fn to_lowercase(&self) -> (r: Self)
        ensures
            r@ == str_lower(self@),
    {
        let s = self.as_string();
        let low = str_to_lowercase(s.as_str());
        CapeStringImpl::from_string(low.as_str())
    }

    /// The string in upper case, by std's `str::to_uppercase`.
    pub fn to_uppercase(&self) -> (r: Self)
        ensures
            r@ == str_upper(self@),
    {
        let s = self.as_string();
        let up = str_to_uppercase(s.as_str());
        CapeStringImpl::from_string(up.as_str())
    }

    /// Case insensitive comparison with any CAPE-OPEN string.
    ///
    /// The stored data (characters and terminating null) is compared, one
    /// lowercased character at a time, with the characters of `other`;
    /// when `other` ends first, the strings are equal if exactly the
    /// terminating null is left.
    pub fn eq_ignore_case<T: CapeStringConstProvider>(&self, other: &T) -> (r: bool)
        ensures
            r == terminated_eq_no_case(self.terminated(), other.const_chars()),
            other.const_chars().len() == 0 || char_lower(other.const_chars().last()) != char_lower('\0')
                ==> r == eq_no_case(self@, other.const_chars()),
    {
        proof {
            use_type_invariant(self);
            self.lemma_data();
        }
        let (o, n) = other.as_capechar_const_with_length();
        let m = self.data.len();
        let mut i: usize = 0;
        while i < m && i < n
            invariant
                0 <= i <= m,
                i <= n,
                m == self.data@.len(),
                self.data@ == self.terminated(),
                n == other.const_chars().len(),
                o@ == other.const_chars().push('\0'),
                lower_agree(self.data@, other.const_chars(), i as int),
            decreases m - i,
        {
            if lower_char(self.data[i]) != lower_char(o[i]) {
                proof {
                    assert(o@[i as int] == other.const_chars()[i as int]);
                    assert(char_lower(self.data@[i as int]) != char_lower(other.const_chars()[i as int]));
                    lemma_terminated_eq_no_case(self@, other.const_chars());
                }
                return false;
            }
            i = i + 1;
        }
        proof {
            lemma_terminated_eq_no_case(self@, other.const_chars());
        }
        if i == m && i == n {
            true
        } else if i < m {
            self.data[i] == '\0' && i + 1 == m
        } else {
            false
        }
    }

    /// Case sensitive comparison with any CAPE-OPEN string.
    ///
    /// The stored data (characters and terminating null) is compared, one
    /// character at a time, with the characters of `other`; when `other`
    /// ends first, the strings are equal if exactly the terminating null is
    /// left.
    pub fn eq<T: CapeStringConstProvider>(&self, other: &T) -> (r: bool)
        ensures
            r == terminated_eq(self.terminated(), other.const_chars()),
            other.const_chars().len() == 0 || other.const_chars().last() != '\0'
                ==> r == (self@ == other.const_chars()),
    {
        proof {
            lemma_terminated_eq(self@, other.const_chars());
        }
        proof {
            use_type_invariant(self);
            self.lemma_data();
        }
        let (o, n) = other.as_capechar_const_with_length();
        let m = self.data.len();
        let mut i: usize = 0;
        while i < m && i < n
            invariant
                0 <= i <= m,
                i <= n,
                m == self.data@.len(),
                self.data@ == self.terminated(),
                n == other.const_chars().len(),
                o@ == other.const_chars().push('\0'),
                forall|j: int| 0 <= j < i ==> self.data@[j] == other.const_chars()[j],
            decreases m - i,
        {
            if self.data[i] != o[i] {
                proof {
                    assert(o@[i as int] == other.const_chars()[i as int]);
                    assert(self.data@[i as int] != other.const_chars()[i as int]);
                    if self.data@.len() == other.const_chars().len() + 1 {
                        assert(self.data@.drop_last()[i as int] == self.data@[i as int]);
                    }
                }
                return false;
            }
            i = i + 1;
        }
        if i == m && i == n {
            proof {
                assert(self.data@ =~= other.const_chars());
            }
            true
        } else if i < m {
            proof {
                if self.data[i as int] == '\0' && i + 1 == m {
                    assert(self.data@.drop_last() =~= other.const_chars());
                }
            }
            self.data[i] == '\0' && i + 1 == m
        } else {
            false
        }
    }
}

/// Case insensitive match of stored data `data` (characters and terminating
/// null) against characters `other`: either the two have the same length
/// and agree lowercased, or `other` matches all of `data` but a final null.
pub open spec fn terminated_eq_no_case(data: Seq<char>, other: Seq<char>) -> bool {
    ||| data.len() == other.len() && lower_agree(data, other, other.len() as int)
    ||| data.len() == other.len() + 1 && lower_agree(data, other, other.len() as int)
        && data[other.len() as int] == '\0'
}

/// Case sensitive match of stored data `data` (characters and terminating
/// null) against characters `other`: either the two are equal, or `other`
/// is all of `data` but a final null.
pub open spec fn terminated_eq(data: Seq<char>, other: Seq<char>) -> bool {
    ||| data == other
    ||| data.len() == other.len() + 1 && data.drop_last() == other && data.last() == '\0'
}

/// For characters `o` without a trailing null, matching the stored data of
/// `s` is equality with `s`.
pub proof fn lemma_terminated_eq(s: Seq<char>, o: Seq<char>)
    ensures
        (o.len() == 0 || o.last() != '\0') ==> (terminated_eq(s.push('\0'), o) <==> s == o),
{
    let d = s.push('\0');
    assert(d.drop_last() =~= s);
    if o.len() == 0 || o.last() != '\0' {
        if d == o {
            assert(o.last() == '\0');
        }
    }
}

/// For characters `o` whose last one does not lowercase as the null
/// character does, matching the stored data of `s` case insensitively is
/// case insensitive equality with `s`.
pub proof fn lemma_terminated_eq_no_case(s: Seq<char>, o: Seq<char>)
    ensures
        (o.len() == 0 || char_lower(o.last()) != char_lower('\0'))
            ==> (terminated_eq_no_case(s.push('\0'), o) <==> eq_no_case(s, o)),
{
    let d = s.push('\0');
    if o.len() == 0 || char_lower(o.last()) != char_lower('\0') {
        if eq_no_case(s, o) {
            assert forall|i: int| 0 <= i < o.len() implies #[trigger] char_lower(d[i]) == char_lower(o[i]) by {
                assert(d[i] == s[i]);
            }
        }
        if terminated_eq_no_case(d, o) {
            if d.len() == o.len() {
                assert(d.last() == '\0');
                assert(char_lower(d[o.len() - 1]) == char_lower(o[o.len() - 1]));
                assert(false);
            }
            assert forall|i: int| 0 <= i < s.len() implies #[trigger] char_lower(s[i]) == char_lower(o[i]) by {
                assert(d[i] == s[i]);
            }
        }
    }
}

impl<T: CapeStringConstProvider> PartialEq<T> for CapeStringImpl {
    /// Case sensitive comparison of the characters with those of any
    /// CAPE-OPEN string.
    fn eq(&self, other: &T) -> (r: bool) {
        proof {
            use_type_invariant(self);
            self.lemma_data();
        }
        let (o, n) = other.as_capechar_const_with_length();
        if self.data.len() - 1 != n {
            return false;
        }
        let mut i: usize = 0;
        while i < n
            invariant
                0 <= i <= n,
                n == other.const_chars().len(),
                n == self@.len(),
                self.data@ == self@.push('\0'),
                o@ == other.const_chars().push('\0'),
                forall|j: int| 0 <= j < i ==> self@[j] == other.const_chars()[j],
            decreases n - i,
        {
            if self.data[i] != o[i] {
                proof {
                    assert(self.data@[i as int] == self@[i as int]);
                    assert(o@[i as int] == other.const_chars()[i as int]);
                }
                return false;
            }
            proof {
                assert(self.data@[i as int] == self@[i as int]);
                assert(o@[i as int] == other.const_chars()[i as int]);
            }
            i = i + 1;
        }
        assert(self@ =~= other.const_chars());
        true
    }
}

impl<T: CapeStringConstProvider> vstd::std_specs::cmp::PartialEqSpecImpl<T> for CapeStringImpl {
    open spec fn obeys_eq_spec() -> bool {
        true
    }

    open spec fn eq_spec(&self, other: &T) -> bool {
        self@ == other.const_chars()
    }
}

impl Eq for CapeStringImpl {
}

impl Clone for CapeStringImpl {
    fn clone(&self) -> (r: Self)
        ensures
            r@ == self@,
    {
        let mut c = CapeStringImpl::new();
        c.set(self);
        c
    }
}

impl Default for CapeStringImpl {
    fn default() -> (r: Self)
        ensures
            r@ == Seq::<char>::empty(),
    {
        CapeStringImpl::new()
    }
}

impl CapeStringConstProvider for CapeStringImpl {
    open spec fn const_chars(&self) -> Seq<CapeCharacter> {
        self@
    }

    fn as_capechar_const(&self) -> (r: &[CapeCharacter]) {
        proof {
            use_type_invariant(self);
            self.lemma_data();
        }
        self.data.as_slice()
    }

    fn as_capechar_const_with_length(&self) -> (r: (&[CapeCharacter], usize)) {
        proof {
            use_type_invariant(self);
            self.lemma_data();
        }
        (self.data.as_slice(), self.data.len() - 1)
    }
}

} // verus!
