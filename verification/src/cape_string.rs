use vstd::prelude::*;
use crate::cape_types::{CapeCharacter, COBIAERR_NOERROR};
use crate::cape_text::{char_lower, eq_no_case, string_of};
use crate::cape_string_impl::CapeStringImpl;
use crate::cape_string_const::eq_no_case_slices;
use crate::cape_data_traits::{CapeStringConstProvider, CapeStringProviderIn, CapeStringProviderOut};
use crate::cape_error::COBIAError;

verus! {

/// Read-only view of a CAPE-OPEN string, as received for an input argument.
///
/// It refers to the null terminated character data of the string.
#[derive(Debug, Clone, Copy)]
pub struct CapeStringIn<'a> {
    data: &'a [CapeCharacter],
}

impl<'a> View for CapeStringIn<'a> {
    type V = Seq<char>;

    /// The characters of the string, without the terminating null.
    closed spec fn view(&self) -> Seq<char> {
        self.data@.drop_last()
    }
}

impl<'a> CapeStringIn<'a> {
    #[verifier::type_invariant]
    closed spec fn inv(&self) -> bool {
        self.data@.len() >= 1 && self.data@.last() == '\0'
    }

    proof fn lemma_data(&self)
        requires
            self.inv(),
        ensures
            self.data@ == self@.push('\0'),
    {
        assert(self.data@ =~= self.data@.drop_last().push('\0'));
    }

    /// A view of the string that `interface` holds.
    pub fn new<T: CapeStringConstProvider>(interface: &'a T) -> (r: CapeStringIn<'a>)
        ensures
            r@ == interface.const_chars(),
    {
        let data = interface.as_capechar_const();
        let r = CapeStringIn { data };
        assert(data@.drop_last() =~= interface.const_chars());
        r
    }

    /// The characters of the string, as a `String`.
    pub fn as_string(&self) -> (r: String)
        ensures
            r@ == self@,
    {
        proof {
            use_type_invariant(self);
        }
        let n = self.data.len() - 1;
        let r = string_of(&self.data[0..n]);
        r
    }

    /// The character data: the characters and the terminating null, or no
    /// data at all for the empty string.
    pub fn as_slice(&self) -> (r: &'a [CapeCharacter])
        ensures
            self@.len() == 0 ==> r@.len() == 0,
            self@.len() > 0 ==> r@ == self@.push('\0'),
    {
        proof {
            use_type_invariant(self);
            self.lemma_data();
        }
        if self.data.len() == 1 {
            &self.data[0..0]
        } else {
            self.data
        }
    }

    /// Case insensitive comparison with any CAPE-OPEN string.
    pub fn eq_ignore_case<T: CapeStringConstProvider>(&self, other: &T) -> (r: bool)
        ensures
            r == eq_no_case(self@, other.const_chars()),
    {
        proof {
            use_type_invariant(self);
        }
        let (o, n) = other.as_capechar_const_with_length();
        let mine = &self.data[0..self.data.len() - 1];
        let theirs = &o[0..n];
        assert(mine@ =~= self@);
        assert(theirs@ =~= other.const_chars());
        eq_no_case_slices(mine, theirs)
    }

    /// Case sensitive comparison with any CAPE-OPEN string.
    pub fn eq<T: CapeStringConstProvider>(&self, other: &T) -> (r: bool)
        ensures
            r == (self@ == other.const_chars()),
    {
        proof {
            use_type_invariant(self);
        }
        let (o, n) = other.as_capechar_const_with_length();
        let mine = &self.data[0..self.data.len() - 1];
        let theirs = &o[0..n];
        assert(mine@ =~= self@);
        assert(theirs@ =~= other.const_chars());
        chars_equal(mine, theirs)
    }

    /// Whether the string is empty, or starts with a null character.
    pub fn is_empty(&self) -> (r: bool)
        ensures
            r == (self@.len() == 0 || self@[0] == '\0'),
    {
        proof {
            use_type_invariant(self);
            self.lemma_data();
        }
        self.data.len() == 1 || self.data[0] == '\0'
    }
}

/// Whether two character slices are equal.
pub fn chars_equal(a: &[CapeCharacter], b: &[CapeCharacter]) -> (r: bool)
    ensures
        r == (a@ == b@),
{
    if a.len() != b.len() {
        return false;
    }
    let mut i: usize = 0;
    while i < a.len()
        invariant
            0 <= i <= a@.len(),
            a@.len() == b@.len(),
            forall|j: int| 0 <= j < i ==> a@[j] == b@[j],
        decreases a@.len() - i,
    {
        if a[i] != b[i] {
            return false;
        }
        i = i + 1;
    }
    assert(a@ =~= b@);
    true
}

impl<'a, T: CapeStringConstProvider> PartialEq<T> for CapeStringIn<'a> {
    /// Case sensitive comparison with any CAPE-OPEN string.
    fn eq(&self, other: &T) -> (r: bool) {
        proof {
            use_type_invariant(self);
        }
        let (o, n) = other.as_capechar_const_with_length();
        let mine = &self.data[0..self.data.len() - 1];
        let theirs = &o[0..n];
        assert(mine@ =~= self@);
        assert(theirs@ =~= other.const_chars());
        chars_equal(mine, theirs)
    }
}

impl<'a, T: CapeStringConstProvider> vstd::std_specs::cmp::PartialEqSpecImpl<T> for CapeStringIn<'a> {
    open spec fn obeys_eq_spec() -> bool {
        true
    }

    open spec fn eq_spec(&self, other: &T) -> bool {
        self@ == other.const_chars()
    }
}

impl<'a> CapeStringConstProvider for CapeStringIn<'a> {
    open spec fn const_chars(&self) -> Seq<CapeCharacter> {
        self@
    }

    fn as_capechar_const(&self) -> (r: &[CapeCharacter]) {
        proof {
            use_type_invariant(self);
            self.lemma_data();
        }
        self.data
    }

    fn as_capechar_const_with_length(&self) -> (r: (&[CapeCharacter], usize)) {
        proof {
            use_type_invariant(self);
            self.lemma_data();
        }
        (self.data, self.data.len() - 1)
    }
}

impl<'a> CapeStringProviderIn for CapeStringIn<'a> {
    open spec fn provided_string(&self) -> Seq<CapeCharacter> {
        self@
    }

    fn as_cape_string_in(&self) -> (r: CapeStringIn<'_>) {
        *self
    }
}

/// Writable view of a CAPE-OPEN string, as received for an output argument.
///
/// It refers to the string object that receives what is written.
#[derive(Debug)]
pub struct CapeStringOut<'a> {
    pub target: &'a mut CapeStringImpl,
}

impl<'a> CapeStringOut<'a> {
    /// The characters the target holds now.
    pub open spec fn current(&self) -> Seq<char> {
        (*self.target)@
    }

    /// A view that writes to `interface`.
    pub fn new(interface: &'a mut CapeStringImpl) -> (r: CapeStringOut<'a>)
        ensures
            r.current() == old(interface)@,
            *final(r.target) == *final(interface),
    {
        CapeStringOut { target: interface }
    }

    /// The characters of the string, as a `String`.
    pub fn as_string(&self) -> (r: String)
        ensures
            r@ == self.current(),
    {
        self.target.as_string()
    }

    /// Replaces the string by any CAPE-OPEN string.
    pub fn set<T: CapeStringConstProvider>(&mut self, s: &T) -> (r: Result<(), COBIAError>)
        ensures
            r is Ok,
            final(self).current() == s.const_chars(),
            *final(final(self).target) == *final(old(self).target),
    {
        self.target.set(s);
        Ok(())
    }

    /// Replaces the string by the characters of `s`.
    pub fn set_string(&mut self, s: &str) -> (r: Result<(), COBIAError>)
        ensures
            r is Ok,
            final(self).current() == s@,
            *final(final(self).target) == *final(old(self).target),
    {
        let v = CapeStringImpl::from_string(s);
        self.set(&v)
    }

    /// Case insensitive comparison with any CAPE-OPEN string.
    pub fn eq_ignore_case<T: CapeStringConstProvider>(&self, other: &T) -> (r: bool)
        ensures
            r == eq_no_case(self.current(), other.const_chars()),
    {
        let (d, m) = self.target.as_capechar_const_with_length();
        let (o, n) = other.as_capechar_const_with_length();
        let mine = &d[0..m];
        let theirs = &o[0..n];
        assert(mine@ =~= self.current());
        assert(theirs@ =~= other.const_chars());
        eq_no_case_slices(mine, theirs)
    }

    /// Case sensitive comparison with any CAPE-OPEN string.
    pub fn eq<T: CapeStringConstProvider>(&self, other: &T) -> (r: bool)
        ensures
            r == (self.current() == other.const_chars()),
    {
        let (d, m) = self.target.as_capechar_const_with_length();
        let (o, n) = other.as_capechar_const_with_length();
        let mine = &d[0..m];
        let theirs = &o[0..n];
        assert(mine@ =~= self.current());
        assert(theirs@ =~= other.const_chars());
        chars_equal(mine, theirs)
    }

    /// Whether the string is empty.
    pub fn is_empty(&self) -> (r: bool)
        ensures
            r == (self.current().len() == 0),
    {
        let (_d, m) = self.target.as_capechar_const_with_length();
        m == 0
    }
}

impl<'a, T: CapeStringConstProvider> PartialEq<T> for CapeStringOut<'a> {
    /// Case sensitive comparison with any CAPE-OPEN string.
    fn eq(&self, other: &T) -> (r: bool) {
        CapeStringOut::eq(self, other)
    }
}

impl<'a, T: CapeStringConstProvider> vstd::std_specs::cmp::PartialEqSpecImpl<T> for CapeStringOut<'a> {
    open spec fn obeys_eq_spec() -> bool {
        true
    }

    open spec fn eq_spec(&self, other: &T) -> bool {
        self.current() == other.const_chars()
    }
}

impl<'a> CapeStringConstProvider for CapeStringOut<'a> {
    open spec fn const_chars(&self) -> Seq<CapeCharacter> {
        self.current()
    }

    fn as_capechar_const(&self) -> (r: &[CapeCharacter]) {
        self.target.as_capechar_const()
    }

    fn as_capechar_const_with_length(&self) -> (r: (&[CapeCharacter], usize)) {
        self.target.as_capechar_const_with_length()
    }
}

impl<'a> CapeStringProviderOut for CapeStringOut<'a> {
    open spec fn held_string(&self) -> Seq<CapeCharacter> {
        self.current()
    }

    fn as_cape_string_out(&mut self) -> (r: CapeStringOut<'_>) {
        CapeStringOut { target: &mut *self.target }
    }
}

impl CapeStringProviderIn for CapeStringImpl {
    open spec fn provided_string(&self) -> Seq<CapeCharacter> {
        self@
    }

    fn as_cape_string_in(&self) -> (r: CapeStringIn<'_>) {
        CapeStringIn::new(self)
    }
}

impl CapeStringProviderOut for CapeStringImpl {
    open spec fn held_string(&self) -> Seq<CapeCharacter> {
        self@
    }

    fn as_cape_string_out(&mut self) -> (r: CapeStringOut<'_>) {
        CapeStringOut::new(self)
    }
}

} // verus!
