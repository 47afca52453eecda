use vstd::prelude::*;
use crate::cape_types::COBIAERR_NOSUCHITEM;
use crate::cape_error::COBIAError;
use crate::cape_value::no_such_item;
use crate::cape_string_impl::CapeStringImpl;
use crate::cape_string::{CapeStringIn, CapeStringOut};
use crate::cape_array::resized;
use crate::cape_display::{bracketed, bracket_join, item_views, quoted, quoted_all};
use crate::cape_data_traits::CapeStringConstProvider;
use crate::cape_data_traits::{CapeArrayStringProviderIn, CapeArrayStringProviderOut};

verus! {

broadcast use vstd::string::group_string_axioms;

/// The characters of each string.
pub open spec fn string_views(s: Seq<CapeStringImpl>) -> Seq<Seq<char>> {
    s.map_values(|x: CapeStringImpl| x@)
}

/// The characters of each string slice.
pub open spec fn str_views(s: Seq<&str>) -> Seq<Seq<char>> {
    s.map_values(|x: &str| x@)
}

/// Read-only view of a CAPE-OPEN string array, as received for an input
/// argument.
#[derive(Clone, Copy)]
pub struct CapeArrayStringIn<'a> {
    data: &'a [CapeStringImpl],
}

impl<'a> View for CapeArrayStringIn<'a> {
    type V = Seq<Seq<char>>;

    closed spec fn view(&self) -> Seq<Seq<char>> {
        string_views(self.data@)
    }
}

impl<'a> CapeArrayStringIn<'a> {
    /// A view of the strings `interface` holds.
    pub fn new(interface: &'a [CapeStringImpl]) -> (r: Self)
        ensures
            r@ == string_views(interface@),
    {
        CapeArrayStringIn { data: interface }
    }

    /// Number of strings.
    pub fn size(&self) -> (r: usize)
        ensures
            r == self@.len(),
    {
        self.data.len()
    }

    /// Whether the array has no strings.
    pub fn is_empty(&self) -> (r: bool)
        ensures
            r == (self@.len() == 0),
    {
        self.data.len() == 0
    }

    /// The strings, as a vector of `String`.
    pub fn as_string_vec(&self) -> (r: Vec<String>)
        ensures
            r@.len() == self@.len(),
            forall|i: int| 0 <= i < self@.len() ==> #[trigger] r@[i]@ == self@[i],
    {
        strings_of(self.data)
    }

    /// The string at `index`; `COBIAERR_NOSUCHITEM` past the end.
    pub fn at(&self, index: usize) -> (r: Result<CapeStringIn<'a>, COBIAError>)
        ensures
            index < self@.len() ==> (r matches Ok(s) && s@ == self@[index as int]),
            index >= self@.len() ==> r == Err::<CapeStringIn<'a>, COBIAError>(no_such_item()),
    {
        let data: &'a [CapeStringImpl] = self.data;
        if index >= data.len() {
            return Err(COBIAError::Code(COBIAERR_NOSUCHITEM));
        }
        Ok(CapeStringIn::new(&data[index]))
    }

    /// The strings between double quotes, separated by commas, between
    /// square brackets: `["a", "b"]`.
    pub fn to_string(&self) -> (r: String)
        ensures
            r@ == bracketed(quoted_all(self@)),
    {
        display_strings(self.data)
    }

    /// An iterator over the strings.
    pub fn iter(&self) -> (r: CapeArrayStringInIterator<'a>)
        ensures
            r.remaining() == self@,
    {
        let r = CapeArrayStringInIterator { data: self.data, index: 0 };
        assert(string_views(self.data@).skip(0) =~= string_views(self.data@));
        r
    }
}

/// The strings of a slice, as a vector of `String`.
pub fn strings_of(data: &[CapeStringImpl]) -> (r: Vec<String>)
    ensures
        r@.len() == data@.len(),
        forall|i: int| 0 <= i < data@.len() ==> #[trigger] r@[i]@ == data@[i]@,
{
    let mut v: Vec<String> = Vec::new();
    let mut i: usize = 0;
    while i < data.len()
        invariant
            0 <= i <= data@.len(),
            v@.len() == i,
            forall|j: int| 0 <= j < i ==> #[trigger] v@[j]@ == data@[j]@,
        decreases data@.len() - i,
    {
        v.push(data[i].as_string());
        i = i + 1;
    }
    v
}

/// Displays strings as an array: each between double quotes, separated by
/// commas, between square brackets.
pub fn display_strings(data: &[CapeStringImpl]) -> (r: String)
    ensures
        r@ == bracketed(quoted_all(string_views(data@))),
{
    let mut items: Vec<Vec<char>> = Vec::new();
    let mut i: usize = 0;
    while i < data.len()
        invariant
            0 <= i <= data@.len(),
            items@.len() == i,
            forall|j: int| 0 <= j < i ==> #[trigger] items@[j]@ == quoted(data@[j]@),
        decreases data@.len() - i,
    {
        let (d, n) = data[i].as_capechar_const_with_length();
        let mut t: Vec<char> = Vec::new();
        t.push('"');
        let mut j: usize = 0;
        while j < n
            invariant
                0 <= j <= n,
                n == data@[i as int]@.len(),
                d@ == data@[i as int]@.push('\0'),
                t@ == seq!['"'] + data@[i as int]@.take(j as int),
            decreases n - j,
        {
            t.push(d[j]);
            j = j + 1;
            assert(t@ =~= seq!['"'] + data@[i as int]@.take(j as int));
        }
        t.push('"');
        assert(data@[i as int]@.take(n as int) =~= data@[i as int]@);
        assert(t@ =~= quoted(data@[i as int]@));
        items.push(t);
        i = i + 1;
    }
    assert(item_views(items@) =~= quoted_all(string_views(data@)));
    bracket_join(&items)
}

/// An iterator over the strings of a read-only string array view.
pub struct CapeArrayStringInIterator<'a> {
    data: &'a [CapeStringImpl],
    index: usize,
}

impl<'a> CapeArrayStringInIterator<'a> {
    /// The strings still to be handed out.
    pub closed spec fn remaining(&self) -> Seq<Seq<char>> {
        if self.index <= self.data@.len() {
            string_views(self.data@).skip(self.index as int)
        } else {
            Seq::empty()
        }
    }

    /// Hands out the next string, or `None` after the last one.
    pub fn next(&mut self) -> (r: Option<CapeStringIn<'a>>)
        ensures
            old(self).remaining().len() == 0 ==> r is None && final(self).remaining() == old(self).remaining(),
            old(self).remaining().len() > 0 ==> (r matches Some(s) && s@ == old(self).remaining()[0])
                && final(self).remaining() == old(self).remaining().drop_first(),
    {
        let data: &'a [CapeStringImpl] = self.data;
        if self.index < data.len() {
            let s = CapeStringIn::new(&data[self.index]);
            self.index = self.index + 1;
            assert(string_views(self.data@).skip(self.index as int) =~= string_views(old(self).data@).skip(old(self).index as int).drop_first());
            Some(s)
        } else {
            None
        }
    }
}

impl<'a> CapeArrayStringProviderIn for CapeArrayStringIn<'a> {
    open spec fn provided_strings(&self) -> Seq<Seq<char>> {
        self@
    }

    fn as_cape_array_string_in(&self) -> (r: CapeArrayStringIn<'_>) {
        CapeArrayStringIn { data: self.data }
    }
}

/// Writable view of a CAPE-OPEN string array, as received for an output
/// argument. It refers to the vector of strings that receives what is
/// written; the array can be resized.
pub struct CapeArrayStringOut<'a> {
    pub target: &'a mut Vec<CapeStringImpl>,
}

impl<'a> CapeArrayStringOut<'a> {
    /// The strings the target holds now.
    pub open spec fn current(&self) -> Seq<Seq<char>> {
        string_views((*self.target)@)
    }

    /// A view that writes to `interface`.
    pub fn new(interface: &'a mut Vec<CapeStringImpl>) -> (r: Self)
        ensures
            r.current() == string_views(old(interface)@),
            *final(r.target) == *final(interface),
    {
        CapeArrayStringOut { target: interface }
    }

    /// The strings, as a vector of `String`.
    pub fn as_string_vec(&self) -> (r: Vec<String>)
        ensures
            r@.len() == self.current().len(),
            forall|i: int| 0 <= i < self.current().len() ==> #[trigger] r@[i]@ == self.current()[i],
    {
        strings_of(self.target.as_slice())
    }

    /// The strings between double quotes, separated by commas, between
    /// square brackets: `["a", "b"]`.
    pub fn to_string(&self) -> (r: String)
        ensures
            r@ == bracketed(quoted_all(self.current())),
    {
        display_strings(self.target.as_slice())
    }

    /// Number of strings.
    pub fn size(&self) -> (r: usize)
        ensures
            r == self.current().len(),
    {
        self.target.len()
    }

    /// Whether the array has no strings.
    pub fn is_empty(&self) -> (r: bool)
        ensures
            r == (self.current().len() == 0),
    {
        self.target.len() == 0
    }

    /// Replaces all strings by those of `array`.
    pub fn put_array(&mut self, array: &[&str]) -> (r: Result<(), COBIAError>)
        ensures
            r is Ok,
            final(self).current() == str_views(array@),
            *final(final(self).target) == *final(old(self).target),
    {
        let mut v: Vec<CapeStringImpl> = Vec::new();
        let mut i: usize = 0;
        while i < array.len()
            invariant
                0 <= i <= array@.len(),
                v@.len() == i,
                forall|j: int| 0 <= j < i ==> #[trigger] v@[j]@ == array@[j]@,
            decreases array@.len() - i,
        {
            v.push(CapeStringImpl::from_string(array[i]));
            i = i + 1;
        }
        assert(string_views(v@) =~= str_views(array@));
        *self.target = v;
        Ok(())
    }

    /// A writable view of the string at `index`; `COBIAERR_NOSUCHITEM`
    /// past the end.
    pub fn at(&mut self, index: usize) -> (r: Result<CapeStringOut<'_>, COBIAError>)
        ensures
            index < old(self).current().len() ==> (r matches Ok(s) && s.current() == old(self).current()[index as int]
                && final(self).current() == old(self).current().update(index as int, (*final(s.target))@)),
            index >= old(self).current().len() ==> r == Err::<CapeStringOut<'_>, COBIAError>(no_such_item())
                && final(self).current() == old(self).current(),
            *final(final(self).target) == *final(old(self).target),
    {
        if index >= self.target.len() {
            return Err(COBIAError::Code(COBIAERR_NOSUCHITEM));
        }
        proof {
            lemma_views_update(self.target@, index as int);
        }
        let s = CapeStringOut { target: &mut self.target[index] };
        Ok(s)
    }

    /// Changes the number of strings: the first ones stay, new ones are
    /// empty.
    pub fn resize(&mut self, size: usize) -> (r: Result<(), COBIAError>)
        ensures
            r is Ok,
            final(self).current() == resized(old(self).current(), size as int, Seq::<char>::empty()),
            *final(final(self).target) == *final(old(self).target),
    {
        resize_strings(self.target, size);
        Ok(())
    }

    /// Replaces the string at `index` by the characters of `value`;
    /// `COBIAERR_NOSUCHITEM` past the end.
    pub fn set_string(&mut self, index: usize, value: &str) -> (r: Result<(), COBIAError>)
        ensures
            index < old(self).current().len() ==> r is Ok && final(self).current() == old(self).current().update(index as int, value@),
            index >= old(self).current().len() ==> r == Err::<(), COBIAError>(no_such_item())
                && final(self).current() == old(self).current(),
            *final(final(self).target) == *final(old(self).target),
    {
        if index >= self.target.len() {
            return Err(COBIAError::Code(COBIAERR_NOSUCHITEM));
        }
        self.target.set(index, CapeStringImpl::from_string(value));
        assert(string_views((*self.target)@) =~= string_views((*old(self).target)@).update(index as int, value@));
        Ok(())
    }

    /// Replaces all strings by those of any CAPE-OPEN string array.
    pub fn set<T: CapeArrayStringProviderIn>(&mut self, array: &T) -> (r: Result<(), COBIAError>)
        ensures
            r is Ok,
            final(self).current() == array.provided_strings(),
            *final(final(self).target) == *final(old(self).target),
    {
        let source = array.as_cape_array_string_in();
        *self.target = copy_strings(source.data);
        Ok(())
    }

    /// An iterator over writable views of the strings.
    pub fn iter(&mut self) -> (r: CapeArrayStringIterator<'_>)
        ensures
            r.remaining() == old(self).current(),
            r.position() == 0,
            final(self).current() == string_views((*final(r.target))@),
            *final(final(self).target) == *final(old(self).target),
    {
        let r = CapeArrayStringIterator { target: &mut *self.target, index: 0 };
        assert(string_views((*r.target)@).skip(0) =~= string_views((*r.target)@));
        r
    }
}

/// Replacing one string replaces its characters in the views.
pub proof fn lemma_views_update(s: Seq<CapeStringImpl>, i: int)
    requires
        0 <= i < s.len(),
    ensures
        forall|x: CapeStringImpl| #[trigger] string_views(s.update(i, x)) == string_views(s).update(i, x@),
{
    assert forall|x: CapeStringImpl| #[trigger] string_views(s.update(i, x)) == string_views(s).update(i, x@) by {
        assert(string_views(s.update(i, x)) =~= string_views(s).update(i, x@));
    }
}

/// Replacing the string at `i` leaves the views after `i` as they were.
pub proof fn lemma_skip_update(s: Seq<CapeStringImpl>, i: int)
    requires
        0 <= i < s.len(),
    ensures
        forall|x: CapeStringImpl| #[trigger] string_views(s.update(i, x)).skip(i + 1) == string_views(s).skip(i).drop_first(),
{
    assert forall|x: CapeStringImpl| #[trigger] string_views(s.update(i, x)).skip(i + 1) == string_views(s).skip(i).drop_first() by {
        assert(string_views(s.update(i, x)).skip(i + 1) =~= string_views(s).skip(i).drop_first());
    }
}

/// Copies of the strings of a slice.
pub fn copy_strings(data: &[CapeStringImpl]) -> (r: Vec<CapeStringImpl>)
    ensures
        string_views(r@) == string_views(data@),
{
    let mut v: Vec<CapeStringImpl> = Vec::new();
    let mut i: usize = 0;
    while i < data.len()
        invariant
            0 <= i <= data@.len(),
            v@.len() == i,
            forall|j: int| 0 <= j < i ==> #[trigger] v@[j]@ == data@[j]@,
        decreases data@.len() - i,
    {
        v.push(data[i].clone());
        i = i + 1;
    }
    assert(string_views(v@) =~= string_views(data@));
    v
}

/// Resizes a vector of strings: the first ones stay, new ones are empty.
pub fn resize_strings(v: &mut Vec<CapeStringImpl>, size: usize)
    ensures
        string_views(final(v)@) == resized(string_views(old(v)@), size as int, Seq::<char>::empty()),
{
    if size <= v.len() {
        v.truncate(size);
    } else {
        while v.len() < size
            invariant
                size > old(v)@.len(),
                old(v)@.len() <= v@.len() <= size,
                forall|i: int| 0 <= i < v@.len() ==> #[trigger] v@[i]@ == (if i < old(v)@.len() { old(v)@[i]@ } else { Seq::<char>::empty() }),
            decreases size - v@.len(),
        {
            v.push(CapeStringImpl::new());
        }
    }
    assert(string_views(v@) =~= resized(string_views(old(v)@), size as int, Seq::<char>::empty()));
}

/// An iterator over writable views of the strings of a string array.
pub struct CapeArrayStringIterator<'a> {
    pub target: &'a mut Vec<CapeStringImpl>,
    pub index: usize,
}

impl<'a> CapeArrayStringIterator<'a> {
    /// Number of strings handed out so far.
    pub open spec fn position(&self) -> int {
        self.index as int
    }

    /// The strings still to be handed out.
    pub open spec fn remaining(&self) -> Seq<Seq<char>> {
        if self.index <= (*self.target)@.len() {
            string_views((*self.target)@).skip(self.index as int)
        } else {
            Seq::empty()
        }
    }

    /// Hands out a writable view of the next string, or `None` after the
    /// last one. What is written through the view replaces that string.
    pub fn next(&mut self) -> (r: Option<CapeStringOut<'_>>)
        ensures
            old(self).remaining().len() == 0 ==> r is None && final(self).remaining() == old(self).remaining()
                && (*final(self).target)@ == (*old(self).target)@,
            old(self).remaining().len() > 0 ==> (r matches Some(s) && s.current() == old(self).remaining()[0]
                && (*final(self).target)@ == (*old(self).target)@.update(old(self).position(), *final(s.target)))
                && final(self).remaining() == old(self).remaining().drop_first()
                && final(self).position() == old(self).position() + 1,
            *final(final(self).target) == *final(old(self).target),
    {
        if self.index < self.target.len() {
            let i = self.index;
            self.index = i + 1;
            proof {
                lemma_views_update(self.target@, i as int);
                lemma_skip_update(self.target@, i as int);
            }
            let s = CapeStringOut { target: &mut self.target[i] };
            Some(s)
        } else {
            None
        }
    }
}

impl<'a> CapeArrayStringProviderOut for CapeArrayStringOut<'a> {
    open spec fn held_strings(&self) -> Seq<Seq<char>> {
        self.current()
    }

    fn as_cape_array_string_out(&mut self) -> (r: CapeArrayStringOut<'_>) {
        CapeArrayStringOut { target: &mut *self.target }
    }
}

} // verus!
