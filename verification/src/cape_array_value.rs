use vstd::prelude::*;
use crate::cape_types::COBIAERR_NOSUCHITEM;
use crate::cape_error::COBIAError;
use crate::cape_value_impl::{CapeValueImpl, CapeValueContent, CapeValueModel, copy_content};
use crate::cape_value::{CapeValueIn, CapeValueOut};
use crate::cape_array::resized;
use crate::cape_value::{no_such_item, value_display, push_value_display};
use crate::cape_array_string::str_views;
use crate::cape_display::{bracketed, bracket_join, item_views};
use crate::cape_data_traits::{CapeArrayValueProviderIn, CapeArrayValueProviderOut};

verus! {

/// The content of each value.
pub open spec fn value_views(s: Seq<CapeValueImpl>) -> Seq<CapeValueModel> {
    s.map_values(|x: CapeValueImpl| x@)
}

/// The content of each value content.
pub open spec fn content_views(s: Seq<CapeValueContent>) -> Seq<CapeValueModel> {
    s.map_values(|x: CapeValueContent| x@)
}

/// Read-only view of a CAPE-OPEN value array, as received for an input
/// argument.
#[derive(Clone, Copy)]
pub struct CapeArrayValueIn<'a> {
    data: &'a [CapeValueImpl],
}

impl<'a> View for CapeArrayValueIn<'a> {
    type V = Seq<CapeValueModel>;

    closed spec fn view(&self) -> Seq<CapeValueModel> {
        value_views(self.data@)
    }
}

impl<'a> CapeArrayValueIn<'a> {
    /// A view of the values `interface` holds.
    pub fn new(interface: &'a [CapeValueImpl]) -> (r: Self)
        ensures
            r@ == value_views(interface@),
    {
        CapeArrayValueIn { data: interface }
    }

    /// Number of values.
    pub fn size(&self) -> (r: usize)
        ensures
            r == self@.len(),
    {
        self.data.len()
    }

    /// Whether the array has no values.
    pub fn is_empty(&self) -> (r: bool)
        ensures
            r == (self@.len() == 0),
    {
        self.data.len() == 0
    }

    /// The value at `index`; `COBIAERR_NOSUCHITEM` past the end.
    pub fn at(&self, index: usize) -> (r: Result<CapeValueIn<'a>, COBIAError>)
        ensures
            index < self@.len() ==> (r matches Ok(v) && v@ == self@[index as int]),
            index >= self@.len() ==> r == Err::<CapeValueIn<'a>, COBIAError>(no_such_item()),
    {
        let data: &'a [CapeValueImpl] = self.data;
        if index >= data.len() {
            return Err(COBIAError::Code(COBIAERR_NOSUCHITEM));
        }
        Ok(CapeValueIn::new(&data[index]))
    }

    /// The contents of the values. Every value reports a content of its
    /// own type, so this always succeeds.
    pub fn as_value_vec(&self) -> (r: Result<Vec<CapeValueContent>, COBIAError>)
        ensures
            r matches Ok(v) && content_views(v@) == self@,
    {
        Ok(contents_of(self.data))
    }

    /// The values as text, separated by commas, between square brackets:
    /// `[4, true, <empty>, "H2O"]`. The value at `i`, if a real, is
    /// displayed as `real_texts[i]`, the text of its double.
    pub fn to_string(&self, real_texts: &[&str]) -> (r: String)
        ensures
            r@ == bracketed(value_displays(self@, str_views(real_texts@))),
    {
        display_values(self.data, real_texts)
    }

    /// An iterator over the values.
    pub fn iter(&self) -> (r: CapeArrayValueInIterator<'a>)
        ensures
            r.remaining() == self@,
    {
        let r = CapeArrayValueInIterator { data: self.data, index: 0 };
        assert(value_views(self.data@).skip(0) =~= value_views(self.data@));
        r
    }
}

/// The contents of the values of a slice.
pub fn contents_of(data: &[CapeValueImpl]) -> (r: Vec<CapeValueContent>)
    ensures
        content_views(r@) == value_views(data@),
{
    let mut v: Vec<CapeValueContent> = Vec::new();
    let mut i: usize = 0;
    while i < data.len()
        invariant
            0 <= i <= data@.len(),
            v@.len() == i,
            forall|j: int| 0 <= j < i ==> #[trigger] v@[j]@ == data@[j]@,
        decreases data@.len() - i,
    {
        v.push(data[i].value());
        i = i + 1;
    }
    assert(content_views(v@) =~= value_views(data@));
    v
}

/// The text of each value; the value at `i`, if a real, is displayed as
/// the text at `i` of `reals` (nothing where `reals` is shorter).
pub open spec fn value_displays(vs: Seq<CapeValueModel>, reals: Seq<Seq<char>>) -> Seq<Seq<char>> {
    Seq::new(vs.len(), |i: int| value_display(vs[i], if i < reals.len() { reals[i] } else { Seq::<char>::empty() }))
}

/// Displays values as an array: each as `value_display` gives it,
/// separated by commas, between square brackets. The value at `i`, if a
/// real, is displayed as `real_texts[i]`.
pub fn display_values(data: &[CapeValueImpl], real_texts: &[&str]) -> (r: String)
    ensures
        r@ == bracketed(value_displays(value_views(data@), str_views(real_texts@))),
{
    let ghost reals = str_views(real_texts@);
    let mut items: Vec<Vec<char>> = Vec::new();
    let mut i: usize = 0;
    while i < data.len()
        invariant
            0 <= i <= data@.len(),
            reals == str_views(real_texts@),
            items@.len() == i,
            forall|j: int| 0 <= j < i ==> #[trigger] items@[j]@ == value_display(data@[j]@,
                if j < reals.len() { reals[j] } else { Seq::<char>::empty() }),
        decreases data@.len() - i,
    {
        let real_text: &str = if i < real_texts.len() { real_texts[i] } else { "" };
        proof {
            reveal_strlit("");
        }
        let mut t: Vec<char> = Vec::new();
        push_value_display(data[i].value_ref(), real_text, &mut t);
        assert(t@ =~= value_display(data@[i as int]@, if i < reals.len() { reals[i as int] } else { Seq::<char>::empty() }));
        items.push(t);
        i = i + 1;
    }
    assert(item_views(items@) =~= value_displays(value_views(data@), reals));
    bracket_join(&items)
}

/// An iterator over the values of a read-only value array view.
pub struct CapeArrayValueInIterator<'a> {
    data: &'a [CapeValueImpl],
    index: usize,
}

impl<'a> CapeArrayValueInIterator<'a> {
    /// The values still to be handed out.
    pub closed spec fn remaining(&self) -> Seq<CapeValueModel> {
        if self.index <= self.data@.len() {
            value_views(self.data@).skip(self.index as int)
        } else {
            Seq::empty()
        }
    }

    /// Hands out the next value, or `None` after the last one.
    pub fn next(&mut self) -> (r: Option<CapeValueIn<'a>>)
        ensures
            old(self).remaining().len() == 0 ==> r is None && final(self).remaining() == old(self).remaining(),
            old(self).remaining().len() > 0 ==> (r matches Some(v) && v@ == old(self).remaining()[0])
                && final(self).remaining() == old(self).remaining().drop_first(),
    {
        let data: &'a [CapeValueImpl] = self.data;
        if self.index < data.len() {
            let v = CapeValueIn::new(&data[self.index]);
            self.index = self.index + 1;
            assert(value_views(self.data@).skip(self.index as int) =~= value_views(old(self).data@).skip(old(self).index as int).drop_first());
            Some(v)
        } else {
            None
        }
    }
}

impl<'a> CapeArrayValueProviderIn for CapeArrayValueIn<'a> {
    open spec fn provided_values(&self) -> Seq<CapeValueModel> {
        self@
    }

    fn as_cape_array_value_in(&self) -> (r: CapeArrayValueIn<'_>) {
        CapeArrayValueIn { data: self.data }
    }
}

/// Replacing one value replaces its content in the views.
pub proof fn lemma_value_views_update(s: Seq<CapeValueImpl>, i: int)
    requires
        0 <= i < s.len(),
    ensures
        forall|x: CapeValueImpl| #[trigger] value_views(s.update(i, x)) == value_views(s).update(i, x@),
        forall|x: CapeValueImpl| #[trigger] value_views(s.update(i, x)).skip(i + 1) == value_views(s).skip(i).drop_first(),
{
    assert forall|x: CapeValueImpl| #[trigger] value_views(s.update(i, x)) == value_views(s).update(i, x@) by {
        assert(value_views(s.update(i, x)) =~= value_views(s).update(i, x@));
    }
    assert forall|x: CapeValueImpl| #[trigger] value_views(s.update(i, x)).skip(i + 1) == value_views(s).skip(i).drop_first() by {
        assert(value_views(s.update(i, x)).skip(i + 1) =~= value_views(s).skip(i).drop_first());
    }
}

/// Writable view of a CAPE-OPEN value array, as received for an output
/// argument. It refers to the vector of values that receives what is
/// written; the array can be resized.
pub struct CapeArrayValueOut<'a> {
    pub target: &'a mut Vec<CapeValueImpl>,
}

impl<'a> CapeArrayValueOut<'a> {
    /// The values the target holds now.
    pub open spec fn current(&self) -> Seq<CapeValueModel> {
        value_views((*self.target)@)
    }

    /// A view that writes to `interface`.
    pub fn new(interface: &'a mut Vec<CapeValueImpl>) -> (r: Self)
        ensures
            r.current() == value_views(old(interface)@),
            *final(r.target) == *final(interface),
    {
        CapeArrayValueOut { target: interface }
    }

    /// The values as text, separated by commas, between square brackets:
    /// `["methane", <empty>, true]`. The value at `i`, if a real, is
    /// displayed as `real_texts[i]`, the text of its double.
    pub fn to_string(&self, real_texts: &[&str]) -> (r: String)
        ensures
            r@ == bracketed(value_displays(self.current(), str_views(real_texts@))),
    {
        display_values(self.target.as_slice(), real_texts)
    }

    /// Number of values.
    pub fn size(&self) -> (r: usize)
        ensures
            r == self.current().len(),
    {
        self.target.len()
    }

    /// Whether the array has no values.
    pub fn is_empty(&self) -> (r: bool)
        ensures
            r == (self.current().len() == 0),
    {
        self.target.len() == 0
    }

    /// Replaces all values by the contents of `array`.
    pub fn put_array(&mut self, array: &[CapeValueContent]) -> (r: Result<(), COBIAError>)
        ensures
            r is Ok,
            final(self).current() == content_views(array@),
            *final(final(self).target) == *final(old(self).target),
    {
        let mut v: Vec<CapeValueImpl> = Vec::new();
        let mut i: usize = 0;
        while i < array.len()
            invariant
                0 <= i <= array@.len(),
                v@.len() == i,
                forall|j: int| 0 <= j < i ==> #[trigger] v@[j]@ == array@[j]@,
            decreases array@.len() - i,
        {
            v.push(CapeValueImpl::from_content(copy_content(&array[i])));
            i = i + 1;
        }
        assert(value_views(v@) =~= content_views(array@));
        *self.target = v;
        Ok(())
    }

    /// A writable view of the value at `index`; `COBIAERR_NOSUCHITEM` past
    /// the end.
    pub fn at(&mut self, index: usize) -> (r: Result<CapeValueOut<'_>, COBIAError>)
        ensures
            index < old(self).current().len() ==> (r matches Ok(v) && v.current() == old(self).current()[index as int]
                && final(self).current() == old(self).current().update(index as int, (*final(v.target))@)),
            index >= old(self).current().len() ==> r == Err::<CapeValueOut<'_>, COBIAError>(no_such_item())
                && final(self).current() == old(self).current(),
            *final(final(self).target) == *final(old(self).target),
    {
        if index >= self.target.len() {
            return Err(COBIAError::Code(COBIAERR_NOSUCHITEM));
        }
        proof {
            lemma_value_views_update(self.target@, index as int);
        }
        let v = CapeValueOut { target: &mut self.target[index] };
        Ok(v)
    }

    /// The contents of the values. Every value reports a content of its
    /// own type, so this always succeeds.
    pub fn as_value_vec(&self) -> (r: Result<Vec<CapeValueContent>, COBIAError>)
        ensures
            r matches Ok(v) && content_views(v@) == self.current(),
    {
        Ok(contents_of(self.target.as_slice()))
    }

    /// Changes the number of values: the first ones stay, new ones are
    /// empty.
    pub fn resize(&mut self, size: usize) -> (r: Result<(), COBIAError>)
        ensures
            r is Ok,
            final(self).current() == resized(old(self).current(), size as int, CapeValueModel::Empty),
            *final(final(self).target) == *final(old(self).target),
    {
        resize_values(self.target, size);
        Ok(())
    }

    /// Replaces the value at `index` by `value`; `COBIAERR_NOSUCHITEM` past
    /// the end.
    pub fn put_value(&mut self, index: usize, value: CapeValueContent) -> (r: Result<(), COBIAError>)
        ensures
            index < old(self).current().len() ==> r is Ok && final(self).current() == old(self).current().update(index as int, value@),
            index >= old(self).current().len() ==> r == Err::<(), COBIAError>(no_such_item())
                && final(self).current() == old(self).current(),
            *final(final(self).target) == *final(old(self).target),
    {
        if index >= self.target.len() {
            return Err(COBIAError::Code(COBIAERR_NOSUCHITEM));
        }
        self.target.set(index, CapeValueImpl::from_content(value));
        assert(value_views((*self.target)@) =~= value_views((*old(self).target)@).update(index as int, value@));
        Ok(())
    }

    /// Replaces all values by those of any CAPE-OPEN value array.
    pub fn set<T: CapeArrayValueProviderIn>(&mut self, array: &T) -> (r: Result<(), COBIAError>)
        ensures
            r is Ok,
            final(self).current() == array.provided_values(),
            *final(final(self).target) == *final(old(self).target),
    {
        let source = array.as_cape_array_value_in();
        *self.target = copy_values(source.data);
        Ok(())
    }

    /// An iterator over writable views of the values.
    pub fn iter(&mut self) -> (r: CapeArrayValueIterator<'_>)
        ensures
            r.remaining() == old(self).current(),
            r.position() == 0,
            final(self).current() == value_views((*final(r.target))@),
            *final(final(self).target) == *final(old(self).target),
    {
        let r = CapeArrayValueIterator { target: &mut *self.target, index: 0 };
        assert(value_views((*r.target)@).skip(0) =~= value_views((*r.target)@));
        r
    }
}

/// Copies of the values of a slice.
pub fn copy_values(data: &[CapeValueImpl]) -> (r: Vec<CapeValueImpl>)
    ensures
        value_views(r@) == value_views(data@),
{
    let mut v: Vec<CapeValueImpl> = Vec::new();
    let mut i: usize = 0;
    while i < data.len()
        invariant
            0 <= i <= data@.len(),
            v@.len() == i,
            forall|j: int| 0 <= j < i ==> #[trigger] v@[j]@ == data@[j]@,
        decreases data@.len() - i,
    {
        v.push(data[i].clone());
        i = i + 1;
    }
    assert(value_views(v@) =~= value_views(data@));
    v
}

/// Resizes a vector of values: the first ones stay, new ones are empty.
pub fn resize_values(v: &mut Vec<CapeValueImpl>, size: usize)
    ensures
        value_views(final(v)@) == resized(value_views(old(v)@), size as int, CapeValueModel::Empty),
{
    if size <= v.len() {
        v.truncate(size);
    } else {
        while v.len() < size
            invariant
                size > old(v)@.len(),
                old(v)@.len() <= v@.len() <= size,
                forall|i: int| 0 <= i < v@.len() ==> #[trigger] v@[i]@ == (if i < old(v)@.len() { old(v)@[i]@ } else { CapeValueModel::Empty }),
            decreases size - v@.len(),
        {
            v.push(CapeValueImpl::new());
        }
    }
    assert(value_views(v@) =~= resized(value_views(old(v)@), size as int, CapeValueModel::Empty));
}

/// An iterator over writable views of the values of a value array.
pub struct CapeArrayValueIterator<'a> {
    pub target: &'a mut Vec<CapeValueImpl>,
    pub index: usize,
}

impl<'a> CapeArrayValueIterator<'a> {
    /// Number of values handed out so far.
    pub open spec fn position(&self) -> int {
        self.index as int
    }

    /// The values still to be handed out.
    pub open spec fn remaining(&self) -> Seq<CapeValueModel> {
        if self.index <= (*self.target)@.len() {
            value_views((*self.target)@).skip(self.index as int)
        } else {
            Seq::empty()
        }
    }

    /// Hands out a writable view of the next value, or `None` after the
    /// last one. What is written through the view replaces that value.
    pub fn next(&mut self) -> (r: Option<CapeValueOut<'_>>)
        ensures
            old(self).remaining().len() == 0 ==> r is None && final(self).remaining() == old(self).remaining()
                && (*final(self).target)@ == (*old(self).target)@,
            old(self).remaining().len() > 0 ==> (r matches Some(v) && v.current() == old(self).remaining()[0]
                && (*final(self).target)@ == (*old(self).target)@.update(old(self).position(), *final(v.target)))
                && final(self).remaining() == old(self).remaining().drop_first()
                && final(self).position() == old(self).position() + 1,
            *final(final(self).target) == *final(old(self).target),
    {
        if self.index < self.target.len() {
            let i = self.index;
            self.index = i + 1;
            proof {
                lemma_value_views_update(self.target@, i as int);
            }
            let v = CapeValueOut { target: &mut self.target[i] };
            Some(v)
        } else {
            None
        }
    }
}

impl<'a> CapeArrayValueProviderOut for CapeArrayValueOut<'a> {
    open spec fn held_values(&self) -> Seq<CapeValueModel> {
        self.current()
    }

    fn as_cape_array_value_out(&mut self) -> (r: CapeArrayValueOut<'_>) {
        CapeArrayValueOut { target: &mut *self.target }
    }
}

} // verus!
