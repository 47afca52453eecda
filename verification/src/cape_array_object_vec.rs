use vstd::prelude::*;
use crate::cape_error::COBIAError;
use crate::cape_string_impl::CapeStringImpl;
use crate::cape_value_impl::{CapeValueImpl, CapeValueContent, CapeValueModel, copy_content, content_eq, value_equal};
use crate::cape_array::resized;
use crate::cape_array_string::{CapeArrayStringIn, CapeArrayStringOut, string_views, str_views, strings_of, copy_strings, resize_strings};
use crate::cape_array_value::{CapeArrayValueIn, CapeArrayValueOut, value_views, content_views, contents_of, copy_values, resize_values};
use crate::cape_data_traits::{CapeArrayStringProviderIn, CapeArrayStringProviderOut, CapeArrayValueProviderIn, CapeArrayValueProviderOut};

verus! {

/// Kind of a CAPE-OPEN string.
pub struct ICapeString;

/// Kind of a CAPE-OPEN value.
pub struct ICapeValue;

/// Vector based implementation of a CAPE-OPEN array of objects (strings or
/// values): the caller's data container for such arrays.
pub struct CapeArrayObjectVec<ElementImpl, ElementInterface> {
    vec: Vec<ElementImpl>,
    interface_type: core::marker::PhantomData<ElementInterface>,
}

impl<ElementImpl, ElementInterface> CapeArrayObjectVec<ElementImpl, ElementInterface> {
    /// The element objects.
    pub closed spec fn elements(&self) -> Seq<ElementImpl> {
        self.vec@
    }

    /// An empty array.
    pub fn new() -> (r: Self)
        ensures
            r.elements() == Seq::<ElementImpl>::empty(),
    {
        CapeArrayObjectVec { vec: Vec::new(), interface_type: core::marker::PhantomData }
    }

    /// The element objects.
    pub fn as_vec(&self) -> (r: &Vec<ElementImpl>)
        ensures
            r@ == self.elements(),
    {
        &self.vec
    }

    /// Number of elements.
    pub fn size(&self) -> (r: usize)
        ensures
            r == self.elements().len(),
    {
        self.vec.len()
    }

    /// Whether the array has no elements.
    pub fn is_empty(&self) -> (r: bool)
        ensures
            r == (self.elements().len() == 0),
    {
        self.vec.len() == 0
    }

    /// An iterator over the element objects.
    pub fn iter(&self) -> (r: CapeArrayObjectRefIterator<'_, ElementImpl>)
        ensures
            r.remaining() == self.elements(),
    {
        let r = CapeArrayObjectRefIterator { data: self.vec.as_slice(), index: 0 };
        assert(self.vec@.skip(0) =~= self.vec@);
        r
    }

    /// The element object at `index`, which must be in range.
    pub fn at(&self, index: usize) -> (r: &ElementImpl)
        requires
            index < self.elements().len(),
        ensures
            *r == self.elements()[index as int],
    {
        &self.vec[index]
    }

    /// The element object at `index`, which must be in range, for
    /// modification in place.
    pub fn at_mut(&mut self, index: usize) -> (r: &mut ElementImpl)
        requires
            index < old(self).elements().len(),
        ensures
            *r == old(self).elements()[index as int],
            final(self).elements() == old(self).elements().update(index as int, *final(r)),
    {
        &mut self.vec[index]
    }
}

/// An iterator over the element objects of an object array.
pub struct CapeArrayObjectRefIterator<'a, ElementImpl> {
    data: &'a [ElementImpl],
    index: usize,
}

impl<'a, ElementImpl> CapeArrayObjectRefIterator<'a, ElementImpl> {
    /// The element objects still to be handed out.
    pub closed spec fn remaining(&self) -> Seq<ElementImpl> {
        if self.index <= self.data@.len() {
            self.data@.skip(self.index as int)
        } else {
            Seq::empty()
        }
    }

    /// Hands out the next element object, or `None` after the last one.
    pub fn next(&mut self) -> (r: Option<&'a ElementImpl>)
        ensures
            old(self).remaining().len() == 0 ==> r is None && final(self).remaining() == old(self).remaining(),
            old(self).remaining().len() > 0 ==> r == Some(&old(self).remaining()[0])
                && final(self).remaining() == old(self).remaining().drop_first(),
    {
        let data: &'a [ElementImpl] = self.data;
        if self.index < data.len() {
            let res = &data[self.index];
            self.index = self.index + 1;
            assert(self.data@.skip(self.index as int) =~= old(self).data@.skip(old(self).index as int).drop_first());
            Some(res)
        } else {
            None
        }
    }
}

/// Vector based CAPE-OPEN string array.
pub type CapeArrayStringVec = CapeArrayObjectVec<CapeStringImpl, ICapeString>;

impl View for CapeArrayStringVec {
    type V = Seq<Seq<char>>;

    open spec fn view(&self) -> Seq<Seq<char>> {
        string_views(self.elements())
    }
}

impl CapeArrayStringVec {
    /// An array holding the characters of each of `array`.
    pub fn from_slice(array: &[&str]) -> (r: Self)
        ensures
            r@ == str_views(array@),
    {
        let mut v: Vec<CapeStringImpl> = Vec::new();
        let mut i: usize = 0;
        while i < array.len()
            invariant
                0 <= i <= array@.len(),
                v@.len() == i,
                forall|j: int| 0 <= j < i ==> #[trigger] v@[j]@ == array@[j]@,
            decreases array@.len() - i,
        {
            v.push(CapeStringImpl::from_string(array[i]));
            i = i + 1;
        }
        let r = CapeArrayObjectVec { vec: v, interface_type: core::marker::PhantomData };
        assert(string_views(r.vec@) =~= str_views(array@));
        r
    }

    /// The strings, as a vector of `String`.
    pub fn as_string_vec(&self) -> (r: Vec<String>)
        ensures
            r@.len() == self@.len(),
            forall|i: int| 0 <= i < self@.len() ==> #[trigger] r@[i]@ == self@[i],
    {
        strings_of(self.vec.as_slice())
    }

    /// Changes the number of strings: the first ones stay, new ones are
    /// empty.
    pub fn resize(&mut self, size: usize)
        ensures
            final(self)@ == resized(old(self)@, size as int, Seq::<char>::empty()),
    {
        resize_strings(&mut self.vec, size);
    }

    /// Replaces all strings by those of any CAPE-OPEN string array.
    pub fn set<T: CapeArrayStringProviderIn>(&mut self, array: &T) -> (r: Result<(), COBIAError>)
        ensures
            r is Ok,
            final(self)@ == array.provided_strings(),
    {
        let source = array.as_cape_array_string_in();
        let n = source.size();
        let mut v: Vec<CapeStringImpl> = Vec::new();
        let mut i: usize = 0;
        while i < n
            invariant
                0 <= i <= n,
                n == source@.len(),
                v@.len() == i,
                forall|j: int| 0 <= j < i ==> #[trigger] v@[j]@ == source@[j],
            decreases n - i,
        {
            match source.at(i) {
                Ok(s) => {
                    let mut e = CapeStringImpl::new();
                    e.set(&s);
                    v.push(e);
                },
                Err(e) => {
                    return Err(e);
                },
            }
            i = i + 1;
        }
        self.vec = v;
        assert(string_views(self.vec@) =~= source@);
        Ok(())
    }
}

impl Clone for CapeArrayStringVec {
    fn clone(&self) -> (r: Self)
        ensures
            r@ == self@,
    {
        CapeArrayObjectVec { vec: copy_strings(self.vec.as_slice()), interface_type: core::marker::PhantomData }
    }
}

impl<T: CapeArrayStringProviderIn> PartialEq<T> for CapeArrayStringVec {
    /// Same number of strings, and each string equal (case sensitive) to
    /// the string at the same place in any CAPE-OPEN string array.
    fn eq(&self, other: &T) -> (r: bool) {
        let source = other.as_cape_array_string_in();
        if self.vec.len() != source.size() {
            return false;
        }
        let n = self.vec.len();
        let mut i: usize = 0;
        while i < n
            invariant
                0 <= i <= n,
                n == self.vec@.len(),
                n == source@.len(),
                source@ == other.provided_strings(),
                forall|j: int| 0 <= j < i ==> #[trigger] self.vec@[j]@ == source@[j],
            decreases n - i,
        {
            match source.at(i) {
                Ok(s) => {
                    let same = self.vec[i] == s;
                    if !same {
                        assert(self@[i as int] == self.vec@[i as int]@);
                        return false;
                    }
                },
                Err(_) => {
                    return false;
                },
            }
            i = i + 1;
        }
        assert(string_views(self.vec@) =~= source@);
        true
    }
}

impl<T: CapeArrayStringProviderIn> vstd::std_specs::cmp::PartialEqSpecImpl<T> for CapeArrayStringVec {
    open spec fn obeys_eq_spec() -> bool {
        true
    }

    open spec fn eq_spec(&self, other: &T) -> bool {
        self@ == other.provided_strings()
    }
}

impl CapeArrayStringProviderIn for CapeArrayStringVec {
    open spec fn provided_strings(&self) -> Seq<Seq<char>> {
        self@
    }

    fn as_cape_array_string_in(&self) -> (r: CapeArrayStringIn<'_>) {
        CapeArrayStringIn::new(self.vec.as_slice())
    }
}

impl CapeArrayStringProviderOut for CapeArrayStringVec {
    open spec fn held_strings(&self) -> Seq<Seq<char>> {
        self@
    }

    fn as_cape_array_string_out(&mut self) -> (r: CapeArrayStringOut<'_>) {
        CapeArrayStringOut::new(&mut self.vec)
    }
}

/// Vector based CAPE-OPEN value array.
pub type CapeArrayValueVec = CapeArrayObjectVec<CapeValueImpl, ICapeValue>;

impl View for CapeArrayValueVec {
    type V = Seq<CapeValueModel>;

    open spec fn view(&self) -> Seq<CapeValueModel> {
        value_views(self.elements())
    }
}

impl CapeArrayValueVec {
    /// An array holding values with the given contents.
    pub fn from_slice(array: &[CapeValueContent]) -> (r: Self)
        ensures
            r@ == content_views(array@),
    {
        let mut v: Vec<CapeValueImpl> = Vec::new();
        let mut i: usize = 0;
        while i < array.len()
            invariant
                0 <= i <= array@.len(),
                v@.len() == i,
                forall|j: int| 0 <= j < i ==> #[trigger] v@[j]@ == array@[j]@,
            decreases array@.len() - i,
        {
            v.push(CapeValueImpl::from_content(copy_content(&array[i])));
            i = i + 1;
        }
        let r = CapeArrayObjectVec { vec: v, interface_type: core::marker::PhantomData };
        assert(value_views(r.vec@) =~= content_views(array@));
        r
    }

    /// The contents of the values.
    pub fn as_value_vec(&self) -> (r: Vec<CapeValueContent>)
        ensures
            content_views(r@) == self@,
    {
        contents_of(self.vec.as_slice())
    }

    /// Changes the number of values: the first ones stay, new ones are
    /// empty.
    pub fn resize(&mut self, size: usize)
        ensures
            final(self)@ == resized(old(self)@, size as int, CapeValueModel::Empty),
    {
        resize_values(&mut self.vec, size);
    }

    /// Replaces all values by those of any CAPE-OPEN value array.
    pub fn set<T: CapeArrayValueProviderIn>(&mut self, array: &T) -> (r: Result<(), COBIAError>)
        ensures
            r is Ok,
            final(self)@ == array.provided_values(),
    {
        let source = array.as_cape_array_value_in();
        let n = source.size();
        let mut v: Vec<CapeValueImpl> = Vec::new();
        let mut i: usize = 0;
        while i < n
            invariant
                0 <= i <= n,
                n == source@.len(),
                v@.len() == i,
                forall|j: int| 0 <= j < i ==> #[trigger] v@[j]@ == source@[j],
            decreases n - i,
        {
            match source.at(i) {
                Ok(x) => {
                    let mut e = CapeValueImpl::new();
                    let _ = e.set(&x);
                    v.push(e);
                },
                Err(e) => {
                    return Err(e);
                },
            }
            i = i + 1;
        }
        self.vec = v;
        assert(value_views(self.vec@) =~= source@);
        Ok(())
    }
}

impl Clone for CapeArrayValueVec {
    fn clone(&self) -> (r: Self)
        ensures
            r@ == self@,
    {
        CapeArrayObjectVec { vec: copy_values(self.vec.as_slice()), interface_type: core::marker::PhantomData }
    }
}

/// Element by element equality of two sequences of value contents.
pub open spec fn values_equal(a: Seq<CapeValueModel>, b: Seq<CapeValueModel>) -> bool {
    a.len() == b.len() && forall|i: int| 0 <= i < a.len() ==> #[trigger] value_equal(a[i], b[i])
}

impl<T: CapeArrayValueProviderIn> PartialEq<T> for CapeArrayValueVec {
    /// Same number of values, and each value equal to the value at the same
    /// place in any CAPE-OPEN value array (reals by IEEE 754 equality).
    fn eq(&self, other: &T) -> (r: bool) {
        let source = other.as_cape_array_value_in();
        if self.vec.len() != source.size() {
            return false;
        }
        let n = self.vec.len();
        let mut i: usize = 0;
        while i < n
            invariant
                0 <= i <= n,
                n == self.vec@.len(),
                n == source@.len(),
                source@ == other.provided_values(),
                forall|j: int| 0 <= j < i ==> #[trigger] value_equal(self.vec@[j]@, source@[j]),
            decreases n - i,
        {
            match source.at(i) {
                Ok(x) => {
                    if !content_eq(self.vec[i].value_ref(), x.content()) {
                        assert(self@[i as int] == self.vec@[i as int]@);
                        assert(!value_equal(self@[i as int], other.provided_values()[i as int]));
                        return false;
                    }
                },
                Err(_) => {
                    return false;
                },
            }
            i = i + 1;
        }
        assert forall|j: int| 0 <= j < self@.len() implies #[trigger] value_equal(self@[j], other.provided_values()[j]) by {
            assert(self@[j] == self.vec@[j]@);
        }
        true
    }
}

impl<T: CapeArrayValueProviderIn> vstd::std_specs::cmp::PartialEqSpecImpl<T> for CapeArrayValueVec {
    open spec fn obeys_eq_spec() -> bool {
        true
    }

    open spec fn eq_spec(&self, other: &T) -> bool {
        values_equal(self@, other.provided_values())
    }
}

impl CapeArrayValueProviderIn for CapeArrayValueVec {
    open spec fn provided_values(&self) -> Seq<CapeValueModel> {
        self@
    }

    fn as_cape_array_value_in(&self) -> (r: CapeArrayValueIn<'_>) {
        CapeArrayValueIn::new(self.vec.as_slice())
    }
}

impl CapeArrayValueProviderOut for CapeArrayValueVec {
    open spec fn held_values(&self) -> Seq<CapeValueModel> {
        self@
    }

    fn as_cape_array_value_out(&mut self) -> (r: CapeArrayValueOut<'_>) {
        CapeArrayValueOut::new(&mut self.vec)
    }
}

} // verus!
