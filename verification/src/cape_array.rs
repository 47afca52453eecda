use vstd::prelude::*;
use crate::cape_types::{CapeResult, COBIAERR_INVALIDARGUMENT};
use crate::cape_error::COBIAError;

verus! {

/// std's `slice::from_ref` gives a slice of length one holding the element.
pub assume_specification<T>[ std::slice::from_ref::<T> ](s: &T) -> (r: &[T])
    ensures
        r@ == seq![*s],
;

/// Read-only view of a CAPE-OPEN array, as received for an input argument.
///
/// `Interface` names the kind of CAPE-OPEN array (real, integer, byte,
/// boolean); the view refers to the elements of the array.
pub struct CapeArrayIn<'a, Element: Copy, Interface> {
    data: &'a [Element],
    interface_type: core::marker::PhantomData<Interface>,
}

impl<'a, Element: Copy, Interface> View for CapeArrayIn<'a, Element, Interface> {
    type V = Seq<Element>;

    closed spec fn view(&self) -> Seq<Element> {
        self.data@
    }
}

impl<'a, Element: Copy, Interface> Clone for CapeArrayIn<'a, Element, Interface> {
    fn clone(&self) -> (r: Self)
        ensures
            r@ == self@,
    {
        CapeArrayIn { data: self.data, interface_type: core::marker::PhantomData }
    }
}

impl<'a, Element: Copy, Interface> CapeArrayIn<'a, Element, Interface> {
    /// A view of the elements `interface` holds.
    pub fn new(interface: &'a [Element]) -> (r: Self)
        ensures
            r@ == interface@,
    {
        CapeArrayIn { data: interface, interface_type: core::marker::PhantomData }
    }

    /// Number of elements.
    pub fn size(&self) -> (r: usize)
        ensures
            r == self@.len(),
    {
        self.data.len()
    }

    /// Whether the array has no elements.
    pub fn is_empty(&self) -> (r: bool)
        ensures
            r == (self@.len() == 0),
    {
        self.data.len() == 0
    }

    /// A copy of the elements.
    pub fn as_vec(&self) -> (r: Vec<Element>)
        ensures
            r@ == self@,
    {
        slice_to_vec(self.data)
    }

    /// The elements.
    pub fn as_slice(&self) -> (r: &'a [Element])
        ensures
            r@ == self@,
    {
        self.data
    }

    /// The element at `index`, which must be in range.
    pub fn at(&self, index: usize) -> (r: Element)
        requires
            index < self@.len(),
        ensures
            r == self@[index as int],
    {
        self.data[index]
    }

    /// An iterator over the elements.
    pub fn iter(&self) -> (r: CapeArrayRefIterator<'a, Element>)
        ensures
            r.remaining() == self@,
    {
        CapeArrayRefIterator::new(self.data)
    }

    /// An iterator that takes the view.
    pub fn into_iter(self) -> (r: CapeArrayInIterator<'a, Element, Interface>)
        ensures
            r.remaining() == self@,
    {
        CapeArrayInIterator { arr: self, index: 0 }
    }
}

/// A copy of the elements of a slice.
pub fn slice_to_vec<E: Copy>(s: &[E]) -> (r: Vec<E>)
    ensures
        r@ == s@,
{
    let mut v: Vec<E> = Vec::new();
    let mut i: usize = 0;
    while i < s.len()
        invariant
            0 <= i <= s@.len(),
            v@ == s@.take(i as int),
        decreases s@.len() - i,
    {
        v.push(s[i]);
        i = i + 1;
        assert(v@ =~= s@.take(i as int));
    }
    assert(s@.take(s@.len() as int) =~= s@);
    v
}

/// An iterator that takes a read-only array view.
pub struct CapeArrayInIterator<'a, Element: Copy, Interface> {
    arr: CapeArrayIn<'a, Element, Interface>,
    index: usize,
}

impl<'a, Element: Copy, Interface> CapeArrayInIterator<'a, Element, Interface> {
    /// The elements still to be handed out.
    pub closed spec fn remaining(&self) -> Seq<Element> {
        self.arr@.skip(self.index as int)
    }

    #[verifier::type_invariant]
    closed spec fn inv(&self) -> bool {
        self.index <= self.arr@.len()
    }

    /// Hands out the next element, or `None` after the last one.
    pub fn next(&mut self) -> (r: Option<Element>)
        ensures
            old(self).remaining().len() == 0 ==> r is None && final(self).remaining() == old(self).remaining(),
            old(self).remaining().len() > 0 ==> r == Some(old(self).remaining()[0])
                && final(self).remaining() == old(self).remaining().drop_first(),
    {
        proof {
            use_type_invariant(&*self);
        }
        if self.index < self.arr.data.len() {
            let res = self.arr.data[self.index];
            self.index = self.index + 1;
            assert(self.arr@.skip(self.index as int) =~= old(self).arr@.skip(old(self).index as int).drop_first());
            Some(res)
        } else {
            None
        }
    }
}

/// An iterator over the elements of an array, by reference to the array.
pub struct CapeArrayRefIterator<'a, Element: Copy> {
    data: &'a [Element],
    index: usize,
}

impl<'a, Element: Copy> CapeArrayRefIterator<'a, Element> {
    /// The elements still to be handed out.
    pub closed spec fn remaining(&self) -> Seq<Element> {
        self.data@.skip(self.index as int)
    }

    #[verifier::type_invariant]
    closed spec fn inv(&self) -> bool {
        self.index <= self.data@.len()
    }

    /// An iterator over the elements of `data`.
    pub fn new(data: &'a [Element]) -> (r: Self)
        ensures
            r.remaining() == data@,
    {
        let r = CapeArrayRefIterator { data, index: 0 };
        assert(data@.skip(0) =~= data@);
        r
    }

    /// Hands out the next element, or `None` after the last one.
    pub fn next(&mut self) -> (r: Option<Element>)
        ensures
            old(self).remaining().len() == 0 ==> r is None && final(self).remaining() == old(self).remaining(),
            old(self).remaining().len() > 0 ==> r == Some(old(self).remaining()[0])
                && final(self).remaining() == old(self).remaining().drop_first(),
    {
        proof {
            use_type_invariant(&*self);
        }
        if self.index < self.data.len() {
            let res = self.data[self.index];
            self.index = self.index + 1;
            assert(self.data@.skip(self.index as int) =~= old(self).data@.skip(old(self).index as int).drop_first());
            Some(res)
        } else {
            None
        }
    }
}

/// The storage behind a writable array view: a vector that grows with the
/// given fill element, or a single element whose count cannot change.
pub enum CapeArrayTarget<'a, Element> {
    Growable(&'a mut Vec<Element>, Element),
    Single(&'a mut Element),
}

/// Writable view of a CAPE-OPEN array, as received for an output argument.
pub struct CapeArrayOut<'a, Element: Copy, Interface> {
    pub target: CapeArrayTarget<'a, Element>,
    pub interface_type: core::marker::PhantomData<Interface>,
}

/// The elements a target holds now.
pub open spec fn target_elements<Element>(t: &CapeArrayTarget<Element>) -> Seq<Element> {
    match t {
        CapeArrayTarget::Growable(v, _) => (**v)@,
        CapeArrayTarget::Single(x) => seq![**x],
    }
}

impl<'a, Element: Copy, Interface> CapeArrayOut<'a, Element, Interface> {
    /// The elements the target holds now.
    pub open spec fn current(&self) -> Seq<Element> {
        target_elements(&self.target)
    }

    /// Whether the number of elements can change.
    pub open spec fn growable(&self) -> bool {
        self.target is Growable
    }

    /// The element that new places are filled with when the array grows.
    pub open spec fn fill(&self) -> Element {
        match self.target {
            CapeArrayTarget::Growable(_, f) => f,
            CapeArrayTarget::Single(x) => *x,
        }
    }

    /// A view that writes to `interface`.
    pub fn new(interface: CapeArrayTarget<'a, Element>) -> (r: Self)
        ensures
            r.target == interface,
    {
        CapeArrayOut { target: interface, interface_type: core::marker::PhantomData }
    }

    /// Number of elements.
    pub fn size(&self) -> (r: usize)
        ensures
            r == self.current().len(),
    {
        match &self.target {
            CapeArrayTarget::Growable(v, _) => v.len(),
            CapeArrayTarget::Single(_) => 1,
        }
    }

    /// Whether the array has no elements.
    pub fn is_empty(&self) -> (r: bool)
        ensures
            r == (self.current().len() == 0),
    {
        self.size() == 0
    }

    /// A copy of the elements.
    pub fn as_vec(&self) -> (r: Vec<Element>)
        ensures
            r@ == self.current(),
    {
        match &self.target {
            CapeArrayTarget::Growable(v, _) => slice_to_vec(v.as_slice()),
            CapeArrayTarget::Single(x) => {
                let mut v: Vec<Element> = Vec::new();
                v.push(**x);
                assert(v@ =~= seq![**x]);
                v
            },
        }
    }

    /// The elements, as a slice.
    pub fn as_slice(&self) -> (r: &[Element])
        ensures
            r@ == self.current(),
    {
        match &self.target {
            CapeArrayTarget::Growable(v, _) => v.as_slice(),
            CapeArrayTarget::Single(x) => std::slice::from_ref(&**x),
        }
    }

    /// The element at `index`, which must be in range.
    pub fn at(&self, index: usize) -> (r: Element)
        requires
            index < self.current().len(),
        ensures
            r == self.current()[index as int],
    {
        match &self.target {
            CapeArrayTarget::Growable(v, _) => v[index],
            CapeArrayTarget::Single(x) => **x,
        }
    }

    /// Replaces the element at `index`, which must be in range.
    pub fn set_at(&mut self, index: usize, value: Element)
        requires
            index < old(self).current().len(),
        ensures
            final(self).current() == old(self).current().update(index as int, value),
            final(self).growable() == old(self).growable(),
            final(self).fill() == old(self).fill() || !old(self).growable(),
            (match (final(self).target, old(self).target) {
                (CapeArrayTarget::Growable(x, _), CapeArrayTarget::Growable(y, _)) => *final(x) == *final(y),
                (CapeArrayTarget::Single(x), CapeArrayTarget::Single(y)) => *final(x) == *final(y),
                _ => false,
            }),
    {
        match &mut self.target {
            CapeArrayTarget::Growable(v, _) => {
                v.set(index, value);
            },
            CapeArrayTarget::Single(x) => {
                **x = value;
                assert(seq![value] =~= old(self).current().update(0, value));
            },
        }
    }

    /// Changes the number of elements. A growable array keeps its first
    /// elements and fills new places with the fill element; a single
    /// element array accepts only its own size and answers
    /// `COBIAERR_INVALIDARGUMENT` otherwise.
    pub fn resize(&mut self, size: usize) -> (r: Result<(), COBIAError>)
        ensures
            old(self).growable() ==> r is Ok && final(self).current() == resized(old(self).current(), size as int, old(self).fill()),
            !old(self).growable() && size == 1 ==> r is Ok && final(self).current() == old(self).current(),
            !old(self).growable() && size != 1 ==> r == Err::<(), COBIAError>(COBIAError::Code(COBIAERR_INVALIDARGUMENT))
                && final(self).current() == old(self).current()
                && *final(self) == *old(self),
            final(self).growable() == old(self).growable(),
            final(self).fill() == old(self).fill() || !old(self).growable(),
            (match (final(self).target, old(self).target) {
                (CapeArrayTarget::Growable(x, _), CapeArrayTarget::Growable(y, _)) => *final(x) == *final(y),
                (CapeArrayTarget::Single(x), CapeArrayTarget::Single(y)) => *final(x) == *final(y),
                _ => false,
            }),
    {
        match &mut self.target {
            CapeArrayTarget::Growable(v, fill) => {
                vec_resize(v, size, *fill);
                Ok(())
            },
            CapeArrayTarget::Single(_) => {
                if size == 1 {
                    Ok(())
                } else {
                    Err(COBIAError::Code(COBIAERR_INVALIDARGUMENT))
                }
            },
        }
    }

    /// Replaces all elements by those of `array`: sizes the array, then
    /// copies the elements.
    pub fn put_array(&mut self, array: &[Element]) -> (r: Result<(), COBIAError>)
        ensures
            (old(self).growable() || array@.len() == 1) ==> r is Ok && final(self).current() == array@,
            !(old(self).growable() || array@.len() == 1) ==> r == Err::<(), COBIAError>(COBIAError::Code(COBIAERR_INVALIDARGUMENT))
                && final(self).current() == old(self).current()
                && *final(self) == *old(self),
            final(self).growable() == old(self).growable(),
            (match (final(self).target, old(self).target) {
                (CapeArrayTarget::Growable(x, _), CapeArrayTarget::Growable(y, _)) => *final(x) == *final(y),
                (CapeArrayTarget::Single(x), CapeArrayTarget::Single(y)) => *final(x) == *final(y),
                _ => false,
            }),
    {
        let res = self.resize(array.len());
        match res {
            Ok(()) => {},
            Err(e) => {
                return Err(e);
            },
        }
        let n = array.len();
        let mut i: usize = 0;
        while i < n
            invariant
                0 <= i <= n,
                n == array@.len(),
                self.current().len() == n,
                forall|j: int| 0 <= j < i ==> self.current()[j] == array@[j],
                self.growable() == old(self).growable(),
                (match (self.target, old(self).target) {
                    (CapeArrayTarget::Growable(x, _), CapeArrayTarget::Growable(y, _)) => *final(x) == *final(y),
                    (CapeArrayTarget::Single(x), CapeArrayTarget::Single(y)) => *final(x) == *final(y),
                    _ => false,
                }),
            decreases n - i,
        {
            self.set_at(i, array[i]);
            i = i + 1;
        }
        assert(self.current() =~= array@);
        Ok(())
    }

    /// An iterator over the elements.
    pub fn iter(&self) -> (r: CapeArrayRefIterator<'_, Element>)
        ensures
            r.remaining() == self.current(),
    {
        match &self.target {
            CapeArrayTarget::Growable(v, _) => CapeArrayRefIterator::new(v.as_slice()),
            CapeArrayTarget::Single(x) => {
                let s = std::slice::from_ref(&**x);
                CapeArrayRefIterator::new(s)
            },
        }
    }
}

impl<'a, Element: Copy, Interface> CapeArrayOut<'a, Element, Interface> {
    /// A view that writes to the same storage as this one, for passing on.
    pub fn reborrow(&mut self) -> (r: CapeArrayOut<'_, Element, Interface>)
        ensures
            r.current() == old(self).current(),
            r.growable() == old(self).growable(),
            r.fill() == old(self).fill(),
            final(self).current() == (match r.target {
                CapeArrayTarget::Growable(v, _) => (*final(v))@,
                CapeArrayTarget::Single(x) => seq![*final(x)],
            }),
            final(self).growable() == old(self).growable(),
            final(self).fill() == old(self).fill() || !old(self).growable(),
            (match (final(self).target, old(self).target) {
                (CapeArrayTarget::Growable(x, _), CapeArrayTarget::Growable(y, _)) => *final(x) == *final(y),
                (CapeArrayTarget::Single(x), CapeArrayTarget::Single(y)) => *final(x) == *final(y),
                _ => false,
            }),
    {
        let target = match &mut self.target {
            CapeArrayTarget::Growable(v, f) => CapeArrayTarget::Growable(&mut **v, *f),
            CapeArrayTarget::Single(x) => CapeArrayTarget::Single(&mut **x),
        };
        CapeArrayOut { target, interface_type: core::marker::PhantomData }
    }

    /// An iterator that takes the view.
    pub fn into_iter(self) -> (r: CapeArrayOutIterator<'a, Element, Interface>)
        ensures
            r.remaining() == self.current(),
    {
        let n = self.size();
        let r = CapeArrayOutIterator { arr: self, index: 0 };
        assert(r.arr.current().skip(0) =~= r.arr.current());
        r
    }
}

/// An iterator that takes a writable array view.
pub struct CapeArrayOutIterator<'a, Element: Copy, Interface> {
    arr: CapeArrayOut<'a, Element, Interface>,
    index: usize,
}

impl<'a, Element: Copy, Interface> CapeArrayOutIterator<'a, Element, Interface> {
    /// The elements still to be handed out.
    pub closed spec fn remaining(&self) -> Seq<Element> {
        self.arr.current().skip(self.index as int)
    }

    #[verifier::type_invariant]
    closed spec fn inv(&self) -> bool {
        self.index <= self.arr.current().len()
    }

    /// Hands out the next element, or `None` after the last one.
    pub fn next(&mut self) -> (r: Option<Element>)
        ensures
            old(self).remaining().len() == 0 ==> r is None && final(self).remaining() == old(self).remaining(),
            old(self).remaining().len() > 0 ==> r == Some(old(self).remaining()[0])
                && final(self).remaining() == old(self).remaining().drop_first(),
    {
        proof {
            use_type_invariant(&*self);
        }
        let n = self.arr.size();
        if self.index < n {
            let res = self.arr.at(self.index);
            self.index = self.index + 1;
            assert(self.arr.current().skip(self.index as int) =~= old(self).arr.current().skip(old(self).index as int).drop_first());
            Some(res)
        } else {
            None
        }
    }
}

/// Kind of a CAPE-OPEN array of reals.
pub struct ICapeArrayReal;

/// Kind of a CAPE-OPEN array of integers.
pub struct ICapeArrayInteger;

/// Kind of a CAPE-OPEN array of bytes.
pub struct ICapeArrayByte;

/// Kind of a CAPE-OPEN array of booleans.
pub struct ICapeArrayBoolean;

/// Kind of a CAPE-OPEN array of enumeration values.
pub struct ICapeArrayEnumeration;

/// The elements of `s` sized to `n`: its first `n` elements, followed by
/// copies of `fill` where `s` is shorter.
pub open spec fn resized<E>(s: Seq<E>, n: int, fill: E) -> Seq<E> {
    Seq::new(n as nat, |i: int| if i < s.len() { s[i] } else { fill })
}

/// Resizing keeps the elements up to the new size, and growing then
/// shrinking back to the former size gives back the same elements.
pub proof fn law_resize<E>(s: Seq<E>, n: int, fill: E, other_fill: E)
    requires
        n >= 0,
    ensures
        resized(s, n, fill).len() == n,
        forall|i: int| 0 <= i < n && i < s.len() ==> #[trigger] resized(s, n, fill)[i] == s[i],
        forall|i: int| s.len() <= i < n ==> #[trigger] resized(s, n, fill)[i] == fill,
        n >= s.len() ==> resized(resized(s, n, fill), s.len() as int, other_fill) == s,
{
    if n >= s.len() {
        assert(resized(resized(s, n, fill), s.len() as int, other_fill) =~= s);
    }
}

/// Resizes a vector, filling new places with `fill`.
pub fn vec_resize<E: Copy>(v: &mut Vec<E>, n: usize, fill: E)
    ensures
        final(v)@ == resized(old(v)@, n as int, fill),
{
    if n <= v.len() {
        v.truncate(n);
        assert(v@ =~= resized(old(v)@, n as int, fill));
    } else {
        while v.len() < n
            invariant
                n > old(v)@.len(),
                old(v)@.len() <= v@.len() <= n,
                forall|i: int| 0 <= i < v@.len() ==> v@[i] == (if i < old(v)@.len() { old(v)@[i] } else { fill }),
            decreases n - v@.len(),
        {
            v.push(fill);
        }
        assert(v@ =~= resized(old(v)@, n as int, fill));
    }
}

} // verus!
