use vstd::prelude::*;
use crate::cape_types::{CapeReal, CapeInteger, CapeByte, CapeBoolean, CAPE_REAL_NAN, real_eq, real_equal, reals_equal};
use crate::cape_error::COBIAError;
use crate::cape_array::{CapeArrayIn, CapeArrayOut, CapeArrayTarget, ICapeArrayReal, ICapeArrayInteger, ICapeArrayByte, ICapeArrayBoolean, ICapeArrayEnumeration, slice_to_vec, vec_resize, resized};
use crate::cape_array_real::{CapeArrayRealIn, CapeArrayRealOut};
use crate::cape_array_integer::{CapeArrayIntegerIn, CapeArrayIntegerOut};
use crate::cape_array_byte::{CapeArrayByteIn, CapeArrayByteOut};
use crate::cape_array_boolean::{CapeArrayBooleanIn, CapeArrayBooleanOut};
use crate::cape_array_enumeration::{CapeArrayEnumerationIn, CapeArrayEnumerationOut};
use crate::cape_data_traits::{CapeArrayRealProviderIn, CapeArrayRealProviderOut, CapeArrayIntegerProviderIn, CapeArrayIntegerProviderOut, CapeArrayByteProviderIn, CapeArrayByteProviderOut, CapeArrayBooleanProviderIn, CapeArrayBooleanProviderOut, CapeArrayEnumerationProviderIn, CapeArrayEnumerationProviderOut};

verus! {

/// Vector based implementation of a CAPE-OPEN array: the caller's data
/// container for arrays passed between CAPE-OPEN functions.
///
/// `InterfaceType` names the kind of CAPE-OPEN array.
pub struct CapeArrayVec<Element: Copy, InterfaceType> {
    vec: Vec<Element>,
    interface_type: core::marker::PhantomData<InterfaceType>,
}

impl<Element: Copy, InterfaceType> View for CapeArrayVec<Element, InterfaceType> {
    type V = Seq<Element>;

    closed spec fn view(&self) -> Seq<Element> {
        self.vec@
    }
}

impl<Element: Copy, InterfaceType> CapeArrayVec<Element, InterfaceType> {
    /// An empty array.
    pub fn new() -> (r: Self)
        ensures
            r@ == Seq::<Element>::empty(),
    {
        CapeArrayVec { vec: Vec::new(), interface_type: core::marker::PhantomData }
    }

    /// The elements.
    pub fn as_vec(&self) -> (r: &Vec<Element>)
        ensures
            r@ == self@,
    {
        &self.vec
    }

    /// The elements, for modification in place.
    pub fn as_mut_vec(&mut self) -> (r: &mut Vec<Element>)
        ensures
            (*r)@ == old(self)@,
            final(self)@ == (*final(r))@,
    {
        &mut self.vec
    }

    /// Number of elements.
    pub fn size(&self) -> (r: usize)
        ensures
            r == self@.len(),
    {
        self.vec.len()
    }

    /// An array holding a copy of the elements of `slice`.
    pub fn from_slice(slice: &[Element]) -> (r: Self)
        ensures
            r@ == slice@,
    {
        CapeArrayVec { vec: slice_to_vec(slice), interface_type: core::marker::PhantomData }
    }

    /// Whether the array has no elements.
    pub fn is_empty(&self) -> (r: bool)
        ensures
            r == (self@.len() == 0),
    {
        self.vec.len() == 0
    }

    /// An array that takes ownership of the elements of `vec`.
    pub fn from_vec(vec: Vec<Element>) -> (r: Self)
        ensures
            r@ == vec@,
    {
        CapeArrayVec { vec, interface_type: core::marker::PhantomData }
    }

    /// The element at `index`, which must be in range.
    pub fn at(&self, index: usize) -> (r: Element)
        requires
            index < self@.len(),
        ensures
            r == self@[index as int],
    {
        self.vec[index]
    }

    /// Replaces the element at `index`, which must be in range.
    pub fn set_at(&mut self, index: usize, value: Element)
        requires
            index < old(self)@.len(),
        ensures
            final(self)@ == old(self)@.update(index as int, value),
    {
        self.vec.set(index, value);
    }

    /// The elements, as a slice.
    pub fn as_slice(&self) -> (r: &[Element])
        ensures
            r@ == self@,
    {
        self.vec.as_slice()
    }
}

impl<Element: Copy, InterfaceType> Clone for CapeArrayVec<Element, InterfaceType> {
    fn clone(&self) -> (r: Self)
        ensures
            r@ == self@,
    {
        CapeArrayVec { vec: slice_to_vec(self.vec.as_slice()), interface_type: core::marker::PhantomData }
    }
}

impl<Element: Copy, InterfaceType> Default for CapeArrayVec<Element, InterfaceType> {
    fn default() -> (r: Self)
        ensures
            r@ == Seq::<Element>::empty(),
    {
        Self::new()
    }
}

/// Vector based CAPE-OPEN real array.
pub type CapeArrayRealVec = CapeArrayVec<CapeReal, ICapeArrayReal>;

impl CapeArrayRealVec {
    /// Resizes the array; new elements are the bit pattern of NaN.
    pub fn resize(&mut self, size: usize)
        ensures
            final(self)@ == resized(old(self)@, size as int, CAPE_REAL_NAN),
    {
        vec_resize(&mut self.vec, size, CAPE_REAL_NAN);
    }

    /// Replaces the content by that of any CAPE-OPEN real array.
    pub fn set<T: CapeArrayRealProviderIn>(&mut self, array: &T) -> (r: Result<(), COBIAError>)
        ensures
            r is Ok,
            final(self)@ == array.provided_reals(),
    {
        let source = array.as_cape_array_real_in();
        self.vec = slice_to_vec(source.as_slice());
        Ok(())
    }
}

impl CapeArrayRealProviderIn for CapeArrayRealVec {
    open spec fn provided_reals(&self) -> Seq<CapeReal> {
        self@
    }

    fn as_cape_array_real_in(&self) -> (r: CapeArrayRealIn<'_>) {
        CapeArrayIn::new(self.vec.as_slice())
    }
}

impl CapeArrayRealProviderOut for CapeArrayRealVec {
    open spec fn held_reals(&self) -> Seq<CapeReal> {
        self@
    }

    open spec fn growable_reals(&self) -> bool {
        true
    }

    open spec fn fill_real(&self) -> CapeReal {
        CAPE_REAL_NAN
    }

    fn as_cape_array_real_out(&mut self) -> (r: CapeArrayRealOut<'_>) {
        CapeArrayOut { target: CapeArrayTarget::Growable(&mut self.vec, CAPE_REAL_NAN), interface_type: core::marker::PhantomData }
    }
}

impl<T: CapeArrayRealProviderIn> PartialEq<T> for CapeArrayRealVec {
    /// Element by element comparison with any CAPE-OPEN real array.
    fn eq(&self, other: &T) -> (r: bool) {
        let source = other.as_cape_array_real_in();
        real_slices_equal(self.vec.as_slice(), source.as_slice())
    }
}

impl<T: CapeArrayRealProviderIn> vstd::std_specs::cmp::PartialEqSpecImpl<T> for CapeArrayRealVec {
    open spec fn obeys_eq_spec() -> bool {
        true
    }

    open spec fn eq_spec(&self, other: &T) -> bool {
        reals_equal(self@, other.provided_reals())
    }
}

/// Vector based CAPE-OPEN integer array.
pub type CapeArrayIntegerVec = CapeArrayVec<CapeInteger, ICapeArrayInteger>;

impl CapeArrayIntegerVec {
    /// Resizes the array; new elements are zero.
    pub fn resize(&mut self, size: usize)
        ensures
            final(self)@ == resized(old(self)@, size as int, 0i32),
    {
        vec_resize(&mut self.vec, size, 0i32);
    }

    /// Replaces the content by that of any CAPE-OPEN integer array.
    pub fn set<T: CapeArrayIntegerProviderIn>(&mut self, array: &T) -> (r: Result<(), COBIAError>)
        ensures
            r is Ok,
            final(self)@ == array.provided_integers(),
    {
        let source = array.as_cape_array_integer_in();
        self.vec = slice_to_vec(source.as_slice());
        Ok(())
    }
}

impl CapeArrayIntegerProviderIn for CapeArrayIntegerVec {
    open spec fn provided_integers(&self) -> Seq<CapeInteger> {
        self@
    }

    fn as_cape_array_integer_in(&self) -> (r: CapeArrayIntegerIn<'_>) {
        CapeArrayIn::new(self.vec.as_slice())
    }
}

impl CapeArrayIntegerProviderOut for CapeArrayIntegerVec {
    open spec fn held_integers(&self) -> Seq<CapeInteger> {
        self@
    }

    open spec fn growable_integers(&self) -> bool {
        true
    }

    open spec fn fill_integer(&self) -> CapeInteger {
        0i32
    }

    fn as_cape_array_integer_out(&mut self) -> (r: CapeArrayIntegerOut<'_>) {
        CapeArrayOut { target: CapeArrayTarget::Growable(&mut self.vec, 0i32), interface_type: core::marker::PhantomData }
    }
}

impl<T: CapeArrayIntegerProviderIn> PartialEq<T> for CapeArrayIntegerVec {
    /// Element by element comparison with any CAPE-OPEN integer array.
    fn eq(&self, other: &T) -> (r: bool) {
        let source = other.as_cape_array_integer_in();
        slices_equal(self.vec.as_slice(), source.as_slice())
    }
}

impl<T: CapeArrayIntegerProviderIn> vstd::std_specs::cmp::PartialEqSpecImpl<T> for CapeArrayIntegerVec {
    open spec fn obeys_eq_spec() -> bool {
        true
    }

    open spec fn eq_spec(&self, other: &T) -> bool {
        self@ == other.provided_integers()
    }
}

/// Vector based CAPE-OPEN byte array.
pub type CapeArrayByteVec = CapeArrayVec<CapeByte, ICapeArrayByte>;

impl CapeArrayByteVec {
    /// Resizes the array; new elements are zero.
    pub fn resize(&mut self, size: usize)
        ensures
            final(self)@ == resized(old(self)@, size as int, 0u8),
    {
        vec_resize(&mut self.vec, size, 0u8);
    }

    /// Replaces the content by that of any CAPE-OPEN byte array.
    pub fn set<T: CapeArrayByteProviderIn>(&mut self, array: &T) -> (r: Result<(), COBIAError>)
        ensures
            r is Ok,
            final(self)@ == array.provided_bytes(),
    {
        let source = array.as_cape_array_byte_in();
        self.vec = slice_to_vec(source.as_slice());
        Ok(())
    }
}

impl CapeArrayByteProviderIn for CapeArrayByteVec {
    open spec fn provided_bytes(&self) -> Seq<CapeByte> {
        self@
    }

    fn as_cape_array_byte_in(&self) -> (r: CapeArrayByteIn<'_>) {
        CapeArrayIn::new(self.vec.as_slice())
    }
}

impl CapeArrayByteProviderOut for CapeArrayByteVec {
    open spec fn held_bytes(&self) -> Seq<CapeByte> {
        self@
    }

    open spec fn growable_bytes(&self) -> bool {
        true
    }

    open spec fn fill_byte(&self) -> CapeByte {
        0u8
    }

    fn as_cape_array_byte_out(&mut self) -> (r: CapeArrayByteOut<'_>) {
        CapeArrayOut { target: CapeArrayTarget::Growable(&mut self.vec, 0u8), interface_type: core::marker::PhantomData }
    }
}

impl<T: CapeArrayByteProviderIn> PartialEq<T> for CapeArrayByteVec {
    /// Element by element comparison with any CAPE-OPEN byte array.
    fn eq(&self, other: &T) -> (r: bool) {
        let source = other.as_cape_array_byte_in();
        slices_equal(self.vec.as_slice(), source.as_slice())
    }
}

impl<T: CapeArrayByteProviderIn> vstd::std_specs::cmp::PartialEqSpecImpl<T> for CapeArrayByteVec {
    open spec fn obeys_eq_spec() -> bool {
        true
    }

    open spec fn eq_spec(&self, other: &T) -> bool {
        self@ == other.provided_bytes()
    }
}

/// Vector based CAPE-OPEN boolean array.
pub type CapeArrayBooleanVec = CapeArrayVec<CapeBoolean, ICapeArrayBoolean>;

impl CapeArrayBooleanVec {
    /// Resizes the array; new elements are zero.
    pub fn resize(&mut self, size: usize)
        ensures
            final(self)@ == resized(old(self)@, size as int, 0u32),
    {
        vec_resize(&mut self.vec, size, 0u32);
    }

    /// Replaces the content by that of any CAPE-OPEN boolean array.
    pub fn set<T: CapeArrayBooleanProviderIn>(&mut self, array: &T) -> (r: Result<(), COBIAError>)
        ensures
            r is Ok,
            final(self)@ == array.provided_booleans(),
    {
        let source = array.as_cape_array_boolean_in();
        self.vec = slice_to_vec(source.as_slice());
        Ok(())
    }
}

impl CapeArrayBooleanProviderIn for CapeArrayBooleanVec {
    open spec fn provided_booleans(&self) -> Seq<CapeBoolean> {
        self@
    }

    fn as_cape_array_boolean_in(&self) -> (r: CapeArrayBooleanIn<'_>) {
        CapeArrayIn::new(self.vec.as_slice())
    }
}

impl CapeArrayBooleanProviderOut for CapeArrayBooleanVec {
    open spec fn held_booleans(&self) -> Seq<CapeBoolean> {
        self@
    }

    open spec fn growable_booleans(&self) -> bool {
        true
    }

    open spec fn fill_boolean(&self) -> CapeBoolean {
        0u32
    }

    fn as_cape_array_boolean_out(&mut self) -> (r: CapeArrayBooleanOut<'_>) {
        CapeArrayOut { target: CapeArrayTarget::Growable(&mut self.vec, 0u32), interface_type: core::marker::PhantomData }
    }
}

impl<T: CapeArrayBooleanProviderIn> PartialEq<T> for CapeArrayBooleanVec {
    /// Element by element comparison with any CAPE-OPEN boolean array.
    fn eq(&self, other: &T) -> (r: bool) {
        let source = other.as_cape_array_boolean_in();
        slices_equal(self.vec.as_slice(), source.as_slice())
    }
}

impl<T: CapeArrayBooleanProviderIn> vstd::std_specs::cmp::PartialEqSpecImpl<T> for CapeArrayBooleanVec {
    open spec fn obeys_eq_spec() -> bool {
        true
    }

    open spec fn eq_spec(&self, other: &T) -> bool {
        self@ == other.provided_booleans()
    }
}

/// Whether two slices of reals are equal element by element, by IEEE 754
/// equality.
pub fn real_slices_equal(a: &[CapeReal], b: &[CapeReal]) -> (r: bool)
    ensures
        r == reals_equal(a@, b@),
{
    if a.len() != b.len() {
        return false;
    }
    let mut i: usize = 0;
    while i < a.len()
        invariant
            0 <= i <= a@.len(),
            a@.len() == b@.len(),
            forall|j: int| 0 <= j < i ==> #[trigger] real_equal(a@[j], b@[j]),
        decreases a@.len() - i,
    {
        if !real_eq(a[i], b[i]) {
            return false;
        }
        i = i + 1;
    }
    true
}

/// Whether two slices hold the same elements.
pub fn slices_equal<E: Copy + PartialEq + vstd::std_specs::cmp::PartialEqSpec>(a: &[E], b: &[E]) -> (r: bool)
    requires
        E::obeys_eq_spec(),
        forall|x: E, y: E| x.eq_spec(&y) <==> x == y,
    ensures
        r == (a@ == b@),
{
    if a.len() != b.len() {
        return false;
    }
    let mut i: usize = 0;
    while i < a.len()
        invariant
            0 <= i <= a@.len(),
            a@.len() == b@.len(),
            E::obeys_eq_spec(),
            forall|x: E, y: E| x.eq_spec(&y) <==> x == y,
            forall|j: int| 0 <= j < i ==> a@[j] == b@[j],
        decreases a@.len() - i,
    {
        if a[i] != b[i] {
            return false;
        }
        i = i + 1;
    }
    assert(a@ =~= b@);
    true
}

impl CapeArrayBooleanVec {
    /// An array holding the booleans of `slice` (one for true, zero for false).
    pub fn from_bool_slice(slice: &[bool]) -> (r: Self)
        ensures
            r@.len() == slice@.len(),
            forall|i: int| 0 <= i < slice@.len() ==> r@[i] == (if slice@[i] { 1u32 } else { 0u32 }),
    {
        let mut v: Vec<CapeBoolean> = Vec::new();
        let mut i: usize = 0;
        while i < slice.len()
            invariant
                0 <= i <= slice@.len(),
                v@.len() == i,
                forall|j: int| 0 <= j < i ==> v@[j] == (if slice@[j] { 1u32 } else { 0u32 }),
            decreases slice@.len() - i,
        {
            v.push(if slice[i] { 1u32 } else { 0u32 });
            i = i + 1;
        }
        CapeArrayVec { vec: v, interface_type: core::marker::PhantomData }
    }
}

/// Vector based CAPE-OPEN array of enumeration values.
pub type CapeArrayEnumerationVec<Element> = CapeArrayVec<Element, ICapeArrayEnumeration>;

impl<Element: Copy> CapeArrayEnumerationVec<Element> {
    /// Resizes the array; new elements are `value`.
    pub fn resize(&mut self, size: usize, value: Element)
        ensures
            final(self)@ == resized(old(self)@, size as int, value),
    {
        vec_resize(&mut self.vec, size, value);
    }
}

impl<Element: Copy> CapeArrayEnumerationProviderIn<Element> for CapeArrayEnumerationVec<Element> {
    open spec fn provided_enumerations(&self) -> Seq<Element> {
        self@
    }

    fn as_cape_array_enumeration_in(&self) -> (r: CapeArrayEnumerationIn<'_, Element>) {
        CapeArrayIn::new(self.vec.as_slice())
    }
}

/// A growing view fills new places with the element type's default, which
/// for the enumerations of this library is the value with raw value zero.
impl<Element: Copy + Default> CapeArrayEnumerationProviderOut<Element> for CapeArrayEnumerationVec<Element> {
    open spec fn held_enumerations(&self) -> Seq<Element> {
        self@
    }

    open spec fn growable_enumerations(&self) -> bool {
        true
    }

    fn as_cape_array_enumeration_out(&mut self) -> (r: CapeArrayEnumerationOut<'_, Element>) {
        let fill = Element::default();
        CapeArrayOut { target: CapeArrayTarget::Growable(&mut self.vec, fill), interface_type: core::marker::PhantomData }
    }
}

} // verus!
