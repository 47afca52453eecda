use vstd::prelude::*;
use crate::cape_array::{CapeArrayIn, CapeArrayOut, CapeArrayInIterator, CapeArrayOutIterator, CapeArrayTarget, ICapeArrayEnumeration};
use crate::cape_data_traits::{CapeArrayEnumerationProviderIn, CapeArrayEnumerationProviderOut};

use crate::cobia_enums::CapeEnumerationName;
use crate::cape_display::{bracketed, bracket_join, item_views, push_str};

verus! {

/// Read-only view of a CAPE-OPEN array of enumeration values.
pub type CapeArrayEnumerationIn<'a, Element> = CapeArrayIn<'a, Element, ICapeArrayEnumeration>;

/// Writable view of a CAPE-OPEN array of enumeration values.
pub type CapeArrayEnumerationOut<'a, Element> = CapeArrayOut<'a, Element, ICapeArrayEnumeration>;

/// An iterator that takes a read-only view of an enumeration array.
pub type CapeArrayEnumerationIteratorIn<'a, Element> = CapeArrayInIterator<'a, Element, ICapeArrayEnumeration>;

/// An iterator that takes a writable view of an enumeration array.
pub type CapeArrayEnumerationIteratorOut<'a, Element> = CapeArrayOutIterator<'a, Element, ICapeArrayEnumeration>;

impl<'a, Element: Copy> CapeArrayEnumerationProviderIn<Element> for CapeArrayEnumerationIn<'a, Element> {
    open spec fn provided_enumerations(&self) -> Seq<Element> {
        self@
    }

    fn as_cape_array_enumeration_in(&self) -> (r: CapeArrayEnumerationIn<'_, Element>) {
        self.clone()
    }
}

impl<'a, Element: Copy> CapeArrayEnumerationProviderOut<Element> for CapeArrayEnumerationOut<'a, Element> {
    open spec fn held_enumerations(&self) -> Seq<Element> {
        self.current()
    }

    open spec fn growable_enumerations(&self) -> bool {
        self.growable()
    }

    fn as_cape_array_enumeration_out(&mut self) -> (r: CapeArrayEnumerationOut<'_, Element>) {
        self.reborrow()
    }
}

/// The names of enumeration values.
pub open spec fn enumeration_names<Element: CapeEnumerationName>(s: Seq<Element>) -> Seq<Seq<char>> {
    s.map_values(|x: Element| x.name())
}

/// Displays enumeration values as an array of their names:
/// `[Inproc64, COM64]`.
pub fn display_enumerations<Element: Copy + CapeEnumerationName>(s: &[Element]) -> (r: String)
    ensures
        r@ == bracketed(enumeration_names(s@)),
{
    let mut items: Vec<Vec<char>> = Vec::new();
    let mut i: usize = 0;
    while i < s.len()
        invariant
            0 <= i <= s@.len(),
            items@.len() == i,
            forall|j: int| 0 <= j < i ==> #[trigger] items@[j]@ == s@[j].name(),
        decreases s@.len() - i,
    {
        let mut t: Vec<char> = Vec::new();
        push_str(&mut t, s[i].as_str());
        items.push(t);
        i = i + 1;
    }
    assert(item_views(items@) =~= enumeration_names(s@));
    bracket_join(&items)
}

impl<'a, Element: Copy + CapeEnumerationName> CapeArrayEnumerationIn<'a, Element> {
    /// The names of the values, separated by commas, between square
    /// brackets: `[Inproc64, COM64]`.
    pub fn to_string(&self) -> (r: String)
        ensures
            r@ == bracketed(enumeration_names(self@)),
    {
        display_enumerations(self.as_slice())
    }
}

impl<'a, Element: Copy + CapeEnumerationName> CapeArrayEnumerationOut<'a, Element> {
    /// The names of the values, separated by commas, between square
    /// brackets: `[Inproc64, COM64]`.
    pub fn to_string(&self) -> (r: String)
        ensures
            r@ == bracketed(enumeration_names(self.current())),
    {
        let v = self.as_vec();
        display_enumerations(v.as_slice())
    }
}

} // verus!
