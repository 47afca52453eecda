use vstd::prelude::*;

verus! {

/// Flags of a PMC registration.
///
/// A set of flags held as the bits of an `i32`; the only defined flag has
/// bit value one, and the empty set (no restriction) has none.
#[derive(Clone, Copy, Debug, PartialEq, Eq, Structural, Hash)]
pub struct CapePMCRegistrationFlags {
    bits: i32,
}

impl View for CapePMCRegistrationFlags {
    type V = i32;

    closed spec fn view(&self) -> i32 {
        self.bits
    }
}

impl CapePMCRegistrationFlags {
    /// The empty set: no restriction.
    pub fn empty() -> (r: Self)
        ensures
            r@ == 0i32,
    {
        CapePMCRegistrationFlags { bits: 0 }
    }

    /// The flag for a PMC that restricts the threads it may be called from.
    pub fn restricted_threading() -> (r: Self)
        ensures
            r@ == 1i32,
    {
        CapePMCRegistrationFlags { bits: 1 }
    }

    /// Every defined flag.
    pub fn all() -> (r: Self)
        ensures
            r@ == 1i32,
    {
        CapePMCRegistrationFlags { bits: 1 }
    }

    /// The bits of the set.
    pub fn bits(&self) -> (r: i32)
        ensures
            r == self@,
    {
        self.bits
    }

    /// The set with these bits; `None` when a bit is set that no flag has.
    pub fn from_bits(bits: i32) -> (r: Option<Self>)
        ensures
            (bits & !1i32) == 0i32 ==> (r matches Some(f) && f@ == bits),
            (bits & !1i32) != 0i32 ==> r is None,
    {
        if (bits & !1i32) == 0 {
            Some(CapePMCRegistrationFlags { bits })
        } else {
            None
        }
    }

    /// The set of the defined flags among these bits.
    pub fn from_bits_truncate(bits: i32) -> (r: Self)
        ensures
            r@ == bits & 1i32,
    {
        CapePMCRegistrationFlags { bits: bits & 1 }
    }

    /// The set with exactly these bits, defined or not.
    pub fn from_bits_retain(bits: i32) -> (r: Self)
        ensures
            r@ == bits,
    {
        CapePMCRegistrationFlags { bits }
    }

    /// Whether no bit is set.
    pub fn is_empty(&self) -> (r: bool)
        ensures
            r == (self@ == 0i32),
    {
        self.bits == 0
    }

    /// Whether every defined flag is set.
    pub fn is_all(&self) -> (r: bool)
        ensures
            r == ((self@ & 1i32) == 1i32),
    {
        (self.bits & 1) == 1
    }

    /// Whether every bit of `other` is set here.
    pub fn contains(&self, other: Self) -> (r: bool)
        ensures
            r == ((self@ & other@) == other@),
    {
        (self.bits & other.bits) == other.bits
    }

    /// Whether a bit is set both here and in `other`.
    pub fn intersects(&self, other: Self) -> (r: bool)
        ensures
            r == ((self@ & other@) != 0i32),
    {
        (self.bits & other.bits) != 0
    }

    /// The bits set here or in `other`.
    pub fn union(self, other: Self) -> (r: Self)
        ensures
            r@ == self@ | other@,
    {
        CapePMCRegistrationFlags { bits: self.bits | other.bits }
    }

    /// The bits set both here and in `other`.
    pub fn intersection(self, other: Self) -> (r: Self)
        ensures
            r@ == self@ & other@,
    {
        CapePMCRegistrationFlags { bits: self.bits & other.bits }
    }

    /// The bits set here and not in `other`.
    pub fn difference(self, other: Self) -> (r: Self)
        ensures
            r@ == self@ & !other@,
    {
        CapePMCRegistrationFlags { bits: self.bits & !other.bits }
    }

    /// Sets the bits of `other`.
    pub fn insert(&mut self, other: Self)
        ensures
            final(self)@ == old(self)@ | other@,
    {
        self.bits = self.bits | other.bits;
    }

    /// Clears the bits of `other`.
    pub fn remove(&mut self, other: Self)
        ensures
            final(self)@ == old(self)@ & !other@,
    {
        self.bits = self.bits & !other.bits;
    }
}

/// Flags for the creation of a PMC instance.
///
/// A set of flags held as the bits of an `i32`; the only defined flag has
/// bit value one, and the empty set (the default creation) has none.
#[derive(Clone, Copy, Debug, PartialEq, Eq, Structural, Hash)]
pub struct CapePMCCreationFlags {
    bits: i32,
}

impl View for CapePMCCreationFlags {
    type V = i32;

    closed spec fn view(&self) -> i32 {
        self.bits
    }
}

impl CapePMCCreationFlags {
    /// The empty set: the default creation.
    pub fn empty() -> (r: Self)
        ensures
            r@ == 0i32,
    {
        CapePMCCreationFlags { bits: 0 }
    }

    /// The flag that allows creating a PMC that restricts the threads it may be called from.
    pub fn allow_restricted_threading() -> (r: Self)
        ensures
            r@ == 1i32,
    {
        CapePMCCreationFlags { bits: 1 }
    }

    /// Every defined flag.
    pub fn all() -> (r: Self)
        ensures
            r@ == 1i32,
    {
        CapePMCCreationFlags { bits: 1 }
    }

    /// The bits of the set.
    pub fn bits(&self) -> (r: i32)
        ensures
            r == self@,
    {
        self.bits
    }

    /// The set with these bits; `None` when a bit is set that no flag has.
    pub fn from_bits(bits: i32) -> (r: Option<Self>)
        ensures
            (bits & !1i32) == 0i32 ==> (r matches Some(f) && f@ == bits),
            (bits & !1i32) != 0i32 ==> r is None,
    {
        if (bits & !1i32) == 0 {
            Some(CapePMCCreationFlags { bits })
        } else {
            None
        }
    }

    /// The set of the defined flags among these bits.
    pub fn from_bits_truncate(bits: i32) -> (r: Self)
        ensures
            r@ == bits & 1i32,
    {
        CapePMCCreationFlags { bits: bits & 1 }
    }

    /// The set with exactly these bits, defined or not.
    pub fn from_bits_retain(bits: i32) -> (r: Self)
        ensures
            r@ == bits,
    {
        CapePMCCreationFlags { bits }
    }

    /// Whether no bit is set.
    pub fn is_empty(&self) -> (r: bool)
        ensures
            r == (self@ == 0i32),
    {
        self.bits == 0
    }

    /// Whether every defined flag is set.
    pub fn is_all(&self) -> (r: bool)
        ensures
            r == ((self@ & 1i32) == 1i32),
    {
        (self.bits & 1) == 1
    }

    /// Whether every bit of `other` is set here.
    pub fn contains(&self, other: Self) -> (r: bool)
        ensures
            r == ((self@ & other@) == other@),
    {
        (self.bits & other.bits) == other.bits
    }

    /// Whether a bit is set both here and in `other`.
    pub fn intersects(&self, other: Self) -> (r: bool)
        ensures
            r == ((self@ & other@) != 0i32),
    {
        (self.bits & other.bits) != 0
    }

    /// The bits set here or in `other`.
    pub fn union(self, other: Self) -> (r: Self)
        ensures
            r@ == self@ | other@,
    {
        CapePMCCreationFlags { bits: self.bits | other.bits }
    }

    /// The bits set both here and in `other`.
    pub fn intersection(self, other: Self) -> (r: Self)
        ensures
            r@ == self@ & other@,
    {
        CapePMCCreationFlags { bits: self.bits & other.bits }
    }

    /// The bits set here and not in `other`.
    pub fn difference(self, other: Self) -> (r: Self)
        ensures
            r@ == self@ & !other@,
    {
        CapePMCCreationFlags { bits: self.bits & !other.bits }
    }

    /// Sets the bits of `other`.
    pub fn insert(&mut self, other: Self)
        ensures
            final(self)@ == old(self)@ | other@,
    {
        self.bits = self.bits | other.bits;
    }

    /// Clears the bits of `other`.
    pub fn remove(&mut self, other: Self)
        ensures
            final(self)@ == old(self)@ & !other@,
    {
        self.bits = self.bits & !other.bits;
    }
}

} // verus!
