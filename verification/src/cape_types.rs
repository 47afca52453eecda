use vstd::prelude::*;

verus! {

/// CAPE-OPEN integer.
pub type CapeInteger = i32;

/// CAPE-OPEN byte.
pub type CapeByte = u8;

/// CAPE-OPEN boolean: zero is false, any other value is true.
pub type CapeBoolean = u32;

/// Raw value of a CAPE-OPEN enumeration.
pub type CapeEnumeration = i32;

/// Size of a CAPE-OPEN string or array.
pub type CapeSize = u32;

/// Result code of a COBIA call.
pub type CapeResult = u32;

/// A character of a CAPE-OPEN string.
pub type CapeCharacter = char;

/// CAPE-OPEN real, held as the bit pattern of an IEEE 754 double.
///
/// The library only stores and moves reals; it never computes with them,
/// so it keeps each one as its 64 bits (`f64::to_bits` and
/// `f64::from_bits` convert).
pub type CapeReal = u64;

/// Bit pattern of the quiet NaN that marks an unset real.
pub const CAPE_REAL_NAN: CapeReal = 0x7ff8_0000_0000_0000u64;

// The result codes below are numbered by this library: its logic relies
// only on their being distinct, and the numbers that the COBIA runtime
// assigns are not part of this crate.

/// No error.
pub const COBIAERR_NOERROR: CapeResult = 0u32;
/// The requested item does not exist, or has another type.
pub const COBIAERR_NOSUCHITEM: CapeResult = 1u32;
/// An error that cannot be described otherwise.
pub const COBIAERR_UNKNOWNERROR: CapeResult = 2u32;
/// The operation is not allowed on this object.
pub const COBIAERR_DENIED: CapeResult = 3u32;
/// An argument is out of range.
pub const COBIAERR_INVALIDARGUMENT: CapeResult = 4u32;
/// A pointer that must be set is null.
pub const COBIAERR_NULLPOINTER: CapeResult = 5u32;
/// The object reported a CAPE-OPEN error, available as its last error.
pub const COBIAERR_CAPEOPENERROR: CapeResult = 6u32;

/// Whether the bit pattern of a real is a NaN: all exponent bits set and a
/// fraction that is not zero.
pub open spec fn is_nan_bits(x: CapeReal) -> bool {
    (x & 0x7ff0_0000_0000_0000u64) == 0x7ff0_0000_0000_0000u64 && (x & 0x000f_ffff_ffff_ffffu64) != 0
}

/// Whether the bit pattern of a real is positive or negative zero.
pub open spec fn is_zero_bits(x: CapeReal) -> bool {
    (x & 0x7fff_ffff_ffff_ffffu64) == 0
}

/// IEEE 754 equality of two reals: a NaN equals nothing, the two zeros are
/// equal, and otherwise equal reals have equal bit patterns.
pub open spec fn real_equal(a: CapeReal, b: CapeReal) -> bool {
    !is_nan_bits(a) && !is_nan_bits(b) && (a == b || (is_zero_bits(a) && is_zero_bits(b)))
}

/// IEEE 754 equality of two reals, the comparison `==` makes on doubles.
pub fn real_eq(a: CapeReal, b: CapeReal) -> (r: bool)
    ensures
        r == real_equal(a, b),
{
    let a_nan = (a & 0x7ff0_0000_0000_0000u64) == 0x7ff0_0000_0000_0000u64 && (a & 0x000f_ffff_ffff_ffffu64) != 0;
    let b_nan = (b & 0x7ff0_0000_0000_0000u64) == 0x7ff0_0000_0000_0000u64 && (b & 0x000f_ffff_ffff_ffffu64) != 0;
    let both_zero = (a & 0x7fff_ffff_ffff_ffffu64) == 0 && (b & 0x7fff_ffff_ffff_ffffu64) == 0;
    !a_nan && !b_nan && (a == b || both_zero)
}

/// Element by element IEEE 754 equality of two sequences of reals.
pub open spec fn reals_equal(a: Seq<CapeReal>, b: Seq<CapeReal>) -> bool {
    a.len() == b.len() && forall|i: int| 0 <= i < a.len() ==> #[trigger] real_equal(a[i], b[i])
}

/// Real equality is symmetric; a NaN equals nothing, not even itself;
/// every other real equals itself; and two reals equal to a third are
/// equal.
pub proof fn law_real_equality(a: CapeReal, b: CapeReal, c: CapeReal)
    ensures
        real_equal(a, b) == real_equal(b, a),
        is_nan_bits(a) ==> !real_equal(a, b),
        !is_nan_bits(a) ==> real_equal(a, a),
        real_equal(a, b) && real_equal(b, c) ==> real_equal(a, c),
{
}

/// Boolean value of a `CapeBoolean`.
pub open spec fn cape_bool(b: CapeBoolean) -> bool {
    b != 0
}

} // verus!
