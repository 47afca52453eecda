use lib::cape_array_vec::{CapeArrayIntegerVec, CapeArrayByteVec, CapeArrayBooleanVec, CapeArrayEnumerationVec};
use lib::cape_array_object_vec::CapeArrayStringVec;
use lib::cape_data_traits::{CapeArrayIntegerProviderIn, CapeArrayIntegerProviderOut, CapeArrayByteProviderIn, CapeArrayBooleanProviderIn, CapeArrayBooleanProviderOut, CapeArrayEnumerationProviderIn, CapeArrayEnumerationProviderOut, CapeArrayStringProviderIn, CapeArrayStringProviderOut};
use lib::cape_data_from_provider::CapeArrayStringInFromProvider;
use lib::cobia_enums::{CapePMCServiceType, CapeValueType, CapeEnumerationName};
use lib::cape_error::{CapeError, CapeErrorProperty, COBIAError};
use lib::cape_display::{push_int, push_decimal};

#[test]
fn integer_array_display() {
    let arr = CapeArrayIntegerVec::from_slice(&[1, -2, 30]);
    assert_eq!(arr.as_cape_array_integer_in().to_string(), "[1, -2, 30]");
    let mut arr2 = CapeArrayIntegerVec::from_slice(&[i32::MIN, i32::MAX, 0]);
    assert_eq!(arr2.as_cape_array_integer_out().to_string(), "[-2147483648, 2147483647, 0]");
    let empty = CapeArrayIntegerVec::new();
    assert_eq!(empty.as_cape_array_integer_in().to_string(), "[]");
}

#[test]
fn byte_and_boolean_array_display() {
    let b = CapeArrayByteVec::from_slice(&[0u8, 255u8]);
    assert_eq!(b.as_cape_array_byte_in().to_string(), "[0, 255]");
    let mut bools = CapeArrayBooleanVec::from_bool_slice(&[true, false]);
    assert_eq!(bools.as_cape_array_boolean_in().to_string(), "[1, 0]");
    assert_eq!(bools.as_cape_array_boolean_out().to_string(), "[1, 0]");
}

#[test]
fn enumeration_array_display() {
    let mut arr = CapeArrayEnumerationVec::from_slice(&[CapePMCServiceType::Inproc64, CapePMCServiceType::COM64, CapePMCServiceType::Local]);
    assert_eq!(arr.as_cape_array_enumeration_in().to_string(), "[Inproc64, COM64, Local]");
    assert_eq!(arr.as_cape_array_enumeration_out().to_string(), "[Inproc64, COM64, Local]");
    assert_eq!(CapeValueType::Real.as_str(), "Real");
}

#[test]
fn string_array_display() {
    let mut arr = CapeArrayStringVec::from_slice(&["idealGasEnthalpy", "idealGasEntropy"]);
    let mut p = CapeArrayStringInFromProvider::from(&arr);
    assert_eq!(p.as_cape_array_string_in().to_string(), "[\"idealGasEnthalpy\", \"idealGasEntropy\"]");
    assert_eq!(arr.as_cape_array_string_out().to_string(), "[\"idealGasEnthalpy\", \"idealGasEntropy\"]");
    let one = CapeArrayStringVec::from_slice(&[""]);
    assert_eq!(one.as_cape_array_string_in().to_string(), "[\"\"]");
}

#[test]
fn number_text() {
    let mut v = Vec::new();
    push_int(-1234, &mut v);
    assert_eq!(v.iter().collect::<String>(), "-1234");
    let mut w = Vec::new();
    push_int(i64::MIN, &mut w);
    assert_eq!(w.iter().collect::<String>(), "-9223372036854775808");
    let mut x = Vec::new();
    push_decimal(u64::MAX, &mut x);
    assert_eq!(x.iter().collect::<String>(), "18446744073709551615");
}

#[test]
fn cobia_error_display() {
    assert_eq!(COBIAError::Message("failed".to_string()).to_string(None), "failed");
    assert_eq!(COBIAError::Code(12).to_string(None), "COBIA error code: 12");
    assert_eq!(COBIAError::Code(12).to_string(Some("Not found")), "Not found");
    let cause = CapeError::new(CapeErrorProperty::Text("inner".to_string()), CapeErrorProperty::Failed(1), CapeErrorProperty::Failed(1), None);
    assert_eq!(COBIAError::MessageWithCause("outer".to_string(), cause.clone()).to_string(None), "outer, caused by inner");
    assert_eq!(COBIAError::CAPEOPEN(cause).to_string(None), "inner");
    let c = COBIAError::Code(3).clone();
    assert_eq!(c.as_code(), 3);
}
