//! Variable value widths, word packing and byte resizing.

use coreminer::variable::{NumericValue, VariableValue};

#[test]
fn test_variable_value_sizing() {
    let v = VariableValue::Numeric(NumericValue::U8(42));
    assert_eq!(v.byte_size(), 1);
    assert_eq!(v.to_u64(), 42);

    let v = VariableValue::Numeric(NumericValue::I8(42));
    assert_eq!(v.byte_size(), 1);
    assert_eq!(v.to_u64(), 42);

    let v = VariableValue::Numeric(NumericValue::U16(42));
    assert_eq!(v.byte_size(), 2);
    assert_eq!(v.to_u64(), 42);

    let v = VariableValue::Numeric(NumericValue::I16(42));
    assert_eq!(v.byte_size(), 2);
    assert_eq!(v.to_u64(), 42);

    let v = VariableValue::Numeric(NumericValue::U32(42));
    assert_eq!(v.byte_size(), 4);
    assert_eq!(v.to_u64(), 42);

    let v = VariableValue::Numeric(NumericValue::I32(42));
    assert_eq!(v.byte_size(), 4);
    assert_eq!(v.to_u64(), 42);

    let v = VariableValue::Numeric(NumericValue::U64(42));
    assert_eq!(v.byte_size(), 8);
    assert_eq!(v.to_u64(), 42);

    let v = VariableValue::Numeric(NumericValue::I64(42));
    assert_eq!(v.byte_size(), 8);
    assert_eq!(v.to_u64(), 42);

    let v = VariableValue::Numeric(NumericValue::F32Bits(42.19f32.to_bits()));
    assert_eq!(v.byte_size(), 4);

    let v = VariableValue::Numeric(NumericValue::F64Bits(42.19f64.to_bits()));
    assert_eq!(v.byte_size(), 8);

    let v = VariableValue::Other(19);
    assert_eq!(v.byte_size(), 8);
    assert_eq!(v.to_u64(), 19);

    let v = VariableValue::Bytes(vec![0x19, 19, 19]);
    assert_eq!(v.byte_size(), 3);
    assert_eq!(v.to_u64(), 1250073);
}

#[test]
fn test_resize_bytes() {
    let v = VariableValue::Other(42);
    let bytes = v.resize_to_bytes(4);
    assert_eq!(bytes.len(), 4);
    assert_eq!(bytes, vec![42, 0, 0, 0]);

    let bytes = v.resize_to_bytes(8);
    assert_eq!(bytes.len(), 8);
    assert_eq!(bytes, vec![42, 0, 0, 0, 0, 0, 0, 0]);

    let bytes = v.resize_to_bytes(1);
    assert_eq!(bytes.len(), 1);
    assert_eq!(bytes, vec![42]);
}

#[test]
fn test_signed_integer_to_bytes() {
    let v: i8 = 19;
    let b = v.to_ne_bytes();
    assert_eq!(b.len(), 1);
    assert_eq!(b, [19]);

    let v: i32 = 19;
    let b = v.to_ne_bytes();
    assert_eq!(b.len(), 4);
    assert_eq!(b, [19, 0, 0, 0]);

    let v: i32 = -19;
    let b = v.to_ne_bytes();
    assert_eq!(b.len(), 4);
    assert_eq!(b, [237, 255, 255, 255]);
}

#[test]
fn signed_values_are_zero_extended_not_sign_extended() {
    // a negative byte contributes its two's complement byte only
    let v = VariableValue::Numeric(NumericValue::I8(-19));
    assert_eq!(v.to_u64(), 237);

    let v = VariableValue::Numeric(NumericValue::I32(-19));
    assert_eq!(v.to_u64(), 0xFFFF_FFED);
}
