use engula_apis::value::{
    to_typed_value, to_value, try_from_typed_value, try_from_value, try_opt_from_typed_value,
    TypedValue, Value,
};

#[test]
fn i64_round_trip() {
    let v = to_value(42i64);
    assert_eq!(v, Value::I64Value(42));
    assert_eq!(try_from_value::<i64>(v), Ok(42));
}

#[test]
fn i64_negative_round_trip() {
    let v = to_value(-7i64);
    assert_eq!(try_from_value::<i64>(v), Ok(-7));
}

#[test]
fn bool_encodes_as_i64() {
    assert_eq!(to_value(true), Value::I64Value(1));
    assert_eq!(to_value(false), Value::I64Value(0));
}

#[test]
fn bool_round_trip() {
    assert_eq!(try_from_value::<bool>(to_value(true)), Ok(true));
    assert_eq!(try_from_value::<bool>(to_value(false)), Ok(false));
}

#[test]
fn bool_nonzero_reads_true() {
    assert_eq!(try_from_value::<bool>(Value::I64Value(2)), Ok(true));
    assert_eq!(try_from_value::<bool>(Value::I64Value(-1)), Ok(true));
    assert_eq!(try_from_value::<bool>(Value::I64Value(0)), Ok(false));
}

#[test]
fn blob_round_trip() {
    let b: Vec<u8> = vec![1, 2, 3, 255];
    let v = to_value(b.clone());
    assert_eq!(v, Value::BlobValue(vec![1, 2, 3, 255]));
    assert_eq!(try_from_value::<Vec<u8>>(v), Ok(b));
}

#[test]
fn text_round_trip() {
    let s = String::from("hello");
    let v = to_value(s.clone());
    assert_eq!(v, Value::TextValue(String::from("hello")));
    assert_eq!(try_from_value::<String>(v), Ok(s));
}

#[test]
fn f64_bits_round_trip() {
    let bits = (3.5f64).to_bits();
    let v = to_value(bits);
    assert_eq!(v, Value::F64Value(bits));
    let back = try_from_value::<u64>(v).unwrap();
    assert_eq!(f64::from_bits(back), 3.5f64);
}

#[test]
fn text_rejected_as_i64_returns_original() {
    let v = Value::TextValue(String::from("not a number"));
    let r = try_from_value::<i64>(v.clone());
    assert_eq!(r, Err(v));
}

#[test]
fn i64_rejected_as_text_returns_original() {
    let v = Value::I64Value(9);
    assert_eq!(try_from_value::<String>(v.clone()), Err(v));
}

#[test]
fn blob_rejected_as_bool_returns_original() {
    let v = Value::BlobValue(vec![0]);
    assert_eq!(try_from_value::<bool>(v.clone()), Err(v));
}

#[test]
fn typed_value_round_trip() {
    let t = to_typed_value(7i64);
    assert_eq!(t, TypedValue { value: Some(Value::I64Value(7)) });
    assert_eq!(try_from_typed_value::<i64>(t), Ok(7));
}

#[test]
fn typed_value_absent_rejects_scalar() {
    let t = TypedValue::absent();
    assert_eq!(try_from_typed_value::<i64>(t.clone()), Err(t));
}

#[test]
fn typed_value_mismatch_returns_original() {
    let t = to_typed_value(String::from("text"));
    let r = try_from_typed_value::<i64>(t.clone());
    assert_eq!(r, Err(t));
}

#[test]
fn typed_value_optional_absent_is_none() {
    assert_eq!(try_opt_from_typed_value::<i64>(TypedValue::absent()), Ok(None));
}

#[test]
fn typed_value_optional_present_is_some() {
    let t = to_typed_value(5i64);
    assert_eq!(try_opt_from_typed_value::<i64>(t), Ok(Some(5)));
}

#[test]
fn typed_value_optional_mismatch_returns_original() {
    let t = to_typed_value(String::from("x"));
    assert_eq!(try_opt_from_typed_value::<i64>(t.clone()), Err(t));
}

#[test]
fn typed_value_wrap_unwrap_option() {
    let t = TypedValue::new(Some(Value::I64Value(1)));
    assert_eq!(t.clone().into_value(), Some(Value::I64Value(1)));
    let none = TypedValue::new(None);
    assert_eq!(none.into_value(), None);
}

#[test]
fn optional_encode_none_is_absent() {
    let t = engula_apis::value::opt_to_typed_value::<i64>(None);
    assert_eq!(t, TypedValue { value: None });
}

#[test]
fn optional_encode_some_round_trip() {
    let t = engula_apis::value::opt_to_typed_value(Some(11i64));
    assert_eq!(try_opt_from_typed_value::<i64>(t), Ok(Some(11)));
}

#[test]
fn singleton_blob_unwraps_as_scalar() {
    let l = engula_apis::list_value::ListValue::from_elem::<Vec<u8>>(vec![9u8]);
    assert_eq!(try_from_value::<Vec<u8>>(Value::ListValue(l)), Ok(vec![9u8]));
}

#[test]
fn singleton_text_unwraps_as_scalar() {
    let l = engula_apis::list_value::ListValue::from_elem::<String>(String::from("s"));
    assert_eq!(try_from_value::<String>(Value::ListValue(l)), Ok(String::from("s")));
}
