use graffiti::nodejs::{check_status, NapiStatus, NapiValue, NapiValueType, NativeFn};

fn uint32_round_trip(x: u32) {
    let v = NapiValue::create_uint32(x);
    assert_eq!(v.get_value_uint32(), Ok(x));
}

fn int32_round_trip(x: i32) {
    let v = NapiValue::create_int32(x);
    assert_eq!(v.get_value_int32(), Ok(x));
}

#[test]
fn round_trip_uint32() {
    uint32_round_trip(0);
    uint32_round_trip(1);
    uint32_round_trip(400);
    uint32_round_trip(u32::MAX);
}

#[test]
fn round_trip_int32() {
    int32_round_trip(i32::MIN);
    int32_round_trip(-1);
    int32_round_trip(0);
    int32_round_trip(300);
    int32_round_trip(i32::MAX);
}

#[test]
fn round_trip_bool() {
    let t = NapiValue::get_boolean(true);
    assert_eq!(t.get_value_bool(), Ok(true));
    let f = NapiValue::get_boolean(false);
    assert_eq!(f.get_value_bool(), Ok(false));
}

#[test]
fn round_trip_string_whole() {
    let bytes = b"hello world".to_vec();
    let v = NapiValue::create_string_utf8(bytes.clone());
    let (buf, copied) = v.get_value_string_utf8(64).unwrap();
    assert_eq!(copied, bytes.len());
    assert_eq!(buf, bytes);
}

#[test]
fn round_trip_string_truncated_to_buffer() {
    let v = NapiValue::create_string_utf8(b"hello world".to_vec());
    // a 6-byte buffer keeps one byte for the terminator: 5 bytes come back
    let (buf, copied) = v.get_value_string_utf8(6).unwrap();
    assert_eq!(copied, 5);
    assert_eq!(buf, b"hello".to_vec());
}

#[test]
fn round_trip_empty_string() {
    let v = NapiValue::create_string_utf8(Vec::new());
    let (buf, copied) = v.get_value_string_utf8(1).unwrap();
    assert_eq!(copied, 0);
    assert!(buf.is_empty());
}

#[test]
fn round_trip_array_elementwise() {
    let mut arr = NapiValue::create_array();
    for (i, x) in [7u32, 0, 19, u32::MAX].iter().enumerate() {
        let s = arr.set_element(i as u32, NapiValue::create_uint32(*x));
        assert_eq!(s, NapiStatus::Okay);
    }
    assert_eq!(arr.get_array_length(), Ok(4));
    for (i, x) in [7u32, 0, 19, u32::MAX].iter().enumerate() {
        let e = arr.get_element(i as u32).unwrap();
        assert_eq!(e.get_value_uint32(), Ok(*x));
    }
}

#[test]
fn set_element_overwrites_in_bounds() {
    let mut arr = NapiValue::create_array();
    assert_eq!(arr.set_element(0, NapiValue::create_uint32(1)), NapiStatus::Okay);
    assert_eq!(arr.set_element(0, NapiValue::create_uint32(2)), NapiStatus::Okay);
    assert_eq!(arr.get_array_length(), Ok(1));
    assert_eq!(arr.get_element(0).unwrap().get_value_uint32(), Ok(2));
}

#[test]
fn set_element_fills_gap_with_undefined() {
    let mut arr = NapiValue::create_array();
    assert_eq!(arr.set_element(2, NapiValue::create_int32(-5)), NapiStatus::Okay);
    assert_eq!(arr.get_array_length(), Ok(3));
    assert!(matches!(arr.get_element(0), Ok(NapiValue::Undefined)));
    assert!(matches!(arr.get_element(1), Ok(NapiValue::Undefined)));
    assert_eq!(arr.get_element(2).unwrap().get_value_int32(), Ok(-5));
}

#[test]
fn get_element_beyond_length_is_undefined() {
    let arr = NapiValue::create_array();
    assert!(matches!(arr.get_element(9), Ok(NapiValue::Undefined)));
}

#[test]
fn set_element_refuses_non_array() {
    let mut v = NapiValue::create_uint32(3);
    assert_eq!(v.set_element(0, NapiValue::Undefined), NapiStatus::ArrayExpected);
    assert_eq!(v.get_value_uint32(), Ok(3));
}

#[test]
fn type_mismatches_report_expected_kind() {
    assert_eq!(NapiValue::get_boolean(true).get_value_uint32(), Err(NapiStatus::NumberExpected));
    assert_eq!(NapiValue::create_uint32(1).get_value_int32(), Err(NapiStatus::NumberExpected));
    assert_eq!(NapiValue::create_int32(1).get_value_bool(), Err(NapiStatus::BooleanExpected));
    assert!(matches!(
        NapiValue::create_uint32(1).get_value_string_utf8(8),
        Err(NapiStatus::StringExpected)
    ));
    assert_eq!(NapiValue::undefined().get_array_length(), Err(NapiStatus::ArrayExpected));
    assert!(matches!(
        NapiValue::Null.get_element(0),
        Err(NapiStatus::ArrayExpected)
    ));
    let mut not_object = NapiValue::create_array();
    assert_eq!(
        not_object.set_named_property("k".to_string(), NapiValue::Null),
        NapiStatus::ObjectExpected
    );
}

#[test]
fn type_of_classifies_values() {
    assert_eq!(NapiValue::undefined().type_of(), NapiValueType::Undefined);
    assert_eq!(NapiValue::Null.type_of(), NapiValueType::Null);
    assert_eq!(NapiValue::get_boolean(false).type_of(), NapiValueType::Boolean);
    assert_eq!(NapiValue::create_uint32(4).type_of(), NapiValueType::Number);
    assert_eq!(NapiValue::create_int32(-4).type_of(), NapiValueType::Number);
    assert_eq!(NapiValue::create_string_utf8(b"s".to_vec()).type_of(), NapiValueType::String);
    assert_eq!(NapiValue::create_array().type_of(), NapiValueType::Object);
    assert_eq!(NapiValue::create_object().type_of(), NapiValueType::Object);
    assert_eq!(
        NapiValue::create_function(NativeFn::WaitEvent).type_of(),
        NapiValueType::Function
    );
}

#[test]
fn check_status_accepts_only_success() {
    assert_eq!(check_status(NapiStatus::Okay, 41u32), Ok(41));
    assert_eq!(check_status(NapiStatus::GenericFailure, 41u32), Err(NapiStatus::GenericFailure));
    assert_eq!(check_status(NapiStatus::PendingException, ()), Err(NapiStatus::PendingException));
}

#[test]
fn deep_clone_copies_nested_structure() {
    let mut arr = NapiValue::create_array();
    arr.set_element(0, NapiValue::create_string_utf8(b"abc".to_vec()));
    arr.set_element(1, NapiValue::create_uint32(9));
    let copy = arr.deep_clone();
    assert_eq!(copy.get_array_length(), Ok(2));
    let first = copy.get_element(0).unwrap();
    let (buf, n) = first.get_value_string_utf8(16).unwrap();
    assert_eq!(n, 3);
    assert_eq!(buf, b"abc".to_vec());
    assert_eq!(copy.get_element(1).unwrap().get_value_uint32(), Ok(9));
}
