use datatool::coerce::{coerce_value, fetch_kind, FetchKind, PgValue};
use datatool::json::{is_finite_float_bits, JsonNumber, JsonValue};

#[test]
fn kind_dispatch_is_case_sensitive_and_exact() {
    assert_eq!(fetch_kind("BOOL"), FetchKind::Bool);
    assert_eq!(fetch_kind("INT2"), FetchKind::Int4);
    assert_eq!(fetch_kind("INT4"), FetchKind::Int4);
    assert_eq!(fetch_kind("INT8"), FetchKind::Int8);
    assert_eq!(fetch_kind("FLOAT4"), FetchKind::Float8);
    assert_eq!(fetch_kind("FLOAT8"), FetchKind::Float8);
    assert_eq!(fetch_kind("JSON"), FetchKind::Json);
    assert_eq!(fetch_kind("JSONB"), FetchKind::Json);
    assert_eq!(fetch_kind("UUID"), FetchKind::Uuid);
    assert_eq!(fetch_kind("bool"), FetchKind::Text);
    assert_eq!(fetch_kind("TEXT"), FetchKind::Text);
    assert_eq!(fetch_kind("VARCHAR"), FetchKind::Text);
    assert_eq!(fetch_kind(""), FetchKind::Text);
}

#[test]
fn boolean_type_yields_boolean_tag() {
    assert!(matches!(coerce_value("BOOL", PgValue::Bool(true)), JsonValue::Bool(true)));
    assert!(matches!(coerce_value("BOOL", PgValue::Bool(false)), JsonValue::Bool(false)));
    // mismatched native value degrades to null
    assert!(matches!(coerce_value("BOOL", PgValue::Int4(1)), JsonValue::Null));
    assert!(matches!(coerce_value("BOOL", PgValue::Missing), JsonValue::Null));
}

#[test]
fn integer_types_yield_number_tag() {
    assert!(matches!(
        coerce_value("INT2", PgValue::Int4(-7)),
        JsonValue::Number(JsonNumber::Int(-7))
    ));
    assert!(matches!(
        coerce_value("INT4", PgValue::Int4(2147483647)),
        JsonValue::Number(JsonNumber::Int(2147483647))
    ));
    assert!(matches!(
        coerce_value("INT8", PgValue::Int8(9007199254740993)),
        JsonValue::Number(JsonNumber::Int(9007199254740993))
    ));
    assert!(matches!(coerce_value("INT4", PgValue::Text(String::from("5"))), JsonValue::Null));
    assert!(matches!(coerce_value("INT8", PgValue::Int4(5)), JsonValue::Null));
}

#[test]
fn floating_types_yield_number_or_null_when_non_finite() {
    let bits = 1.5f64.to_bits();
    match coerce_value("FLOAT8", PgValue::Float8(bits)) {
        JsonValue::Number(JsonNumber::FloatBits(b)) => assert_eq!(f64::from_bits(b), 1.5),
        other => panic!("expected a number, got {:?}", other),
    }
    assert!(matches!(
        coerce_value("FLOAT8", PgValue::Float8(f64::NAN.to_bits())),
        JsonValue::Null
    ));
    assert!(matches!(
        coerce_value("FLOAT4", PgValue::Float8(f64::INFINITY.to_bits())),
        JsonValue::Null
    ));
    assert!(matches!(
        coerce_value("FLOAT8", PgValue::Float8(f64::NEG_INFINITY.to_bits())),
        JsonValue::Null
    ));
    assert!(!is_finite_float_bits(f64::NAN.to_bits()));
    assert!(is_finite_float_bits(0.0f64.to_bits()));
    assert!(is_finite_float_bits(f64::MAX.to_bits()));
}

#[test]
fn structured_types_pass_through_unchanged() {
    let v = JsonValue::Array(vec![
        JsonValue::Bool(true),
        JsonValue::Text(String::from("x")),
    ]);
    match coerce_value("JSONB", PgValue::Json(v)) {
        JsonValue::Array(items) => {
            assert_eq!(items.len(), 2);
            assert!(matches!(items[0], JsonValue::Bool(true)));
            match &items[1] {
                JsonValue::Text(s) => assert_eq!(s, "x"),
                other => panic!("expected text, got {:?}", other),
            }
        }
        other => panic!("expected the array back, got {:?}", other),
    }
    assert!(matches!(coerce_value("JSON", PgValue::Text(String::from("{}"))), JsonValue::Null));
}

#[test]
fn identifier_and_unknown_types_yield_string_tag() {
    match coerce_value("UUID", PgValue::Uuid(String::from("123e4567-e89b-12d3-a456-426614174000"))) {
        JsonValue::Text(s) => assert_eq!(s, "123e4567-e89b-12d3-a456-426614174000"),
        other => panic!("expected text, got {:?}", other),
    }
    match coerce_value("NUMERIC", PgValue::Text(String::from("12.34"))) {
        JsonValue::Text(s) => assert_eq!(s, "12.34"),
        other => panic!("expected text, got {:?}", other),
    }
    assert!(matches!(coerce_value("UUID", PgValue::Int4(3)), JsonValue::Null));
    assert!(matches!(coerce_value("TIMESTAMP", PgValue::Missing), JsonValue::Null));
}
