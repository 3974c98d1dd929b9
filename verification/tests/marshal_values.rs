use sql_gateway::marshal::{convert_row, convert_rows, to_json, to_parameter};
use sql_gateway::value::{InteropValue, JsonScalar};

#[test]
fn round_trip_null() {
    let p = to_parameter(&JsonScalar::Null);
    assert_eq!(p, InteropValue::Null);
    assert_eq!(to_json(&p), Some(JsonScalar::Null));
}

#[test]
fn round_trip_integer() {
    let p = to_parameter(&JsonScalar::Int(42));
    assert_eq!(p, InteropValue::Integer(42));
    assert_eq!(to_json(&p), Some(JsonScalar::Int(42)));
}

#[test]
fn round_trip_finite_float() {
    let bits = 3.5f64.to_bits();
    let p = to_parameter(&JsonScalar::Float(bits));
    assert_eq!(p, InteropValue::Real(bits));
    assert_eq!(to_json(&p), Some(JsonScalar::Float(bits)));
    assert_eq!(f64::from_bits(bits), 3.5);
}

#[test]
fn round_trip_text() {
    let p = to_parameter(&JsonScalar::Str(String::from("hello world")));
    assert_eq!(p, InteropValue::Text(String::from("hello world")));
    assert_eq!(to_json(&p), Some(JsonScalar::Str(String::from("hello world"))));
}

#[test]
fn text_with_quotes_round_trips_unchanged() {
    let quoted = String::from("\"quoted\"");
    let p = to_parameter(&JsonScalar::Str(quoted.clone()));
    assert_eq!(to_json(&p), Some(JsonScalar::Str(quoted)));
}

#[test]
fn bool_binds_as_text() {
    assert_eq!(
        to_parameter(&JsonScalar::Bool(true)),
        InteropValue::Text(String::from("true"))
    );
    assert_eq!(
        to_parameter(&JsonScalar::Bool(false)),
        InteropValue::Text(String::from("false"))
    );
}

#[test]
fn blob_renders_as_hex_brackets() {
    let blob = InteropValue::Blob(vec![0xde, 0xad, 0xbe, 0xef]);
    assert_eq!(
        to_json(&blob),
        Some(JsonScalar::Str(String::from("[de, ad, be, ef]")))
    );
}

#[test]
fn blob_hex_has_no_leading_zeros() {
    assert_eq!(
        to_json(&InteropValue::Blob(vec![0x0f])),
        Some(JsonScalar::Str(String::from("[f]")))
    );
    assert_eq!(
        to_json(&InteropValue::Blob(vec![0x00, 0x10])),
        Some(JsonScalar::Str(String::from("[0, 10]")))
    );
}

#[test]
fn empty_blob_renders_as_empty_brackets() {
    assert_eq!(
        to_json(&InteropValue::Blob(Vec::new())),
        Some(JsonScalar::Str(String::from("[]")))
    );
}

#[test]
fn blob_does_not_round_trip() {
    let original = vec![0xde, 0xad];
    let rendered = to_json(&InteropValue::Blob(original.clone())).unwrap();
    let rebound = to_parameter(&rendered);
    assert_eq!(rebound, InteropValue::Text(String::from("[de, ad]")));
    assert_ne!(rebound, InteropValue::Blob(original));
}

#[test]
fn non_finite_real_fails_to_convert() {
    assert_eq!(to_json(&InteropValue::Real(f64::NAN.to_bits())), None);
    assert_eq!(to_json(&InteropValue::Real(f64::INFINITY.to_bits())), None);
    assert_eq!(to_json(&InteropValue::Real(f64::NEG_INFINITY.to_bits())), None);
}

#[test]
fn failing_column_is_dropped_from_its_row() {
    let row = vec![
        InteropValue::Integer(1),
        InteropValue::Real(f64::NAN.to_bits()),
        InteropValue::Text(String::from("x")),
    ];
    assert_eq!(
        convert_row(&row),
        vec![JsonScalar::Int(1), JsonScalar::Str(String::from("x"))]
    );
}

#[test]
fn rows_are_kept_in_order() {
    let rows = vec![
        vec![InteropValue::Integer(1)],
        vec![InteropValue::Real(f64::NAN.to_bits())],
        vec![InteropValue::Integer(3)],
    ];
    let converted = convert_rows(&rows);
    assert_eq!(
        converted,
        vec![
            vec![JsonScalar::Int(1)],
            Vec::<JsonScalar>::new(),
            vec![JsonScalar::Int(3)],
        ]
    );
}
