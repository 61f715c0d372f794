use table_browser::coerce::cell_text;
use table_browser::coerce::coerce;
use table_browser::coerce::JsonValue;
use table_browser::coerce::RawCell;
use table_browser::coerce::JSON_SAFE_INT_MAX;

#[test]
fn null_coerces_to_null() {
    assert!(matches!(coerce(RawCell::Null), JsonValue::Null));
}

#[test]
fn utf8_bytes_round_trip_to_the_identical_string() {
    let bytes = "héllo wörld".as_bytes().to_vec();
    match coerce(RawCell::Bytes(bytes.clone())) {
        JsonValue::Str(s) => assert_eq!(s.as_bytes(), bytes.as_slice()),
        _ => panic!("expected a string"),
    }
    match coerce(RawCell::Bytes(Vec::new())) {
        JsonValue::Str(s) => assert_eq!(s, ""),
        _ => panic!("expected a string"),
    }
}

#[test]
fn non_utf8_bytes_become_the_byte_array() {
    let bytes = vec![0xffu8, 0x00, 0xfe, 0x41];
    match coerce(RawCell::Bytes(bytes.clone())) {
        JsonValue::Bytes(b) => assert_eq!(b, bytes),
        _ => panic!("expected the raw bytes"),
    }
}

#[test]
fn signed_integers_stay_numbers() {
    match coerce(RawCell::Int(-42)) {
        JsonValue::Int(i) => assert_eq!(i, -42),
        _ => panic!("expected a number"),
    }
    match coerce(RawCell::Int(i64::MIN)) {
        JsonValue::Int(i) => assert_eq!(i, i64::MIN),
        _ => panic!("expected a number"),
    }
}

#[test]
fn unsigned_integers_in_safe_range_stay_numbers() {
    match coerce(RawCell::UInt(JSON_SAFE_INT_MAX)) {
        JsonValue::UInt(u) => assert_eq!(u, 9007199254740991),
        _ => panic!("expected a number"),
    }
    match coerce(RawCell::UInt(0)) {
        JsonValue::UInt(u) => assert_eq!(u, 0),
        _ => panic!("expected a number"),
    }
}

#[test]
fn unsigned_integers_beyond_safe_range_become_decimal_strings() {
    match coerce(RawCell::UInt(JSON_SAFE_INT_MAX + 1)) {
        JsonValue::Str(s) => assert_eq!(s, "9007199254740992"),
        _ => panic!("expected a decimal string"),
    }
    match coerce(RawCell::UInt(u64::MAX)) {
        JsonValue::Str(s) => assert_eq!(s, "18446744073709551615"),
        _ => panic!("expected a decimal string"),
    }
}

#[test]
fn finite_floats_stay_numeric_text() {
    let text = format!("{}", 2.5f64);
    match coerce(RawCell::Float { finite: true, text: text.clone() }) {
        JsonValue::Num(s) => assert_eq!(s, text),
        _ => panic!("expected numeric text"),
    }
}

#[test]
fn non_finite_floats_fall_back_to_strings() {
    let text = format!("{}", f64::NAN);
    match coerce(RawCell::Float { finite: false, text: text.clone() }) {
        JsonValue::Str(s) => assert_eq!(s, text),
        _ => panic!("expected a string fallback"),
    }
}

#[test]
fn date_time_values_become_their_text() {
    match coerce(RawCell::DateTime("2024-05-17 10:30:00".to_string())) {
        JsonValue::Str(s) => assert_eq!(s, "2024-05-17 10:30:00"),
        _ => panic!("expected the formatted text"),
    }
}

#[test]
fn unrecognized_kinds_become_null() {
    assert!(matches!(coerce(RawCell::Other), JsonValue::Null));
}

#[test]
fn display_text_of_empty_kinds_is_empty() {
    assert_eq!(cell_text(RawCell::Null), "");
    assert_eq!(cell_text(RawCell::Other), "");
}

#[test]
fn display_text_of_integers_is_the_decimal_numeral() {
    assert_eq!(cell_text(RawCell::Int(7)), "7");
    assert_eq!(cell_text(RawCell::Int(-42)), "-42");
    assert_eq!(cell_text(RawCell::Int(i64::MIN)), "-9223372036854775808");
    assert_eq!(cell_text(RawCell::Int(i64::MAX)), "9223372036854775807");
    assert_eq!(cell_text(RawCell::UInt(0)), "0");
    assert_eq!(cell_text(RawCell::UInt(u64::MAX)), "18446744073709551615");
}

#[test]
fn display_text_of_bytes_is_the_lossy_decoding() {
    assert_eq!(cell_text(RawCell::Bytes("héllo".as_bytes().to_vec())), "héllo");
    assert_eq!(cell_text(RawCell::Bytes(vec![0xffu8, 0x41])), "\u{FFFD}A");
}

#[test]
fn display_text_of_rendered_kinds_is_their_text() {
    assert_eq!(
        cell_text(RawCell::Float { finite: true, text: "2.5".to_string() }),
        "2.5"
    );
    assert_eq!(
        cell_text(RawCell::DateTime("2024-05-17 10:30:00".to_string())),
        "2024-05-17 10:30:00"
    );
}
