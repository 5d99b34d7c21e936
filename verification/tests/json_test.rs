use prediction_market_arbitrage_mvp::json::{integer_member, text_member};

fn document(text: &str) -> serde_json::Value {
    serde_json::from_str(text).unwrap()
}

#[test]
fn text_member_reads_strings_only() {
    let doc = document(r#"{"a":"x","b":7,"c":null,"d":["x"],"e":{"a":"y"},"":"empty"}"#);
    assert_eq!(text_member(&doc, "a"), Some("x"));
    assert_eq!(text_member(&doc, ""), Some("empty"));
    assert_eq!(text_member(&doc, "b"), None);
    assert_eq!(text_member(&doc, "c"), None);
    assert_eq!(text_member(&doc, "d"), None);
    assert_eq!(text_member(&doc, "e"), None);
    assert_eq!(text_member(&doc, "missing"), None);
    assert_eq!(text_member(&doc, "A"), None);
}

#[test]
fn integer_member_reads_integers_only() {
    let doc = document(
        r#"{"a":7,"b":-7,"c":"7","d":7.5,"e":7.0,"f":9223372036854775807,"g":9223372036854775808,"h":-9223372036854775808,"i":true}"#,
    );
    assert_eq!(integer_member(&doc, "a"), Some(7));
    assert_eq!(integer_member(&doc, "b"), Some(-7));
    assert_eq!(integer_member(&doc, "c"), None);
    assert_eq!(integer_member(&doc, "d"), None);
    assert_eq!(integer_member(&doc, "e"), None);
    assert_eq!(integer_member(&doc, "f"), Some(i64::MAX));
    assert_eq!(integer_member(&doc, "g"), None);
    assert_eq!(integer_member(&doc, "h"), Some(i64::MIN));
    assert_eq!(integer_member(&doc, "i"), None);
    assert_eq!(integer_member(&doc, "missing"), None);
}

#[test]
fn members_of_values_that_are_no_objects_are_missing() {
    for text in ["null", "true", "7", "\"a\"", "[{\"a\":\"x\"}]"] {
        let doc = document(text);
        assert_eq!(text_member(&doc, "a"), None);
        assert_eq!(integer_member(&doc, "a"), None);
    }
}

#[test]
fn a_repeated_member_counts_once() {
    let doc = document(r#"{"a":"first","a":"second"}"#);
    assert_eq!(text_member(&doc, "a"), Some("second"));
}
