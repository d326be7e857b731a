use openai_client::error_handling::{Category, OpenAIError};
use openai_client::json::{
    array_of, decimal, json_array, number_array, push_bool, push_decimal, push_joined, quote,
    string_array, Json, JsonNumber, JsonText,
};
use openai_client::payload::ObjectWriter;

#[test]
fn decimal_numerals() {
    assert_eq!(decimal(0), "0");
    assert_eq!(decimal(7), "7");
    assert_eq!(decimal(10), "10");
    assert_eq!(decimal(1234567890), "1234567890");
    assert_eq!(decimal(18446744073709551615), "18446744073709551615");
}

#[test]
fn decimal_is_appended() {
    let mut out = String::from("n=");
    push_decimal(&mut out, 405);
    assert_eq!(out, "n=405");
}

#[test]
fn truth_values_are_appended() {
    let mut out = String::new();
    push_bool(&mut out, true);
    out.push(' ');
    push_bool(&mut out, false);
    assert_eq!(out, "true false");
}

#[test]
fn joined_items_are_separated() {
    let mut out = String::from("[");
    push_joined(&mut out, true, ",", "a");
    push_joined(&mut out, false, ",", "b");
    push_joined(&mut out, false, ", ", "c");
    assert_eq!(out, "[a,b, c");
}

#[test]
fn json_value_is_taken_as_given() {
    let value = Json::parse(" [1, {\"a\": true}] ").unwrap();
    assert_eq!(value.as_str(), " [1, {\"a\": true}] ");
    assert_eq!(value.clone(), value);
}

#[test]
fn malformed_json_value_is_an_encoding_failure() {
    for text in ["", "{", "{\"a\":}", "[1,]", "tru", "1 2", "'a'"] {
        match Json::parse(text) {
            Err(e) => {
                assert_eq!(e.category(), Category::Encoding);
                assert!(matches!(e, OpenAIError::SerdeJsonError(_)));
            },
            Ok(_) => panic!("{:?} was taken as JSON", text),
        }
    }
}

#[test]
fn json_number_is_taken_as_given() {
    for text in ["0", "0.5", "-2.0", "1e3", "18446744073709551615"] {
        assert_eq!(JsonNumber::parse(text).unwrap().as_str(), text);
    }
    let n = JsonNumber::parse("0.5").unwrap();
    assert_eq!(n.clone(), n);
}

#[test]
fn text_that_is_no_number_is_an_encoding_failure() {
    for text in ["", "abc", "\"1\"", "true", "[1]", "1,2", "0x10"] {
        match JsonNumber::parse(text) {
            Err(e) => assert_eq!(e.category(), Category::Encoding),
            Ok(_) => panic!("{:?} was taken as a number", text),
        }
    }
}

#[test]
fn arrays_are_framed() {
    assert_eq!(json_array(&Vec::new()), "[]");
    assert_eq!(json_array(&vec![Json::parse("1").unwrap()]), "[1]");
    assert_eq!(
        json_array(&vec![Json::parse("{}").unwrap(), Json::parse("\"x\"").unwrap()]),
        "[{},\"x\"]"
    );
    assert_eq!(number_array(&Vec::new()), "[]");
    assert_eq!(
        number_array(&vec![JsonNumber::parse("0.5").unwrap(), JsonNumber::parse("2").unwrap()]),
        "[0.5,2]"
    );
    assert_eq!(string_array(&Vec::new()), "[]");
    assert_eq!(string_array(&vec!["a".to_string(), "b\"c".to_string()]), r#"["a","b\"c"]"#);
}

#[test]
fn object_writer_frames_members() {
    assert_eq!(ObjectWriter::new().finish(), "{}");
    let text = ObjectWriter::new()
        .member("a", "1")
        .maybe_member("b", None)
        .maybe_member("c", Some("[]"))
        .string("d", "x\ny")
        .opt_str("e", Some("y"))
        .opt_str("f", None)
        .opt_unsigned("g", Some(3))
        .opt_unsigned32("h", Some(4294967295))
        .opt_bool("i", Some(true))
        .opt_bool("j", None)
        .finish();
    assert_eq!(
        text,
        r#"{"a":1,"c":[],"d":"x\ny","e":"y","g":3,"h":4294967295,"i":true}"#
    );
}

#[test]
fn object_writer_quotes_member_names() {
    let text = ObjectWriter::new().member("a\"b", "1").finish();
    assert_eq!(text, r#"{"a\"b":1}"#);
}

#[test]
fn strings_are_quoted() {
    assert_eq!(quote(""), "\"\"");
    assert_eq!(quote("plain"), "\"plain\"");
    assert_eq!(quote("a\"b\\c"), r#""a\"b\\c""#);
    assert_eq!(quote("line\nbreak\ttab"), r#""line\nbreak\ttab""#);
    assert_eq!(quote("\u{1}"), r#""\u0001""#);
    assert_eq!(quote("é/✓"), "\"é/✓\"");
}

#[test]
fn each_kind_of_item_has_its_text() {
    assert_eq!(Json::parse("[1, 2]").unwrap().to_json_text(), "[1, 2]");
    assert_eq!(JsonNumber::parse("0.5").unwrap().to_json_text(), "0.5");
    assert_eq!("a\"b".to_string().to_json_text(), r#""a\"b""#);
}

#[test]
fn array_of_any_kind_is_framed() {
    assert_eq!(array_of(&Vec::<Json>::new()), "[]");
    assert_eq!(array_of(&vec!["x".to_string()]), r#"["x"]"#);
    assert_eq!(
        array_of(&vec!["x".to_string(), "".to_string(), "z".to_string()]),
        r#"["x","","z"]"#
    );
    assert_eq!(
        array_of(&vec![JsonNumber::parse("1").unwrap(), JsonNumber::parse("-2").unwrap()]),
        "[1,-2]"
    );
}
