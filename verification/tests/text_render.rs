use ha_mpris_bridge::json::{render_json, JsonVal};
use ha_mpris_bridge::text::{i64_text, milli_to_text, u64_text};

#[test]
fn decimal_text_of_unsigned() {
    assert_eq!(u64_text(0).as_str(), "0");
    assert_eq!(u64_text(7).as_str(), "7");
    assert_eq!(u64_text(1234).as_str(), "1234");
    assert_eq!(u64_text(18446744073709551615).as_str(), "18446744073709551615");
}

#[test]
fn decimal_text_of_signed() {
    assert_eq!(i64_text(0).as_str(), "0");
    assert_eq!(i64_text(42).as_str(), "42");
    assert_eq!(i64_text(-42).as_str(), "-42");
    assert_eq!(i64_text(i64::MIN).as_str(), "-9223372036854775808");
    assert_eq!(i64_text(i64::MAX).as_str(), "9223372036854775807");
}

#[test]
fn thousandths_text() {
    assert_eq!(milli_to_text(500).as_str(), "0.5");
    assert_eq!(milli_to_text(1000).as_str(), "1.0");
    assert_eq!(milli_to_text(1500).as_str(), "1.5");
    assert_eq!(milli_to_text(1234).as_str(), "1.234");
    assert_eq!(milli_to_text(1230).as_str(), "1.23");
    assert_eq!(milli_to_text(0).as_str(), "0.0");
    assert_eq!(milli_to_text(-500).as_str(), "-0.5");
    assert_eq!(milli_to_text(-2750).as_str(), "-2.75");
}

#[test]
fn render_scalars() {
    assert_eq!(render_json(&JsonVal::Null).as_str(), "null");
    assert_eq!(render_json(&JsonVal::Bool(true)).as_str(), "true");
    assert_eq!(render_json(&JsonVal::Bool(false)).as_str(), "false");
    assert_eq!(render_json(&JsonVal::Int(-7)).as_str(), "-7");
    assert_eq!(render_json(&JsonVal::Milli(2500)).as_str(), "2.5");
    assert_eq!(render_json(&JsonVal::Str("hi".to_string())).as_str(), "\"hi\"");
}

#[test]
fn render_escapes_string_content() {
    let v = JsonVal::Str("a\"b\\c\nd".to_string());
    assert_eq!(render_json(&v).as_str(), "\"a\\\"b\\\\c\\nd\"");
    let ctl = JsonVal::Str("\u{01}".to_string());
    assert_eq!(render_json(&ctl).as_str(), "\"\\u0001\"");
}

#[test]
fn render_arrays_and_objects() {
    let v = JsonVal::Obj(vec![
        ("a".to_string(), JsonVal::Int(1)),
        ("b".to_string(), JsonVal::Arr(vec![JsonVal::Bool(true), JsonVal::Null])),
        ("c".to_string(), JsonVal::Str("x".to_string())),
    ]);
    assert_eq!(render_json(&v).as_str(), "{\"a\":1,\"b\":[true,null],\"c\":\"x\"}");
    assert_eq!(render_json(&JsonVal::Arr(vec![])).as_str(), "[]");
    assert_eq!(render_json(&JsonVal::Obj(vec![])).as_str(), "{}");
}
