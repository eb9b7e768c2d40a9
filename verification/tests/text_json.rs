use platform_admin::json::{Json, JsonNumber};
use platform_admin::text::{
    append, char_len, concat2, concat3, contains, decimal, decimal_unsigned, is_blank, owned,
    parse_i32, parse_i64, replace_char, str_eq, take_chars, trim,
};

#[test]
fn trim_removes_unicode_white_space() {
    assert_eq!(trim("  hello world \t\n"), "hello world");
    assert_eq!(trim("\u{00A0}\u{3000}x\u{2003}"), "x");
    assert_eq!(trim("a-b"), "a-b");
    assert_eq!(trim(""), "");
}

#[test]
fn blank_means_empty_once_trimmed() {
    assert!(is_blank("   \t"));
    assert!(is_blank(""));
    assert!(!is_blank(" x "));
}

#[test]
fn contains_finds_runs() {
    assert!(contains("security_login", "login"));
    assert!(contains("abc", ""));
    assert!(!contains("abc", "abcd"));
    assert!(!contains("tenant", "tnt"));
}

#[test]
fn replace_and_take() {
    assert_eq!(replace_char("Spring Drop 1", ' ', '_'), "Spring_Drop_1");
    assert_eq!(take_chars("2024-03-04T10:11:12Z", 10), "2024-03-04");
    assert_eq!(take_chars("ab", 10), "ab");
    assert_eq!(take_chars("héllo", 2), "hé");
}

#[test]
fn decimal_text_of_integers() {
    assert_eq!(decimal(0), "0");
    assert_eq!(decimal(-42), "-42");
    assert_eq!(decimal(i64::MIN), "-9223372036854775808");
    assert_eq!(decimal_unsigned(18446744073709551615), "18446744073709551615");
}

#[test]
fn integer_parsing_follows_from_str() {
    assert_eq!(parse_i64("42"), Some(42));
    assert_eq!(parse_i64("+7"), Some(7));
    assert_eq!(parse_i64("-9223372036854775808"), Some(i64::MIN));
    assert_eq!(parse_i64("9223372036854775808"), None);
    assert_eq!(parse_i64(" 4"), None);
    assert_eq!(parse_i64("-"), None);
    assert_eq!(parse_i64(""), None);
    assert_eq!(parse_i32("2147483648"), None);
    assert_eq!(parse_i32("-2147483648"), Some(i32::MIN));
}

#[test]
fn string_building_helpers() {
    let mut s = owned("ab");
    append(&mut s, "cd");
    assert_eq!(s, "abcd");
    assert_eq!(concat2("x", "y"), "xy");
    assert_eq!(concat3("a", "-", "b"), "a-b");
    assert!(str_eq("same", "same"));
    assert!(!str_eq("same", "Same"));
    assert_eq!(char_len("héllo"), 5);
}

#[test]
fn json_reads_members() {
    let j = Json::Object(vec![
        ("kind".to_string(), Json::Str("first".to_string())),
        ("kind".to_string(), Json::Str("second".to_string())),
        ("n".to_string(), Json::Number(JsonNumber::Unsigned(9_223_372_036_854_775_808))),
        ("m".to_string(), Json::Number(JsonNumber::Int(-3))),
        ("b".to_string(), Json::Bool(true)),
    ]);
    assert_eq!(j.get("kind").and_then(|v| v.as_str()), Some("first"));
    assert_eq!(j.get("missing"), None);
    assert_eq!(j.get("n").and_then(|v| v.as_i64()), None);
    assert_eq!(j.get("m").and_then(|v| v.as_i64()), Some(-3));
    assert_eq!(j.get("b").and_then(|v| v.as_bool()), Some(true));
    assert!(j.is_object());
    assert!(!j.is_array());
}

#[test]
fn json_set_member_replaces_in_place() {
    let mut j = Json::Object(vec![
        ("a".to_string(), Json::Str("1".to_string())),
        ("b".to_string(), Json::Str("2".to_string())),
    ]);
    j.set_member("a", Json::Str("one".to_string()));
    j.set_member("c", Json::Str("3".to_string()));
    assert_eq!(
        j,
        Json::Object(vec![
            ("a".to_string(), Json::Str("one".to_string())),
            ("b".to_string(), Json::Str("2".to_string())),
            ("c".to_string(), Json::Str("3".to_string())),
        ])
    );
    let mut n = Json::Null;
    n.ensure_object();
    assert_eq!(n, Json::Object(vec![]));
    assert_eq!(Json::text("t"), Json::Str("t".to_string()));
    assert_eq!(Json::empty_object(), Json::Object(vec![]));
}

#[test]
fn json_duplicate_is_equal() {
    let j = Json::Array(vec![Json::Null, Json::Number(JsonNumber::Real("1.5".to_string()))]);
    assert_eq!(j.duplicate(), j);
}
