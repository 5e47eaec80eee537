use ima_cli::json::{JsonNumber, JsonValue};
use ima_cli::text::{contains, i64_to_decimal, parse_i32, split_str, starts_with, trim_str, u64_to_decimal};

#[test]
fn decimal_formatting() {
    for n in [0u64, 7, 10, 99, 100, 12345, u64::MAX] {
        assert_eq!(u64_to_decimal(n), n.to_string());
    }
    for n in [0i64, -1, 42, i64::MIN, i64::MAX, -1000] {
        assert_eq!(i64_to_decimal(n), n.to_string());
    }
}

#[test]
fn i32_parsing_matches_std() {
    for s in ["0", "7", "+5", "-5", "007", "-2147483648", "2147483647", "2147483648", "-2147483649", "", "-", "+", "1a", " 1", "99999999999999999999", "٣", "-0"] {
        assert_eq!(parse_i32(s), s.parse::<i32>().ok(), "input {:?}", s);
    }
}

#[test]
fn formatted_numbers_parse_back() {
    for n in [0i32, 1, -1, i32::MAX, i32::MIN, 15] {
        assert_eq!(parse_i32(&i64_to_decimal(n as i64)), Some(n));
    }
}

#[test]
fn trimming_matches_std() {
    for s in ["", "  ", " a ", "\u{3000}a b\t", "\u{85}x\u{a0}", "x", "\n\r\u{2028}y\u{2029}\u{202f}"] {
        assert_eq!(trim_str(s), s.trim());
    }
}

#[test]
fn splitting_matches_std() {
    for s in ["", "a", "a,b", ",a,", ",,", "x , y,z"] {
        let ours = split_str(s, ',');
        let theirs: Vec<String> = s.split(',').map(|p| p.to_string()).collect();
        assert_eq!(ours, theirs);
    }
}

#[test]
fn prefix_and_substring() {
    assert!(starts_with("application/pdf; x", "application/pdf"));
    assert!(!starts_with("app", "application"));
    assert!(starts_with("x", ""));
    assert!(contains("application/msword", "word"));
    assert!(contains("abc", ""));
    assert!(!contains("abc", "abcd"));
    assert!(!contains("abc", "bd"));
}

#[test]
fn json_member_access() {
    let v = JsonValue::Object(vec![
        ("a".to_string(), JsonValue::Str("x".to_string())),
        ("n".to_string(), JsonValue::Number(JsonNumber::PosInt(u64::MAX))),
        ("m".to_string(), JsonValue::Number(JsonNumber::NegInt(-3))),
        ("b".to_string(), JsonValue::Bool(true)),
    ]);
    assert_eq!(v.get("a").and_then(|m| m.as_str()), Some("x"));
    assert_eq!(v.get("n").and_then(|m| m.as_i64()), None);
    assert_eq!(v.get("m").and_then(|m| m.as_i64()), Some(-3));
    assert_eq!(v.get("b").and_then(|m| m.as_bool()), Some(true));
    assert!(v.get("z").is_none());
    assert!(JsonValue::Null.get("a").is_none());
}
