//! Text, numbers, time and JSON.

use yomua::json::{parse_json, Json};
use yomua::scalar::Scalar;
use yomua::text::{
    contains, i64_text, join, parse_i64, parse_unsigned, same_text, split_once,
    starts_with, take_chars, trim, trim_end, u64_text,
};
use yomua::time::{Span, Timestamp};

fn s(x: f64) -> Scalar {
    Scalar { bits: x.to_bits() }
}

#[test]
fn white_space_is_cut_off() {
    for text in ["", " ", "a", " a b ", "\t\u{3000}你好\u{a0}\n", "\u{200b}x", "\u{85}\u{2028}y"] {
        assert_eq!(trim(text), text.trim());
        assert_eq!(trim_end(text), text.trim_end());
    }
}

#[test]
fn texts_are_searched_and_split() {
    assert!(contains("abcabd", "abd"));
    assert!(contains("abc", ""));
    assert!(!contains("ab", "abc"));
    assert!(starts_with("plugin_data.get", "plugin_data."));
    assert!(!starts_with("plugin", "plugin_data."));
    assert_eq!(split_once("a=b=c", '='), Some(("a".to_string(), "b=c".to_string())));
    assert_eq!(split_once("abc", '='), None);
    assert_eq!(take_chars("你好吗", 2), "你好");
    assert_eq!(take_chars("你好吗", 9), "你好吗");
    assert_eq!(join(&vec!["a".to_string(), "b".to_string()], "；"), "a；b");
    assert_eq!(join(&vec![], "；"), "");
    assert_eq!(yomua::text::concat("a", "b"), "ab");
    assert!(same_text("é", "é"));
}

#[test]
fn numbers_are_written_and_read() {
    for n in [0, 7, 10, 99, 1_000_000, u64::MAX] {
        assert_eq!(u64_text(n), n.to_string());
        assert_eq!(parse_unsigned(&n.to_string(), u64::MAX), Some(n));
    }
    for i in [i64::MIN, -1, 0, 42, i64::MAX] {
        assert_eq!(i64_text(i), i.to_string());
        assert_eq!(parse_i64(&i64_text(i)), Some(i));
    }
    for text in ["", "+", "-", "+5", "-0", "007", "1_0", " 1", "9223372036854775808", "--1", "１"] {
        assert_eq!(parse_i64(text), text.parse::<i64>().ok());
        assert_eq!(parse_unsigned(text, u64::MAX), text.parse::<u64>().ok());
    }
    assert_eq!(parse_unsigned("256", 255), None);
}

#[test]
fn doubles_compare_by_their_bits() {
    let values = [
        f64::NEG_INFINITY, -1.5, -0.0, 0.0, f64::MIN_POSITIVE, 0.1, 1.0, 72.0, f64::INFINITY, f64::NAN,
    ];
    for a in values {
        assert_eq!(s(a).is_nan(), a.is_nan());
        assert_eq!(s(a).is_finite(), a.is_finite());
        for b in values {
            assert_eq!(s(a).less_than(s(b)), a < b);
        }
        let bounded = f64::from_bits(s(a).clamp(s(0.0), s(100.0)).bits);
        let expected = a.clamp(0.0, 100.0);
        assert!(bounded == expected || bounded.is_nan() && expected.is_nan());
        assert_eq!(s(a).clamp(s(0.0), s(100.0)).clamp(s(0.0), s(100.0)), s(a).clamp(s(0.0), s(100.0)));
    }
    assert_eq!(s(1.0).max(s(f64::NAN)), s(1.0));
    assert_eq!(s(f64::NAN).min(s(2.0)), s(2.0));
    assert_eq!(Scalar::from_bits(s(0.25).bits), s(0.25));
}

#[test]
fn spans_and_points_in_time() {
    let a = Timestamp { secs: 10, nanos: 5 };
    let b = Timestamp { secs: 12, nanos: 0 };
    assert_eq!(b.since(a), 1_999_999_995);
    assert_eq!(a.since(b), -1_999_999_995);
    assert_eq!(Timestamp { secs: -1, nanos: 0 }.seconds_into_day(), 86_399);
    assert_eq!(Span::from_secs(2), Span::from_millis(2000));
    assert!(Span::from_secs(5).is_comparable());
    assert!(!Span::from_secs(u64::MAX).is_comparable());
}

#[test]
fn documents_are_read() {
    let text = r#"{"n": null, "b": true, "i": -3, "u": 18446744073709551615, "x": 0.5, "s": "é", "a": [1, "z"], "o": {"k": {}}}"#;
    let doc = parse_json(text.as_bytes().to_vec()).unwrap();
    assert!(doc.is_object());
    assert!(doc.get("n").unwrap().is_null());
    assert!(matches!(doc.get("b"), Some(Json::Bool(true))));
    assert_eq!(doc.i64_at("i"), Some(-3));
    assert_eq!(doc.get("u").unwrap().as_u64(), Some(u64::MAX));
    assert_eq!(doc.i64_at("u"), None);
    assert_eq!(doc.get("x").unwrap().as_double(), Some(s(0.5)));
    assert_eq!(doc.i64_at("x"), None);
    assert_eq!(doc.text_at("s").map(|t| t.as_str()), Some("é"));
    let items = doc.get("a").unwrap().as_array().unwrap();
    assert_eq!(items[0].as_double(), Some(s(1.0)));
    assert_eq!(items[1].as_text().map(|t| t.as_str()), Some("z"));
    assert!(doc.get("o").unwrap().get("k").unwrap().is_object());
    assert!(doc.get("missing").is_none());
    assert!(items[0].get("k").is_none());
    let copy = doc.duplicate();
    assert_eq!(copy.i64_at("i"), Some(-3));
    assert!(copy.has_key("o"));
}

#[test]
fn broken_documents_give_the_reason() {
    let expected = serde_json::from_slice::<serde_json::Value>(b"{\"a\": ").unwrap_err().to_string();
    assert_eq!(parse_json(b"{\"a\": ".to_vec()).unwrap_err(), expected);
    assert!(parse_json(vec![0xff]).is_err());
}
