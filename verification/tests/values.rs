use mesh::duplicate::Duplicate;
use mesh::float::F32;
use mesh::ids::generate_item_id;
use mesh::json::Json;
use mesh::text;
use mesh::tokenizer::TokenizerRegistry;

fn json(text: &str) -> Json {
    Json::parse(text).unwrap()
}

#[test]
fn test_texts_are_joined_and_trimmed() {
    assert_eq!(text::join2("a", "b"), "ab");
    assert_eq!(text::join3("a", "\u{e9}", "c"), "a\u{e9}c");
    assert_eq!(text::join(&vec!["a".to_string(), "b".to_string(), "c".to_string()], ", "), "a, b, c");
    assert_eq!(text::join(&vec![], ", "), "");
    assert_eq!(text::trim(" \t\u{3000}x y\n\u{a0}"), "x y");
    assert_eq!(text::trim("\n "), "");
    assert_eq!(text::strip_prefix("data: x", "data: "), Some("x"));
    assert_eq!(text::strip_prefix("data:x", "data: "), None);
    assert!(text::same("\u{e9}", "\u{e9}") && !text::same("e", "\u{e9}"));
}

#[test]
fn test_trimming_agrees_with_std() {
    for code in 0..0x3100u32 {
        if let Some(c) = char::from_u32(code) {
            let s = format!("{c}x{c}");
            assert_eq!(text::trim(&s), s.trim(), "code {code:x}");
        }
    }
}

#[test]
fn test_numbers_in_decimal() {
    assert_eq!(text::number(0), "0");
    assert_eq!(text::number(10), "10");
    assert_eq!(text::number(u128::MAX), u128::MAX.to_string());
}

#[test]
fn test_json_is_read_and_written() {
    let v = json("{\"b\":[1,-2.5,true,null,\"s\"],\"a\":{}}");
    assert_eq!(v.to_text(), "{\"a\":{},\"b\":[1,-2.5,true,null,\"s\"]}");
    assert_eq!(v.copy().to_text(), v.to_text());
    assert_eq!(Json::from_value(v.to_value()).to_text(), v.to_text());
    let e = Json::parse("{").unwrap_err();
    assert_eq!(e, serde_json::from_str::<serde_json::Value>("{").unwrap_err().to_string());
    assert_eq!(Json::uint(u64::MAX).to_text(), "18446744073709551615");
}

#[test]
fn test_last_of_two_fields_counts() {
    let mut v = Json::Object(vec![
        ("a".to_string(), Json::uint(1)),
        ("a".to_string(), Json::string("two")),
    ]);
    assert_eq!(v.to_text(), "{\"a\":\"two\"}");
    assert_eq!(v.get_str("a").map(|s| s.as_str()), Some("two"));
    v.set("a", Json::Null);
    assert_eq!(v.to_text(), "{\"a\":null}");
    v.set("b", Json::Bool(true));
    assert_eq!(v.to_text(), "{\"a\":null,\"b\":true}");
    assert!(v.get("c").is_none() && v.get_str("b").is_none());
    let mut n = Json::Null;
    n.set("a", Json::Null);
    assert_eq!(n.to_text(), "null");
}

#[test]
fn test_json_equality_knows_no_order_and_one_zero() {
    assert!(json("{\"a\":1,\"b\":2}").equals(&json("{\"b\":2,\"a\":1}")));
    assert!(!json("[1,2]").equals(&json("[2,1]")));
    assert!(json("[0.0]").equals(&json("[-0.0]")));
    assert!(!json("1").equals(&json("1.0")));
    assert!(!json("\"1\"").equals(&json("1")));
}

#[test]
fn test_positive_numbers_have_a_text() {
    for (shown, positive) in [("4096", true), ("0", false), ("-3", false), ("0.5", false), ("18446744073709551615", false)] {
        let Json::Number(n) = json(shown) else {
            panic!("expected a number");
        };
        let told = mesh::json::positive_text(&n);
        assert_eq!(told, if positive { Some(shown.to_string()) } else { None });
    }
}

#[test]
fn test_item_identifiers() {
    let a = generate_item_id("msg");
    let b = generate_item_id("msg");
    assert_ne!(a, b);
    let digits = a.strip_prefix("msg_").unwrap();
    assert_eq!(digits.len(), 32);
    assert!(digits.chars().all(|c| c.is_ascii_digit() || ('a'..='f').contains(&c)));
}

#[test]
fn test_duplicates_say_the_same() {
    let v: Vec<Option<String>> = vec![Some("a".to_string()), None];
    assert_eq!(v.duplicate(), v);
    assert_eq!(F32::one().bits, 1.0f32.to_bits());
    assert_eq!(F32::zero().bits, 0.0f32.to_bits());
}

#[test]
fn test_last_tokenizer_of_a_model_is_used() {
    let mut r = TokenizerRegistry::new();
    assert_eq!(r.get("a"), None);
    for (model, tokenizer) in [("a", 1u8), ("b", 2), ("a", 3)] {
        r.register(model.to_string(), tokenizer);
    }
    assert_eq!(r.get("a"), Some(&3));
    assert_eq!(r.get("b"), Some(&2));
    assert_eq!(r.get("c"), None);
}

#[test]
fn test_texts_are_ordered_as_std_orders_them() {
    let texts = ["", "a", "ab", "b", "\u{e9}", "\u{e9}a", "\u{ffff}", "\u{10000}", "A"];
    for x in texts {
        for y in texts {
            assert_eq!(text::comes_before(x, y), x < y, "{x:?} {y:?}");
        }
    }
}
