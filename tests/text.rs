use finternet_sdk::json::JsonValue;
use finternet_sdk::keys::{PublicKey, Signature};
use finternet_sdk::text::{parse_u64, same_text, trim_nul_padding};

#[test]
fn parse_u64_follows_decimal_rules() {
    assert_eq!(parse_u64("0"), Some(0));
    assert_eq!(parse_u64("+5"), Some(5));
    assert_eq!(parse_u64("18446744073709551615"), Some(u64::MAX));
    assert_eq!(parse_u64("18446744073709551616"), None);
    assert_eq!(parse_u64(""), None);
    assert_eq!(parse_u64("+"), None);
    assert_eq!(parse_u64("-1"), None);
    assert_eq!(parse_u64("12a"), None);
    assert_eq!(parse_u64("99999999999999999999x"), None);
    assert_eq!(parse_u64(" 1"), None);
}

#[test]
fn nul_padding_is_trimmed_at_both_ends() {
    assert_eq!(trim_nul_padding("\0\0ab\0c\0\0"), "ab\0c");
    assert_eq!(trim_nul_padding("\0\0\0"), "");
    assert_eq!(trim_nul_padding("plain"), "plain");
    assert_eq!(trim_nul_padding("é\0"), "é");
}

#[test]
fn texts_compare_by_characters() {
    assert!(same_text("info", "info"));
    assert!(!same_text("info", "inf"));
    assert!(!same_text("mint", "mind"));
}

#[test]
fn json_lookup_takes_named_field() {
    let v = JsonValue::Object(vec![
        ("a".to_string(), JsonValue::Str("x".to_string())),
        ("b".to_string(), JsonValue::Bool(true)),
    ]);
    assert_eq!(v.get("a").and_then(|f| f.as_str()), Some("x"));
    assert!(v.get("b").unwrap().as_str().is_none());
    assert!(v.get("c").is_none());
    assert!(JsonValue::Null.get("a").is_none());
}

#[test]
fn keys_and_signatures_parse_from_base58() {
    let text = bs58::encode([9u8; 32]).into_string();
    assert_eq!(PublicKey::parse(&text), Some(PublicKey::from_bytes([9u8; 32])));
    assert_eq!(PublicKey::parse(&bs58::encode([9u8; 31]).into_string()), None);
    assert_eq!(PublicKey::parse("0"), None);
    assert_eq!(PublicKey::parse("é"), None);
    let sig = bs58::encode([4u8; 64]).into_string();
    assert_eq!(Signature::parse(&sig), Some(Signature::from_bytes([4u8; 64])));
    assert_eq!(Signature::parse(&text), None);
    assert!(PublicKey::from_bytes([1u8; 32]).same_as(&PublicKey::from_bytes([1u8; 32])));
    assert!(!PublicKey::from_bytes([1u8; 32]).same_as(&PublicKey::zero()));
}
