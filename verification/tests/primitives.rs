use lex_engine::numeric::double_less_than;
use lex_engine::sanitizer::is_safe_identifier;
use lex_engine::text::{push_decimal, same_text};

#[test]
fn safe_identifiers() {
    assert!(is_safe_identifier("inventory"));
    assert!(is_safe_identifier("core"));
    assert!(is_safe_identifier("a_b9"));
    assert!(is_safe_identifier(&"a".repeat(63)));
}

#[test]
fn unsafe_identifiers() {
    assert!(!is_safe_identifier(""));
    assert!(!is_safe_identifier("Inventory"));
    assert!(!is_safe_identifier("1abc"));
    assert!(!is_safe_identifier("_abc"));
    assert!(!is_safe_identifier("a-b"));
    assert!(!is_safe_identifier("a b"));
    assert!(!is_safe_identifier("users; DROP TABLE x"));
    assert!(!is_safe_identifier("ñandu"));
    assert!(!is_safe_identifier("añb"));
    assert!(!is_safe_identifier(&"a".repeat(64)));
    // 32 two-byte characters: 64 bytes, refused on length.
    assert!(!is_safe_identifier(&"é".repeat(32)));
}

#[test]
fn double_ordering() {
    let b = |f: f64| f.to_bits();
    assert!(double_less_than(b(1.0), b(2.0)));
    assert!(!double_less_than(b(2.0), b(1.0)));
    assert!(double_less_than(b(-1.0), b(0.0)));
    assert!(double_less_than(b(-2.0), b(-1.0)));
    assert!(!double_less_than(b(-0.0), b(0.0)));
    assert!(!double_less_than(b(0.0), b(-0.0)));
    assert!(!double_less_than(b(f64::NAN), b(1.0)));
    assert!(!double_less_than(b(1.0), b(f64::NAN)));
    assert!(double_less_than(b(f64::NEG_INFINITY), b(-1e300)));
    assert!(!double_less_than(b(3.5), b(3.5)));
}

#[test]
fn decimals() {
    let mut s = String::from("$");
    push_decimal(&mut s, 0);
    assert_eq!(s, "$0");
    let mut s = String::new();
    push_decimal(&mut s, 1234567);
    assert_eq!(s, "1234567");
}

#[test]
fn text_equality() {
    assert!(same_text("id", "id"));
    assert!(!same_text("id", "ids"));
    assert!(!same_text("ab", "ac"));
    assert!(same_text("", ""));
}
