use pushit::text::{decimal_string, join_strings, lex_le_str, signed_decimal_string, sort_strings};

#[test]
fn decimal_renders_like_to_string() {
    assert_eq!(decimal_string(0), "0");
    assert_eq!(decimal_string(7), "7");
    assert_eq!(decimal_string(200), "200");
    assert_eq!(decimal_string(65535), 65535u16.to_string());
    assert_eq!(decimal_string(4294967295), u32::MAX.to_string());
}

#[test]
fn signed_decimal_renders_like_to_string() {
    assert_eq!(signed_decimal_string(-2), "-2");
    assert_eq!(signed_decimal_string(-128), (-128i8).to_string());
    assert_eq!(signed_decimal_string(0), "0");
    assert_eq!(signed_decimal_string(127), "127");
}

#[test]
fn join_puts_separator_between_neighbours() {
    let parts = vec!["a".to_string(), "b".to_string(), "c".to_string()];
    assert_eq!(join_strings(&parts, "; "), "a; b; c");
    assert_eq!(join_strings(&vec!["only".to_string()], ", "), "only");
    assert_eq!(join_strings(&Vec::new(), ", "), "");
}

#[test]
fn lexicographic_order_matches_string_order() {
    assert!(lex_le_str("alerts", "personal"));
    assert!(!lex_le_str("personal", "alerts"));
    assert!(lex_le_str("a", "ab"));
    assert!(!lex_le_str("ab", "a"));
    assert!(lex_le_str("same", "same"));
    assert!(lex_le_str("B", "a"));
    assert!(lex_le_str("", ""));
}

#[test]
fn sorting_orders_like_vec_sort() {
    let names: Vec<String> = ["personal", "alerts", "Zeta", "alpha", "a-b", "a_b", "alerts"]
        .iter()
        .map(|s| s.to_string())
        .collect();
    let mut expected = names.clone();
    expected.sort();
    assert_eq!(sort_strings(names), expected);
    assert_eq!(sort_strings(Vec::new()), Vec::<String>::new());
}
