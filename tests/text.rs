use lol_bot::text::{contains_text, join_strings, push_int, push_nat, push_padded};

#[test]
fn substring_search() {
    assert!(contains_text("perk perk-active", "perk-active"));
    assert!(contains_text("abc", ""));
    assert!(contains_text("abc", "abc"));
    assert!(!contains_text("ab", "abc"));
    assert!(!contains_text("no-skill", "no-skill-up"));
    assert!(contains_text("x no-skill-up y", "no-skill-up"));
}

#[test]
fn numbers_in_decimal() {
    let mut s = String::new();
    push_nat(&mut s, 0);
    s.push(' ');
    push_nat(&mut s, 1234567890);
    s.push(' ');
    push_int(&mut s, -42);
    s.push(' ');
    push_int(&mut s, i64::MIN);
    assert_eq!(s, "0 1234567890 -42 -9223372036854775808");
}

#[test]
fn padding_and_joining() {
    let mut s = String::new();
    push_padded(&mut s, "ab", 5);
    push_padded(&mut s, "abcdef", 3);
    assert_eq!(s, "ab   abcdef");
    let parts = vec!["a".to_string(), "b".to_string(), "c".to_string()];
    assert_eq!(join_strings(&parts, ", "), "a, b, c");
    assert_eq!(join_strings(&vec![], ", "), "");
}
