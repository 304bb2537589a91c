use onedsixapi::text::{chars_of, contains_substring, joined, push_decimal, starts_with, str_eq};

#[test]
fn decimal_rendering() {
    for n in [0u128, 7, 10, 99, 100, 12345, u64::MAX as u128, u128::MAX] {
        let mut s = String::from("x");
        push_decimal(&mut s, n);
        assert_eq!(s, format!("x{}", n));
    }
}

#[test]
fn substrings_and_prefixes() {
    assert!(contains_substring("HELLO WORLD", "LO W"));
    assert!(contains_substring("abc", ""));
    assert!(contains_substring("abc", "abc"));
    assert!(!contains_substring("abc", "abcd"));
    assert!(!contains_substring("", "a"));
    assert!(contains_substring("ééx", "éx"));
    assert!(starts_with("$argon2id$v=19", "$argon2"));
    assert!(!starts_with("$argo", "$argon2"));
    assert!(str_eq("abc", "abc"));
    assert!(!str_eq("abc", "abd"));
    assert!(!str_eq("abc", "ab"));
}

#[test]
fn text_building() {
    assert_eq!(joined("ab", "cd"), "abcd");
    assert_eq!(chars_of("héllo"), vec!['h', 'é', 'l', 'l', 'o']);
}
