use deetsrgb::text::{contains, push_dec_u8, push_hex2, strip_prefix};

#[test]
fn hex_is_two_lowercase_digits() {
    let mut s = String::new();
    push_hex2(&mut s, 0x0a);
    push_hex2(&mut s, 0xff);
    push_hex2(&mut s, 0x00);
    push_hex2(&mut s, 0x3f);
    assert_eq!(s, "0aff003f");
}

#[test]
fn decimal_has_no_leading_zeros() {
    for b in [0u8, 7, 10, 42, 99, 100, 255] {
        let mut s = String::from("x");
        push_dec_u8(&mut s, b);
        assert_eq!(s, format!("x{b}"));
    }
}

#[test]
fn contains_finds_substrings() {
    assert!(contains(r"\\?\hid#vid_258a&pid_010c&mi_01&col06#8&1", "col06"));
    assert!(!contains(r"\\?\hid#vid_258a&pid_010c&mi_01&col06#8&1", "Col06"));
    assert!(contains("abc", ""));
    assert!(contains("abc", "abc"));
    assert!(!contains("ab", "abc"));
    assert!(contains("    DeetsRGB    REG_SZ    \"C:\\x.exe\"", "DeetsRGB"));
}

#[test]
fn strip_prefix_removes_only_a_leading_match() {
    assert_eq!(strip_prefix("scene:cool-white", "scene:"), Some("cool-white".to_string()));
    assert_eq!(strip_prefix("scene:", "scene:"), Some(String::new()));
    assert_eq!(strip_prefix("open", "scene:"), None);
    assert_eq!(strip_prefix("xscene:a", "scene:"), None);
}
