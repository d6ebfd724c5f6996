use victrix::key_order::key_less;

#[test]
fn keys_compare_lexicographically() {
    assert!(key_less("0_fps", "1_button"));
    assert!(key_less("1_button", "2_label"));
    assert!(!key_less("2_label", "0_fps"));
    assert!(key_less("a", "ab"));
    assert!(!key_less("ab", "a"));
    assert!(!key_less("same", "same"));
    assert!(key_less("", "a"));
    assert!(!key_less("", ""));
    assert!(key_less("10", "9"));
}
