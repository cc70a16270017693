use model_serving::text::{
    characters, decimal_string, str_contains, str_has_prefix, str_has_suffix, str_strip_suffix,
};

#[test]
fn decimal_strings_have_no_leading_zeros() {
    assert_eq!(decimal_string(0), "0");
    assert_eq!(decimal_string(7), "7");
    assert_eq!(decimal_string(10), "10");
    assert_eq!(decimal_string(4096), "4096");
    assert_eq!(decimal_string(usize::MAX), usize::MAX.to_string());
}

#[test]
fn characters_are_the_text_in_order() {
    assert_eq!(characters("mtp"), vec!['m', 't', 'p']);
    assert!(characters("").is_empty());
}

#[test]
fn substring_prefix_and_suffix_tests() {
    assert!(str_contains("language_model.mtp.fc.weight", ".mtp."));
    assert!(!str_contains("language_model.fc.weight", ".mtp."));
    assert!(str_contains("abc", ""));
    assert!(!str_contains("ab", "abc"));
    assert!(str_has_prefix("language_model.mtp.fc", "language_model.mtp."));
    assert!(!str_has_prefix("model.mtp.fc", "language_model.mtp."));
    assert!(str_has_suffix("layers.0.mlp.up_proj.scales", ".scales"));
    assert!(!str_has_suffix("layers.0.mlp.up_proj.biases", ".scales"));
}

#[test]
fn stripping_a_suffix() {
    assert_eq!(str_strip_suffix("mtp.fc.weight", ".weight"), Some("mtp.fc".to_string()));
    assert_eq!(str_strip_suffix("mtp.fc.weight", ".scales"), None);
    assert_eq!(str_strip_suffix(".weight", ".weight"), Some(String::new()));
}
