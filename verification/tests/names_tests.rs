use gib::names::{has_name_char_str, is_valid_identifier_str, normalize_identifier};

#[test]
fn normalize_lowercases_ascii_only() {
    assert_eq!(normalize_identifier("My-Package_1.0"), "my-package_1.0");
    assert_eq!(normalize_identifier("ÄBC"), "Äbc");
    assert_eq!(normalize_identifier(""), "");
}

#[test]
fn normalize_is_idempotent() {
    let once = normalize_identifier("HeLLo.World");
    assert_eq!(normalize_identifier(&once), once);
}

#[test]
fn identifiers_accept_the_allowed_characters() {
    assert!(is_valid_identifier_str("abc-def_1.2.3"));
    assert!(is_valid_identifier_str("0"));
    assert!(is_valid_identifier_str("-"));
    assert!(is_valid_identifier_str("._-"));
}

#[test]
fn identifiers_refuse_everything_else() {
    assert!(!is_valid_identifier_str(""));
    assert!(!is_valid_identifier_str("Abc"));
    assert!(!is_valid_identifier_str("a b"));
    assert!(!is_valid_identifier_str("a/b"));
    assert!(!is_valid_identifier_str("a\n"));
    assert!(!is_valid_identifier_str("é"));
    assert!(!is_valid_identifier_str("a@1"));
}

#[test]
fn name_char_check_is_unanchored() {
    assert!(has_name_char_str("hello"));
    assert!(has_name_char_str("!!a!!"));
    assert!(has_name_char_str("-"));
    assert!(has_name_char_str("A"));
    assert!(!has_name_char_str(""));
    assert!(!has_name_char_str("!!! ..."));
}

#[test]
fn normalize_every_ascii_letter() {
    assert_eq!(normalize_identifier("ABCDEFGHIJKLMNOPQRSTUVWXYZ@[`{"), "abcdefghijklmnopqrstuvwxyz@[`{");
    assert_eq!(normalize_identifier("ÉtéZ"), "Étéz");
}
