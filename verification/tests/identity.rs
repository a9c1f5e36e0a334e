use duners::client::Client;
use duners::identity::client_identity;

#[test]
fn identity_is_lower_case_hex_of_the_bytes() {
    assert_eq!(client_identity("abc"), "616263");
    assert_eq!(client_identity("key-XYZ_09"), "6b65792d58595a5f3039");
    assert_eq!(client_identity(""), "");
}

#[test]
fn identity_encodes_utf8_bytes() {
    assert_eq!(client_identity("\u{e9}"), "c3a9");
    assert_eq!(client_identity("\u{20ac}\u{1f600}"), "e282acf09f9880");
}

#[test]
fn identity_high_half_comes_first() {
    assert_eq!(client_identity("\u{1}"), "01");
    assert_eq!(client_identity("\u{10}"), "10");
    assert_eq!(client_identity("o"), "6f");
    assert_eq!(client_identity("\u{7f}"), "7f");
}

#[test]
fn identity_is_the_same_for_the_same_credential() {
    let first = Client::new_with_key("s3cret");
    let second = Client::new_with_key("s3cret");
    assert_eq!(first.id(), second.id());
    assert_eq!(first.id(), "733363726574");
    assert_eq!(first.api_key(), "s3cret");
}

#[test]
fn identity_differs_for_different_credentials() {
    let first = Client::new_with_key("s3cret");
    let second = Client::new_with_key("s3creu");
    assert_ne!(first.id(), second.id());
    assert_ne!(client_identity("ab"), client_identity("a"));
}

#[test]
fn identity_has_two_digits_per_byte() {
    let id = client_identity("any credential \u{fc}");
    assert_eq!(id.len(), 2 * "any credential \u{fc}".len());
    assert!(id.chars().all(|c| matches!(c, '0'..='9' | 'a'..='f')));
}

#[test]
fn credentials_of_any_usual_length_are_encodable() {
    assert!(duners::identity::is_encodable(""));
    assert!(duners::identity::is_encodable("0123456789abcdef0123456789abcdef"));
}
