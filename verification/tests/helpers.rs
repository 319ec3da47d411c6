use cio::errors::RenderingError;
use cio::helpers::{terraform_name_of_param, terraformize, MISSING_IDENTIFIER};

#[test]
fn terraformize_prefixes_a_leading_digit() {
    assert_eq!(terraformize("3foo"), "_3foo");
    assert_eq!(terraformize("0"), "_0");
    assert_eq!(terraformize("9lives"), "_9lives");
}

#[test]
fn terraformize_keeps_other_identifiers() {
    assert_eq!(terraformize("foo"), "foo");
    assert_eq!(terraformize("f00"), "f00");
    assert_eq!(terraformize("_3foo"), "_3foo");
    assert_eq!(terraformize("-1"), "-1");
}

#[test]
fn terraformize_is_total_on_the_empty_identifier() {
    assert_eq!(terraformize(""), "");
}

#[test]
fn terraformize_looks_at_characters_not_bytes() {
    assert_eq!(terraformize("\u{e9}t\u{e9}"), "\u{e9}t\u{e9}");
    // Digits of other scripts are no decimal digits of an identifier.
    assert_eq!(terraformize("\u{663}foo"), "\u{663}foo");
    assert_eq!(terraformize("7\u{e9}"), "_7\u{e9}");
}

#[test]
fn terraformize_keeps_quotes_and_backslashes() {
    assert_eq!(terraformize("a\"b"), "a\"b");
    assert_eq!(terraformize("\"docs\""), "\"docs\"");
    assert_eq!(terraformize("docs\""), "docs\"");
    assert_eq!(terraformize("a\\b"), "a\\b");
    assert_eq!(terraformize("3\"x"), "_3\"x");
}

#[test]
fn helper_body_terraformizes_the_parameter_as_it_is() {
    assert_eq!(terraform_name_of_param(Some("3foo".to_string())), Ok("_3foo".to_string()));
    assert_eq!(terraform_name_of_param(Some("foo".to_string())), Ok("foo".to_string()));
    assert_eq!(terraform_name_of_param(Some("a\"b".to_string())), Ok("a\"b".to_string()));
    assert_eq!(terraform_name_of_param(Some("b\"".to_string())), Ok("b\"".to_string()));
    assert_eq!(terraform_name_of_param(Some(String::new())), Ok(String::new()));
}

#[test]
fn helper_body_fails_without_a_parameter() {
    assert_eq!(
        terraform_name_of_param(None),
        Err(RenderingError { reason: MISSING_IDENTIFIER.to_string() })
    );
    assert_eq!(MISSING_IDENTIFIER, "terraformize needs an identifier as its parameter");
}
