use rover::normalize::{normalize, strip_as_prefix, InputError};

#[test]
fn as_marker_is_stripped_case_insensitively() {
    assert_eq!(strip_as_prefix("AS43996"), "43996");
    assert_eq!(strip_as_prefix("as43996"), "43996");
    assert_eq!(strip_as_prefix("As43996"), "43996");
    assert_eq!(strip_as_prefix("aS43996"), "43996");
    assert_eq!(strip_as_prefix("43996"), "43996");
}

#[test]
fn marker_is_stripped_exactly_once() {
    assert_eq!(strip_as_prefix("ASAS1"), "AS1");
}

#[test]
fn short_and_odd_tokens_pass_through() {
    assert_eq!(strip_as_prefix(""), "");
    assert_eq!(strip_as_prefix("A"), "A");
    assert_eq!(strip_as_prefix("AS"), "");
    assert_eq!(strip_as_prefix("A1"), "A1");
}

#[test]
fn normalize_keeps_prefix_untouched() {
    let (asn, prefix) = normalize(Some("as43996"), Some("5.57.16.0/24")).unwrap();
    assert_eq!(asn, "43996");
    assert_eq!(prefix, "5.57.16.0/24");
}

#[test]
fn normalize_rejects_missing_arguments() {
    assert_eq!(normalize(None, Some("5.57.16.0/24")), Err(InputError::MissingAsNumber));
    assert_eq!(normalize(None, None), Err(InputError::MissingAsNumber));
    assert_eq!(normalize(Some("AS1"), None), Err(InputError::MissingPrefix));
}

#[test]
fn input_error_messages_name_the_argument() {
    assert_eq!(InputError::MissingAsNumber.message(), "Invalid AS number: missing argument");
    assert_eq!(InputError::MissingPrefix.message(), "Invalid prefix: missing argument");
}
