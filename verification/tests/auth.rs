use postboard::auth::authorize;

#[test]
fn missing_header_is_rejected() {
    assert!(!authorize(None, "s3cret"));
}

#[test]
fn matching_bearer_is_accepted() {
    assert!(authorize(Some("Bearer s3cret"), "s3cret"));
}

#[test]
fn wrong_token_is_rejected() {
    assert!(!authorize(Some("Bearer other"), "s3cret"));
    assert!(!authorize(Some("Bearer s3cret2"), "s3cret"));
    assert!(!authorize(Some("Bearer s3cre"), "s3cret"));
}

#[test]
fn malformed_scheme_is_rejected() {
    assert!(!authorize(Some("bearer s3cret"), "s3cret"));
    assert!(!authorize(Some("Bearers3cret"), "s3cret"));
    assert!(!authorize(Some("s3cret"), "s3cret"));
    assert!(!authorize(Some(""), "s3cret"));
}

#[test]
fn empty_token_needs_bare_scheme() {
    assert!(authorize(Some("Bearer "), ""));
    assert!(!authorize(Some("Bearer"), ""));
}
