use memory_map::accounts::{
    ensure_email_available, generate_reset_token, hash_password, parse_id, parse_i64,
    password_check, registration_check, registration_check_with, requested_role,
    reset_request_step, reset_token_digest, validate_email_format, validate_password,
    verify_password, ResetRequestStep,
};
use memory_map::errors::AppError;
use memory_map::graphql::UserRole;

fn validation(e: &Option<AppError>) -> Option<&str> {
    match e {
        Some(AppError::Validation(m)) => Some(m.as_str()),
        _ => None,
    }
}

#[test]
fn passwords_need_eight_bytes() {
    assert!(validate_password("12345678").is_ok());
    let e = validate_password("1234567").err();
    assert_eq!(validation(&e), Some("Password must be at least 8 characters long"));
    // Four two-byte characters are eight bytes.
    assert!(validate_password("éééé").is_ok());
}

#[test]
fn email_format_is_checked() {
    assert!(validate_email_format("person@example.test").is_ok());
    let e = validate_email_format("not an email").err();
    assert_eq!(validation(&e), Some("Invalid email format"));
}

#[test]
fn taken_emails_are_refused() {
    assert!(ensure_email_available(0).is_ok());
    let e = ensure_email_available(1).err();
    assert_eq!(validation(&e), Some("Email already in use"));
}

#[test]
fn registration_checks_run_in_order() {
    assert!(matches!(registration_check(false, "bad", "x"), Err(AppError::Forbidden)));
    let e = registration_check(true, "bad", "short").err();
    assert_eq!(validation(&e), Some("Password must be at least 8 characters long"));
    let e = registration_check(true, "bad", "long enough").err();
    assert_eq!(validation(&e), Some("Invalid email format"));
    assert!(registration_check(true, "person@example.test", "long enough").is_ok());
    assert!(registration_check_with(true, "long enough", true).is_ok());
    let e = registration_check_with(true, "long enough", false).err();
    assert_eq!(validation(&e), Some("Invalid email format"));
}

#[test]
fn roles_are_parsed() {
    assert_eq!(requested_role("admin").ok(), Some(UserRole::Admin));
    assert_eq!(requested_role("user").ok(), Some(UserRole::User));
    let e = requested_role("root").err();
    assert_eq!(validation(&e), Some("Invalid role"));
}

#[test]
fn ids_parse_like_std() {
    for s in [
        "0", "42", "-7", "+7", "007", "9223372036854775807", "-9223372036854775808",
        "9223372036854775808", "-9223372036854775809", "", "-", "+", "1 ", " 1", "1a", "--1",
        "99999999999999999999999", "١",
    ] {
        assert_eq!(parse_i64(s), s.parse::<i64>().ok(), "input {s:?}");
    }
}

#[test]
fn reset_tokens_and_digests() {
    let token = generate_reset_token();
    assert_eq!(token.len(), 32);
    assert!(token.chars().all(|c| c.is_ascii_alphanumeric()));
    assert_ne!(token, generate_reset_token());

    let digest = reset_token_digest("reset-token");
    assert_eq!(digest, blake3::hash(b"reset-token").to_string());
    assert_eq!(digest.len(), 64);
    assert_eq!(
        reset_token_digest(""),
        "af1349b9f5f9a1a6a0404dea36dcc9499bcb25c9adc112b7cc9a93cae41f3262"
    );
}

#[test]
fn hashed_passwords_verify() {
    let hash = hash_password("correct horse").ok().unwrap_or_default();
    assert!(hash.starts_with("$argon2"));
    assert!(verify_password("correct horse", &hash).is_ok());
    assert!(matches!(verify_password("wrong horse", &hash), Err(AppError::Unauthorized)));
    assert!(matches!(
        verify_password("x", "not a phc string"),
        Err(AppError::Internal(ref m)) if m.starts_with("Failed to parse password hash from database: ")
    ));
    assert_ne!(hash, hash_password("correct horse").ok().unwrap_or_default());
}

#[test]
fn password_check_outcomes() {
    assert!(password_check(Ok(true)).is_ok());
    assert!(matches!(password_check(Ok(false)), Err(AppError::Unauthorized)));
    assert!(matches!(password_check(Err("bad".to_string())), Err(AppError::Internal(_))));
}

#[test]
fn ids_from_clients() {
    assert_eq!(parse_id("17").ok(), Some(17));
    assert!(matches!(parse_id("x17"), Err(AppError::Internal(ref m)) if m == "Invalid ID format"));
}

#[test]
fn reset_token_is_issued_only_to_a_known_user_without_a_recent_token() {
    assert_eq!(reset_request_step(true, false), ResetRequestStep::IssueToken);
    assert_eq!(reset_request_step(true, true), ResetRequestStep::AnswerOnly);
    assert_eq!(reset_request_step(false, false), ResetRequestStep::AnswerOnly);
    assert_eq!(reset_request_step(false, true), ResetRequestStep::AnswerOnly);
}
