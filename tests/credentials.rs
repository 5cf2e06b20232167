use theme_vote::credentials::{authorized_subject, clock_seconds, bearer_token, is_expired, subject_at, vote_error_response, AppError};
use theme_vote::votes::VoteError;

#[test]
fn bearer_header_is_read() {
    assert_eq!(bearer_token(Some("Bearer abc.def")).unwrap(), "abc.def");
    assert_eq!(bearer_token(Some("Bearer ")).unwrap(), "");
    assert!(matches!(bearer_token(Some("Basic abc")), Err(AppError::BadRequest(m)) if m == "no bearer"));
    assert!(matches!(bearer_token(Some("bearer abc")), Err(AppError::BadRequest(m)) if m == "no bearer"));
    assert!(matches!(bearer_token(None), Err(AppError::BadRequest(m)) if m == "no auth"));
}

#[test]
fn expiry_is_checked() {
    assert!(!is_expired(100, 100));
    assert!(is_expired(100, 101));
    assert_eq!(subject_at(Some(("sub-1".to_string(), 100)), 100).unwrap(), "sub-1");
    assert!(matches!(subject_at(Some(("sub-1".to_string(), 100)), 101), Err(AppError::Unauthorized)));
    assert!(matches!(subject_at(None, 0), Err(AppError::Unauthorized)));
}

#[test]
fn subject_against_the_clock() {
    assert_eq!(authorized_subject(Some(("s".to_string(), i64::MAX))).unwrap(), "s");
    assert!(matches!(authorized_subject(Some(("s".to_string(), 0))), Err(AppError::Unauthorized)));
    assert!(matches!(authorized_subject(None), Err(AppError::Unauthorized)));
}

#[test]
fn error_responses() {
    assert_eq!(AppError::Unauthorized.status_code(), 401);
    assert_eq!(AppError::Unauthorized.message(), "Unauthorized - Invalid or missing JWT token");
    assert_eq!(AppError::Database.status_code(), 500);
    assert_eq!(AppError::Database.message(), "Database error");
    let e = vote_error_response(VoteError::InvalidType);
    assert_eq!(e.status_code(), 400);
    assert_eq!(e.message(), "Invalid vote type");
    assert_eq!(vote_error_response(VoteError::UnknownTheme).message(), "Theme not found");
}

#[test]
fn clock_readings_as_seconds() {
    assert_eq!(clock_seconds(Ok(1_700_000_000)), 1_700_000_000);
    assert_eq!(clock_seconds(Ok(u64::MAX)), i64::MAX);
    assert_eq!(clock_seconds(Err(5)), -5);
    assert_eq!(clock_seconds(Err(u64::MAX)), i64::MIN);
    assert_eq!(clock_seconds(Err(0)), 0);
}
