//! Token codec behavior: duration parsing, issuance, round trip,
//! expiry, and tamper rejection.

use authcore::duration::parse_duration;
use authcore::errors::AppError;
use authcore::jwt::{generate_jwt, issue_token_at, verify_jwt, verify_jwt_at};

#[test]
fn parse_duration_units() {
    assert_eq!(parse_duration("30s"), Ok(30));
    assert_eq!(parse_duration("60m"), Ok(3600));
    assert_eq!(parse_duration("2h"), Ok(7200));
    assert_eq!(parse_duration("1d"), Ok(86400));
    assert_eq!(parse_duration("0s"), Ok(0));
    assert_eq!(parse_duration("-30s"), Ok(-30));
    assert_eq!(parse_duration("-2m"), Ok(-120));
    assert_eq!(parse_duration("007h"), Ok(25200));
}

#[test]
fn parse_duration_rejects_malformed() {
    assert!(parse_duration("").is_err());
    assert!(parse_duration("s").is_err());
    assert!(parse_duration("-s").is_err());
    assert!(parse_duration("10").is_err());
    assert!(parse_duration("5x").is_err());
    assert!(parse_duration("xyzs").is_err());
    assert!(parse_duration("1.5h").is_err());
    assert!(parse_duration(" 5s").is_err());
    assert!(parse_duration("5s ").is_err());
    assert!(parse_duration("99999999999999999999s").is_err());
    assert!(parse_duration("999999999999999999d").is_err());
}

#[test]
fn token_round_trip_preserves_subject() {
    let token = generate_jwt(42, "server-secret", "1h").expect("issuance should succeed");
    let claims = verify_jwt(&token, "server-secret").expect("fresh token should verify");
    assert_eq!(claims.sub, "42");
}

#[test]
fn token_round_trip_exact_claims() {
    let now: i64 = 1_700_000_000;
    let token = issue_token_at(987654321, "server-secret", "1h", now).expect("issuance");
    let claims = verify_jwt_at(&token, "server-secret", now).expect("verification");
    assert_eq!(claims.sub, "987654321");
    assert_eq!(claims.iat, 1_700_000_000);
    assert_eq!(claims.exp, 1_700_003_600);
}

#[test]
fn token_with_zero_ttl_expires() {
    let now: i64 = 1_700_000_000;
    let token = issue_token_at(7, "server-secret", "0s", now).expect("issuance");
    // valid through its expiry second, expired one second later
    assert!(verify_jwt_at(&token, "server-secret", now).is_ok());
    let err = verify_jwt_at(&token, "server-secret", now + 1).unwrap_err();
    assert!(matches!(err, AppError::TokenExpired));
}

#[test]
fn token_with_negative_ttl_expires() {
    let now: i64 = 1_700_000_000;
    let token = issue_token_at(7, "server-secret", "-120s", now).expect("issuance");
    let err = verify_jwt_at(&token, "server-secret", now).unwrap_err();
    assert!(matches!(err, AppError::TokenExpired));
}

#[test]
fn issuance_rejects_malformed_ttl() {
    let err = generate_jwt(7, "server-secret", "soon").unwrap_err();
    match err {
        AppError::TokenGenerationError(m) => assert_eq!(m, "Invalid expiration format"),
        _ => panic!("expected a token generation failure"),
    }
}

#[test]
fn wrong_secret_rejected() {
    let now: i64 = 1_700_000_000;
    let token = issue_token_at(7, "server-secret", "1h", now).expect("issuance");
    let err = verify_jwt_at(&token, "other-secret", now).unwrap_err();
    assert!(matches!(err, AppError::InvalidToken(_)));
}

#[test]
fn tampered_signature_always_malformed() {
    let now: i64 = 1_700_000_000;
    let token = issue_token_at(7, "server-secret", "1h", now).expect("issuance");
    let dot = token.rfind('.').expect("a compact token has three segments");
    let (head, signature) = token.split_at(dot + 1);
    assert!(!signature.is_empty());
    for i in 0..signature.len() {
        let mut sig: Vec<char> = signature.chars().collect();
        sig[i] = if sig[i] == 'A' { 'B' } else { 'A' };
        let tampered: String = format!("{}{}", head, sig.into_iter().collect::<String>());
        if tampered == token {
            continue;
        }
        let err = verify_jwt_at(&tampered, "server-secret", now).unwrap_err();
        assert!(matches!(err, AppError::InvalidToken(_)));
    }
}

#[test]
fn garbage_tokens_are_malformed() {
    let now: i64 = 1_700_000_000;
    for t in ["", "x", "a.b", "a.b.c", "....", "Bearer abc"].iter() {
        let err = verify_jwt_at(t, "server-secret", now).unwrap_err();
        assert!(matches!(err, AppError::InvalidToken(_)));
    }
}
