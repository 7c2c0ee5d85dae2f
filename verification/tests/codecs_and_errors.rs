//! Decimal codec behavior and the error-to-status mapping.

use authcore::decimal::{parse_dec_u128, u128_to_dec_string};
use authcore::errors::{AppError, AuthError};

#[test]
fn decimal_rendering() {
    assert_eq!(u128_to_dec_string(0), "0");
    assert_eq!(u128_to_dec_string(7), "7");
    assert_eq!(u128_to_dec_string(10), "10");
    assert_eq!(u128_to_dec_string(340282366920938463463374607431768211455), u128::MAX.to_string());
}

#[test]
fn decimal_parsing() {
    assert_eq!(parse_dec_u128("0"), Some(0));
    assert_eq!(parse_dec_u128("007"), Some(7));
    assert_eq!(parse_dec_u128("123456789"), Some(123456789));
    assert_eq!(parse_dec_u128(&u128::MAX.to_string()), Some(u128::MAX));
    assert_eq!(parse_dec_u128(""), None);
    assert_eq!(parse_dec_u128("-1"), None);
    assert_eq!(parse_dec_u128("12a"), None);
    assert_eq!(parse_dec_u128(" 1"), None);
    // one past the maximum does not fit
    assert_eq!(parse_dec_u128("340282366920938463463374607431768211456"), None);
}

#[test]
fn decimal_round_trip() {
    for n in [0u128, 1, 9, 10, 99, 100, 12345678901234567890, u128::MAX] {
        assert_eq!(parse_dec_u128(&u128_to_dec_string(n)), Some(n));
    }
}

#[test]
fn status_codes_follow_the_taxonomy() {
    assert_eq!(AppError::Auth("x".to_owned()).status_code(), 401);
    assert_eq!(AppError::BadRequest("x".to_owned()).status_code(), 400);
    assert_eq!(AppError::Duplicate("x".to_owned()).status_code(), 409);
    assert_eq!(AppError::TokenGenerationError("x".to_owned()).status_code(), 500);
    assert_eq!(AppError::InvalidToken("x".to_owned()).status_code(), 401);
    assert_eq!(AppError::TokenExpired.status_code(), 401);
    assert_eq!(AppError::Database("x".to_owned()).status_code(), 500);
    assert_eq!(AppError::Validation("x".to_owned()).status_code(), 400);
    assert_eq!(AppError::NotFound("x".to_owned()).status_code(), 404);
    assert_eq!(AppError::Internal("x".to_owned()).status_code(), 500);
}

#[test]
fn service_errors_map_to_client_shape() {
    let e = AppError::from_auth_error(AuthError::BadRequest);
    assert_eq!(e.status_code(), 400);
    assert_eq!(e.message(), "Email or Telegram user ID is required");

    let e = AppError::from_auth_error(AuthError::InvalidCredentials);
    assert_eq!(e.status_code(), 401);
    assert_eq!(e.message(), "Invalid credentials");

    let e = AppError::from_auth_error(AuthError::DuplicateIdentity);
    assert_eq!(e.status_code(), 409);
    assert_eq!(e.message(), "Identity already registered");

    let e = AppError::from_auth_error(AuthError::NotFound);
    assert_eq!(e.status_code(), 404);
    assert_eq!(e.message(), "User not found");

    let e = AppError::from_auth_error(AuthError::ValidationError("field".to_owned()));
    assert_eq!(e.status_code(), 400);
    assert_eq!(e.message(), "field");

    let e = AppError::from_auth_error(AuthError::PasswordHashError("rng".to_owned()));
    assert_eq!(e.status_code(), 500);

    let e = AppError::from_auth_error(AuthError::TokenGenerationError("ttl".to_owned()));
    assert_eq!(e.status_code(), 500);

    let e = AppError::from_auth_error(AuthError::Internal("boom".to_owned()));
    assert_eq!(e.status_code(), 500);
}
