//! Failure taxonomy, split by layer: `DatabaseError` for the user
//! store, `AuthError` for the authentication service, and `AppError`
//! for the client-facing boundary, together with the verified mappings
//! between them.

use vstd::prelude::*;

verus! {

/// Failures of the authentication service.
///
/// Credential failures are deliberately undifferentiated: an unknown
/// email and a wrong password both surface as `InvalidCredentials`, so
/// that the existence of an account is never revealed.
#[derive(Debug, Clone)]
pub enum AuthError {
    /// The login request selects no credential path (neither email nor
    /// external identity supplied).
    BadRequest,
    /// Malformed input, with the specific field message.
    ValidationError(String),
    /// Wrong password, unknown email, or unknown external identity.
    InvalidCredentials,
    /// The email or external identity is already taken.
    DuplicateIdentity,
    /// Profile lookup by id found no record.
    NotFound,
    /// The password codec failed to produce a hash (entropy or
    /// resource failure; internal, never user-facing).
    PasswordHashError(String),
    /// Token issuance failed: a malformed ttl expression, or a signing
    /// failure.
    TokenGenerationError(String),
    /// Store connectivity failure or a data-integrity defect.
    Internal(String),
}

/// Failures of the user store.
#[derive(Debug, Clone)]
pub enum DatabaseError {
    ConnectionError(String),
    QueryError(String),
    NotFoundError(String),
    ConstraintError(String),
}

/// The client-facing failure shape: each variant carries its message
/// and maps to one HTTP status code.
#[derive(Debug, Clone)]
pub enum AppError {
    /// Authentication failure (credentials or token): 401.
    Auth(String),
    /// Missing or ambiguous request selector: 400.
    BadRequest(String),
    /// Identity already registered: 409.
    Duplicate(String),
    /// Token issuance failure: 500.
    TokenGenerationError(String),
    /// Structurally invalid token or bad signature: 401.
    InvalidToken(String),
    /// Valid token past its expiry: 401.
    TokenExpired,
    /// Store failure: 500.
    Database(String),
    /// Malformed input: 400.
    Validation(String),
    /// Lookup with no match: 404.
    NotFound(String),
    /// Internal defect: 500.
    Internal(String),
}

impl AppError {
    /// The HTTP status code of each variant.
    pub open spec fn spec_status_code(&self) -> u16 {
        match self {
            AppError::Auth(_) => 401,
            AppError::BadRequest(_) => 400,
            AppError::Duplicate(_) => 409,
            AppError::TokenGenerationError(_) => 500,
            AppError::InvalidToken(_) => 401,
            AppError::TokenExpired => 401,
            AppError::Database(_) => 500,
            AppError::Validation(_) => 400,
            AppError::NotFound(_) => 404,
            AppError::Internal(_) => 500,
        }
    }

    pub fn status_code(&self) -> (code: u16)
        ensures
            code == self.spec_status_code(),
    {
        match self {
            AppError::Auth(_) => 401,
            AppError::BadRequest(_) => 400,
            AppError::Duplicate(_) => 409,
            AppError::TokenGenerationError(_) => 500,
            AppError::InvalidToken(_) => 401,
            AppError::TokenExpired => 401,
            AppError::Database(_) => 500,
            AppError::Validation(_) => 400,
            AppError::NotFound(_) => 404,
            AppError::Internal(_) => 500,
        }
    }

    /// The stable client-facing message of each variant.
    pub fn message(&self) -> (msg: String)
        ensures
            match self {
                AppError::Auth(m) => msg@ == m@,
                AppError::BadRequest(m) => msg@ == m@,
                AppError::Duplicate(m) => msg@ == m@,
                AppError::TokenGenerationError(m) => msg@ == m@,
                AppError::InvalidToken(m) => msg@ == m@,
                AppError::TokenExpired => msg@ == "Token expired"@,
                AppError::Database(m) => msg@ == m@,
                AppError::Validation(m) => msg@ == m@,
                AppError::NotFound(m) => msg@ == m@,
                AppError::Internal(m) => msg@ == m@,
            },
    {
        match self {
            AppError::Auth(m) => m.clone(),
            AppError::BadRequest(m) => m.clone(),
            AppError::Duplicate(m) => m.clone(),
            AppError::TokenGenerationError(m) => m.clone(),
            AppError::InvalidToken(m) => m.clone(),
            AppError::TokenExpired => String::from_str("Token expired"),
            AppError::Database(m) => m.clone(),
            AppError::Validation(m) => m.clone(),
            AppError::NotFound(m) => m.clone(),
            AppError::Internal(m) => m.clone(),
        }
    }

    /// Maps a service failure to its client-facing shape, preserving
    /// field messages and giving credential failures one fixed,
    /// non-revealing message.
    pub fn from_auth_error(e: AuthError) -> (r: AppError)
        ensures
            match e {
                AuthError::BadRequest => (r matches AppError::BadRequest(m)
                    && m@ == "Email or Telegram user ID is required"@),
                AuthError::ValidationError(v) => (r matches AppError::Validation(m) && m@ == v@),
                AuthError::InvalidCredentials => (r matches AppError::Auth(m)
                    && m@ == "Invalid credentials"@),
                AuthError::DuplicateIdentity => (r matches AppError::Duplicate(m)
                    && m@ == "Identity already registered"@),
                AuthError::NotFound => (r matches AppError::NotFound(m)
                    && m@ == "User not found"@),
                AuthError::PasswordHashError(v) => (r matches AppError::Internal(m) && m@ == v@),
                AuthError::TokenGenerationError(v) => (r matches AppError::TokenGenerationError(m)
                    && m@ == v@),
                AuthError::Internal(v) => (r matches AppError::Internal(m) && m@ == v@),
            },
    {
        match e {
            AuthError::BadRequest => AppError::BadRequest(
                String::from_str("Email or Telegram user ID is required"),
            ),
            AuthError::ValidationError(v) => AppError::Validation(v),
            AuthError::InvalidCredentials => AppError::Auth(String::from_str("Invalid credentials")),
            AuthError::DuplicateIdentity => AppError::Duplicate(
                String::from_str("Identity already registered"),
            ),
            AuthError::NotFound => AppError::NotFound(String::from_str("User not found")),
            AuthError::PasswordHashError(v) => AppError::Internal(v),
            AuthError::TokenGenerationError(v) => AppError::TokenGenerationError(v),
            AuthError::Internal(v) => AppError::Internal(v),
        }
    }
}

/// Maps a store failure seen during registration to the service
/// taxonomy: a uniqueness violation becomes `DuplicateIdentity`, a
/// missing record cannot arise there, and everything else is internal.
pub fn database_error_on_create(e: DatabaseError) -> (r: AuthError)
    ensures
        match e {
            DatabaseError::ConstraintError(_) => r is DuplicateIdentity,
            DatabaseError::NotFoundError(v) => (r matches AuthError::Internal(m) && m@ == v@),
            DatabaseError::ConnectionError(v) => (r matches AuthError::Internal(m) && m@ == v@),
            DatabaseError::QueryError(v) => (r matches AuthError::Internal(m) && m@ == v@),
        },
{
    match e {
        DatabaseError::ConstraintError(_) => AuthError::DuplicateIdentity,
        DatabaseError::NotFoundError(v) => AuthError::Internal(v),
        DatabaseError::ConnectionError(v) => AuthError::Internal(v),
        DatabaseError::QueryError(v) => AuthError::Internal(v),
    }
}

} // verus!
