//! The end-to-end scenario: register, log in, fetch the current user
//! with the bearer token, and the rejection paths of the protected
//! route.

use authcore::errors::AppError;
use authcore::jwt::issue_token_at;
use authcore::middleware::{authorize_request, current_user, current_user_at, extract_bearer_token};
use authcore::models::{default_role, CreateUserSchema, LoginUserSchema};
use authcore::service::AuthService;
use authcore::store::MemoryUserStore;

fn service() -> AuthService<MemoryUserStore> {
    AuthService::new(
        MemoryUserStore::new(),
        "server-secret".to_owned(),
        "1h".to_owned(),
    )
}

#[test]
fn bearer_extraction() {
    assert_eq!(extract_bearer_token("Bearer abc.def.ghi"), Some("abc.def.ghi"));
    assert_eq!(extract_bearer_token("Bearer "), Some(""));
    assert_eq!(extract_bearer_token("bearer abc"), None);
    assert_eq!(extract_bearer_token("Bearer"), None);
    assert_eq!(extract_bearer_token("Basic abc"), None);
    assert_eq!(extract_bearer_token(""), None);
    assert_eq!(extract_bearer_token("BearerX abc"), None);
}

#[test]
fn register_login_me() {
    let mut svc = service();
    let registered = svc
        .register_user(
            &CreateUserSchema {
                email: "a@x.com".to_owned(),
                password: "secret1".to_owned(),
                name: Some("A".to_owned()),
                role: default_role(),
            },
            None,
        )
        .expect("registration");
    assert_eq!(registered.email, "a@x.com");

    let (logged_in, token) = svc
        .login_user(&LoginUserSchema {
            email: Some("a@x.com".to_owned()),
            telegram_user_id: None,
            password: "secret1".to_owned(),
        })
        .expect("login");
    assert_eq!(logged_in.id, registered.id);

    let header = format!("Bearer {}", token);
    let me = current_user(&svc, Some(&header)).expect("current user");
    assert_eq!(me.id, registered.id);
    assert_eq!(me.email, "a@x.com");
    assert_eq!(me.name.as_deref(), Some("A"));
    assert_eq!(me.role, "user");
    assert_eq!(me.created_at, registered.created_at);
    assert_eq!(me.updated_at, registered.updated_at);
}

#[test]
fn me_without_header_rejected() {
    let svc = service();
    let err = current_user(&svc, None).unwrap_err();
    assert_eq!(err.status_code(), 401);
    assert_eq!(err.message(), "Missing authorization header");
}

#[test]
fn me_with_malformed_header_rejected() {
    let svc = service();
    for h in ["Token abc", "bearer abc", "abc"].iter() {
        let err = current_user(&svc, Some(h)).unwrap_err();
        assert_eq!(err.status_code(), 401);
        assert_eq!(err.message(), "Invalid token format");
    }
}

#[test]
fn me_with_garbage_token_rejected() {
    let svc = service();
    let err = current_user(&svc, Some("Bearer not.a.token")).unwrap_err();
    assert_eq!(err.status_code(), 401);
    assert!(matches!(err, AppError::InvalidToken(_)));
}

#[test]
fn me_with_expired_token_rejected() {
    let mut svc = service();
    let registered = svc
        .register_user(
            &CreateUserSchema {
                email: "a@x.com".to_owned(),
                password: "secret1".to_owned(),
                name: None,
                role: default_role(),
            },
            None,
        )
        .expect("registration");
    let issued_at: i64 = 1_700_000_000;
    let token = issue_token_at(registered.id, "server-secret", "1h", issued_at).expect("issuance");
    let header = format!("Bearer {}", token);
    // within the window the token works
    let me = current_user_at(&svc, Some(&header), issued_at + 3600).expect("current user");
    assert_eq!(me.id, registered.id);
    // past the window the rejection is expiry internally, still a 401
    let err = current_user_at(&svc, Some(&header), issued_at + 3601).unwrap_err();
    assert!(matches!(err, AppError::TokenExpired));
    assert_eq!(err.status_code(), 401);
}

#[test]
fn me_with_unknown_subject_rejected() {
    let svc = service();
    let token = issue_token_at(999, "server-secret", "1h", 1_700_000_000).expect("issuance");
    let header = format!("Bearer {}", token);
    let err = current_user_at(&svc, Some(&header), 1_700_000_000).unwrap_err();
    assert_eq!(err.status_code(), 404);
}

#[test]
fn authorize_request_attaches_claims() {
    let mut svc = service();
    let registered = svc
        .register_user(
            &CreateUserSchema {
                email: "a@x.com".to_owned(),
                password: "secret1".to_owned(),
                name: None,
                role: default_role(),
            },
            None,
        )
        .expect("registration");
    let (_, token) = svc
        .login_user(&LoginUserSchema {
            email: Some("a@x.com".to_owned()),
            telegram_user_id: None,
            password: "secret1".to_owned(),
        })
        .expect("login");
    let header = format!("Bearer {}", token);
    let claims = authorize_request(Some(&header), "server-secret").expect("authorized");
    assert_eq!(claims.sub, registered.id.to_string());
    assert!(claims.exp >= claims.iat);
}
