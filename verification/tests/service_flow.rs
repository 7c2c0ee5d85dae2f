//! Service behavior: registration, duplicate handling, credential
//! verification with enumeration resistance, validation, and profile
//! lookup.

use authcore::errors::AuthError;
use authcore::models::{default_role, CreateUserSchema, LoginUserSchema};
use authcore::models::validate_create_user;
use authcore::service::AuthService;
use authcore::store::MemoryUserStore;

fn schema(email: &str, password: &str, name: Option<&str>) -> CreateUserSchema {
    CreateUserSchema {
        email: email.to_owned(),
        password: password.to_owned(),
        name: name.map(|n| n.to_owned()),
        role: default_role(),
    }
}

fn service() -> AuthService<MemoryUserStore> {
    AuthService::new(
        MemoryUserStore::new(),
        "server-secret".to_owned(),
        "1h".to_owned(),
    )
}

#[test]
fn register_returns_filtered_user() {
    let mut svc = service();
    let fu = svc
        .register_user(&schema("a@x.com", "secret1", Some("A")), None)
        .expect("fresh email should register");
    assert_eq!(fu.email, "a@x.com");
    assert_eq!(fu.name.as_deref(), Some("A"));
    assert_eq!(fu.role, "user");
    // FilteredUser has no password field at all; the timestamps are set
    assert_eq!(fu.created_at, fu.updated_at);
}

#[test]
fn duplicate_email_rejected() {
    let mut svc = service();
    svc.register_user(&schema("a@x.com", "secret1", None), None)
        .expect("first registration");
    let err = svc
        .register_user(&schema("a@x.com", "other-pass", None), None)
        .unwrap_err();
    assert!(matches!(err, AuthError::DuplicateIdentity));
    // a different email still registers
    svc.register_user(&schema("b@x.com", "secret1", None), None)
        .expect("second registration under a fresh email");
}

#[test]
fn duplicate_telegram_identity_rejected() {
    let mut svc = service();
    svc.register_user(&schema("a@x.com", "secret1", None), Some("tg-77".to_owned()))
        .expect("first registration");
    let err = svc
        .register_user(&schema("b@x.com", "secret1", None), Some("tg-77".to_owned()))
        .unwrap_err();
    assert!(matches!(err, AuthError::DuplicateIdentity));
}

#[test]
fn authenticate_correct_password() {
    let mut svc = service();
    let fu = svc
        .register_user(&schema("a@x.com", "secret1", None), None)
        .expect("registration");
    let user = svc
        .authenticate_by_email("a@x.com", "secret1")
        .expect("correct credentials");
    assert_eq!(user.id, fu.id);
    assert_eq!(user.email, "a@x.com");
}

#[test]
fn bad_credentials_are_indistinguishable() {
    let mut svc = service();
    svc.register_user(&schema("a@x.com", "secret1", None), None)
        .expect("registration");
    let wrong_password = svc.authenticate_by_email("a@x.com", "wrong").unwrap_err();
    let unknown_email = svc.authenticate_by_email("b@x.com", "secret1").unwrap_err();
    assert!(matches!(wrong_password, AuthError::InvalidCredentials));
    assert!(matches!(unknown_email, AuthError::InvalidCredentials));
}

#[test]
fn authenticate_by_telegram_identity() {
    let mut svc = service();
    svc.register_user(&schema("a@x.com", "secret1", None), Some("tg-42".to_owned()))
        .expect("registration");
    let user = svc
        .authenticate_by_telegram("tg-42")
        .expect("known external identity");
    assert_eq!(user.email, "a@x.com");
    let err = svc.authenticate_by_telegram("tg-43").unwrap_err();
    assert!(matches!(err, AuthError::InvalidCredentials));
}

#[test]
fn login_selector_rules() {
    let mut svc = service();
    svc.register_user(&schema("a@x.com", "secret1", None), Some("tg-42".to_owned()))
        .expect("registration");
    // neither selector: bad request
    let neither = LoginUserSchema { email: None, telegram_user_id: None, password: "x".to_owned() };
    assert!(matches!(svc.login_user(&neither).unwrap_err(), AuthError::BadRequest));
    // email path
    let by_email = LoginUserSchema {
        email: Some("a@x.com".to_owned()),
        telegram_user_id: None,
        password: "secret1".to_owned(),
    };
    let (fu, token) = svc.login_user(&by_email).expect("email login");
    assert_eq!(fu.email, "a@x.com");
    assert!(!token.is_empty());
    // telegram path
    let by_tg = LoginUserSchema {
        email: None,
        telegram_user_id: Some("tg-42".to_owned()),
        password: String::new(),
    };
    svc.login_user(&by_tg).expect("telegram login");
    // both supplied: the email path decides, so a wrong password fails
    // even though the external identity is valid
    let both = LoginUserSchema {
        email: Some("a@x.com".to_owned()),
        telegram_user_id: Some("tg-42".to_owned()),
        password: "wrong".to_owned(),
    };
    assert!(matches!(svc.login_user(&both).unwrap_err(), AuthError::InvalidCredentials));
}

#[test]
fn get_user_by_id() {
    let mut svc = service();
    let fu = svc
        .register_user(&schema("a@x.com", "secret1", Some("A")), None)
        .expect("registration");
    let got = svc.get_user(fu.id).expect("profile lookup");
    assert_eq!(got.id, fu.id);
    assert_eq!(got.email, "a@x.com");
    let err = svc.get_user(fu.id + 1).unwrap_err();
    assert!(matches!(err, AuthError::NotFound));
}

#[test]
fn validation_rules() {
    assert!(validate_create_user(&schema("a@x.com", "secret1", None)).is_ok());
    let bad_email = validate_create_user(&schema("ax.com", "secret1", None)).unwrap_err();
    match bad_email {
        AuthError::ValidationError(m) => assert_eq!(m, "Invalid email format"),
        _ => panic!("expected a validation failure"),
    }
    let at_edge = validate_create_user(&schema("@x.com", "secret1", None));
    assert!(at_edge.is_err());
    assert!(validate_create_user(&schema("a@", "secret1", None)).is_err());
    let short = validate_create_user(&schema("a@x.com", "five5", None)).unwrap_err();
    match short {
        AuthError::ValidationError(m) => assert_eq!(m, "Password must be at least 6 characters"),
        _ => panic!("expected a validation failure"),
    }
    assert!(validate_create_user(&schema("a@x.com", "sixsix", None)).is_ok());
    // exactly one @, and no spaces anywhere
    assert!(validate_create_user(&schema("a@b@c.com", "secret1", None)).is_err());
    assert!(validate_create_user(&schema("a b@c.com", "secret1", None)).is_err());
    assert!(validate_create_user(&schema("a@b c.com", "secret1", None)).is_err());
    assert!(validate_create_user(&schema("@@", "secret1", None)).is_err());
}

#[test]
fn malformed_ttl_configuration_fails_at_issuance() {
    let mut svc = AuthService::new(
        MemoryUserStore::new(),
        "server-secret".to_owned(),
        "soon".to_owned(),
    );
    svc.register_user(&schema("a@x.com", "secret1", None), None)
        .expect("registration");
    let err = svc
        .login_user(&LoginUserSchema {
            email: Some("a@x.com".to_owned()),
            telegram_user_id: None,
            password: "secret1".to_owned(),
        })
        .unwrap_err();
    assert!(matches!(err, AuthError::TokenGenerationError(_)));
}
