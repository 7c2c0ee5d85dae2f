//! The authentication service: registration (hash, persist, project),
//! credential verification with enumeration resistance, token
//! issuance, and profile lookup — generic over the user store it
//! drives.

use vstd::prelude::*;
use crate::clock::now_seconds;
use crate::duration::{is_duration_str, ttl_ok};
use crate::errors::{database_error_on_create, AppError, AuthError};
use crate::jwt::{generate_jwt, issue_token_at, issued_claims, token_claims};
use crate::models::{filtered_of, CreateUserSchema, FilteredUser, LoginUserSchema, User};
use crate::password::{argon_verifies, hash_password, phc_parses, verify_password};
use crate::store::{
    creation_conflict, has_telegram, lemma_find_by_email_props, lemma_find_by_id_props,
    lemma_find_by_telegram_props, lemma_found_user_ok, spec_find_by_email, spec_find_by_id,
    spec_find_by_telegram, UserRepository,
};

verus! {

/// The record a login attempt selects, if any: with an email present
/// the email-plus-password path is taken (email takes precedence over
/// an external identity when both are supplied); with only an
/// external identity, that record is selected with no further secret,
/// the external provider being trusted to have authenticated the
/// caller already.
pub open spec fn login_user_of(users: Seq<User>, c: LoginUserSchema) -> Option<User> {
    match c.email {
        Some(em) => match spec_find_by_email(users, em@) {
            Some(u) => if argon_verifies(c.password@, u.password@) {
                Some(u)
            } else {
                None
            },
            None => None,
        },
        None => match c.telegram_user_id {
            Some(t) => spec_find_by_telegram(users, t@),
            None => None,
        },
    }
}

/// The authentication service: stateless but for its immutable
/// configuration (signing secret and time-to-live expression) and the
/// store it drives.
pub struct AuthService<R: UserRepository> {
    repository: R,
    jwt_secret: String,
    jwt_expires_in: String,
}

impl<R: UserRepository> AuthService<R> {
    /// The records of the underlying store.
    pub closed spec fn users(&self) -> Seq<User> {
        self.repository.users()
    }

    /// The underlying store's well-formedness.
    pub closed spec fn inv(&self) -> bool {
        self.repository.inv()
    }

    /// The signing secret, as configured.
    pub closed spec fn secret_view(&self) -> Seq<char> {
        self.jwt_secret@
    }

    /// The token time-to-live expression, as configured.
    pub closed spec fn expires_view(&self) -> Seq<char> {
        self.jwt_expires_in@
    }

    pub fn new(repository: R, jwt_secret: String, jwt_expires_in: String) -> (s: Self)
        requires
            repository.inv(),
        ensures
            s.inv(),
            s.users() == repository.users(),
            s.secret_view() == jwt_secret@,
            s.expires_view() == jwt_expires_in@,
    {
        AuthService { repository, jwt_secret, jwt_expires_in }
    }

    /// Authenticates by email and password. Succeeds exactly when a
    /// record with the email exists and the password verifies against
    /// its stored hash; an unknown email and a wrong password fail
    /// with the identical `InvalidCredentials`, so the caller cannot
    /// learn whether the email exists.
    pub fn authenticate_by_email(&self, email: &str, password: &str) -> (r: Result<
        User,
        AuthError,
    >)
        requires
            self.inv(),
        ensures
            r matches Ok(u) ==> spec_find_by_email(self.users(), email@) == Some(u)
                && argon_verifies(password@, u.password@),
            r is Ok <==> (spec_find_by_email(self.users(), email@) matches Some(u)
                && argon_verifies(password@, u.password@)),
            r matches Err(e) ==> e is InvalidCredentials,
    {
        let user = match self.repository.find_user_by_email(email) {
            Ok(u) => u,
            Err(_) => {
                return Err(AuthError::InvalidCredentials);
            },
        };
        if verify_password(password, user.password.as_str()) {
            Ok(user)
        } else {
            Err(AuthError::InvalidCredentials)
        }
    }

    /// Authenticates by external identity. No secondary secret is
    /// checked on this path by design: the external provider is
    /// trusted to have already authenticated the caller.
    pub fn authenticate_by_telegram(&self, telegram_id: &str) -> (r: Result<User, AuthError>)
        requires
            self.inv(),
        ensures
            r matches Ok(u) ==> spec_find_by_telegram(self.users(), telegram_id@) == Some(u),
            r is Ok <==> has_telegram(self.users(), telegram_id@),
            r matches Err(e) ==> e is InvalidCredentials,
    {
        match self.repository.find_by_telegram_user_id(telegram_id) {
            Ok(u) => Ok(u),
            Err(_) => Err(AuthError::InvalidCredentials),
        }
    }

    /// Registers a user from an already-computed password hash:
    /// succeeds exactly when neither the email nor the external
    /// identity is taken, appends the record, and returns its
    /// password-free projection.
    pub fn register_with_hashed(
        &mut self,
        user_data: &CreateUserSchema,
        telegram_user_id: Option<String>,
        hashed_password: &str,
        now: i64,
    ) -> (r: Result<FilteredUser, AuthError>)
        requires
            old(self).inv(),
        ensures
            final(self).inv(),
            final(self).secret_view() == old(self).secret_view(),
            final(self).expires_view() == old(self).expires_view(),
            r is Ok <==> !creation_conflict(old(self).users(), *user_data, telegram_user_id),
            r matches Ok(fu) ==> {
                let u = final(self).users().last();
                &&& final(self).users() == old(self).users().push(u)
                &&& u.email == user_data.email
                &&& u.password@ == hashed_password@
                &&& u.telegram_user_id == telegram_user_id
                &&& u.name == user_data.name
                &&& u.role == user_data.role
                &&& u.created_at == Some(now)
                &&& u.updated_at == Some(now)
                &&& fu == filtered_of(u)
            },
            r is Err ==> final(self).users() == old(self).users(),
            r matches Err(e) ==> e is DuplicateIdentity,
    {
        match self.repository.create_user(user_data, hashed_password, telegram_user_id, now) {
            Ok(u) => match u.to_filtered_user() {
                Some(fu) => Ok(fu),
                None => Err(AuthError::Internal(String::from_str("missing timestamps"))),
            },
            Err(e) => Err(database_error_on_create(e)),
        }
    }

    /// Registers a user as of the instant `now`: hashes the password,
    /// persists, projects. Fails with `DuplicateIdentity` exactly
    /// when the email or external identity is taken (given the hash
    /// succeeded), or with `PasswordHashError` on an entropy failure.
    /// The stored record holds a hash that verifies against the
    /// plaintext, never the plaintext itself.
    pub fn register_user_at(
        &mut self,
        user_data: &CreateUserSchema,
        telegram_user_id: Option<String>,
        now: i64,
    ) -> (r: Result<FilteredUser, AuthError>)
        requires
            old(self).inv(),
        ensures
            final(self).inv(),
            final(self).secret_view() == old(self).secret_view(),
            final(self).expires_view() == old(self).expires_view(),
            r matches Ok(fu) ==> {
                let u = final(self).users().last();
                &&& !creation_conflict(old(self).users(), *user_data, telegram_user_id)
                &&& final(self).users() == old(self).users().push(u)
                &&& u.email == user_data.email
                &&& argon_verifies(user_data.password@, u.password@)
                &&& phc_parses(u.password@)
                &&& u.telegram_user_id == telegram_user_id
                &&& u.created_at == Some(now)
                &&& u.updated_at == Some(now)
                &&& fu == filtered_of(u)
            },
            r is Err ==> final(self).users() == old(self).users(),
            r matches Err(e) ==> (e is DuplicateIdentity && creation_conflict(
                old(self).users(),
                *user_data,
                telegram_user_id,
            )) || e is PasswordHashError,
            creation_conflict(old(self).users(), *user_data, telegram_user_id) ==> r is Err,
    {
        let hashed = match hash_password(user_data.password.as_str()) {
            Ok(h) => h,
            Err(e) => {
                return Err(e);
            },
        };
        self.register_with_hashed(user_data, telegram_user_id, hashed.as_str(), now)
    }

    /// Registers a user as of the current wall clock; see
    /// [`Self::register_user_at`].
    pub fn register_user(
        &mut self,
        user_data: &CreateUserSchema,
        telegram_user_id: Option<String>,
    ) -> (r: Result<FilteredUser, AuthError>)
        requires
            old(self).inv(),
        ensures
            final(self).inv(),
            final(self).secret_view() == old(self).secret_view(),
            final(self).expires_view() == old(self).expires_view(),
            r matches Ok(fu) ==> {
                let u = final(self).users().last();
                &&& !creation_conflict(old(self).users(), *user_data, telegram_user_id)
                &&& final(self).users() == old(self).users().push(u)
                &&& u.email == user_data.email
                &&& argon_verifies(user_data.password@, u.password@)
                &&& phc_parses(u.password@)
                &&& u.telegram_user_id == telegram_user_id
                &&& u.created_at is Some && u.created_at == u.updated_at
                &&& fu == filtered_of(u)
            },
            r is Err ==> final(self).users() == old(self).users(),
            r matches Err(e) ==> (e is DuplicateIdentity && creation_conflict(
                old(self).users(),
                *user_data,
                telegram_user_id,
            )) || e is PasswordHashError,
            creation_conflict(old(self).users(), *user_data, telegram_user_id) ==> r is Err,
    {
        let now = now_seconds();
        self.register_user_at(user_data, telegram_user_id, now)
    }

    /// Issues a bearer token for an authenticated user with the
    /// service-held secret and configured time-to-live.
    pub fn generate_token(&self, user: &User) -> (r: Result<String, AuthError>)
        ensures
            r is Ok <==> ttl_ok(self.expires_view()),
            r matches Ok(t) ==> is_duration_str(self.expires_view()) && exists|now: i64|
                token_claims(t@, self.secret_view()) == Some(
                    #[trigger] issued_claims(user.id, self.expires_view(), now),
                ),
            r matches Err(e) ==> e is TokenGenerationError,
    {
        match generate_jwt(user.id, self.jwt_secret.as_str(), self.jwt_expires_in.as_str()) {
            Ok(t) => Ok(t),
            Err(e) => match e {
                AppError::TokenGenerationError(m) => Err(AuthError::TokenGenerationError(m)),
                _ => Err(AuthError::TokenGenerationError(String::new())),
            },
        }
    }

    /// Performs a login attempt as of the instant `now`: exactly one
    /// credential path is selected (email takes precedence), the
    /// selected record is projected, and a token is issued for it.
    /// Supplying neither selector is `BadRequest`; a failed selection
    /// is `InvalidCredentials`, whatever its cause.
    pub fn login_user_at(&self, credentials: &LoginUserSchema, now: i64) -> (r: Result<
        (FilteredUser, String),
        AuthError,
    >)
        requires
            self.inv(),
        ensures
            r is Ok <==> (login_user_of(self.users(), *credentials) is Some && ttl_ok(
                self.expires_view(),
            )),
            r matches Ok(p) ==> (login_user_of(self.users(), *credentials) matches Some(u) && p.0
                == filtered_of(u) && token_claims(p.1@, self.secret_view()) == Some(
                issued_claims(u.id, self.expires_view(), now),
            )),
            (credentials.email is None && credentials.telegram_user_id is None) <==> (r matches
                Err(e) && e is BadRequest),
            ((credentials.email is Some || credentials.telegram_user_id is Some) && login_user_of(
                self.users(),
                *credentials,
            ) is None) <==> (r matches Err(e) && e is InvalidCredentials),
            (login_user_of(self.users(), *credentials) is Some && !ttl_ok(self.expires_view()))
                <==> (r matches Err(e) && e is TokenGenerationError),
    {
        let user = if let Some(em) = &credentials.email {
            match self.authenticate_by_email(em.as_str(), credentials.password.as_str()) {
                Ok(u) => u,
                Err(_) => {
                    return Err(AuthError::InvalidCredentials);
                },
            }
        } else if let Some(tg) = &credentials.telegram_user_id {
            match self.authenticate_by_telegram(tg.as_str()) {
                Ok(u) => u,
                Err(_) => {
                    return Err(AuthError::InvalidCredentials);
                },
            }
        } else {
            return Err(AuthError::BadRequest);
        };
        proof {
            self.repository.inv_store_ok();
            if credentials.email is Some {
                lemma_find_by_email_props(self.users(), (credentials.email->0)@);
            } else {
                lemma_find_by_telegram_props(self.users(), (credentials.telegram_user_id->0)@);
            }
            lemma_found_user_ok(self.users(), user);
        }
        let fu = match user.to_filtered_user() {
            Some(fu) => fu,
            None => {
                return Err(AuthError::Internal(String::from_str("missing timestamps")));
            },
        };
        match issue_token_at(user.id, self.jwt_secret.as_str(), self.jwt_expires_in.as_str(), now) {
            Ok(t) => Ok((fu, t)),
            Err(e) => match e {
                AppError::TokenGenerationError(m) => Err(AuthError::TokenGenerationError(m)),
                _ => Err(AuthError::TokenGenerationError(String::new())),
            },
        }
    }

    /// Performs a login attempt as of the current wall clock; see
    /// [`Self::login_user_at`].
    pub fn login_user(&self, credentials: &LoginUserSchema) -> (r: Result<
        (FilteredUser, String),
        AuthError,
    >)
        requires
            self.inv(),
        ensures
            r is Ok <==> (login_user_of(self.users(), *credentials) is Some && ttl_ok(
                self.expires_view(),
            )),
            r matches Ok(p) ==> (login_user_of(self.users(), *credentials) matches Some(u) && p.0
                == filtered_of(u) && exists|now: i64|
                token_claims(p.1@, self.secret_view()) == Some(
                    #[trigger] issued_claims(u.id, self.expires_view(), now),
                )),
            (credentials.email is None && credentials.telegram_user_id is None) <==> (r matches
                Err(e) && e is BadRequest),
            ((credentials.email is Some || credentials.telegram_user_id is Some) && login_user_of(
                self.users(),
                *credentials,
            ) is None) <==> (r matches Err(e) && e is InvalidCredentials),
            (login_user_of(self.users(), *credentials) is Some && !ttl_ok(self.expires_view()))
                <==> (r matches Err(e) && e is TokenGenerationError),
    {
        let now = now_seconds();
        self.login_user_at(credentials, now)
    }

    /// Profile lookup by id: the password-free projection of the
    /// record, or `NotFound` exactly when no record has the id.
    pub fn get_user(&self, user_id: u128) -> (r: Result<FilteredUser, AuthError>)
        requires
            self.inv(),
        ensures
            r matches Ok(fu) ==> (spec_find_by_id(self.users(), user_id) matches Some(u) && fu
                == filtered_of(u)),
            r is Ok <==> spec_find_by_id(self.users(), user_id) is Some,
            r matches Err(e) ==> e is NotFound,
    {
        let user = match self.repository.find_user_by_id(user_id) {
            Ok(u) => u,
            Err(_) => {
                return Err(AuthError::NotFound);
            },
        };
        proof {
            self.repository.inv_store_ok();
            lemma_find_by_id_props(self.users(), user_id);
            lemma_found_user_ok(self.users(), user);
        }
        match user.to_filtered_user() {
            Some(fu) => Ok(fu),
            None => Err(AuthError::Internal(String::from_str("missing timestamps"))),
        }
    }

    /// The signing secret, for the boundary that wires the
    /// authorization middleware with the same configuration.
    pub fn jwt_secret(&self) -> (r: &String)
        ensures
            r@ == self.secret_view(),
    {
        &self.jwt_secret
    }
}

} // verus!
