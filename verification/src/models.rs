//! Data model: the authoritative `User` record, its outward-safe
//! projection `FilteredUser`, the request schemas handed in at the
//! boundary, and the input validation rules.

use vstd::prelude::*;
use crate::errors::AuthError;

verus! {

/// The authoritative identity record, as the store persists it.
///
/// `id` is an opaque 128-bit identifier assigned by the store at
/// creation. `password` holds the password-codec output (a PHC hash
/// string), never the plaintext. Timestamps are integer seconds since
/// the Unix epoch; the store sets them on insert.
#[derive(Debug)]
pub struct User {
    pub id: u128,
    pub email: String,
    pub password: String,
    pub telegram_user_id: Option<String>,
    pub name: Option<String>,
    pub role: String,
    pub created_at: Option<i64>,
    pub updated_at: Option<i64>,
}

/// The outward-safe projection of a `User`: everything but the
/// password hash. Required timestamps are plain values here; a record
/// missing them cannot be projected (a data-integrity defect).
#[derive(Clone, Debug)]
pub struct FilteredUser {
    pub id: u128,
    pub email: String,
    pub name: Option<String>,
    pub role: String,
    pub created_at: i64,
    pub updated_at: i64,
}

/// Registration input: an email, a plaintext password, and an
/// optional display name. `role` is filled with [`default_role`] at
/// the boundary when the caller supplies none.
#[derive(Clone, Debug)]
pub struct CreateUserSchema {
    pub email: String,
    pub password: String,
    pub name: Option<String>,
    pub role: String,
}

/// Login input: exactly one credential path should be selected —
/// email plus password, or an external (Telegram) identity.
#[derive(Clone, Debug)]
pub struct LoginUserSchema {
    pub email: Option<String>,
    pub telegram_user_id: Option<String>,
    pub password: String,
}

/// Optional query parameters accepted at registration.
#[derive(Clone, Debug)]
pub struct RegisterParams {
    pub telegram_user_id: Option<String>,
}

/// The body of a successful login: the issued bearer token.
#[derive(Clone, Debug)]
pub struct LoginResponse {
    pub token: String,
}

/// Process configuration, loaded once at start by the boundary.
#[derive(Clone, Debug)]
pub struct AppConfig {
    pub database_url: String,
    pub jwt_secret: String,
    pub jwt_expires_in: String,
    pub jwt_maxage: i32,
    pub port: u16,
}

/// The default role tag given to a freshly created account.
pub fn default_role() -> (r: String)
    ensures
        r@ == "user"@,
{
    String::from_str("user")
}

/// The projection of a user with both timestamps present.
pub open spec fn filtered_of(u: User) -> FilteredUser
    recommends
        u.created_at is Some,
        u.updated_at is Some,
{
    FilteredUser {
        id: u.id,
        email: u.email,
        name: u.name,
        role: u.role,
        created_at: match u.created_at {
            Some(t) => t,
            None => 0,
        },
        updated_at: match u.updated_at {
            Some(t) => t,
            None => 0,
        },
    }
}

impl Clone for User {
    /// A field-for-field copy, equal to the original.
    fn clone(&self) -> (r: Self)
        ensures
            r == *self,
    {
        User {
            id: self.id,
            email: self.email.clone(),
            password: self.password.clone(),
            telegram_user_id: clone_opt_string(&self.telegram_user_id),
            name: clone_opt_string(&self.name),
            role: self.role.clone(),
            created_at: self.created_at,
            updated_at: self.updated_at,
        }
    }
}

/// A copy of an optional string, equal to the original.
pub fn clone_opt_string(s: &Option<String>) -> (r: Option<String>)
    ensures
        r == *s,
{
    match s {
        Some(v) => Some(v.clone()),
        None => None,
    }
}

impl User {
    /// Projects the record for the outside world, dropping the
    /// password hash. `None` exactly when a required timestamp is
    /// absent from the record.
    pub fn to_filtered_user(&self) -> (r: Option<FilteredUser>)
        ensures
            r is Some <==> (self.created_at is Some && self.updated_at is Some),
            r matches Some(fu) ==> fu == filtered_of(*self),
    {
        match (&self.created_at, &self.updated_at) {
            (Some(c), Some(u)) => Some(
                FilteredUser {
                    id: self.id,
                    email: self.email.clone(),
                    name: match &self.name {
                        Some(n) => Some(n.clone()),
                        None => None,
                    },
                    role: self.role.clone(),
                    created_at: *c,
                    updated_at: *u,
                },
            ),
            _ => None,
        }
    }
}

/// Position `i` holds the one and only `@` of the string, strictly
/// inside it, so both the local part and the domain are nonempty.
pub open spec fn sole_at(s: Seq<char>, i: int) -> bool {
    &&& 0 < i < s.len() - 1
    &&& s[i] == '@'
    &&& forall|j: int| 0 <= j < s.len() && j != i ==> s[j] != '@'
}

/// The acceptance rule for email addresses: exactly one `@`, strictly
/// inside the string, and no space anywhere.
pub open spec fn valid_email(s: Seq<char>) -> bool {
    &&& exists|i: int| sole_at(s, i)
    &&& forall|j: int| 0 <= j < s.len() ==> s[j] != ' '
}

/// The minimum accepted password length, in characters.
pub open spec fn min_password_len() -> int {
    6
}

/// Checks registration input: the email must pass [`valid_email`] and
/// the password must have at least six characters. Errors carry the
/// field-specific message, the email being checked first.
pub fn validate_create_user(data: &CreateUserSchema) -> (r: Result<(), AuthError>)
    ensures
        r is Ok <==> (valid_email(data.email@) && data.password@.len() >= min_password_len()),
        r matches Err(e) ==> e matches AuthError::ValidationError(m) && if !valid_email(
            data.email@,
        ) {
            m@ == "Invalid email format"@
        } else {
            m@ == "Password must be at least 6 characters"@
        },
{
    if !check_email(data.email.as_str()) {
        return Err(AuthError::ValidationError(String::from_str("Invalid email format")));
    }
    let plen: usize = data.password.as_str().unicode_len();
    if plen < 6 {
        return Err(
            AuthError::ValidationError(
                String::from_str("Password must be at least 6 characters"),
            ),
        );
    }
    Ok(())
}

/// Scans for exactly one interior `@` and no space.
fn check_email(email: &str) -> (r: bool)
    ensures
        r == valid_email(email@),
{
    let ghost sv = email@;
    let len: usize = email.unicode_len();
    let mut at_pos: usize = 0;
    let mut at_count: usize = 0;
    let ghost mut p2: int = 0;
    let mut i: usize = 0;
    while i < len
        invariant
            sv == email@,
            len == sv.len(),
            0 <= i <= len,
            at_count <= 2,
            forall|j: int| 0 <= j < i ==> sv[j] != ' ',
            at_count == 0 ==> (forall|j: int| 0 <= j < i ==> sv[j] != '@'),
            at_count == 1 ==> at_pos < i && sv[at_pos as int] == '@' && (forall|j: int|
                0 <= j < i && j != at_pos ==> sv[j] != '@'),
            at_count == 2 ==> (at_pos as int) < p2 < i && sv[at_pos as int] == '@' && sv[p2]
                == '@',
        decreases len - i,
    {
        let c = email.get_char(i);
        if c == ' ' {
            return false;
        }
        if c == '@' {
            if at_count == 0 {
                at_pos = i;
                at_count = 1;
            } else if at_count == 1 {
                proof {
                    p2 = i as int;
                }
                at_count = 2;
            }
        }
        i = i + 1;
    }
    if at_count == 1 && 0 < at_pos && at_pos < len - 1 {
        proof {
            assert(sole_at(sv, at_pos as int));
        }
        true
    } else {
        proof {
            if valid_email(sv) {
                let k = choose|k: int| sole_at(sv, k);
                if at_count == 0 {
                    assert(sv[k] != '@');
                } else if at_count == 2 {
                    if k != at_pos as int {
                        assert(sv[at_pos as int] != '@');
                    } else {
                        assert(sv[p2] != '@');
                    }
                } else {
                    if k != at_pos as int {
                        assert(sv[k] != '@');
                    }
                }
                assert(false);
            }
        }
        false
    }
}

} // verus!
