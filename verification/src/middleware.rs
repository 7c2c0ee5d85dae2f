//! Authorization middleware over a single request: extract the
//! `Authorization` header, demand the exact `Bearer ` scheme prefix,
//! validate the remainder as a token, and either hand back the claims
//! or reject — before any protected handler runs.

use vstd::prelude::*;
use crate::decimal::{all_digits, dec_val, lemma_dec_str_of_val, parse_dec_u128};
use crate::errors::AppError;
use crate::jwt::{claims_triple, issued_claims, token_claims, verify_jwt_at, Claims};
use crate::models::{filtered_of, FilteredUser};
use crate::service::AuthService;
use crate::clock::now_seconds;
use crate::store::{spec_find_by_id, UserRepository};
use crate::models::User;

verus! {

/// The exact scheme prefix a bearer credential must carry:
/// case-sensitive, one trailing space.
pub open spec fn bearer_prefix() -> Seq<char> {
    seq!['B', 'e', 'a', 'r', 'e', 'r', ' ']
}

/// Whether a header value carries the bearer scheme prefix.
pub open spec fn has_bearer(h: Seq<char>) -> bool {
    h.len() >= 7 && h.take(7) == bearer_prefix()
}

/// The token part of a bearer header: everything after the prefix.
pub open spec fn bearer_token(h: Seq<char>) -> Seq<char> {
    h.skip(7)
}

/// Splits the token out of a bearer header: `Some` exactly when the
/// header starts with the exact `Bearer ` prefix.
pub fn extract_bearer_token<'a>(header: &'a str) -> (r: Option<&'a str>)
    ensures
        r matches Some(t) ==> has_bearer(header@) && t@ == bearer_token(header@),
        r is Some <==> has_bearer(header@),
{
    let len: usize = header.unicode_len();
    if len < 7 {
        proof {
            assert(!has_bearer(header@));
        }
        return None;
    }
    let ok = header.get_char(0) == 'B' && header.get_char(1) == 'e' && header.get_char(2) == 'a'
        && header.get_char(3) == 'r' && header.get_char(4) == 'e' && header.get_char(5) == 'r'
        && header.get_char(6) == ' ';
    if !ok {
        proof {
            if has_bearer(header@) {
                assert(forall|k: int|
                    0 <= k < 7 ==> header@.take(7)[k] == #[trigger] bearer_prefix()[k]);
                assert(header@[0] == 'B' && header@[1] == 'e' && header@[2] == 'a' && header@[3]
                    == 'r' && header@[4] == 'e' && header@[5] == 'r' && header@[6] == ' ');
            }
        }
        return None;
    }
    let token = header.substring_char(7, len);
    proof {
        assert(header@.take(7) =~= bearer_prefix());
        assert(token@ =~= bearer_token(header@));
    }
    Some(token)
}

/// What token validation as of instant `now` guarantees of the
/// outcome `r`, given the claims `tc` the token yields under the
/// secret: success returns exactly those claims unexpired; a token
/// yielding none is rejected as invalid; a token yielding claims is
/// accepted or rejected as expired by comparing `now` with its
/// expiry.
pub open spec fn verify_outcome(
    tc: Option<(Seq<char>, u64, u64)>,
    now: i64,
    r: Result<Claims, AppError>,
) -> bool {
    &&& (r matches Ok(c) ==> tc == Some(claims_triple(c)) && now <= c.exp)
    &&& ((tc is None) <==> (r matches Err(e) && e matches AppError::InvalidToken(_)))
    &&& (tc matches Some(t3) ==> (if now > t3.1 {
        r matches Err(e) && e is TokenExpired
    } else {
        r matches Ok(c) && claims_triple(c) == t3
    }))
}

/// The clock-independent part of [`verify_outcome`]: what holds of
/// the outcome whatever instant the clock read.
pub open spec fn verify_outcome_timeless(
    tc: Option<(Seq<char>, u64, u64)>,
    r: Result<Claims, AppError>,
) -> bool {
    &&& (r matches Ok(c) ==> tc == Some(claims_triple(c)))
    &&& ((tc is None) <==> (r matches Err(e) && e matches AppError::InvalidToken(_)))
    &&& (r matches Err(e) && e is TokenExpired ==> tc is Some)
}

/// The clock-independent claim of a successful "current user" lookup
/// with result `fu`: the token yields claims, their subject reads as
/// a user id, a record with that id exists, and `fu` is its
/// password-free projection.
pub open spec fn me_lookup_ok(
    users: Seq<User>,
    secret: Seq<char>,
    token: Seq<char>,
    fu: FilteredUser,
) -> bool {
    match token_claims(token, secret) {
        Some(t3) => t3.0.len() > 0 && all_digits(t3.0) && dec_val(t3.0) <= u128::MAX && (
        match spec_find_by_id(users, dec_val(t3.0) as u128) {
            Some(u) => fu == filtered_of(u),
            None => false,
        }),
        None => false,
    }
}

/// A token issued for a stored user's id names that user: if a token
/// yields exactly the claims issued for `user_id`, and a record with
/// that id exists, then the "current user" lookup claim holds of the
/// record's projection — the subject written at issuance reads back
/// as the same id.
pub proof fn lemma_me_after_login(
    users: Seq<User>,
    secret: Seq<char>,
    token: Seq<char>,
    user_id: u128,
    expiration: Seq<char>,
    now: i64,
    fu: FilteredUser,
)
    requires
        token_claims(token, secret) == Some(issued_claims(user_id, expiration, now)),
        spec_find_by_id(users, user_id) matches Some(u) && fu == filtered_of(u),
    ensures
        me_lookup_ok(users, secret, token, fu),
{
    lemma_dec_str_of_val(user_id as nat);
}

/// The full case split of the "current user" lookup as of instant
/// `now`, given the claims `tc` the bearer token yields: no claims is
/// an invalid-token rejection; claims past their expiry are an
/// expired rejection; a subject that does not read as a user id is
/// rejected with the fixed message; an unknown id is not found; and
/// otherwise the stored record's projection is owed.
pub open spec fn me_outcome(
    users: Seq<User>,
    tc: Option<(Seq<char>, u64, u64)>,
    now: i64,
    r: Result<FilteredUser, AppError>,
) -> bool {
    match tc {
        None => r matches Err(e) && e matches AppError::InvalidToken(_),
        Some(t3) => if now > t3.1 {
            r matches Err(e) && e is TokenExpired
        } else if !(t3.0.len() > 0 && all_digits(t3.0) && dec_val(t3.0) <= u128::MAX) {
            r matches Err(e) && (e matches AppError::Auth(m) && m@
                == "Invalid user ID in token"@)
        } else {
            match spec_find_by_id(users, dec_val(t3.0) as u128) {
                Some(u) => r matches Ok(fu) && fu == filtered_of(u),
                None => r matches Err(e) && e matches AppError::NotFound(_),
            }
        },
    }
}

/// The clock-independent part of [`me_outcome`]: whatever instant
/// the clock read, a token yielding no claims is rejected as
/// invalid, and a token yielding claims either meets its
/// clock-determined outcome or is rejected as expired.
pub open spec fn me_outcome_timeless(
    users: Seq<User>,
    tc: Option<(Seq<char>, u64, u64)>,
    r: Result<FilteredUser, AppError>,
) -> bool {
    match tc {
        None => r matches Err(e) && e matches AppError::InvalidToken(_),
        Some(t3) => (r matches Err(e) && e is TokenExpired) || (if !(t3.0.len() > 0
            && all_digits(t3.0) && dec_val(t3.0) <= u128::MAX) {
            r matches Err(e) && (e matches AppError::Auth(m) && m@
                == "Invalid user ID in token"@)
        } else {
            match spec_find_by_id(users, dec_val(t3.0) as u128) {
                Some(u) => r matches Ok(fu) && fu == filtered_of(u),
                None => r matches Err(e) && e matches AppError::NotFound(_),
            }
        }),
    }
}

/// Runs the middleware state machine for one request as of the
/// instant `now`: a missing header, a header without the exact
/// scheme prefix, an invalid token and an expired token each reject
/// the request with their own reason; otherwise the token's claims
/// are attached for the downstream handler.
pub fn authorize_request_at(authorization: Option<&str>, jwt_secret: &str, now: i64) -> (r: Result<
    Claims,
    AppError,
>)
    ensures
        (authorization is None) <==> (r matches Err(e) && (e matches AppError::Auth(m) && m@
            == "Missing authorization header"@)),
        (authorization matches Some(h) && !has_bearer(h@)) <==> (r matches Err(e) && (e matches
            AppError::Auth(m) && m@ == "Invalid token format"@)),
        authorization matches Some(h) ==> (has_bearer(h@) ==> verify_outcome(
            token_claims(bearer_token(h@), jwt_secret@),
            now,
            r,
        )),
{
    let header = match authorization {
        Some(h) => h,
        None => {
            proof {
                reveal_strlit("Missing authorization header");
                reveal_strlit("Invalid token format");
                assert("Invalid token format"@.len() == 20);
                assert("Missing authorization header"@.len() == 28);
                assert("Invalid token format"@ != "Missing authorization header"@);
            }
            return Err(AppError::Auth(String::from_str("Missing authorization header")));
        },
    };
    let token = match extract_bearer_token(header) {
        Some(t) => t,
        None => {
            proof {
                reveal_strlit("Missing authorization header");
                reveal_strlit("Invalid token format");
                assert("Invalid token format"@.len() == 20);
                assert("Missing authorization header"@.len() == 28);
                assert("Invalid token format"@ != "Missing authorization header"@);
            }
            return Err(AppError::Auth(String::from_str("Invalid token format")));
        },
    };
    verify_jwt_at(token, jwt_secret, now)
}

/// Runs the middleware against the current wall clock; structural
/// outcomes do not depend on the clock reading.
pub fn authorize_request(authorization: Option<&str>, jwt_secret: &str) -> (r: Result<
    Claims,
    AppError,
>)
    ensures
        (authorization is None) <==> (r matches Err(e) && (e matches AppError::Auth(m) && m@
            == "Missing authorization header"@)),
        (authorization matches Some(h) && !has_bearer(h@)) <==> (r matches Err(e) && (e matches
            AppError::Auth(m) && m@ == "Invalid token format"@)),
        authorization matches Some(h) ==> (has_bearer(h@) ==> verify_outcome_timeless(
            token_claims(bearer_token(h@), jwt_secret@),
            r,
        )),
{
    let now = now_seconds();
    authorize_request_at(authorization, jwt_secret, now)
}

/// The full protected-route flow for "who am I" as of the instant
/// `now`: validate the bearer token against the service's secret,
/// read the subject as a user id, and look the profile up. Every
/// rejection surfaces as an `AppError` whose status is 401 or 404;
/// nothing here distinguishes an expired from an invalid token to the
/// outside beyond the error variant the boundary maps to 401.
pub fn current_user_at<R: UserRepository>(
    service: &AuthService<R>,
    authorization: Option<&str>,
    now: i64,
) -> (r: Result<FilteredUser, AppError>)
    requires
        service.inv(),
    ensures
        r matches Ok(fu) ==> (authorization matches Some(h) && (has_bearer(h@) && me_lookup_ok(
            service.users(),
            service.secret_view(),
            bearer_token(h@),
            fu,
        ) && now <= (token_claims(bearer_token(h@), service.secret_view())->0).1)),
        (authorization is None) <==> (r matches Err(e) && (e matches AppError::Auth(m) && m@
            == "Missing authorization header"@)),
        (authorization matches Some(h) && !has_bearer(h@)) <==> (r matches Err(e) && (e matches
            AppError::Auth(m) && m@ == "Invalid token format"@)),
        authorization matches Some(h) ==> (has_bearer(h@) ==> me_outcome(
            service.users(),
            token_claims(bearer_token(h@), service.secret_view()),
            now,
            r,
        )),
        r matches Err(e) ==> e.spec_status_code() == 401 || e.spec_status_code() == 404,
{
    let claims = match authorize_request_at(authorization, service.jwt_secret().as_str(), now) {
        Ok(c) => c,
        Err(e) => {
            return Err(e);
        },
    };
    let user_id = match parse_dec_u128(claims.sub.as_str()) {
        Some(id) => id,
        None => {
            proof {
                reveal_strlit("Missing authorization header");
                reveal_strlit("Invalid token format");
                reveal_strlit("Invalid user ID in token");
                assert("Missing authorization header"@.len() == 28);
                assert("Invalid token format"@.len() == 20);
                assert("Invalid user ID in token"@.len() == 24);
            }
            return Err(AppError::Auth(String::from_str("Invalid user ID in token")));
        },
    };
    match service.get_user(user_id) {
        Ok(fu) => Ok(fu),
        Err(e) => Err(AppError::from_auth_error(e)),
    }
}

/// The protected-route flow against the current wall clock; see
/// [`current_user_at`].
pub fn current_user<R: UserRepository>(
    service: &AuthService<R>,
    authorization: Option<&str>,
) -> (r: Result<FilteredUser, AppError>)
    requires
        service.inv(),
    ensures
        r matches Ok(fu) ==> (authorization matches Some(h) && (has_bearer(h@) && me_lookup_ok(
            service.users(),
            service.secret_view(),
            bearer_token(h@),
            fu,
        ))),
        (authorization is None) <==> (r matches Err(e) && (e matches AppError::Auth(m) && m@
            == "Missing authorization header"@)),
        (authorization matches Some(h) && !has_bearer(h@)) <==> (r matches Err(e) && (e matches
            AppError::Auth(m) && m@ == "Invalid token format"@)),
        authorization matches Some(h) ==> (has_bearer(h@) ==> me_outcome_timeless(
            service.users(),
            token_claims(bearer_token(h@), service.secret_view()),
            r,
        )),
        r matches Err(e) ==> e.spec_status_code() == 401 || e.spec_status_code() == 404,
{
    let now = now_seconds();
    current_user_at(service, authorization, now)
}

} // verus!
