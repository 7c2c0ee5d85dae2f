//! Token codec: compact, self-contained bearer tokens carrying a
//! subject identifier and expiry, signed with a server-held symmetric
//! secret (HMAC-SHA256). Signature checking is delegated to the
//! jsonwebtoken crate; the time-to-live arithmetic and the expiry
//! decision are verified here, against a clock reading passed in as a
//! plain value.

use vstd::prelude::*;
use crate::clock::now_seconds;
use crate::decimal::{all_digits, dec_str_of, dec_val, lemma_dec_str_of_val, u128_to_dec_string};
use crate::duration::{duration_seconds, is_duration_str, parse_duration, ttl_ok};
use crate::errors::AppError;

verus! {

/// The token payload: subject (the user id rendered in base ten),
/// expiry and issue time in whole seconds since the Unix epoch. No
/// other fields. Constructed at issuance, reconstructed at
/// verification, never persisted.
#[derive(Clone, Debug)]
pub struct Claims {
    pub sub: String,
    pub exp: u64,
    pub iat: u64,
}

/// The payload a token yields under a given secret: `Some((sub, exp,
/// iat))` exactly when the token is a structurally well-formed
/// HS256 token whose signature verifies under the secret, whose
/// payload carries those three claims, and which names no audience
/// (the locked validation rejects any token carrying an `aud`
/// claim). A fixed function of the token and the secret: no clock is
/// involved.
pub uninterp spec fn token_claims(token: Seq<char>, secret: Seq<char>) -> Option<
    (Seq<char>, u64, u64),
>;

/// The claims triple a `Claims` value denotes.
pub open spec fn claims_triple(c: Claims) -> (Seq<char>, u64, u64) {
    (c.sub@, c.exp, c.iat)
}

/// Relies on jsonwebtoken's `encode` with the default HS256 header:
/// the returned token decodes, under the same secret, to exactly the
/// claims that were signed. Signing cannot fail in this
/// configuration: the HMAC key constructor accepts any key length,
/// and serializing the fixed header and the three plain claims
/// cannot fail — so the call is owed to succeed.
#[verifier::external_body]
fn jwt_encode_raw(sub: &String, exp: u64, iat: u64, secret: &str) -> (r: Result<String, String>)
    ensures
        r is Ok,
        r matches Ok(t) ==> token_claims(t@, secret@) == Some((sub@, exp, iat)),
{
    let key = jsonwebtoken::EncodingKey::from_secret(secret.as_bytes());
    let mut payload = serde_json::Map::new();
    payload.insert("sub".to_string(), serde_json::Value::String(sub.clone()));
    payload.insert("exp".to_string(), serde_json::Value::from(exp));
    payload.insert("iat".to_string(), serde_json::Value::from(iat));
    match jsonwebtoken::encode(&jsonwebtoken::Header::default(), &serde_json::Value::Object(payload), &key) {
        Ok(t) => Ok(t),
        Err(e) => Err(e.to_string()),
    }
}

/// Relies on jsonwebtoken's `decode` restricted to HS256, with the
/// expiry check switched off so that the outcome is a fixed function
/// of the token and the secret: `Some` exactly when the signature
/// verifies, the payload carries the three claims, and the token
/// names no audience (default validation rejects a present `aud`
/// claim when none is expected).
#[verifier::external_body]
fn jwt_decode_raw(token: &str, secret: &str) -> (r: Option<Claims>)
    ensures
        r matches Some(c) ==> token_claims(token@, secret@) == Some(claims_triple(c)),
        r is None ==> token_claims(token@, secret@) is None,
{
    let key = jsonwebtoken::DecodingKey::from_secret(secret.as_bytes());
    let mut v = jsonwebtoken::Validation::default();
    v.validate_exp = false;
    v.required_spec_claims = std::collections::HashSet::new();
    let d = match jsonwebtoken::decode::<serde_json::Value>(token, &key, &v) {
        Ok(d) => d.claims,
        Err(_) => return None,
    };
    match (d.get("sub")?.as_str(), d.get("exp")?.as_u64(), d.get("iat")?.as_u64()) {
        (Some(sub), Some(exp), Some(iat)) => Some(Claims { sub: sub.to_string(), exp, iat }),
        _ => None,
    }
}

/// Clamps an instant to the unsigned 64-bit timestamp range used in
/// token payloads.
pub open spec fn clamp_to_u64(x: int) -> u64 {
    if x < 0 {
        0
    } else if x > 0xffff_ffff_ffff_ffff {
        0xffff_ffff_ffff_ffff
    } else {
        x as u64
    }
}

/// The claims triple of a token issued for `user_id` at the instant
/// `now` with the given time-to-live expression.
pub open spec fn issued_claims(user_id: u128, expiration: Seq<char>, now: i64) -> (
    Seq<char>,
    u64,
    u64,
) {
    (
        dec_str_of(user_id as nat),
        clamp_to_u64(now + duration_seconds(expiration)),
        clamp_to_u64(now as int),
    )
}

/// The subject claim written at issuance reads back as the same user
/// id: it is a nonempty digit string whose value is the id.
pub proof fn lemma_token_subject_roundtrip(user_id: u128, expiration: Seq<char>, now: i64)
    ensures
        ({
            let t3 = issued_claims(user_id, expiration, now);
            t3.0.len() > 0 && all_digits(t3.0) && dec_val(t3.0) == user_id as nat
        }),
{
    lemma_dec_str_of_val(user_id as nat);
}

/// Issues a token for `user_id` as of the instant `now`: the subject
/// is the id in base ten, `iat` is `now` and `exp` is `now` plus the
/// parsed time-to-live, each clamped to the timestamp range. A
/// malformed time-to-live expression fails right here, at issuance.
pub fn issue_token_at(user_id: u128, jwt_secret: &str, expiration: &str, now: i64) -> (r: Result<
    String,
    AppError,
>)
    ensures
        r is Ok <==> ttl_ok(expiration@),
        r matches Ok(t) ==> is_duration_str(expiration@) && token_claims(t@, jwt_secret@)
            == Some(issued_claims(user_id, expiration@, now)),
        r matches Err(e) ==> (e matches AppError::TokenGenerationError(m) && m@
            == "Invalid expiration format"@),
{
    let ttl: i64 = match parse_duration(expiration) {
        Ok(t) => t,
        Err(_) => {
            return Err(
                AppError::TokenGenerationError(String::from_str("Invalid expiration format")),
            );
        },
    };
    let exp_wide: i128 = now as i128 + ttl as i128;
    let exp: u64 = if exp_wide < 0 {
        0
    } else if exp_wide > 0xffff_ffff_ffff_ffff {
        0xffff_ffff_ffff_ffff
    } else {
        exp_wide as u64
    };
    let iat: u64 = if now < 0 {
        0
    } else {
        now as u64
    };
    assert(exp == clamp_to_u64(now + duration_seconds(expiration@)));
    assert(iat == clamp_to_u64(now as int));
    assert(issued_claims(user_id, expiration@, now) == (dec_str_of(user_id as nat), exp, iat));
    let sub = u128_to_dec_string(user_id);
    match jwt_encode_raw(&sub, exp, iat, jwt_secret) {
        Ok(t) => Ok(t),
        // signing is owed to succeed; this arm only keeps the match total
        Err(_) => Err(AppError::TokenGenerationError(String::from_str("Invalid expiration format"))),
    }
}

/// Issues a token as of the current wall clock. What holds of the
/// result holds for some clock reading; see [`issue_token_at`] for
/// the exact shape.
pub fn generate_jwt(user_id: u128, jwt_secret: &str, expiration: &str) -> (r: Result<
    String,
    AppError,
>)
    ensures
        r is Ok <==> ttl_ok(expiration@),
        r matches Ok(t) ==> is_duration_str(expiration@) && exists|now: i64|
            token_claims(t@, jwt_secret@) == Some(#[trigger] issued_claims(user_id, expiration@, now)),
        r matches Err(e) ==> e is TokenGenerationError,
{
    let now = now_seconds();
    issue_token_at(user_id, jwt_secret, expiration, now)
}

/// Validates a token as of the instant `now`: a bad structure or
/// signature is `InvalidToken`, a good signature past its expiry is
/// `TokenExpired` — distinct, so callers can prompt re-authentication
/// instead of rejecting outright.
pub fn verify_jwt_at(token: &str, jwt_secret: &str, now: i64) -> (r: Result<Claims, AppError>)
    ensures
        r matches Ok(c) ==> token_claims(token@, jwt_secret@) == Some(claims_triple(c)) && now
            <= c.exp,
        (token_claims(token@, jwt_secret@) is None) <==> (r matches Err(e) && e matches
            AppError::InvalidToken(_)),
        token_claims(token@, jwt_secret@) matches Some(t3) ==> if now > t3.1 {
            r matches Err(e) && e is TokenExpired
        } else {
            r matches Ok(c) && claims_triple(c) == t3
        },
{
    let c = match jwt_decode_raw(token, jwt_secret) {
        Some(c) => c,
        None => {
            return Err(AppError::InvalidToken(String::from_str("Invalid token")));
        },
    };
    let expired = now > 0 && (c.exp < 0x7fff_ffff_ffff_ffff as u64 + 1) && (c.exp as i64) < now;
    proof {
        assert(expired == (now as int > c.exp as int));
    }
    if expired {
        Err(AppError::TokenExpired)
    } else {
        Ok(c)
    }
}

/// Validates a token against the current wall clock. Structural and
/// signature outcomes do not depend on the clock; only the line
/// between `Ok` and `TokenExpired` does.
pub fn verify_jwt(token: &str, jwt_secret: &str) -> (r: Result<Claims, AppError>)
    ensures
        r matches Ok(c) ==> token_claims(token@, jwt_secret@) == Some(claims_triple(c)),
        (token_claims(token@, jwt_secret@) is None) <==> (r matches Err(e) && e matches
            AppError::InvalidToken(_)),
        r matches Err(e) && e is TokenExpired ==> token_claims(token@, jwt_secret@) is Some,
{
    let now = now_seconds();
    verify_jwt_at(token, jwt_secret, now)
}

} // verus!
