use vstd::prelude::*;
use jsonwebtoken::{EncodingKey, Header};
use crate::models::AuthError;

verus! {

/// How long an issued session token stays valid, in seconds (24 hours).
pub const TOKEN_VALIDITY_SECS: u64 = 86400;

/// The HS256-signed token whose claims are `{sub, exp}`, under a symmetric key.
pub uninterp spec fn hs256_token(subject: Seq<char>, expires_at: int, key: Seq<u8>) -> Seq<char>;

/// The expiry of a token issued at `now`, if it is a representable instant.
pub open spec fn expiry_for(now: int) -> Option<int> {
    if now + TOKEN_VALIDITY_SECS <= u64::MAX {
        Some(now + TOKEN_VALIDITY_SECS)
    } else {
        None
    }
}

/// Relies on jsonwebtoken::encode with the default header (HS256) and
/// EncodingKey::from_secret: the key's family matches the header's algorithm,
/// the claims always serialize and HMAC signing does not fail, so a token is
/// always returned; it depends on the claims and the key alone.
#[verifier::external_body]
fn sign_claims(subject: &str, expires_at: u64, key: &[u8]) -> (r: Option<String>)
    ensures
        r is Some,
        r matches Some(t) ==> t@ == hs256_token(subject@, expires_at as int, key@),
{
    let mut claims = serde_json::Map::new();
    claims.insert("sub".to_string(), serde_json::Value::from(subject));
    claims.insert("exp".to_string(), serde_json::Value::from(expires_at));
    jsonwebtoken::encode(&Header::default(), &claims, &EncodingKey::from_secret(key)).ok()
}

/// Relies on chrono's conversion from the system clock, which counts an
/// instant before 1970 as negative seconds: the current time as seconds
/// since the epoch. Nothing is promised of its value.
#[verifier::external_body]
fn unix_now() -> (r: i64) {
    chrono::DateTime::<chrono::Utc>::from(std::time::SystemTime::now()).timestamp()
}

/// Signs a token for `username` issued at `now` (seconds since the epoch),
/// expiring 24 hours later. Signing failure is a hard error, never a placeholder.
pub fn issue_token(username: &str, key: &[u8], now: u64) -> (r: Result<String, AuthError>)
    ensures
        match expiry_for(now as int) {
            Some(exp) => (r matches Ok(t) && t@ == hs256_token(username@, exp, key@)),
            None => r == Err::<String, AuthError>(AuthError::TokenIssuanceFailed),
        },
{
    if now > u64::MAX - TOKEN_VALIDITY_SECS {
        return Err(AuthError::TokenIssuanceFailed);
    }
    let exp = now + TOKEN_VALIDITY_SECS;
    match sign_claims(username, exp, key) {
        Some(t) => Ok(t),
        None => Err(AuthError::TokenIssuanceFailed),
    }
}

/// Signs a token for `username` that expires 24 hours from the current
/// time; a system clock set before 1970 gives `TokenIssuanceFailed`.
pub fn generate_token(username: &str, key: &[u8]) -> (r: Result<String, AuthError>)
    ensures
        r matches Ok(t) ==> exists|now: int| 0 <= now <= i64::MAX && (#[trigger] expiry_for(now) matches Some(exp)
            && exp == now + TOKEN_VALIDITY_SECS && t@ == hs256_token(username@, exp, key@)),
        r matches Err(e) ==> e == AuthError::TokenIssuanceFailed,
{
    let now = unix_now();
    if now < 0 {
        return Err(AuthError::TokenIssuanceFailed);
    }
    issue_token(username, key, now as u64)
}

} // verus!
