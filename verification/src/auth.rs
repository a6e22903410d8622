use vstd::prelude::*;

use crate::entities::User;
use crate::index::json_member;

verus! {

/// The claims carried by a session token.
#[derive(Debug)]
pub struct Claims {
    pub sub: i64,
    pub username: String,
    pub is_admin: bool,
    pub exp: usize,
}

/// A token could not be produced or was not accepted.
#[derive(Clone, Copy, Debug, PartialEq, Eq, Structural)]
pub struct TokenError;

/// How long a session token stays valid, in seconds: 31 days.
pub const TOKEN_LIFETIME_SECONDS: i64 = 2678400;

/// The signed token that the claims and the secret determine.
pub uninterp spec fn token_of(
    sub: int,
    username: Seq<char>,
    is_admin: bool,
    exp: int,
    secret: Seq<char>,
) -> Seq<char>;

/// Relies on jsonwebtoken::encode with the default header (HS256) and a key
/// from the secret's bytes: the token is a deterministic function of the
/// claim fields and the secret, and signing this object payload under HMAC
/// has no failing path.
#[verifier::external_body]
fn encode_claims(claims: &Claims, secret: &str) -> (r: Result<String, TokenError>)
    ensures
        r is Ok,
        r matches Ok(t) ==> t@ == token_of(
            claims.sub as int,
            claims.username@,
            claims.is_admin,
            claims.exp as int,
            secret@,
        ),
{
    let mut map = serde_json::Map::new();
    map.insert("sub".to_string(), serde_json::Value::from(claims.sub));
    map.insert("username".to_string(), serde_json::Value::from(claims.username.clone()));
    map.insert("is_admin".to_string(), serde_json::Value::from(claims.is_admin));
    map.insert("exp".to_string(), serde_json::Value::from(claims.exp as u64));
    jsonwebtoken::encode(
        &jsonwebtoken::Header::default(),
        &serde_json::Value::Object(map),
        &jsonwebtoken::EncodingKey::from_secret(secret.as_bytes()),
    ).map_err(|_| TokenError)
}

/// Relies on jsonwebtoken::decode with the default validation, which checks
/// the signature and the expiry against the current time; nothing is
/// promised of the outcome.
#[verifier::external_body]
fn decode_claims_value(secret: &str, token: &str) -> (r: Result<serde_json::Value, TokenError>) {
    jsonwebtoken::decode::<serde_json::Value>(
        token,
        &jsonwebtoken::DecodingKey::from_secret(secret.as_bytes()),
        &jsonwebtoken::Validation::default(),
    ).map(|data| data.claims).map_err(|_| TokenError)
}

impl Claims {
    /// The claims for a fresh session of `user`, expiring a fixed lifetime
    /// after `now_timestamp` (seconds since the epoch).
    pub fn from_user(user: &User, now_timestamp: i64) -> (r: Claims)
        requires
            0 <= now_timestamp,
            now_timestamp + TOKEN_LIFETIME_SECONDS <= usize::MAX as int,
            now_timestamp + TOKEN_LIFETIME_SECONDS <= i64::MAX as int,
        ensures
            r.sub == user.id,
            r.username == user.username,
            r.is_admin == user.is_admin,
            r.exp == now_timestamp + TOKEN_LIFETIME_SECONDS,
    {
        Claims {
            sub: user.id,
            username: user.username.clone(),
            is_admin: user.is_admin,
            exp: (now_timestamp + TOKEN_LIFETIME_SECONDS) as usize,
        }
    }

    /// Signs the claims into a session token with the host's secret; HMAC
    /// signing always succeeds.
    pub fn into_token(&self, secret: &str) -> (r: Result<String, TokenError>)
        ensures
            r is Ok,
            r matches Ok(t) ==> t@ == token_of(
                self.sub as int,
                self.username@,
                self.is_admin,
                self.exp as int,
                secret@,
            ),
    {
        encode_claims(self, secret)
    }

    /// Reads the claims out of a session token, provided the token's
    /// signature matches the secret, it has not expired, and it carries all
    /// four fields.  Whether a token is accepted depends on the clock as
    /// well as the secret, so no contract is stated; the field extraction
    /// below is still verified against the payload names.
    pub fn from_token(secret: &str, token: &str) -> (r: Result<Claims, TokenError>) {
        let payload = match decode_claims_value(secret, token) {
            Ok(v) => v,
            Err(e) => {
                return Err(e);
            },
        };
        let sub = match json_member(&payload, "sub") {
            Some(m) => match m.as_i64() {
                Some(n) => n,
                None => {
                    return Err(TokenError);
                },
            },
            None => {
                return Err(TokenError);
            },
        };
        let username = match json_member(&payload, "username") {
            Some(m) => match m.as_str() {
                Some(s) => s.to_owned(),
                None => {
                    return Err(TokenError);
                },
            },
            None => {
                return Err(TokenError);
            },
        };
        let is_admin = match json_member(&payload, "is_admin") {
            Some(m) => match m.as_bool() {
                Some(b) => b,
                None => {
                    return Err(TokenError);
                },
            },
            None => {
                return Err(TokenError);
            },
        };
        let exp_signed = match json_member(&payload, "exp") {
            Some(m) => match m.as_i64() {
                Some(n) => n,
                None => {
                    return Err(TokenError);
                },
            },
            None => {
                return Err(TokenError);
            },
        };
        if exp_signed < 0 {
            return Err(TokenError);
        }
        if exp_signed as u64 > usize::MAX as u64 {
            return Err(TokenError);
        }
        Ok(Claims { sub, username, is_admin, exp: exp_signed as usize })
    }
}

} // verus!
