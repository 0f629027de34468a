use jsonwebtoken::{decode, encode, DecodingKey, EncodingKey, Header, Validation};
use serde_json::Value;
use vstd::prelude::*;
use vstd::utf8::encode_utf8;

use crate::error::AppError;
use crate::text::{chars_of, has_prefix};

verus! {

/// How long an access token stays valid, in seconds: seven days.
pub const TOKEN_LIFETIME_SECONDS: i64 = 604800;

/// The claims an access token carries: the user and the expiry time, in
/// seconds since the Unix epoch.
pub struct Claims {
    pub sub: u128,
    pub exp: usize,
}

#[verifier::external_type_specification]
#[verifier::external_body]
pub struct ExJwtError(jsonwebtoken::errors::Error);

/// Seconds of grace after a token's expiry that the default validation of
/// `jsonwebtoken` allows.
pub const TOKEN_LEEWAY_SECONDS: u64 = 60;

/// The token `jsonwebtoken::encode` gives for the claims `sub` (as a UUID)
/// and `exp` under the default HS256 header and this secret.
pub uninterp spec fn signed_token(sub: u128, exp: usize, secret: Seq<u8>) -> Seq<char>;

/// What `jsonwebtoken::decode`, with the default validation except the
/// expiry check, reads from `token` under `secret`: the user its `sub` claim
/// names (a UUID) and its `exp` claim, or nothing when the token does not
/// check out.
pub uninterp spec fn jwt_decoded(token: Seq<char>, secret: Seq<u8>) -> Option<(u128, u64)>;

/// Calls `jsonwebtoken::encode` with the default header (HS256), the claims
/// `{"sub": <sub as a UUID>, "exp": <exp>}` in that order, and a key made from
/// the secret's bytes. HS256 with a secret key and JSON-serializable claims
/// cannot fail. The token is named `signed_token`; decoding it under the same
/// secret gives back its subject and expiry.
#[verifier::external_body]
fn jwt_encode(sub: u128, exp: usize, secret: &str) -> (r: Result<String, jsonwebtoken::errors::Error>)
    ensures
        r is Ok,
        r matches Ok(t) ==> t@ == signed_token(sub, exp, encode_utf8(secret@)),
        r matches Ok(t) ==> jwt_decoded(t@, encode_utf8(secret@)) == Some((sub, exp as u64)),
{
    let mut claims = serde_json::Map::new();
    claims.insert("sub".to_string(), Value::String(uuid::Uuid::from_u128(sub).to_string()));
    claims.insert("exp".to_string(), Value::from(exp));
    encode(&Header::default(), &claims, &EncodingKey::from_secret(secret.as_bytes()))
}

/// Calls `jsonwebtoken::decode` with the default validation (HS256, `exp`
/// required) but without the expiry check, which needs the clock, and a key
/// made from the secret's bytes; then reads the claims as a `sub` UUID and an
/// unsigned `exp`. The outcome is named `jwt_decoded`.
#[verifier::external_body]
fn jwt_decode(token: &str, secret: &str) -> (r: Option<(u128, u64)>)
    ensures
        r == jwt_decoded(token@, encode_utf8(secret@)),
{
    let mut validation = Validation::default();
    validation.validate_exp = false;
    let key = &DecodingKey::from_secret(secret.as_bytes());
    let claims = match decode::<serde_json::Map<String, Value>>(token, key, &validation) {
        Ok(data) => data.claims,
        Err(_) => return None,
    };
    match (claims.get("sub").and_then(Value::as_str), claims.get("exp").and_then(Value::as_u64)) {
        (Some(sub), Some(exp)) => match uuid::Uuid::parse_str(sub) {
            Ok(id) => Some((id.as_u128(), exp)),
            Err(_) => None,
        },
        _ => None,
    }
}

/// Whether a token expiring at `exp` is refused at `now`: its expiry, plus
/// the leeway, lies before `now`.
pub open spec fn token_expired(exp: u64, now: u64) -> bool {
    exp < now - TOKEN_LEEWAY_SECONDS
}

/// The user that `token` authenticates at `now` under `secret`: the subject
/// of a token that checks out and has not expired.
pub open spec fn token_user(token: Seq<char>, secret: Seq<u8>, now: u64) -> Option<u128> {
    match jwt_decoded(token, secret) {
        Some((user, exp)) => if token_expired(exp, now) {
            None
        } else {
            Some(user)
        },
        None => None,
    }
}

/// The claims of a token issued at `now` (seconds since the Unix epoch) for
/// `user_id`: it expires seven days later.
pub fn token_claims(user_id: u128, now: i64) -> (c: Claims)
    requires
        now + TOKEN_LIFETIME_SECONDS <= i64::MAX,
    ensures
        c.sub == user_id,
        c.exp == (now + TOKEN_LIFETIME_SECONDS) as usize,
{
    let expires: i64 = now + TOKEN_LIFETIME_SECONDS;
    Claims { sub: user_id, exp: expires as usize }
}

/// The access token for `user_id`, issued at `now` and signed with `secret`:
/// it names the user and carries an expiry seven days later.
pub fn token(user_id: u128, now: i64, secret: &str) -> (r: Result<String, AppError>)
    requires
        now + TOKEN_LIFETIME_SECONDS <= i64::MAX,
    ensures
        r matches Ok(t) ==> t@ == signed_token(
            user_id,
            (now + TOKEN_LIFETIME_SECONDS) as usize,
            encode_utf8(secret@),
        ),
        r matches Ok(t) ==> jwt_decoded(t@, encode_utf8(secret@)) == Some(
            (user_id, ((now + TOKEN_LIFETIME_SECONDS) as usize) as u64),
        ),
        r is Ok,
{
    let claims = token_claims(user_id, now);
    match jwt_encode(claims.sub, claims.exp, secret) {
        Ok(signed) => Ok(signed),
        Err(error) => Err(AppError::Internal(error.to_string())),
    }
}

/// The credential that an `Authorization` header carries: what follows
/// `Bearer ` in it. A missing header, or one without that prefix, is
/// unauthorized.
pub fn bearer_credential(header: Option<&str>) -> (r: Result<&str, AppError>)
    ensures
        r is Ok <==> (header matches Some(h) && "Bearer "@.is_prefix_of(h@)),
        r matches Ok(t) ==> (header matches Some(h) && t@ == h@.skip(7)),
        r matches Err(e) ==> e is Unauthorized,
{
    match header {
        None => Err(AppError::Unauthorized),
        Some(value) => {
            if has_prefix(value, "Bearer ") {
                proof {
                    reveal_strlit("Bearer ");
                }
                let length = chars_of(value).len();
                let credential = value.substring_char(7, length);
                assert(credential@ =~= value@.skip(7));
                Ok(credential)
            } else {
                Err(AppError::Unauthorized)
            }
        },
    }
}

/// The user that a request's `Authorization` header names at `now`
/// (seconds since the Unix epoch): the subject of a bearer token that checks
/// out under `secret` and has not expired. Anything else is unauthorized.
pub fn authenticated_user(header: Option<&str>, secret: &str, now: u64) -> (r: Result<
    u128,
    AppError,
>)
    requires
        now >= TOKEN_LEEWAY_SECONDS,
    ensures
        r is Ok <==> (header matches Some(h) && "Bearer "@.is_prefix_of(h@) && token_user(
            h@.skip(7),
            encode_utf8(secret@),
            now,
        ) is Some),
        r matches Ok(u) ==> (header matches Some(h) && token_user(
            h@.skip(7),
            encode_utf8(secret@),
            now,
        ) == Some(u)),
        r matches Err(e) ==> e is Unauthorized,
{
    let bearer = bearer_credential(header)?;
    match jwt_decode(bearer, secret) {
        Some((user_id, expires)) => {
            if expires < now - TOKEN_LEEWAY_SECONDS {
                Err(AppError::Unauthorized)
            } else {
                Ok(user_id)
            }
        },
        None => Err(AppError::Unauthorized),
    }
}

} // verus!
