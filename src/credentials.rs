use vstd::prelude::*;
use crate::error::AppError;

verus! {

/// The claim set of a credential: who it speaks for and until when (Unix seconds).
#[derive(Debug, Clone)]
pub struct Claims {
    pub sub: String,
    pub exp: i64,
}

/// How long an issued credential stays valid, in seconds: seven days.
pub const TOKEN_LIFETIME: i64 = 60 * 60 * 24 * 7;

/// The token text that jsonwebtoken produces for the claims `{sub, exp}`
/// under the default HS256 header, keyed with the bytes of `secret`.
pub uninterp spec fn signed_token(sub: Seq<char>, exp: int, secret: Seq<char>) -> Seq<char>;

/// What jsonwebtoken reads out of `token` when it checks the HS256 signature
/// against the bytes of `secret`: nothing when the token is malformed, the
/// signature does not hold, or the `exp` claim is missing or not a
/// non-negative number; else the `sub` claim if it is a string and the `exp`
/// claim if it is an integer. The expiry is not compared with any clock.
pub uninterp spec fn token_claims(token: Seq<char>, secret: Seq<char>) -> Option<
    (Option<Seq<char>>, Option<int>),
>;

pub open spec fn decoded_view(d: Option<(Option<String>, Option<i64>)>) -> Option<
    (Option<Seq<char>>, Option<int>),
> {
    match d {
        None => None,
        Some((s, e)) => Some(
            (
                match s {
                    Some(t) => Some(t@),
                    None => None,
                },
                match e {
                    Some(x) => Some(x as int),
                    None => None,
                },
            ),
        ),
    }
}

/// The subject and expiry a decoded token yields, when it has both.
pub open spec fn claims_view(decoded: Option<(Option<Seq<char>>, Option<int>)>) -> Option<
    (Seq<char>, int),
> {
    match decoded {
        Some((Some(s), Some(e))) => Some((s, e)),
        _ => None,
    }
}

/// Relies on jsonwebtoken::encode (default HS256 header, HMAC key from the
/// secret's bytes) to sign the claims `{sub, exp}`. With an HMAC key and a
/// JSON object of a string and an integer it does not fail, and
/// jsonwebtoken::decode under the same secret reads the claims back when
/// `exp` is not negative.
#[verifier::external_body]
fn encode_claims(sub: &str, exp: i64, secret: &str) -> (r: Option<String>)
    ensures
        r is Some,
        r->Some_0@ == signed_token(sub@, exp as int, secret@),
        exp >= 0 ==> token_claims(r->Some_0@, secret@) == Some(
            (Some(sub@), Some(exp as int)),
        ),
{
    let mut claims = serde_json::Map::new();
    claims.insert("sub".to_string(), serde_json::Value::from(sub));
    claims.insert("exp".to_string(), serde_json::Value::from(exp));
    let key = jsonwebtoken::EncodingKey::from_secret(secret.as_bytes());
    jsonwebtoken::encode(&jsonwebtoken::Header::default(), &claims, &key).ok()
}

/// Relies on jsonwebtoken::decode (HS256 only, expiry not checked) to check the
/// signature of `token` and read its `sub` and `exp` claims.
#[verifier::external_body]
fn decode_claims(token: &str, secret: &str) -> (r: Option<(Option<String>, Option<i64>)>)
    ensures
        decoded_view(r) == token_claims(token@, secret@),
{
    let mut validation = jsonwebtoken::Validation::new(jsonwebtoken::Algorithm::HS256);
    validation.validate_exp = false;
    let key = jsonwebtoken::DecodingKey::from_secret(secret.as_bytes());
    let data = jsonwebtoken::decode::<serde_json::Map<String, serde_json::Value>>(
        token,
        &key,
        &validation,
    ).ok()?;
    let sub = data.claims.get("sub").and_then(serde_json::Value::as_str).map(str::to_string);
    let exp = data.claims.get("exp").and_then(serde_json::Value::as_i64);
    Some((sub, exp))
}

/// Issues a credential for `id` that expires `TOKEN_LIFETIME` seconds after
/// `now`; validated under the same secret it yields that subject and expiry.
pub fn generate_token(id: String, secret: &str, now: i64) -> (r: Result<String, AppError>)
    requires
        now <= i64::MAX - TOKEN_LIFETIME,
    ensures
        r is Ok,
        r->Ok_0@ == signed_token(id@, now + TOKEN_LIFETIME, secret@),
        now + TOKEN_LIFETIME >= 0 ==> token_claims(r->Ok_0@, secret@) == Some(
            (Some(id@), Some(now + TOKEN_LIFETIME)),
        ),
{
    match encode_claims(id.as_str(), now + TOKEN_LIFETIME, secret) {
        Some(token) => Ok(token),
        None => Err(AppError::InternalServerError),
    }
}

/// Turns what was read out of a token into its claims: both a subject and an
/// expiry are needed, else the credential is rejected.
pub fn claims_from(decoded: Option<(Option<String>, Option<i64>)>) -> (r: Result<Claims, AppError>)
    ensures
        match claims_view(decoded_view(decoded)) {
            Some((s, e)) => r is Ok && r->Ok_0.sub@ == s && r->Ok_0.exp == e,
            None => r == Err::<Claims, AppError>(AppError::NotAuthorized),
        },
{
    match decoded {
        Some((Some(sub), Some(exp))) => Ok(Claims { sub, exp }),
        _ => Err(AppError::NotAuthorized),
    }
}

/// Checks the signature and shape of `token` and returns its claims. Expiry
/// is left to the caller: an expired but well-signed token is returned too.
pub fn validate_token(token: &str, secret: &str) -> (r: Result<Claims, AppError>)
    ensures
        match claims_view(token_claims(token@, secret@)) {
            Some((s, e)) => r is Ok && r->Ok_0.sub@ == s && r->Ok_0.exp == e,
            None => r == Err::<Claims, AppError>(AppError::NotAuthorized),
        },
{
    claims_from(decode_claims(token, secret))
}

} // verus!
