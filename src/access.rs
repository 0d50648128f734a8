use vstd::prelude::*;
use crate::credentials::{Claims, claims_view, token_claims, validate_token};
use crate::error::AppError;

verus! {

/// The `Authorization` header of a request as the transport found it.
#[derive(Debug, Clone)]
pub enum AuthHeader {
    /// No such header.
    Missing,
    /// Present, but not readable as text.
    Unreadable,
    /// Present, with this text.
    Text(String),
}

/// Why a request was turned away.
#[derive(Debug, Clone, Copy, PartialEq, Eq, Structural)]
pub enum AuthRejection {
    MissingCredential,
    MalformedCredential,
    InvalidCredential,
    ExpiredCredential,
}

pub open spec fn bearer_prefix() -> Seq<char> {
    seq!['B', 'e', 'a', 'r', 'e', 'r', ' ']
}

/// The token a header carries, when it has the bearer scheme.
pub open spec fn bearer_token(h: Seq<char>) -> Option<Seq<char>> {
    if h.len() >= 7 && h.subrange(0, 7) == bearer_prefix() {
        Some(h.subrange(7, h.len() as int))
    } else {
        None
    }
}

/// The token a request presents: the header must be there, be readable and
/// use the bearer scheme. No secret is involved in this step.
pub open spec fn presented(header: AuthHeader) -> Result<Seq<char>, AuthRejection> {
    match header {
        AuthHeader::Missing => Err(AuthRejection::MissingCredential),
        AuthHeader::Unreadable => Err(AuthRejection::MalformedCredential),
        AuthHeader::Text(h) => match bearer_token(h@) {
            None => Err(AuthRejection::MalformedCredential),
            Some(t) => Ok(t),
        },
    }
}

/// Whether a presented token is admitted at `now`: it must be signed with
/// `secret`, carry a subject and an expiry, and the expiry must not have passed.
pub open spec fn admitted(token: Seq<char>, secret: Seq<char>, now: int) -> Result<
    (Seq<char>, int),
    AuthRejection,
> {
    match claims_view(token_claims(token, secret)) {
        None => Err(AuthRejection::InvalidCredential),
        Some((s, e)) => if e < now {
            Err(AuthRejection::ExpiredCredential)
        } else {
            Ok((s, e))
        },
    }
}

/// Outcome of authentication for a header, a signing secret and the current time.
pub open spec fn access_outcome(header: AuthHeader, secret: Seq<char>, now: int) -> Result<
    (Seq<char>, int),
    AuthRejection,
> {
    match presented(header) {
        Err(why) => Err(why),
        Ok(t) => admitted(t, secret, now),
    }
}

pub open spec fn rejection_error(r: AuthRejection) -> AppError {
    match r {
        AuthRejection::MissingCredential => AppError::BadRequest,
        AuthRejection::MalformedCredential => AppError::BadRequest,
        AuthRejection::InvalidCredential => AppError::NotAuthorized,
        AuthRejection::ExpiredCredential => AppError::NotAuthorized,
    }
}

impl AuthRejection {
    /// The client-visible error kind: a missing or malformed credential is a
    /// bad request; one that is present but rejected is not authorized.
    pub fn to_app_error(&self) -> (r: AppError)
        ensures
            r == rejection_error(*self),
    {
        match self {
            AuthRejection::MissingCredential => AppError::BadRequest,
            AuthRejection::MalformedCredential => AppError::BadRequest,
            AuthRejection::InvalidCredential => AppError::NotAuthorized,
            AuthRejection::ExpiredCredential => AppError::NotAuthorized,
        }
    }
}

/// The token after the `Bearer ` scheme word, if the header text has it.
pub fn bearer_token_of(header: &str) -> (r: Option<&str>)
    ensures
        match bearer_token(header@) {
            Some(t) => r is Some && r->Some_0@ == t,
            None => r is None,
        },
{
    let n = header.unicode_len();
    if n < 7 {
        return None;
    }
    let prefix: [char; 7] = ['B', 'e', 'a', 'r', 'e', 'r', ' '];
    let mut i: usize = 0;
    while i < 7
        invariant
            n == header@.len(),
            7 <= n,
            i <= 7,
            forall|k: int| 0 <= k < 7 ==> prefix@[k] == bearer_prefix()[k],
            forall|k: int| 0 <= k < i ==> header@[k] == bearer_prefix()[k],
        decreases 7 - i,
    {
        if header.get_char(i) != prefix[i] {
            assert(header@.subrange(0, 7)[i as int] != bearer_prefix()[i as int]);
            return None;
        }
        i = i + 1;
    }
    assert(header@.subrange(0, 7) =~= bearer_prefix());
    Some(header.substring_char(7, n))
}

/// Admits claims whose expiry has not passed at `now`.
pub fn check_expiry(claims: Claims, now: i64) -> (r: Result<Claims, AuthRejection>)
    ensures
        claims.exp < now ==> r == Err::<Claims, AuthRejection>(AuthRejection::ExpiredCredential),
        claims.exp >= now ==> r is Ok && r->Ok_0.sub@ == claims.sub@ && r->Ok_0.exp == claims.exp,
{
    if claims.exp < now {
        Err(AuthRejection::ExpiredCredential)
    } else {
        Ok(claims)
    }
}

/// Steps one and two of authentication: the token the header presents, or
/// why there is none.
pub fn presented_token(header: &AuthHeader) -> (r: Result<String, AuthRejection>)
    ensures
        match presented(*header) {
            Ok(t) => r is Ok && r->Ok_0@ == t,
            Err(why) => r == Err::<String, AuthRejection>(why),
        },
{
    match header {
        AuthHeader::Missing => Err(AuthRejection::MissingCredential),
        AuthHeader::Unreadable => Err(AuthRejection::MalformedCredential),
        AuthHeader::Text(h) => match bearer_token_of(h.as_str()) {
            None => Err(AuthRejection::MalformedCredential),
            Some(token) => Ok(token.to_owned()),
        },
    }
}

/// Steps three and four: validates a presented token against `secret` and
/// admits it if its expiry has not passed at `now`.
pub fn accept_token(token: &str, secret: &str, now: i64) -> (r: Result<Claims, AuthRejection>)
    ensures
        match admitted(token@, secret@, now as int) {
            Ok((s, e)) => r is Ok && r->Ok_0.sub@ == s && r->Ok_0.exp == e,
            Err(why) => r == Err::<Claims, AuthRejection>(why),
        },
{
    match validate_token(token, secret) {
        Err(_) => Err(AuthRejection::InvalidCredential),
        Ok(claims) => check_expiry(claims, now),
    }
}

/// Authenticates one request: the header must be present, use the bearer
/// scheme, carry a token signed with `secret`, and not be expired at `now`.
/// On success the claims are returned for the handlers downstream.
pub fn authorize(header: &AuthHeader, secret: &str, now: i64) -> (r: Result<Claims, AuthRejection>)
    ensures
        match access_outcome(*header, secret@, now as int) {
            Ok((s, e)) => r is Ok && r->Ok_0.sub@ == s && r->Ok_0.exp == e,
            Err(why) => r == Err::<Claims, AuthRejection>(why),
        },
{
    match presented_token(header) {
        Err(why) => Err(why),
        Ok(token) => accept_token(token.as_str(), secret, now),
    }
}

/// A header that is missing, unreadable or not of the bearer scheme is
/// rejected by the first steps alone: the outcome is the same whatever the
/// secret and the time, so no token is ever validated for it.
pub proof fn lemma_rejected_before_validation(
    header: AuthHeader,
    secret: Seq<char>,
    other_secret: Seq<char>,
    now: int,
    other_now: int,
)
    requires
        presented(header) is Err,
    ensures
        access_outcome(header, secret, now) == Err::<(Seq<char>, int), AuthRejection>(
            presented(header)->Err_0,
        ),
        access_outcome(header, secret, now) == access_outcome(header, other_secret, other_now),
        header matches AuthHeader::Text(h) ==> access_outcome(header, secret, now) == Err::<
            (Seq<char>, int),
            AuthRejection,
        >(AuthRejection::MalformedCredential),
{
}

/// A token whose signature holds under `secret` and that carries subject
/// `sub` and expiry `exp`, presented as `Bearer <token>`, is admitted with
/// that subject up to and at its expiry, and rejected as expired after it.
pub proof fn lemma_signed_token_admitted_until_expiry(
    header: AuthHeader,
    token: Seq<char>,
    sub: Seq<char>,
    exp: int,
    secret: Seq<char>,
    now: int,
)
    requires
        header matches AuthHeader::Text(h) && h@ == bearer_prefix() + token,
        token_claims(token, secret) == Some((Some(sub), Some(exp))),
    ensures
        now <= exp ==> access_outcome(header, secret, now) == Ok::<
            (Seq<char>, int),
            AuthRejection,
        >((sub, exp)),
        now > exp ==> access_outcome(header, secret, now) == Err::<
            (Seq<char>, int),
            AuthRejection,
        >(AuthRejection::ExpiredCredential),
{
    let h = header->Text_0@;
    assert(h.subrange(0, 7) =~= bearer_prefix());
    assert(h.subrange(7, h.len() as int) =~= token);
}

} // verus!
