use vstd::prelude::*;
use crate::credentials::{generate_token, signed_token, token_claims, TOKEN_LIFETIME};
use crate::error::AppError;
use crate::user::User;

verus! {

/// Why a registration fails, if it does: an address already registered is a
/// conflict; a password that could not be hashed is an internal error.
pub open spec fn registration_error(taken: bool, hashed: bool) -> Option<AppError> {
    if taken {
        Some(AppError::Conflict)
    } else if !hashed {
        Some(AppError::InternalServerError)
    } else {
        None
    }
}

/// The registered addresses after an attempt to register `email` when the
/// password hashing did (`hashed`) or did not succeed.
pub open spec fn registered_after(ids: Set<Seq<char>>, email: Seq<char>, hashed: bool) -> Set<
    Seq<char>,
> {
    if registration_error(ids.contains(email), hashed) is None {
        ids.insert(email)
    } else {
        ids
    }
}

/// Decides a registration. `taken` says whether an account with this address
/// exists already; `password_hash` is the stored form of the password, when
/// hashing it succeeded. On success the new account is returned, to be stored.
pub fn register(email: String, username: String, password_hash: Option<String>, taken: bool, now: i64) -> (r:
    Result<User, AppError>)
    ensures
        match registration_error(taken, password_hash is Some) {
            Some(e) => r == Err::<User, AppError>(e),
            None => r is Ok && r->Ok_0.id@ == email@ && r->Ok_0.username@ == username@
                && r->Ok_0.password_hash@ == password_hash->Some_0@ && r->Ok_0.rated@.len() == 0
                && r->Ok_0.summary@.len() == 0 && r->Ok_0.register_date == now
                && r->Ok_0.last_upload == now,
        },
{
    if taken {
        return Err(AppError::Conflict);
    }
    match password_hash {
        None => Err(AppError::InternalServerError),
        Some(hash) => Ok(User::new(email, username, hash, now)),
    }
}

/// Registering the same address twice: once the first attempt has stored an
/// account, the second finds the address taken and ends in a conflict, and
/// the set of registered addresses holds the address once, unchanged by the
/// second attempt.
pub proof fn lemma_second_registration_conflicts(
    ids: Set<Seq<char>>,
    email: Seq<char>,
    first_hashed: bool,
    second_hashed: bool,
)
    requires
        registration_error(ids.contains(email), first_hashed) is None,
    ensures
        ({
            let after_first = registered_after(ids, email, first_hashed);
            &&& after_first.contains(email)
            &&& registration_error(after_first.contains(email), second_hashed) == Some(
                AppError::Conflict,
            )
            &&& registered_after(after_first, email, second_hashed) == after_first
            &&& after_first == ids.insert(email)
        }),
{
}

/// Decides a sign-in once the password has been checked against the stored
/// hash: a match yields a fresh credential for `user_id`, a mismatch is
/// refused.
pub fn sign_in(user_id: String, password_matches: bool, secret: &str, now: i64) -> (r: Result<
    String,
    AppError,
>)
    requires
        now <= i64::MAX - TOKEN_LIFETIME,
    ensures
        !password_matches ==> r == Err::<String, AppError>(AppError::NotAuthorized),
        password_matches ==> r is Ok && r->Ok_0@ == signed_token(
            user_id@,
            now + TOKEN_LIFETIME,
            secret@,
        ),
        password_matches && now + TOKEN_LIFETIME >= 0 ==> token_claims(r->Ok_0@, secret@)
            == Some((Some(user_id@), Some(now + TOKEN_LIFETIME))),
{
    if !password_matches {
        return Err(AppError::NotAuthorized);
    }
    generate_token(user_id, secret, now)
}

} // verus!
