//! Checking an address and a password against the store.
//!
//! An unknown address and a wrong password are answered alike, so that an
//! answer does not tell whether an account exists.
use vstd::prelude::*;
use crate::db::models::{User, UserView};
use crate::db::repository::UserRepository;
use crate::errors::{AuthError, UserDBError};
use crate::utils::{hash, hash_accepts, verify_hash};

verus! {

/// How a login is answered.
pub type Answer = Result<User, AuthError>;

/// What a login is answered with, given what the store returned for the
/// address: the user, where one was found and `password` is the password of
/// its digest; the one login error in every other case.
pub open spec fn login_verdict(found: Result<User, UserDBError>, password: Seq<char>) -> Answer {
    match found {
        Ok(user) => if hash_accepts(password, user@.password) {
            Ok(user)
        } else {
            Err(AuthError::LoginError)
        },
        Err(_) => Err(AuthError::LoginError),
    }
}

/// What a login with `email` and `password` may be answered with, before
/// a store that holds `users`.
///
/// A user that is let in is the user that the store holds under the
/// address, and `password` is the password of its digest. Every other
/// answer is the one login error. A store that never fails turns no one
/// away whom it could let in.
pub open spec fn login_answered(
    email: Seq<char>,
    password: Seq<char>,
    users: Map<Seq<char>, UserView>,
    never_fails: bool,
    answer: Answer,
) -> bool {
    let accepted = users.contains_key(email) && hash_accepts(password, users[email].password);
    match answer {
        Ok(user) => accepted && user@ == users[email],
        Err(e) => e == AuthError::LoginError && !(never_fails && accepted),
    }
}

/// An unknown address and a wrong password are answered alike, with the
/// login error, whatever the store does; and a store that never fails lets
/// a known user in with the right password, as the user that it holds.
pub proof fn lemma_login_answers(
    email: Seq<char>,
    password: Seq<char>,
    users: Map<Seq<char>, UserView>,
    never_fails: bool,
    answer: Answer,
)
    requires
        login_answered(email, password, users, never_fails, answer),
    ensures
        !users.contains_key(email) ==> answer == Answer::Err(AuthError::LoginError),
        users.contains_key(email) && !hash_accepts(password, users[email].password) ==> answer
            == Answer::Err(AuthError::LoginError),
        never_fails && users.contains_key(email) && hash_accepts(password, users[email].password)
            ==> (answer matches Ok(user) && user@ == users[email]),
{
}

/// Answers a login, given what the store returned for the address.
///
/// Where no user was found, the password is hashed all the same and the
/// digest thrown away, so that the answer takes as long as that to a wrong
/// password.
pub fn authenticate(found: Result<User, UserDBError>, password: &str) -> (answer: Answer)
    ensures
        answer == login_verdict(found, password@),
{
    match found {
        Err(_) => {
            let _ = hash(password);
            Err(AuthError::LoginError)
        },
        Ok(user) => {
            let digest = user.get_password();
            if verify_hash(password, digest.as_str()) {
                Ok(user)
            } else {
                Err(AuthError::LoginError)
            }
        },
    }
}

/// Logs a user in: fetches the user kept under `email` and checks `password`
/// against its digest. The store is not changed.
///
/// The answer to an unknown address and to a wrong password is the same
/// error. A store that may fail may make any login fail; with one that
/// never fails, the right password of a known user logs that user in.
pub fn login<R: UserRepository + ?Sized>(
    email: &str,
    password: &str,
    repository: &R,
) -> (answer: Answer)
    ensures
        login_answered(
            email@,
            password@,
            repository.users(),
            repository.never_fails(),
            answer,
        ),
{
    let found = repository.get_user(email);
    authenticate(found, password)
}

} // verus!
