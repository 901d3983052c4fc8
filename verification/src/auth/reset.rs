//! Resetting a password: issuing a token, delivering it, checking it, and
//! storing the new password.
//!
//! A token is valid for [`CODE_VALIDITY_MIN`] minutes. Checking a token does
//! not use it up, and neither does changing the password: a token stays
//! valid until it expires or another is issued.
//!
//! Every failure that is not an expired or a mismatching token is the one
//! reset error, whether the address is unknown or the store failed.
use vstd::prelude::*;
use crate::clock::{elapsed_minutes, Timestamp, NANOS_PER_MINUTE};
use crate::db::models::{PendingResetView, User, UserView};
use crate::db::repository::UserRepository;
use crate::errors::{AuthError, UserDBError};
use crate::utils::{gen_token, hash, hash_accepts, hashable, is_letter_or_digit, TOKEN_LEN};

verus! {

/// For how many minutes a reset token is valid.
pub const CODE_VALIDITY_MIN: i64 = 15;

/// How a reset operation ends.
pub type Outcome = Result<(), AuthError>;

/// What the check of `token` at the time `now` gives for a user whose
/// pending reset is `reset`.
///
/// The age of the pending token counts in whole minutes; a token is expired
/// once more than [`CODE_VALIDITY_MIN`] of them have passed, whatever was
/// typed. A token that has not expired must be the one that was issued,
/// character for character.
pub open spec fn token_verdict(
    reset: Option<PendingResetView>,
    token: Seq<char>,
    now: Timestamp,
) -> Outcome {
    match reset {
        None => Err(AuthError::ResetError),
        Some(pending) => if elapsed_minutes(pending.created_at, now) > CODE_VALIDITY_MIN {
            Err(AuthError::ExpiredToken)
        } else if pending.token != token {
            Err(AuthError::TokenMismatch)
        } else {
            Ok(())
        },
    }
}

/// Whether `after` is `before` with a fresh reset token attached: one of
/// [`TOKEN_LEN`] letters and digits.
pub open spec fn token_issued(before: UserView, after: UserView) -> bool {
    &&& after.reset matches Some(pending)
    &&& pending.token.len() == TOKEN_LEN
    &&& forall|i: int|
        0 <= i < pending.token.len() ==> is_letter_or_digit(#[trigger] pending.token[i])
    &&& after == before.with_reset(pending.token, pending.created_at)
}

/// Whether `after` is `before` with a digest of `password` in place of the
/// old digest.
pub open spec fn password_changed(before: UserView, after: UserView, password: Seq<char>) -> bool {
    &&& hash_accepts(password, after.password)
    &&& after == before.with_password(after.password)
}

/// How storing the reset token `token`, issued at `created_at`, for the
/// user kept under `email` may end, and what a store that held `before`
/// may hold after it.
///
/// On success the user kept under `email` has the token and its time of
/// issue in place of any earlier ones, and nothing else has changed. On
/// failure, which is the one reset error, the store holds what it held. A
/// store that never fails fails for an unknown address only.
pub open spec fn token_stored(
    email: Seq<char>,
    token: Seq<char>,
    created_at: Timestamp,
    before: Map<Seq<char>, UserView>,
    after: Map<Seq<char>, UserView>,
    never_fails: bool,
    done: Outcome,
) -> bool {
    let known = before.contains_key(email);
    match done {
        Ok(_) => {
            &&& known
            &&& after == before.insert(email, before[email].with_reset(token, created_at))
        },
        Err(e) => e == AuthError::ResetError && after == before && !(never_fails && known),
    }
}

/// How issuing a reset token for the user kept under `email` may end, and
/// what a store that held `before` may hold after it.
///
/// On success the user kept under `email` has a fresh token in place of
/// any earlier one, and nothing else has changed. On failure, which is the
/// one reset error, the store holds what it held. A store that never fails
/// fails for an unknown address only.
pub open spec fn token_generated(
    email: Seq<char>,
    before: Map<Seq<char>, UserView>,
    after: Map<Seq<char>, UserView>,
    never_fails: bool,
    done: Outcome,
) -> bool {
    let known = before.contains_key(email);
    match done {
        Ok(_) => {
            &&& known
            &&& after == before.insert(email, after[email])
            &&& token_issued(before[email], after[email])
        },
        Err(e) => e == AuthError::ResetError && after == before && !(never_fails && known),
    }
}

/// How replacing the password of the user kept under `email` by `password`
/// may end, and what a store that held `before` may hold after it.
///
/// On success the user kept under `email` has a digest of `password` in
/// place of the old digest, and nothing else has changed: a pending reset
/// token stays. On failure, which is the one reset error, the store holds
/// what it held. A store that never fails fails only for an unknown
/// address and for a password that cannot be hashed.
pub open spec fn password_stored(
    email: Seq<char>,
    password: Seq<char>,
    before: Map<Seq<char>, UserView>,
    after: Map<Seq<char>, UserView>,
    never_fails: bool,
    done: Outcome,
) -> bool {
    let known = before.contains_key(email);
    match done {
        Ok(_) => {
            &&& known
            &&& after == before.insert(email, after[email])
            &&& password_changed(before[email], after[email], password)
        },
        Err(e) => {
            &&& e == AuthError::ResetError
            &&& after == before
            &&& !(never_fails && known && hashable(password))
        },
    }
}

/// What the check of `token` at the time `now` may give for the address
/// `email`, before a store that holds `users`: the verdict of
/// [`token_verdict`] on the pending reset of the user kept under `email`;
/// the reset error for an unknown address; and the reset error too where
/// the store fails, as one that never fails does not.
pub open spec fn token_checked_at(
    email: Seq<char>,
    token: Seq<char>,
    now: Timestamp,
    users: Map<Seq<char>, UserView>,
    never_fails: bool,
    verdict: Outcome,
) -> bool {
    if users.contains_key(email) {
        ||| verdict == token_verdict(users[email].reset, token, now)
        ||| verdict == Outcome::Err(AuthError::ResetError) && !never_fails
    } else {
        verdict == Outcome::Err(AuthError::ResetError)
    }
}

/// What the check of `token` may give for the address `email`, before a
/// store that holds `users`: what it may give at some time.
pub open spec fn token_checked(
    email: Seq<char>,
    token: Seq<char>,
    users: Map<Seq<char>, UserView>,
    never_fails: bool,
    verdict: Outcome,
) -> bool {
    exists|now: Timestamp| token_checked_at(email, token, now, users, never_fails, verdict)
}

/// What readying the reset token of the user kept under `email` for
/// delivery may give, before a store that holds `users`: the pending token
/// of that user, addressed to `email`; else the one reset error, which a
/// store that never fails gives only for an unknown address and for a user
/// without a pending token.
pub open spec fn token_sent(
    email: Seq<char>,
    users: Map<Seq<char>, UserView>,
    never_fails: bool,
    mail: Result<ResetMail, AuthError>,
) -> bool {
    let known = users.contains_key(email);
    match mail {
        Ok(mail) => {
            &&& known
            &&& users[email].reset matches Some(pending)
            &&& mail.to@ == email
            &&& mail.token@ == pending.token
        },
        Err(e) => {
            &&& e == AuthError::ResetError
            &&& !(never_fails && known && users[email].reset is Some)
        },
    }
}

/// The message that delivers the reset token `token` to `email`.
pub open spec fn reset_message(email: Seq<char>, token: Seq<char>) -> Seq<char> {
    "\nfrom: lab02.auth@heig-vd.lo\nto: "@ + email
        + "\nsubject: Lab 02 - Auth Reset token\nmessage:\nHere is your reset token: "@ + token
        + "\nKind regards\n\n"@
}

/// The check of a token tells its cases apart as follows: no pending token
/// is a reset error; a pending token older than the validity is expired,
/// whatever was typed; a younger one gives a mismatch for any other token
/// and success for itself.
pub proof fn lemma_token_verdict_cases(
    reset: Option<PendingResetView>,
    token: Seq<char>,
    now: Timestamp,
)
    ensures
        reset is None ==> token_verdict(reset, token, now) == Outcome::Err(AuthError::ResetError),
        reset matches Some(pending) ==> {
            let age = elapsed_minutes(pending.created_at, now);
            let verdict = token_verdict(reset, token, now);
            &&& age > CODE_VALIDITY_MIN ==> verdict == Outcome::Err(AuthError::ExpiredToken)
            &&& age <= CODE_VALIDITY_MIN && token != pending.token ==> verdict == Outcome::Err(
                AuthError::TokenMismatch,
            )
            &&& age <= CODE_VALIDITY_MIN && token == pending.token ==> verdict == Outcome::Ok(())
        },
{
}

/// A token is not expired until one minute more than its validity has
/// passed since its issue, to the nanosecond, and is expired from then on.
pub proof fn lemma_expiry_instant(created_at: Timestamp, now: Timestamp)
    ensures
        elapsed_minutes(created_at, now) > CODE_VALIDITY_MIN <==> now.instant()
            - created_at.instant() >= (CODE_VALIDITY_MIN + 1) * NANOS_PER_MINUTE,
{
}

/// Whatever the time and the store: a check that succeeds was given the
/// pending token of a known user, a mismatch was given another, an expired
/// token was pending, and an unknown address and a user without a pending
/// token get the reset error.
pub proof fn lemma_token_checked(
    email: Seq<char>,
    token: Seq<char>,
    users: Map<Seq<char>, UserView>,
    never_fails: bool,
    verdict: Outcome,
)
    requires
        token_checked(email, token, users, never_fails, verdict),
    ensures
        verdict is Ok ==> users.contains_key(email) && (users[email].reset matches Some(pending)
            && pending.token == token),
        verdict == Outcome::Err(AuthError::TokenMismatch) ==> users.contains_key(email) && (
        users[email].reset matches Some(pending) && pending.token != token),
        verdict == Outcome::Err(AuthError::ExpiredToken) ==> users.contains_key(email)
            && users[email].reset is Some,
        !users.contains_key(email) || users[email].reset is None ==> verdict == Outcome::Err(
            AuthError::ResetError,
        ),
        verdict matches Err(e) ==> e == AuthError::ResetError || e == AuthError::ExpiredToken || e
            == AuthError::TokenMismatch,
{
}

/// Issuing a token for an unknown address fails with the reset error and
/// leaves the store as it was, whatever the store does.
pub proof fn lemma_unknown_address_gets_no_token(
    email: Seq<char>,
    before: Map<Seq<char>, UserView>,
    after: Map<Seq<char>, UserView>,
    never_fails: bool,
    done: Outcome,
)
    requires
        token_generated(email, before, after, never_fails, done),
        !before.contains_key(email),
    ensures
        done == Outcome::Err(AuthError::ResetError),
        after == before,
{
}

/// With a store that never fails, issuing a token for a known address
/// succeeds, and the user that the store then hands out for the address
/// carries a token of [`TOKEN_LEN`] characters and the time of its issue,
/// and is otherwise the user that the store held before.
pub proof fn lemma_issued_token_is_found(
    email: Seq<char>,
    before: Map<Seq<char>, UserView>,
    after: Map<Seq<char>, UserView>,
    done: Outcome,
)
    requires
        token_generated(email, before, after, true, done),
        before.contains_key(email),
    ensures
        done is Ok,
        after.contains_key(email),
        after[email].reset matches Some(pending) && pending.token.len() == TOKEN_LEN
            && pending.token.len() > 0,
        after[email].email == before[email].email,
        after[email].password == before[email].password,
        after[email].secret_2fa == before[email].secret_2fa,
{
}

/// Once a password was changed, the digest that the store holds for the
/// user is one of the new password, and whatever else the store held of
/// the user, a pending reset token too, is as it was.
pub proof fn lemma_changed_password_is_accepted(
    email: Seq<char>,
    password: Seq<char>,
    before: Map<Seq<char>, UserView>,
    after: Map<Seq<char>, UserView>,
    never_fails: bool,
)
    requires
        password_stored(email, password, before, after, never_fails, Ok(())),
    ensures
        after.contains_key(email),
        hash_accepts(password, after[email].password),
        after[email].email == before[email].email,
        after[email].reset == before[email].reset,
        after[email].secret_2fa == before[email].secret_2fa,
{
}

/// A reset token on its way to the user it was issued for. Delivering it
/// is left to the caller.
#[derive(Debug, PartialEq, Eq)]
pub struct ResetMail {
    /// The address of the user.
    pub to: String,
    /// The token.
    pub token: String,
}

impl ResetMail {
    /// The message that delivers the token.
    pub fn message(&self) -> (message: String)
        ensures
            message@ == reset_message(self.to@, self.token@),
    {
        let mut message = "\nfrom: lab02.auth@heig-vd.lo\nto: ".to_owned();
        message.append(self.to.as_str());
        message.append(
            "\nsubject: Lab 02 - Auth Reset token\nmessage:\nHere is your reset token: ",
        );
        message.append(self.token.as_str());
        message.append("\nKind regards\n\n");
        message
    }
}

/// Checks `token` at the time `now` against the pending reset of `user`.
pub fn check_user_token(user: &User, token: &str, now: Timestamp) -> (verdict: Outcome)
    ensures
        verdict == token_verdict(user@.reset, token@, now),
{
    match (user.get_reset_token(), user.reset_token_created_at()) {
        (Some(stored), Some(created_at)) => {
            if now.minutes_since(&created_at) > CODE_VALIDITY_MIN {
                Err(AuthError::ExpiredToken)
            } else if stored != token.to_owned() {
                Err(AuthError::TokenMismatch)
            } else {
                Ok(())
            }
        },
        _ => Err(AuthError::ResetError),
    }
}

/// What a reset operation reports for the answer `stored` of the store to
/// an update: success for success, the one reset error for any failure.
pub fn reset_outcome(stored: Result<(), UserDBError>) -> (done: Outcome)
    ensures
        stored is Ok ==> done == Outcome::Ok(()),
        stored is Err ==> done == Outcome::Err(AuthError::ResetError),
{
    match stored {
        Ok(_) => Ok(()),
        Err(_) => Err(AuthError::ResetError),
    }
}

/// Attaches the reset token `token`, issued at `created_at`, to the user
/// kept under `email`, and stores the user: see [`token_stored`].
pub fn store_reset_token<R: UserRepository + ?Sized>(
    email: &str,
    token: &str,
    created_at: Timestamp,
    repository: &mut R,
) -> (done: Outcome)
    ensures
        token_stored(
            email@,
            token@,
            created_at,
            old(repository).users(),
            final(repository).users(),
            old(repository).never_fails(),
            done,
        ),
        final(repository).never_fails() == old(repository).never_fails(),
{
    let mut user = match repository.get_user(email) {
        Ok(user) => user,
        Err(_) => {
            return Err(AuthError::ResetError);
        },
    };
    user.set_reset_token_at(token, created_at);
    let stored = repository.update_user(&user);
    reset_outcome(stored)
}

/// Issues a reset token for the user kept under `email`: see
/// [`token_generated`].
///
/// A fresh token is drawn whether or not the user exists. It is stored,
/// with the time of issue, only where the user was found. An unknown
/// address and a store that fails give the same error, and then the store
/// holds what it held.
pub fn _generate_reset_token<R: UserRepository + ?Sized>(
    email: &str,
    repository: &mut R,
) -> (done: Outcome)
    ensures
        token_generated(
            email@,
            old(repository).users(),
            final(repository).users(),
            old(repository).never_fails(),
            done,
        ),
        final(repository).never_fails() == old(repository).never_fails(),
{
    let token = gen_token();
    let created_at = Timestamp::now();
    store_reset_token(email, token.as_str(), created_at, repository)
}

/// Replaces the password of the user kept under `email` by `new_passwd`,
/// storing a fresh digest of it: see [`password_stored`].
///
/// A pending reset token stays as it is. An unknown address, a password
/// that cannot be hashed and a store that fails give the same error, and
/// then the store holds what it held.
pub fn _change_password<R: UserRepository + ?Sized>(
    email: &str,
    new_passwd: &str,
    repository: &mut R,
) -> (done: Outcome)
    ensures
        password_stored(
            email@,
            new_passwd@,
            old(repository).users(),
            final(repository).users(),
            old(repository).never_fails(),
            done,
        ),
        final(repository).never_fails() == old(repository).never_fails(),
{
    let mut user = match repository.get_user(email) {
        Ok(user) => user,
        Err(_) => {
            return Err(AuthError::ResetError);
        },
    };
    let digest = match hash(new_passwd) {
        Some(digest) => digest,
        None => {
            return Err(AuthError::ResetError);
        },
    };
    user.set_password(digest.as_str());
    let stored = repository.update_user(&user);
    reset_outcome(stored)
}

/// Checks `token` at the time `now` against the pending reset of the user
/// kept under `email`: see [`token_checked_at`]. The store is not changed.
pub fn check_token_at<R: UserRepository + ?Sized>(
    email: &str,
    token: &str,
    now: Timestamp,
    repository: &R,
) -> (verdict: Outcome)
    ensures
        token_checked_at(
            email@,
            token@,
            now,
            repository.users(),
            repository.never_fails(),
            verdict,
        ),
{
    match repository.get_user(email) {
        Ok(user) => check_user_token(&user, token, now),
        Err(_) => Err(AuthError::ResetError),
    }
}

/// Checks `token` now against the pending reset of the user kept under
/// `email`: see [`token_checked`]. The store is not changed: a token that
/// passes stays pending.
///
/// The verdict is a reset error for an unknown address and for a user
/// without a pending token. Success is given only to the token that was
/// issued, and a mismatch only to another.
pub fn _check_token<R: UserRepository + ?Sized>(
    email: &str,
    token: &str,
    repository: &R,
) -> (verdict: Outcome)
    ensures
        token_checked(email@, token@, repository.users(), repository.never_fails(), verdict),
{
    let now = Timestamp::now();
    check_token_at(email, token, now, repository)
}

/// Readies its pending reset token for delivery to the user kept under
/// `email`: see [`token_sent`]. Sending it is left to the caller. The
/// store is not changed.
pub fn _send_reset_token<R: UserRepository + ?Sized>(
    email: &str,
    repository: &R,
) -> (mail: Result<ResetMail, AuthError>)
    ensures
        token_sent(email@, repository.users(), repository.never_fails(), mail),
{
    let user = match repository.get_user(email) {
        Ok(user) => user,
        Err(_) => {
            return Err(AuthError::ResetError);
        },
    };
    match user.get_reset_token() {
        Some(token) => Ok(ResetMail { to: email.to_owned(), token }),
        None => Err(AuthError::ResetError),
    }
}

/// Issues a reset token for the user kept under `email`: see
/// [`token_generated`].
pub fn generate_reset_token<R: UserRepository + ?Sized>(
    email: &str,
    repository: &mut R,
) -> (done: Outcome)
    ensures
        token_generated(
            email@,
            old(repository).users(),
            final(repository).users(),
            old(repository).never_fails(),
            done,
        ),
        final(repository).never_fails() == old(repository).never_fails(),
{
    _generate_reset_token(email, repository)
}

/// Replaces the password of the user kept under `email` by `new_passwd`:
/// see [`password_stored`].
pub fn change_password<R: UserRepository + ?Sized>(
    email: &str,
    new_passwd: &str,
    repository: &mut R,
) -> (done: Outcome)
    ensures
        password_stored(
            email@,
            new_passwd@,
            old(repository).users(),
            final(repository).users(),
            old(repository).never_fails(),
            done,
        ),
        final(repository).never_fails() == old(repository).never_fails(),
{
    _change_password(email, new_passwd, repository)
}

/// Checks `token` now against the pending reset of the user kept under
/// `email`: see [`token_checked`].
pub fn check_token<R: UserRepository + ?Sized>(
    email: &str,
    token: &str,
    repository: &R,
) -> (verdict: Outcome)
    ensures
        token_checked(email@, token@, repository.users(), repository.never_fails(), verdict),
{
    _check_token(email, token, repository)
}

/// Readies its pending reset token for delivery to the user kept under
/// `email`: see [`token_sent`].
pub fn send_reset_token<R: UserRepository + ?Sized>(
    email: &str,
    repository: &R,
) -> (mail: Result<ResetMail, AuthError>)
    ensures
        token_sent(email@, repository.users(), repository.never_fails(), mail),
{
    _send_reset_token(email, repository)
}

} // verus!
