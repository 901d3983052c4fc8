//! One-time codes: the secret they are derived from, the address that hands
//! the secret to an authenticator app, and the check of a code.
use vstd::prelude::*;
use crate::clock::Timestamp;

verus! {

/// How many characters a secret from [`generate_secret`] has.
pub const SECRET_LEN: u8 = 32;

/// For how many seconds one code is valid.
pub const TIME_STEP: i64 = 30;

/// How many time steps before and after its own a code is still accepted.
pub const TOLERANCE: u64 = 0;

/// The width and the height, in pixels, of the picture of a QR code.
pub const QR_SIZE: u32 = 200;

/// What `GoogleAuthenticator::qr_code_url` returns for a secret, an account
/// name, a title, a width and a height, at the medium level of error
/// correction: the address of a picture of the QR code.
pub uninterp spec fn qr_code_url(
    secret: Seq<char>,
    name: Seq<char>,
    title: Seq<char>,
    width: int,
    height: int,
) -> Seq<char>;

/// What `GoogleAuthenticator::verify_code` returns for a secret, a code, a
/// tolerance and a time step greater than the tolerance: whether the code is
/// the one derived from the secret for that step or for one of the steps
/// within the tolerance before and after it.
pub uninterp spec fn code_accepted(
    secret: Seq<char>,
    code: Seq<char>,
    tolerance: int,
    step: int,
) -> bool;

/// Whether `c` is a digit of base 32: a capital letter or a digit from 2
/// to 7.
pub open spec fn is_base32_digit(c: char) -> bool {
    ('A' <= c <= 'Z') || ('2' <= c <= '7')
}

/// The time step that `at` falls into: the number of whole periods of
/// [`TIME_STEP`] seconds since the Unix epoch.
pub open spec fn time_step(at: Timestamp) -> int {
    (at.secs as int) / (TIME_STEP as int)
}

/// Whether `code` is the code of `secret` at the time `at`. No code is valid
/// before the first time step has passed.
pub open spec fn code_valid_at(secret: Seq<char>, code: Seq<char>, at: Timestamp) -> bool {
    at.secs >= TIME_STEP && code_accepted(secret, code, TOLERANCE as int, time_step(at))
}

/// Whether there is a time at which `code` is the code of `secret`.
pub open spec fn code_valid_sometime(secret: Seq<char>, code: Seq<char>) -> bool {
    exists|at: Timestamp| code_valid_at(secret, code, at)
}

/// Calls `GoogleAuthenticator::create_secret`. The claim: the secret has
/// `length` characters, each a digit of base 32, one for each turn of the
/// loop that draws them.
#[verifier::external_body]
fn create_secret(length: u8) -> (secret: String)
    ensures
        secret@.len() == length,
        forall|i: int| 0 <= i < secret@.len() ==> is_base32_digit(#[trigger] secret@[i]),
{
    google_authenticator::GoogleAuthenticator::new().create_secret(length)
}

/// Calls `GoogleAuthenticator::qr_code_url` at the medium level of error
/// correction. The claim: the result is a function of the arguments.
#[verifier::external_body]
fn chart_url(secret: &str, name: &str, title: &str, width: u32, height: u32) -> (url: String)
    ensures
        url@ == qr_code_url(secret@, name@, title@, width as int, height as int),
{
    google_authenticator::GoogleAuthenticator::new().qr_code_url(
        secret,
        name,
        title,
        width,
        height,
        google_authenticator::ErrorCorrectionLevel::Medium,
    )
}

/// Calls `GoogleAuthenticator::verify_code`. Where a step that it tries is
/// zero the outside function reads the clock instead, and with the greatest
/// tolerance it overflows, so both are left out. The claim: the result is a
/// function of the arguments.
#[verifier::external_body]
fn verify_code(secret: &str, code: &str, tolerance: u64, step: u64) -> (accepted: bool)
    requires
        tolerance < step,
    ensures
        accepted == code_accepted(secret@, code@, tolerance as int, step as int),
{
    google_authenticator::GoogleAuthenticator::new().verify_code(secret, code, tolerance, step)
}

/// A fresh random secret of [`SECRET_LEN`] digits of base 32.
pub fn generate_secret() -> (secret: String)
    ensures
        secret@.len() == SECRET_LEN,
        forall|i: int| 0 <= i < secret@.len() ==> is_base32_digit(#[trigger] secret@[i]),
{
    create_secret(SECRET_LEN)
}

/// The address of a picture of the QR code that hands `secret` to an
/// authenticator app, filed there under the account `email` of `issuer`.
pub fn generate_qr(secret: &str, email: &str, issuer: &str) -> (url: String)
    ensures
        url@ == qr_code_url(secret@, email@, issuer@, QR_SIZE as int, QR_SIZE as int),
{
    chart_url(secret, email, issuer, QR_SIZE, QR_SIZE)
}

/// Whether `code` is the code of `secret` at the time `at`.
pub fn check_code_at(secret: &str, code: &str, at: Timestamp) -> (valid: bool)
    ensures
        valid == code_valid_at(secret@, code@, at),
{
    if at.secs < TIME_STEP {
        return false;
    }
    let step: u64 = (at.secs as u64) / (TIME_STEP as u64);
    verify_code(secret, code, TOLERANCE, step)
}

/// Whether `code` is the code of `secret` now.
pub fn check_code(secret: &str, code: &str) -> (valid: bool)
    ensures
        valid ==> code_valid_sometime(secret@, code@),
{
    let at = Timestamp::now();
    check_code_at(secret, code, at)
}

} // verus!
