//! The policy that a new password has to meet.
use vstd::prelude::*;

verus! {

/// The least number of characters of a password.
pub const PASSWORD_MIN_LEN: usize = 8;

/// The greatest number of characters of a password.
pub const PASSWORD_MAX_LEN: usize = 64;

/// Whether `password` meets the policy: it has between
/// [`PASSWORD_MIN_LEN`] and [`PASSWORD_MAX_LEN`] characters.
pub fn is_password_valid(password: &str) -> (valid: bool)
    ensures
        valid == (PASSWORD_MIN_LEN <= password@.len() <= PASSWORD_MAX_LEN),
{
    let len = password.unicode_len();
    PASSWORD_MIN_LEN <= len && len <= PASSWORD_MAX_LEN
}

} // verus!
