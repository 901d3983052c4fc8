//! Password digests and random tokens.
use vstd::prelude::*;
use vstd::utf8::encode_utf8;

verus! {

/// How many characters a token from [`gen_token`] has.
pub const TOKEN_LEN: usize = 32;

/// How many bytes salt a digest.
pub const SALT_LEN: usize = 16;

/// What `argon2::hash_encoded` returns for a password and a salt under the
/// default configuration: the encoded digest, or `None` where it reports an
/// error.
pub uninterp spec fn argon2_encoded(password: Seq<char>, salt: Seq<u8>) -> Option<Seq<char>>;

/// What `argon2::verify_encoded` returns for a password and an encoded
/// digest: whether the digest is one of that password, or `None` where it
/// reports an error, as it does for a digest that it cannot decode.
pub uninterp spec fn argon2_verified(password: Seq<char>, digest: Seq<char>) -> Option<bool>;

/// Whether `c` is an ASCII letter or digit.
pub open spec fn is_letter_or_digit(c: char) -> bool {
    ('a' <= c <= 'z') || ('A' <= c <= 'Z') || ('0' <= c <= '9')
}

/// Whether `password` can be hashed: whether it has no more than `u32::MAX`
/// bytes.
pub open spec fn hashable(password: Seq<char>) -> bool {
    encode_utf8(password).len() <= u32::MAX
}

/// Whether `digest` is what hashing `password` gives under some salt of
/// [`SALT_LEN`] bytes.
pub open spec fn salted_digest(password: Seq<char>, digest: Seq<char>) -> bool {
    exists|salt: Seq<u8>| salt.len() == SALT_LEN && argon2_encoded(password, salt) == Some(digest)
}

/// Whether `digest` is a digest of `password`.
pub open spec fn hash_accepts(password: Seq<char>, digest: Seq<char>) -> bool {
    argon2_verified(password, digest) == Some(true)
}

/// Calls `rand::random` for a byte. Nothing is claimed of it.
#[verifier::external_body]
fn random_byte() -> (byte: u8) {
    rand::random::<u8>()
}

/// Calls `rand::distributions::Alphanumeric::sample_string` on the thread's
/// generator. The claim: the string has `len` characters, each an ASCII
/// letter or digit, as the sampler appends that many of them.
#[verifier::external_body]
fn random_alphanumeric(len: usize) -> (text: String)
    ensures
        text@.len() == len,
        forall|i: int| 0 <= i < text@.len() ==> is_letter_or_digit(#[trigger] text@[i]),
{
    rand::distributions::DistString::sample_string(
        &rand::distributions::Alphanumeric,
        &mut rand::thread_rng(),
        len,
    )
}

/// Calls `argon2::hash_encoded` with the default configuration. The claims:
/// the result is a function of password and salt; a digest that comes back
/// is not empty, as its encoding begins with a `$`, and is accepted by
/// `argon2::verify_encoded` for the same password; and one does come back
/// where the password has no more than `u32::MAX` bytes and the salt
/// between 8 and `u32::MAX`, the only lengths that the outside function
/// refuses under that configuration.
#[verifier::external_body]
fn argon2_encode(password: &str, salt: &[u8]) -> (digest: Option<String>)
    ensures
        match digest {
            Some(d) => argon2_encoded(password@, salt@) == Some(d@),
            None => argon2_encoded(password@, salt@) is None,
        },
        digest matches Some(d) ==> d@.len() > 0 && argon2_verified(password@, d@) == Some(true),
        hashable(password@) && 8 <= salt@.len() <= u32::MAX ==> digest is Some,
{
    argon2::hash_encoded(password.as_bytes(), salt, &argon2::Config::default()).ok()
}

/// Calls `argon2::verify_encoded`. The claim: the result is a function of
/// password and digest.
#[verifier::external_body]
fn argon2_verify(password: &str, digest: &str) -> (verdict: Option<bool>)
    ensures
        verdict == argon2_verified(password@, digest@),
{
    argon2::verify_encoded(digest, password.as_bytes()).ok()
}

/// A digest of `password` under a fresh random salt of [`SALT_LEN`] bytes:
/// not empty, and accepted for `password`. There is none where the password
/// cannot be hashed, which is so only for one of more than `u32::MAX`
/// bytes.
pub fn hash(password: &str) -> (digest: Option<String>)
    ensures
        match digest {
            Some(d) => {
                &&& salted_digest(password@, d@)
                &&& hash_accepts(password@, d@)
                &&& d@.len() > 0
            },
            None => !hashable(password@),
        },
{
    let mut salt: Vec<u8> = Vec::new();
    while salt.len() < SALT_LEN
        invariant
            salt@.len() <= SALT_LEN,
        decreases SALT_LEN - salt@.len(),
    {
        salt.push(random_byte());
    }
    argon2_encode(password, salt.as_slice())
}

/// Whether `digest` is a digest of `password`. A digest that cannot be
/// decoded is a digest of no password.
pub fn verify_hash(password: &str, digest: &str) -> (accepted: bool)
    ensures
        accepted == hash_accepts(password@, digest@),
{
    match argon2_verify(password, digest) {
        Some(verdict) => verdict,
        None => false,
    }
}

/// A fresh random token of [`TOKEN_LEN`] letters and digits.
pub fn gen_token() -> (token: String)
    ensures
        token@.len() == TOKEN_LEN,
        forall|i: int| 0 <= i < token@.len() ==> is_letter_or_digit(#[trigger] token@[i]),
{
    random_alphanumeric(TOKEN_LEN)
}

} // verus!
