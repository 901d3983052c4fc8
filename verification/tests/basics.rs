use auth_core::clock::{Timestamp, NANOS_PER_MINUTE, NANOS_PER_SEC};
use auth_core::db::models::User;
use auth_core::db::repository::{MemoryUserRepository, UserRepository};
use auth_core::errors::{AuthError, UserDBError};
use auth_core::utils::{gen_token, hash, verify_hash, SALT_LEN, TOKEN_LEN};
use auth_core::validation::{is_password_valid, PASSWORD_MAX_LEN, PASSWORD_MIN_LEN};

#[test]
fn auth_error_messages() {
    assert_eq!("Your login details are incorrect.", AuthError::LoginError.description());
    assert_eq!(
        "Something went wrong during registration.",
        AuthError::RegistrationError.description()
    );
    assert_eq!("Something went wrong during password reset.", AuthError::ResetError.description());
    assert_eq!("The e-mail address you entered is invalid.", AuthError::InvalidEmail.description());
    assert_eq!(
        "Your password must be between 8 and 64 characters long.",
        AuthError::InvalidPassword.description()
    );
    assert_eq!(
        "This e-mail address is already used for another account.",
        AuthError::EmailUsed.description()
    );
    assert_eq!("Reset token is expired.", AuthError::ExpiredToken.description());
    assert_eq!("You've entered an ivalid token.", AuthError::TokenMismatch.description());
    assert_eq!("Reset token is expired.".to_string(), AuthError::ExpiredToken.message());
    assert_eq!("Your login details are incorrect.".to_string(), AuthError::LoginError.message());
}

#[test]
fn user_db_error_messages() {
    assert_eq!("Unable to create the user.", UserDBError::CreateUserError.description());
    assert_eq!("Unable to update the user.", UserDBError::UpdateUserError.description());
    assert_eq!("Unable to get the user.", UserDBError::GetUserError.description());
    assert_eq!("Unable to get the user.".to_string(), UserDBError::GetUserError.message());
    assert_eq!("Unable to create the user.".to_string(), UserDBError::CreateUserError.message());
    assert_eq!("Unable to update the user.".to_string(), UserDBError::UpdateUserError.message());
}

#[test]
fn minutes_are_whole_and_round_towards_zero() {
    assert_eq!(1_000_000_000, NANOS_PER_SEC);
    assert_eq!(60_000_000_000, NANOS_PER_MINUTE);
    let start = Timestamp::new(1_000, 900_000_000);
    assert_eq!(0, start.minutes_since(&start));
    assert_eq!(0, Timestamp::new(1_060, 899_999_999).minutes_since(&start));
    assert_eq!(1, Timestamp::new(1_060, 900_000_000).minutes_since(&start));
    assert_eq!(15, Timestamp::new(1_960, 100_000_000).minutes_since(&start));
    assert_eq!(16, Timestamp::new(1_960, 900_000_000).minutes_since(&start));
    assert_eq!(0, Timestamp::new(941, 0).minutes_since(&start));
    assert_eq!(-1, Timestamp::new(940, 900_000_000).minutes_since(&start));
    assert_eq!(-16, start.minutes_since(&Timestamp::new(1_960, 900_000_000)));
    assert_eq!(-15, start.minutes_since(&Timestamp::new(1_960, 899_999_999)));
}

#[test]
fn minutes_between_the_ends_of_time() {
    let first = Timestamp::new(i64::MIN, 0);
    let last = Timestamp::new(i64::MAX, u32::MAX);
    assert_eq!(307_445_734_561_825_860, last.minutes_since(&first));
    assert_eq!(-307_445_734_561_825_860, first.minutes_since(&last));
    assert_eq!(0, Timestamp::new(55, u32::MAX).minutes_since(&Timestamp::new(0, 0)));
    assert_eq!(1, Timestamp::new(56, u32::MAX).minutes_since(&Timestamp::new(0, 0)));
}

#[test]
fn digest_is_accepted_for_its_password_only() {
    let digest = hash("Secret123").unwrap();
    assert_ne!("Secret123", digest);
    assert!(!digest.is_empty());
    assert!(digest.starts_with("$argon2"));
    assert!(verify_hash("Secret123", &digest));
    assert!(!verify_hash("secret123", &digest));
    assert!(!verify_hash("", &digest));
    assert!(!verify_hash(&digest, "Secret123"));
}

#[test]
fn digest_carries_its_salt() {
    assert_eq!(16, SALT_LEN);
    let digest = hash("Secret123").unwrap();
    let fields: Vec<&str> = digest.split('$').collect();
    assert_eq!(6, fields.len());
    assert_eq!("argon2id", fields[1]);
    assert_eq!("m=19456,t=2,p=1", fields[3]);
    // Sixteen bytes make 22 digits of base 64 without padding.
    assert_eq!(22, fields[4].len());
    assert_eq!(43, fields[5].len());
}

#[test]
fn digests_of_one_password_differ() {
    let first = hash("Secret123").unwrap();
    let second = hash("Secret123").unwrap();
    assert_ne!(first, second);
    assert!(verify_hash("Secret123", &first));
    assert!(verify_hash("Secret123", &second));
}

#[test]
fn known_digest_is_verified() {
    let digest = "$argon2i$v=19$m=4096,t=3,p=1$c29tZXNhbHQ$iWh06vD8Fy27wf9npn6FXWiCX4K6pW6Ue1Bnzz07Z8A";
    assert!(verify_hash("password", digest));
    assert!(!verify_hash("Password", digest));
}

#[test]
fn what_is_no_digest_accepts_nothing() {
    assert!(!verify_hash("passwd_hash", "passwd_hash"));
    assert!(!verify_hash("", ""));
    assert!(!verify_hash("password", "$argon2i$v=19$m=4096,t=3,p=1$c29tZXNhbHQ"));
}

#[test]
fn empty_password_has_a_digest() {
    let digest = hash("").unwrap();
    assert!(verify_hash("", &digest));
    assert!(!verify_hash(" ", &digest));
}

#[test]
fn token_has_32_letters_and_digits() {
    assert_eq!(32, TOKEN_LEN);
    let token = gen_token();
    assert_eq!(TOKEN_LEN, token.chars().count());
    assert!(token.chars().all(|c| c.is_ascii_alphanumeric()));
    assert_ne!(token, gen_token());
}

#[test]
fn password_policy_counts_characters() {
    assert_eq!(8, PASSWORD_MIN_LEN);
    assert_eq!(64, PASSWORD_MAX_LEN);
    assert!(!is_password_valid(""));
    assert!(!is_password_valid("1234567"));
    assert!(is_password_valid("12345678"));
    assert!(is_password_valid(&"a".repeat(64)));
    assert!(!is_password_valid(&"a".repeat(65)));
    assert!(is_password_valid("éééééééé"));
    assert!(!is_password_valid("ééééééé"));
    assert!(is_password_valid(&"é".repeat(64)));
    assert!(!is_password_valid(&"é".repeat(65)));
}

#[test]
fn memory_store_keeps_users_by_address() {
    let mut repository = MemoryUserRepository::new();
    assert_eq!(Err(UserDBError::GetUserError), repository.get_user("a@b.test"));
    assert_eq!(
        Err(UserDBError::UpdateUserError),
        repository.update_user(&User::new("a@b.test", "digest"))
    );

    assert_eq!(Ok(()), repository.create_user(User::new("a@b.test", "digest")));
    assert_eq!(Ok(()), repository.create_user(User::new("c@d.test", "other")));
    assert_eq!(
        Err(UserDBError::CreateUserError),
        repository.create_user(User::new("a@b.test", "again"))
    );
    assert_eq!(Ok(User::new("a@b.test", "digest")), repository.get_user("a@b.test"));
    assert_eq!(Ok(User::new("c@d.test", "other")), repository.get_user("c@d.test"));
    assert_eq!(Err(UserDBError::GetUserError), repository.get_user("A@b.test"));

    let mut changed = User::new("a@b.test", "changed");
    changed.set_secret_2fa(Some("SECRET".to_string()));
    assert_eq!(Ok(()), repository.update_user(&changed));
    assert_eq!(Ok(changed), repository.get_user("a@b.test"));
    assert_eq!(Ok(User::new("c@d.test", "other")), repository.get_user("c@d.test"));
}
