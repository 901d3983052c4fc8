use auth_core::auth::reset::{check_token_at, store_reset_token, ResetMail};
use auth_core::auth::twofa::{generate_qr, SECRET_LEN};
use auth_core::clock::Timestamp;
use auth_core::db::models::User;
use auth_core::db::repository::{MemoryUserRepository, UserRepository};
use auth_core::errors::{AuthError, UserDBError};
use auth_core::process::{
    _disable_2fa_process, _enable_2fa_process, _login_process, _reset_password_process,
    disable_2fa_process, enable_2fa_process, login_process, reset_password_process,
    settle_disable, settle_enable, DisableStage, EnableStage, LoginStage, Notice, Prompt,
    ResetStage, Step, ISSUER,
};
use auth_core::utils::{hash, verify_hash};

const SECRET: &str = "I3VFM3JKMNDJCDH5BMBEEQAW6KJ6NOE3";

/// A store that hands out what it was made with and refuses every update.
struct ReadOnlyRepository {
    inner: MemoryUserRepository,
}

impl UserRepository for ReadOnlyRepository {
    fn get_user(&self, email: &str) -> Result<User, UserDBError> {
        self.inner.get_user(email)
    }

    fn update_user(&mut self, _user: &User) -> Result<(), UserDBError> {
        Err(UserDBError::UpdateUserError)
    }
}

fn store_with(email: &str, password: &str, secret: Option<&str>) -> MemoryUserRepository {
    let mut repository = MemoryUserRepository::new();
    let digest = hash(password).unwrap();
    let mut user = User::new(email, &digest);
    user.set_secret_2fa(secret.map(|s| s.to_string()));
    assert_eq!(Ok(()), repository.create_user(user));
    repository
}

/// The step that ends at `stage` and has nothing to tell.
fn at<S>(stage: S) -> Step<S> {
    Step { stage, notice: None }
}

/// The step that ends at `stage` and tells `notice`.
fn told<S>(stage: S, notice: Notice) -> Step<S> {
    Step { stage, notice: Some(notice) }
}

fn code_now(secret: &str) -> String {
    google_authenticator::GoogleAuthenticator::new().get_code(secret, 0).unwrap()
}

#[test]
fn stages_await_their_answers() {
    assert_eq!(Some(Prompt::Email), LoginStage::Email.prompt());
    assert_eq!(Some(Prompt::Password), LoginStage::Password { email: String::new() }.prompt());
    assert_eq!(
        Some(Prompt::AuthenticationCode),
        LoginStage::Code { user: User::new("a@b.test", "digest") }.prompt()
    );
    assert_eq!(None, LoginStage::LoggedIn { user: User::new("a@b.test", "digest") }.prompt());

    assert_eq!(Some(Prompt::Email), ResetStage::Email.prompt());
    assert_eq!(Some(Prompt::ResetToken), ResetStage::Token { email: String::new() }.prompt());
    assert_eq!(
        Some(Prompt::AuthenticationCode),
        ResetStage::Code { email: String::new(), secret: String::new() }.prompt()
    );
    assert_eq!(Some(Prompt::NewPassword), ResetStage::NewPassword { email: String::new() }.prompt());
    assert_eq!(None, ResetStage::Finished.prompt());

    assert_eq!(Some(Prompt::Password), EnableStage::Password.prompt());
    assert_eq!(Some(Prompt::AuthenticationCode), EnableStage::Code { secret: String::new() }.prompt());
    assert_eq!(None, EnableStage::Finished.prompt());

    assert_eq!(Some(Prompt::Password), DisableStage::Password.prompt());
    assert_eq!(Some(Prompt::AuthenticationCode), DisableStage::Code.prompt());
    assert_eq!(None, DisableStage::Finished.prompt());
}

#[test]
fn notices_have_their_texts() {
    assert_eq!("Your login details are incorrect.", Notice::Failure(AuthError::LoginError).message());
    assert_eq!("Reset token is expired.", Notice::Failure(AuthError::ExpiredToken).message());
    assert_eq!("Incorrect password.", Notice::IncorrectPassword.message());
    assert_eq!("Incorrect authentication code.", Notice::IncorrectCode.message());
    assert_eq!("Two-factor authentication already enabled", Notice::AlreadyEnabled.message());
    assert_eq!("Two-factor authentication is already disabled", Notice::AlreadyDisabled.message());
    assert_eq!("Two-factor authentication failed.", Notice::TwoFactorFailed.message());
    assert_eq!(
        "Scan the following QR code with your favorite Authentication app: https://x.test/qr\n",
        Notice::ScanQr { url: "https://x.test/qr".to_string() }.message()
    );
    assert_eq!(
        "\nfrom: lab02.auth@heig-vd.lo\nto: a@b.test\nsubject: Lab 02 - Auth Reset token\nmessage:\nHere is your reset token: tok123\nKind regards\n\n",
        Notice::Deliver(ResetMail { to: "a@b.test".to_string(), token: "tok123".to_string() })
            .message()
    );
    assert_eq!("Lab 02 - Authentication", ISSUER);
}

#[test]
fn enable_on_enabled_user_changes_nothing() {
    let mut repository = store_with("a@b.test", "Secret123", Some(SECRET));
    let mut user = repository.get_user("a@b.test").unwrap();
    let before = user.clone();

    let opened = enable_2fa_process(&user);
    assert_eq!(told(EnableStage::Finished, Notice::AlreadyEnabled), opened);

    for stage in [
        EnableStage::Password,
        EnableStage::Code { secret: "AAAAAAAAAAAAAAAAAAAAAAAAAAAAAAAA".to_string() },
        EnableStage::Finished,
    ] {
        let step = _enable_2fa_process(&mut user, stage, "Secret123", &mut repository);
        assert_eq!(told(EnableStage::Finished, Notice::AlreadyEnabled), step);
        assert_eq!(before, user);
        assert_eq!(Ok(before.clone()), repository.get_user("a@b.test"));
    }
}

#[test]
fn enable_asks_for_password_then_code() {
    let mut repository = store_with("a@b.test", "Secret123", None);
    let mut user = repository.get_user("a@b.test").unwrap();
    let before = user.clone();

    let opened = enable_2fa_process(&user);
    assert_eq!(at(EnableStage::Password), opened);

    let step = _enable_2fa_process(&mut user, opened.stage, "wrong", &mut repository);
    assert_eq!(told(EnableStage::Password, Notice::IncorrectPassword), step);
    assert_eq!(before, user);

    let step = _enable_2fa_process(&mut user, step.stage, "Secret123", &mut repository);
    let secret = match &step.stage {
        EnableStage::Code { secret } => secret.clone(),
        other => panic!("unexpected stage {:?}", other),
    };
    assert_eq!(usize::from(SECRET_LEN), secret.chars().count());
    assert_eq!(
        Some(Notice::ScanQr { url: generate_qr(&secret, "a@b.test", "Lab 02 - Authentication") }),
        step.notice
    );
    assert_eq!(before, user);
    assert_eq!(Ok(before.clone()), repository.get_user("a@b.test"));

    let step = _enable_2fa_process(&mut user, step.stage, "not a code", &mut repository);
    assert_eq!(
        told(EnableStage::Code { secret: secret.clone() }, Notice::IncorrectCode),
        step
    );
    assert_eq!(before, user);
    assert!(!user.is_2fa_enabled());

    let mut stage = step.stage;
    let mut finished = false;
    for _ in 0..3 {
        let step = _enable_2fa_process(&mut user, stage, &code_now(&secret), &mut repository);
        if step.stage == EnableStage::Finished {
            assert_eq!(None, step.notice);
            finished = true;
            break;
        }
        stage = step.stage;
    }
    assert!(finished);
    assert!(user.is_2fa_enabled());
    assert_eq!(Some(secret.clone()), user.get_secret_2fa());
    assert!(!secret.is_empty());
    assert_eq!(before.get_password(), user.get_password());
    assert_eq!(Ok(user.clone()), repository.get_user("a@b.test"));

    let step = _enable_2fa_process(&mut user, EnableStage::Finished, "", &mut repository);
    assert_eq!(told(EnableStage::Finished, Notice::AlreadyEnabled), step);
}

#[test]
fn enable_never_confirms_an_empty_secret() {
    let mut repository = store_with("a@b.test", "Secret123", None);
    let mut user = repository.get_user("a@b.test").unwrap();
    let stage = EnableStage::Code { secret: String::new() };
    let step = _enable_2fa_process(&mut user, stage, "123456", &mut repository);
    assert_eq!(
        told(EnableStage::Code { secret: String::new() }, Notice::IncorrectCode),
        step
    );
    assert!(!user.is_2fa_enabled());

    let step = _enable_2fa_process(&mut user, EnableStage::Finished, "123456", &mut repository);
    assert_eq!(at(EnableStage::Finished), step);
    assert!(!user.is_2fa_enabled());
}

#[test]
fn enable_is_undone_when_the_store_fails() {
    let mut repository = ReadOnlyRepository { inner: store_with("a@b.test", "Secret123", None) };
    let mut user = repository.get_user("a@b.test").unwrap();
    let before = user.clone();

    let mut stage = EnableStage::Code { secret: SECRET.to_string() };
    let mut last = None;
    for _ in 0..3 {
        let step = _enable_2fa_process(&mut user, stage, &code_now(SECRET), &mut repository);
        if step.stage == EnableStage::Finished {
            last = step.notice;
            break;
        }
        stage = step.stage;
    }
    assert_eq!(Some(Notice::TwoFactorFailed), last);
    assert!(!user.is_2fa_enabled());
    assert_eq!(before, user);
    assert_eq!(Ok(before), repository.get_user("a@b.test"));
}

#[test]
fn settling_follows_the_store() {
    let mut user = User::new("a@b.test", "digest");
    user.set_secret_2fa(Some(SECRET.to_string()));
    let step = settle_enable(&mut user, Ok(()));
    assert_eq!(at(EnableStage::Finished), step);
    assert_eq!(Some(SECRET.to_string()), user.get_secret_2fa());
    let step = settle_enable(&mut user, Err(UserDBError::UpdateUserError));
    assert_eq!(told(EnableStage::Finished, Notice::TwoFactorFailed), step);
    assert!(!user.is_2fa_enabled());

    let step = settle_disable(&mut user, SECRET.to_string(), Ok(()));
    assert_eq!(at(DisableStage::Finished), step);
    assert!(!user.is_2fa_enabled());
    let step = settle_disable(&mut user, SECRET.to_string(), Err(UserDBError::UpdateUserError));
    assert_eq!(told(DisableStage::Finished, Notice::TwoFactorFailed), step);
    assert_eq!(Some(SECRET.to_string()), user.get_secret_2fa());
}

#[test]
fn disable_on_disabled_user_changes_nothing() {
    let mut repository = store_with("a@b.test", "Secret123", None);
    let mut user = repository.get_user("a@b.test").unwrap();
    let before = user.clone();

    let opened = disable_2fa_process(&user);
    assert_eq!(told(DisableStage::Finished, Notice::AlreadyDisabled), opened);

    for stage in [DisableStage::Password, DisableStage::Code, DisableStage::Finished] {
        let step = _disable_2fa_process(&mut user, stage, "Secret123", &mut repository);
        assert_eq!(
            told(DisableStage::Finished, Notice::AlreadyDisabled),
            step
        );
        assert_eq!(before, user);
        assert_eq!(Ok(before.clone()), repository.get_user("a@b.test"));
    }
}

#[test]
fn disable_asks_for_password_then_code() {
    let mut repository = store_with("a@b.test", "Secret123", Some(SECRET));
    let mut user = repository.get_user("a@b.test").unwrap();
    let before = user.clone();

    let opened = disable_2fa_process(&user);
    assert_eq!(at(DisableStage::Password), opened);

    let step = _disable_2fa_process(&mut user, opened.stage, "wrong", &mut repository);
    assert_eq!(told(DisableStage::Password, Notice::IncorrectPassword), step);
    let step = _disable_2fa_process(&mut user, step.stage, "Secret123", &mut repository);
    assert_eq!(at(DisableStage::Code), step);
    let step = _disable_2fa_process(&mut user, step.stage, "not a code", &mut repository);
    assert_eq!(told(DisableStage::Code, Notice::IncorrectCode), step);
    assert_eq!(before, user);
    assert_eq!(Ok(before.clone()), repository.get_user("a@b.test"));

    let mut stage = step.stage;
    let mut finished = false;
    for _ in 0..3 {
        let step = _disable_2fa_process(&mut user, stage, &code_now(SECRET), &mut repository);
        if step.stage == DisableStage::Finished {
            assert_eq!(None, step.notice);
            finished = true;
            break;
        }
        stage = step.stage;
    }
    assert!(finished);
    assert!(!user.is_2fa_enabled());
    assert_eq!(None, user.get_secret_2fa());
    assert_eq!(Ok(user.clone()), repository.get_user("a@b.test"));
    assert!(!repository.get_user("a@b.test").unwrap().is_2fa_enabled());
}

#[test]
fn disable_is_undone_when_the_store_fails() {
    let mut repository =
        ReadOnlyRepository { inner: store_with("a@b.test", "Secret123", Some(SECRET)) };
    let mut user = repository.get_user("a@b.test").unwrap();
    let before = user.clone();

    let mut stage = DisableStage::Code;
    let mut last = None;
    for _ in 0..3 {
        let step = _disable_2fa_process(&mut user, stage, &code_now(SECRET), &mut repository);
        if step.stage == DisableStage::Finished {
            last = step.notice;
            break;
        }
        stage = step.stage;
    }
    assert_eq!(Some(Notice::TwoFactorFailed), last);
    assert!(user.is_2fa_enabled());
    assert_eq!(before, user);
    assert_eq!(Ok(before), repository.get_user("a@b.test"));
}

#[test]
fn login_without_second_factor() {
    let repository = store_with("a@b.test", "Secret123", None);
    let stored = repository.get_user("a@b.test").unwrap();

    let opened = login_process();
    assert_eq!(at(LoginStage::Email), opened);
    let step = _login_process(opened.stage, "a@b.test", &repository);
    assert_eq!(at(LoginStage::Password { email: "a@b.test".to_string() }), step);
    let step = _login_process(step.stage, "wrong", &repository);
    assert_eq!(
        told(LoginStage::Email, Notice::Failure(AuthError::LoginError)),
        step
    );

    let step = _login_process(step.stage, "nobody@x.test", &repository);
    let step = _login_process(step.stage, "whatever", &repository);
    assert_eq!(
        told(LoginStage::Email, Notice::Failure(AuthError::LoginError)),
        step
    );

    let step = _login_process(step.stage, "a@b.test", &repository);
    let step = _login_process(step.stage, "Secret123", &repository);
    assert_eq!(at(LoginStage::LoggedIn { user: stored.clone() }), step);
    let step = _login_process(step.stage, "anything", &repository);
    assert_eq!(at(LoginStage::LoggedIn { user: stored }), step);
}

#[test]
fn login_with_second_factor() {
    let repository = store_with("a@b.test", "Secret123", Some(SECRET));
    let stored = repository.get_user("a@b.test").unwrap();

    let step = _login_process(LoginStage::Email, "a@b.test", &repository);
    let step = _login_process(step.stage, "Secret123", &repository);
    assert_eq!(at(LoginStage::Code { user: stored.clone() }), step);
    let step = _login_process(step.stage, "not a code", &repository);
    assert_eq!(
        told(LoginStage::Code { user: stored.clone() }, Notice::IncorrectCode),
        step
    );

    let mut stage = step.stage;
    let mut logged_in = None;
    for _ in 0..3 {
        let step = _login_process(stage, &code_now(SECRET), &repository);
        if let LoginStage::LoggedIn { user } = step.stage {
            assert_eq!(None, step.notice);
            logged_in = Some(user);
            break;
        }
        stage = step.stage;
    }
    assert_eq!(Some(stored), logged_in);
}

#[test]
fn reset_for_unknown_address_ends_without_a_word() {
    let mut repository = store_with("a@b.test", "Secret123", None);
    let before = repository.get_user("a@b.test").unwrap();

    let opened = reset_password_process();
    assert_eq!(at(ResetStage::Email), opened);
    let step = _reset_password_process(opened.stage, "nobody@x.test", &mut repository);
    assert_eq!(at(ResetStage::Finished), step);
    assert_eq!(Ok(before), repository.get_user("a@b.test"));
    assert!(repository.get_user("nobody@x.test").is_err());

    let step = _reset_password_process(step.stage, "anything", &mut repository);
    assert_eq!(at(ResetStage::Finished), step);
}

#[test]
fn reset_without_second_factor() {
    let mut repository = store_with("a@b.test", "Secret123", None);

    let step = _reset_password_process(ResetStage::Email, "a@b.test", &mut repository);
    assert_eq!(ResetStage::Token { email: "a@b.test".to_string() }, step.stage);
    let token = repository.get_user("a@b.test").unwrap().get_reset_token().unwrap();
    let mail = ResetMail { to: "a@b.test".to_string(), token: token.clone() };
    assert_eq!(Some(Notice::Deliver(mail)), step.notice);

    let step = _reset_password_process(step.stage, "not the token", &mut repository);
    assert_eq!(
        told(ResetStage::Token { email: "a@b.test".to_string() }, Notice::Failure(AuthError::TokenMismatch)),
        step
    );
    let step = _reset_password_process(step.stage, &token, &mut repository);
    assert_eq!(
        at(ResetStage::NewPassword { email: "a@b.test".to_string() }),
        step
    );
    let step = _reset_password_process(step.stage, "NewSecret456", &mut repository);
    assert_eq!(at(ResetStage::Finished), step);

    let user = repository.get_user("a@b.test").unwrap();
    assert!(verify_hash("NewSecret456", &user.get_password()));
    assert!(!verify_hash("Secret123", &user.get_password()));
    assert_eq!(Some(token), user.get_reset_token());
}

#[test]
fn reset_with_second_factor() {
    let mut repository = store_with("a@b.test", "Secret123", Some(SECRET));

    let step = _reset_password_process(ResetStage::Email, "a@b.test", &mut repository);
    let token = repository.get_user("a@b.test").unwrap().get_reset_token().unwrap();
    let step = _reset_password_process(step.stage, &token, &mut repository);
    assert_eq!(
        at(ResetStage::Code { email: "a@b.test".to_string(), secret: SECRET.to_string() }),
        step
    );
    let step = _reset_password_process(step.stage, "not a code", &mut repository);
    assert_eq!(
        told(ResetStage::Code { email: "a@b.test".to_string(), secret: SECRET.to_string() }, Notice::IncorrectCode),
        step
    );

    let mut stage = step.stage;
    for _ in 0..3 {
        let step = _reset_password_process(stage, &code_now(SECRET), &mut repository);
        stage = step.stage;
        if stage == (ResetStage::NewPassword { email: "a@b.test".to_string() }) {
            assert_eq!(None, step.notice);
            break;
        }
    }
    assert_eq!(ResetStage::NewPassword { email: "a@b.test".to_string() }, stage);
    let step = _reset_password_process(stage, "NewSecret456", &mut repository);
    assert_eq!(at(ResetStage::Finished), step);
    let user = repository.get_user("a@b.test").unwrap();
    assert!(verify_hash("NewSecret456", &user.get_password()));
    assert_eq!(Some(SECRET.to_string()), user.get_secret_2fa());
}

#[test]
fn reset_ends_on_an_expired_token() {
    let mut repository = store_with("a@b.test", "Secret123", None);
    let long_ago = Timestamp::new(1_600_000_000, 0);
    assert_eq!(Ok(()), store_reset_token("a@b.test", "token", long_ago, &mut repository));
    assert_eq!(
        Err(AuthError::ExpiredToken),
        check_token_at("a@b.test", "token", Timestamp::new(1_600_000_960, 0), &repository)
    );

    let stage = ResetStage::Token { email: "a@b.test".to_string() };
    let step = _reset_password_process(stage, "token", &mut repository);
    assert_eq!(
        told(ResetStage::Finished, Notice::Failure(AuthError::ExpiredToken)),
        step
    );

    let stage = ResetStage::Token { email: "nobody@x.test".to_string() };
    let step = _reset_password_process(stage, "token", &mut repository);
    assert_eq!(
        told(ResetStage::Finished, Notice::Failure(AuthError::ResetError)),
        step
    );
}

#[test]
fn reset_reports_a_password_that_is_not_stored() {
    let mut repository = ReadOnlyRepository { inner: store_with("a@b.test", "Secret123", None) };
    let step = _reset_password_process(ResetStage::Email, "a@b.test", &mut repository);
    assert_eq!(at(ResetStage::Finished), step);

    let stage = ResetStage::NewPassword { email: "a@b.test".to_string() };
    let step = _reset_password_process(stage, "NewSecret456", &mut repository);
    assert_eq!(
        told(ResetStage::Finished, Notice::Failure(AuthError::ResetError)),
        step
    );
    let user = repository.get_user("a@b.test").unwrap();
    assert!(verify_hash("Secret123", &user.get_password()));
}
