//! The conversations with the user, each as a machine that one line of
//! input moves on by one step.
//!
//! A conversation stands at a stage. The caller asks the user for what the
//! stage awaits, hands the answer to the step function, shows the notice
//! that comes back, and goes on from the stage that comes back, until that
//! stage awaits nothing.
//!
//! What a step may do is written down once for each conversation, as a
//! relation between the stage before, the answer, and the step that comes
//! back: [`login_moved`], [`reset_moved`], [`enable_moved`] and
//! [`disable_moved`]. Where a step depends on the clock or on a store that
//! may fail, the relation allows each way the step can go.
use vstd::prelude::*;
use crate::auth::login::login;
use crate::auth::reset::{
    _change_password, _check_token, _generate_reset_token, _send_reset_token, password_stored,
    reset_message, token_generated, ResetMail,
};
use crate::auth::twofa::{
    check_code, code_valid_sometime, generate_qr, generate_secret, is_base32_digit, qr_code_url,
    QR_SIZE, SECRET_LEN,
};
use crate::db::models::{User, UserView};
use crate::db::repository::UserRepository;
use crate::errors::{AuthError, UserDBError};
use crate::utils::{hash_accepts, verify_hash};

verus! {

/// The name under which an authenticator app files the secret.
pub const ISSUER: &'static str = "Lab 02 - Authentication";

/// What a stage awaits from the user.
#[derive(PartialEq, Eq, Debug, Clone, Copy, Structural)]
pub enum Prompt {
    /// The address of the account.
    Email,
    /// The password of the account.
    Password,
    /// The password that is to replace the old one.
    NewPassword,
    /// The code that the authenticator app shows.
    AuthenticationCode,
    /// The reset token that was delivered.
    ResetToken,
}

/// What the user is told after a step.
#[derive(Debug, PartialEq, Eq)]
pub enum Notice {
    /// An operation failed.
    Failure(AuthError),
    /// The password was not the one of the account.
    IncorrectPassword,
    /// The code was not the one that the secret gives now.
    IncorrectCode,
    /// Two-factor authentication was on already.
    AlreadyEnabled,
    /// Two-factor authentication was off already.
    AlreadyDisabled,
    /// The change of the second factor could not be stored.
    TwoFactorFailed,
    /// The secret is ready to be taken into an authenticator app.
    ScanQr {
        /// The address of a picture of the QR code.
        url: String,
    },
    /// A reset token is to be delivered.
    Deliver(ResetMail),
}

impl Notice {
    /// The text that tells the user of this notice.
    pub open spec fn text(self) -> Seq<char> {
        match self {
            Notice::Failure(e) => e.message_text(),
            Notice::IncorrectPassword => "Incorrect password."@,
            Notice::IncorrectCode => "Incorrect authentication code."@,
            Notice::AlreadyEnabled => "Two-factor authentication already enabled"@,
            Notice::AlreadyDisabled => "Two-factor authentication is already disabled"@,
            Notice::TwoFactorFailed => "Two-factor authentication failed."@,
            Notice::ScanQr { url } =>
                "Scan the following QR code with your favorite Authentication app: "@ + url@
                    + "\n"@,
            Notice::Deliver(mail) => reset_message(mail.to@, mail.token@),
        }
    }

    /// The text that tells the user of this notice.
    pub fn message(&self) -> (text: String)
        ensures
            text@ == self.text(),
    {
        match self {
            Notice::Failure(e) => e.message(),
            Notice::IncorrectPassword => "Incorrect password.".to_owned(),
            Notice::IncorrectCode => "Incorrect authentication code.".to_owned(),
            Notice::AlreadyEnabled => "Two-factor authentication already enabled".to_owned(),
            Notice::AlreadyDisabled => "Two-factor authentication is already disabled".to_owned(),
            Notice::TwoFactorFailed => "Two-factor authentication failed.".to_owned(),
            Notice::ScanQr { url } => {
                let mut text =
                    "Scan the following QR code with your favorite Authentication app: ".to_owned();
                text.append(url.as_str());
                text.append("\n");
                text
            },
            Notice::Deliver(mail) => mail.message(),
        }
    }
}

/// A step's result: where the conversation stands now, and what to tell
/// the user.
#[derive(Debug, PartialEq, Eq)]
pub struct Step<S> {
    /// The stage after the step.
    pub stage: S,
    /// What to tell the user, if anything.
    pub notice: Option<Notice>,
}

/// One try at confirming a code against `secret`: nothing to tell where
/// `code` is the code of the secret now.
fn confirm_2fa_code(secret: &str, code: &str) -> (notice: Option<Notice>)
    ensures
        notice is None ==> code_valid_sometime(secret@, code@),
        notice is Some ==> notice == Some(Notice::IncorrectCode),
{
    if check_code(secret, code) {
        None
    } else {
        Some(Notice::IncorrectCode)
    }
}

/// One try at confirming the user's identity: nothing to tell where
/// `passwd` is the password of the digest `user_passwd`.
fn confirm_identity_with_passwd(user_passwd: &str, passwd: &str) -> (notice: Option<Notice>)
    ensures
        notice is None <==> hash_accepts(passwd@, user_passwd@),
        notice is Some ==> notice == Some(Notice::IncorrectPassword),
{
    if verify_hash(passwd, user_passwd) {
        None
    } else {
        Some(Notice::IncorrectPassword)
    }
}

/// Where a login stands.
#[derive(Debug, PartialEq, Eq)]
pub enum LoginStage {
    /// The address of the account is awaited.
    Email,
    /// The password of the account is awaited.
    Password {
        /// The address that was given.
        email: String,
    },
    /// The credentials were right; a code for the user's secret is awaited.
    Code {
        /// The user who is logging in.
        user: User,
    },
    /// The user is logged in; nothing is awaited.
    LoggedIn {
        /// The user who logged in.
        user: User,
    },
}

impl LoginStage {
    /// What the stage awaits from the user.
    pub fn prompt(&self) -> (prompt: Option<Prompt>)
        ensures
            prompt == match self {
                LoginStage::Email => Some(Prompt::Email),
                LoginStage::Password { .. } => Some(Prompt::Password),
                LoginStage::Code { .. } => Some(Prompt::AuthenticationCode),
                LoginStage::LoggedIn { .. } => None,
            },
    {
        match self {
            LoginStage::Email => Some(Prompt::Email),
            LoginStage::Password { .. } => Some(Prompt::Password),
            LoginStage::Code { .. } => Some(Prompt::AuthenticationCode),
            LoginStage::LoggedIn { .. } => None,
        }
    }
}

/// What the step of a login may be that answers the password `password`
/// for the address `email`, before a store that holds `users`.
///
/// The login goes on, to the code or straight in, only with the password
/// of the user kept under the address, and with the user as the store
/// holds it. Every other login goes back to its start with the one login
/// error. A store that never fails sends no login back that could go on.
pub open spec fn login_password_given(
    email: Seq<char>,
    password: Seq<char>,
    users: Map<Seq<char>, UserView>,
    never_fails: bool,
    step: Step<LoginStage>,
) -> bool {
    let accepted = users.contains_key(email) && hash_accepts(password, users[email].password);
    match step.stage {
        LoginStage::Email => {
            &&& step.notice == Some(Notice::Failure(AuthError::LoginError))
            &&& !(never_fails && accepted)
        },
        LoginStage::Code { user } => {
            &&& step.notice is None
            &&& accepted
            &&& user@ == users[email]
            &&& user@.secret_2fa is Some
        },
        LoginStage::LoggedIn { user } => {
            &&& step.notice is None
            &&& accepted
            &&& user@ == users[email]
            &&& user@.secret_2fa is None
        },
        LoginStage::Password { .. } => false,
    }
}

/// What the step of a login may be that answers `code` for the user
/// `user`: the user is logged in, which takes a code that is valid at some
/// time for the user's secret, if the user has one; or the code is refused
/// and another is awaited.
pub open spec fn login_code_given(user: User, code: Seq<char>, step: Step<LoginStage>) -> bool {
    ||| {
        &&& step.stage == (LoginStage::LoggedIn { user })
        &&& step.notice is None
        &&& user@.secret_2fa matches Some(secret) ==> code_valid_sometime(secret, code)
    }
    ||| {
        &&& step.stage == (LoginStage::Code { user })
        &&& step.notice == Some(Notice::IncorrectCode)
        &&& user@.secret_2fa is Some
    }
}

/// What the step of a login may be that answers `input` at `stage`, before
/// a store that holds `users`.
pub open spec fn login_moved(
    stage: LoginStage,
    input: Seq<char>,
    users: Map<Seq<char>, UserView>,
    never_fails: bool,
    step: Step<LoginStage>,
) -> bool {
    match stage {
        LoginStage::Email => {
            &&& step.stage matches LoginStage::Password { email }
            &&& email@ == input
            &&& step.notice is None
        },
        LoginStage::Password { email } => login_password_given(
            email@,
            input,
            users,
            never_fails,
            step,
        ),
        LoginStage::Code { user } => login_code_given(user, input, step),
        LoginStage::LoggedIn { .. } => step.stage == stage && step.notice is None,
    }
}

/// A login lets a user in only with the password of the user whom the
/// store keeps under the address that was given, and a user with
/// two-factor authentication only after a code for the user's secret that
/// is valid at some time.
pub proof fn lemma_login_takes_password_and_code(
    stage: LoginStage,
    input: Seq<char>,
    users: Map<Seq<char>, UserView>,
    never_fails: bool,
    step: Step<LoginStage>,
)
    requires
        login_moved(stage, input, users, never_fails, step),
    ensures
        step.stage matches LoginStage::LoggedIn { user } ==> match stage {
            LoginStage::Email => false,
            LoginStage::Password { email } => {
                &&& users.contains_key(email@)
                &&& user@ == users[email@]
                &&& hash_accepts(input, user@.password)
                &&& user@.secret_2fa is None
            },
            LoginStage::Code { user: awaited } => {
                &&& user == awaited
                &&& user@.secret_2fa matches Some(secret) ==> code_valid_sometime(secret, input)
            },
            LoginStage::LoggedIn { user: same } => user == same,
        },
        step.stage matches LoginStage::Code { user } ==> match stage {
            LoginStage::Password { email } => {
                &&& users.contains_key(email@)
                &&& user@ == users[email@]
                &&& hash_accepts(input, user@.password)
            },
            LoginStage::Code { user: awaited } => user == awaited,
            _ => false,
        },
{
}

/// Opens a login: the address of the account is awaited.
pub fn login_process() -> (step: Step<LoginStage>)
    ensures
        step.stage is Email,
        step.notice is None,
{
    Step { stage: LoginStage::Email, notice: None }
}

/// Moves a login on by the answer `input`: see [`login_moved`].
///
/// Credentials that are not accepted send the login back to its start. A
/// user with two-factor authentication is logged in only after a code for
/// the user's secret. The store is not changed.
pub fn _login_process<R: UserRepository + ?Sized>(
    stage: LoginStage,
    input: &str,
    repository: &R,
) -> (step: Step<LoginStage>)
    ensures
        login_moved(stage, input@, repository.users(), repository.never_fails(), step),
{
    match stage {
        LoginStage::Email => Step {
            stage: LoginStage::Password { email: input.to_owned() },
            notice: None,
        },
        LoginStage::Password { email } => {
            match login(email.as_str(), input, repository) {
                Err(e) => Step { stage: LoginStage::Email, notice: Some(Notice::Failure(e)) },
                Ok(user) => {
                    if user.is_2fa_enabled() {
                        Step { stage: LoginStage::Code { user }, notice: None }
                    } else {
                        Step { stage: LoginStage::LoggedIn { user }, notice: None }
                    }
                },
            }
        },
        LoginStage::Code { user } => {
            let refusal = match user.get_secret_2fa() {
                Some(secret) => confirm_2fa_code(secret.as_str(), input),
                None => None,
            };
            match refusal {
                Some(notice) => Step { stage: LoginStage::Code { user }, notice: Some(notice) },
                None => Step { stage: LoginStage::LoggedIn { user }, notice: None },
            }
        },
        LoginStage::LoggedIn { user } => Step {
            stage: LoginStage::LoggedIn { user },
            notice: None,
        },
    }
}

/// Where a password reset stands.
#[derive(Debug, PartialEq, Eq)]
pub enum ResetStage {
    /// The address of the account is awaited.
    Email,
    /// A token was issued and delivered; it is awaited.
    Token {
        /// The address that was given.
        email: String,
    },
    /// The token was right; a code for the user's secret is awaited.
    Code {
        /// The address that was given.
        email: String,
        /// The secret of the user, as the store held it when the token was
        /// checked.
        secret: String,
    },
    /// The user's identity is confirmed; the new password is awaited.
    NewPassword {
        /// The address that was given.
        email: String,
    },
    /// Nothing is awaited.
    Finished,
}

impl ResetStage {
    /// What the stage awaits from the user.
    pub fn prompt(&self) -> (prompt: Option<Prompt>)
        ensures
            prompt == match self {
                ResetStage::Email => Some(Prompt::Email),
                ResetStage::Token { .. } => Some(Prompt::ResetToken),
                ResetStage::Code { .. } => Some(Prompt::AuthenticationCode),
                ResetStage::NewPassword { .. } => Some(Prompt::NewPassword),
                ResetStage::Finished => None,
            },
    {
        match self {
            ResetStage::Email => Some(Prompt::Email),
            ResetStage::Token { .. } => Some(Prompt::ResetToken),
            ResetStage::Code { .. } => Some(Prompt::AuthenticationCode),
            ResetStage::NewPassword { .. } => Some(Prompt::NewPassword),
            ResetStage::Finished => None,
        }
    }
}

/// What the step of a password reset may be that answers the address
/// `email`, and what a store that held `before` may hold after it.
///
/// Where the token is awaited next, one was issued for the user kept under
/// the address and is to be delivered there. Where no token could be
/// issued the reset ends without a word and the store holds what it held;
/// so it is for an unknown address, and with a store that never fails for
/// no other. Where a token was issued but could not be read back, as with
/// a store that never fails it always can, the reset ends with the reset
/// error.
pub open spec fn reset_address_given(
    email: Seq<char>,
    before: Map<Seq<char>, UserView>,
    after: Map<Seq<char>, UserView>,
    never_fails: bool,
    step: Step<ResetStage>,
) -> bool {
    let issued = token_generated(email, before, after, never_fails, Ok(()));
    match step.stage {
        ResetStage::Token { email: kept } => {
            &&& kept@ == email
            &&& issued
            &&& after[email].reset matches Some(pending)
            &&& step.notice matches Some(Notice::Deliver(mail))
            &&& mail.to@ == email
            &&& mail.token@ == pending.token
        },
        ResetStage::Finished => {
            ||| {
                &&& step.notice is None
                &&& after == before
                &&& !(never_fails && before.contains_key(email))
            }
            ||| {
                &&& step.notice == Some(Notice::Failure(AuthError::ResetError))
                &&& issued
                &&& !never_fails
            }
        },
        _ => false,
    }
}

/// What the step of a password reset may be that answers `token` for the
/// address `email`, before a store that holds `users`.
///
/// The reset goes on, to the code of a user with two-factor authentication
/// and to the new password of any other, only with the token that is
/// pending for the user. Another token may be tried again. The reset ends
/// on an expired token, and with the reset error where the store hands
/// out no user, as a store that never fails does only for an unknown
/// address, or where the user has no pending token.
pub open spec fn reset_token_given(
    email: Seq<char>,
    token: Seq<char>,
    users: Map<Seq<char>, UserView>,
    never_fails: bool,
    step: Step<ResetStage>,
) -> bool {
    let known = users.contains_key(email);
    let user = users[email];
    match step.stage {
        ResetStage::Token { email: kept } => {
            &&& kept@ == email
            &&& step.notice == Some(Notice::Failure(AuthError::TokenMismatch))
            &&& known
            &&& user.reset matches Some(pending)
            &&& pending.token != token
        },
        ResetStage::Code { email: kept, secret } => {
            &&& kept@ == email
            &&& step.notice is None
            &&& known
            &&& user.secret_2fa == Some(secret@)
            &&& user.reset matches Some(pending)
            &&& pending.token == token
        },
        ResetStage::NewPassword { email: kept } => {
            &&& kept@ == email
            &&& step.notice is None
            &&& known
            &&& user.secret_2fa is None
            &&& user.reset matches Some(pending)
            &&& pending.token == token
        },
        ResetStage::Finished => {
            ||| {
                &&& step.notice == Some(Notice::Failure(AuthError::ExpiredToken))
                &&& known
                &&& user.reset is Some
            }
            ||| {
                &&& step.notice == Some(Notice::Failure(AuthError::ResetError))
                &&& never_fails ==> !known || user.reset is None
            }
        },
        ResetStage::Email => false,
    }
}

/// What the step of a password reset may be that answers `code` for the
/// secret `secret`: the new password is awaited, which takes a code that
/// is valid at some time for the secret; or the code is refused and
/// another is awaited.
pub open spec fn reset_code_given(
    email: String,
    secret: String,
    code: Seq<char>,
    step: Step<ResetStage>,
) -> bool {
    ||| {
        &&& step.stage == (ResetStage::NewPassword { email })
        &&& step.notice is None
        &&& code_valid_sometime(secret@, code)
    }
    ||| {
        &&& step.stage == (ResetStage::Code { email, secret })
        &&& step.notice == Some(Notice::IncorrectCode)
    }
}

/// What the step of a password reset may be that answers the new password
/// `password` for the address `email`, and what a store that held `before`
/// may hold after it.
///
/// The reset ends: with the password changed, or with the reset error and
/// the store holding what it held. A store that never fails changes the
/// password of every user it holds, if the password can be hashed.
pub open spec fn reset_password_given(
    email: Seq<char>,
    password: Seq<char>,
    before: Map<Seq<char>, UserView>,
    after: Map<Seq<char>, UserView>,
    never_fails: bool,
    step: Step<ResetStage>,
) -> bool {
    &&& step.stage is Finished
    &&& {
        ||| {
            &&& step.notice is None
            &&& password_stored(email, password, before, after, never_fails, Ok(()))
        }
        ||| {
            &&& step.notice == Some(Notice::Failure(AuthError::ResetError))
            &&& password_stored(
                email,
                password,
                before,
                after,
                never_fails,
                Err(AuthError::ResetError),
            )
        }
    }
}

/// What the step of a password reset may be that answers `input` at
/// `stage`, and what a store that held `before` may hold after it. Only the
/// steps that issue a token and change the password change the store.
pub open spec fn reset_moved(
    stage: ResetStage,
    input: Seq<char>,
    before: Map<Seq<char>, UserView>,
    after: Map<Seq<char>, UserView>,
    never_fails: bool,
    step: Step<ResetStage>,
) -> bool {
    match stage {
        ResetStage::Email => reset_address_given(input, before, after, never_fails, step),
        ResetStage::Token { email } => {
            &&& after == before
            &&& reset_token_given(email@, input, before, never_fails, step)
        },
        ResetStage::Code { email, secret } => {
            &&& after == before
            &&& reset_code_given(email, secret, input, step)
        },
        ResetStage::NewPassword { email } => reset_password_given(
            email@,
            input,
            before,
            after,
            never_fails,
            step,
        ),
        ResetStage::Finished => {
            &&& after == before
            &&& step.stage is Finished
            &&& step.notice is None
        },
    }
}

/// A password reset changes the store only where it issues a token for the
/// address that was given and where it changes the password. It awaits the
/// new password only after the pending token of the user, and after a code
/// for the secret that the user had when the token was given; and once it
/// has ended it stays so.
pub proof fn lemma_reset_takes_token_and_code(
    stage: ResetStage,
    input: Seq<char>,
    before: Map<Seq<char>, UserView>,
    after: Map<Seq<char>, UserView>,
    never_fails: bool,
    step: Step<ResetStage>,
)
    requires
        reset_moved(stage, input, before, after, never_fails, step),
    ensures
        after != before ==> stage is Email || stage is NewPassword,
        step.stage is NewPassword ==> match stage {
            ResetStage::Token { email } => {
                &&& before.contains_key(email@)
                &&& before[email@].secret_2fa is None
                &&& before[email@].reset matches Some(pending)
                &&& pending.token == input
            },
            ResetStage::Code { secret, .. } => code_valid_sometime(secret@, input),
            _ => false,
        },
        step.stage matches ResetStage::Code { secret, .. } ==> match stage {
            ResetStage::Token { email } => {
                &&& before.contains_key(email@)
                &&& before[email@].secret_2fa == Some(secret@)
                &&& before[email@].reset matches Some(pending)
                &&& pending.token == input
            },
            ResetStage::Code { secret: awaited, .. } => secret == awaited,
            _ => false,
        },
        step.stage is Token ==> stage is Email || stage is Token,
        !(step.stage is Email),
        stage is Finished ==> step.stage is Finished,
{
}

/// Opens a password reset: the address of the account is awaited.
pub fn reset_password_process() -> (step: Step<ResetStage>)
    ensures
        step.stage is Email,
        step.notice is None,
{
    Step { stage: ResetStage::Email, notice: None }
}

/// Moves a password reset on by the answer `input`: see [`reset_moved`].
///
/// The address gets a token issued and delivered, or ends the reset without
/// a word where no token could be issued. A token that does not match may
/// be tried again; one that has expired ends the reset. After the token, a
/// user with two-factor authentication gives a code for the secret. The
/// last answer is the new password.
pub fn _reset_password_process<R: UserRepository + ?Sized>(
    stage: ResetStage,
    input: &str,
    repository: &mut R,
) -> (step: Step<ResetStage>)
    ensures
        reset_moved(
            stage,
            input@,
            old(repository).users(),
            final(repository).users(),
            old(repository).never_fails(),
            step,
        ),
        final(repository).never_fails() == old(repository).never_fails(),
{
    match stage {
        ResetStage::Email => {
            match _generate_reset_token(input, repository) {
                Err(_) => Step { stage: ResetStage::Finished, notice: None },
                Ok(_) => match _send_reset_token(input, &*repository) {
                    Ok(mail) => Step {
                        stage: ResetStage::Token { email: input.to_owned() },
                        notice: Some(Notice::Deliver(mail)),
                    },
                    Err(e) => Step {
                        stage: ResetStage::Finished,
                        notice: Some(Notice::Failure(e)),
                    },
                },
            }
        },
        ResetStage::Token { email } => {
            match _check_token(email.as_str(), input, &*repository) {
                Err(AuthError::TokenMismatch) => Step {
                    stage: ResetStage::Token { email },
                    notice: Some(Notice::Failure(AuthError::TokenMismatch)),
                },
                Err(e) => Step { stage: ResetStage::Finished, notice: Some(Notice::Failure(e)) },
                Ok(_) => match repository.get_user(email.as_str()) {
                    Err(_) => Step {
                        stage: ResetStage::Finished,
                        notice: Some(Notice::Failure(AuthError::ResetError)),
                    },
                    Ok(user) => match user.get_secret_2fa() {
                        Some(secret) => Step {
                            stage: ResetStage::Code { email, secret },
                            notice: None,
                        },
                        None => Step { stage: ResetStage::NewPassword { email }, notice: None },
                    },
                },
            }
        },
        ResetStage::Code { email, secret } => {
            match confirm_2fa_code(secret.as_str(), input) {
                Some(notice) => Step {
                    stage: ResetStage::Code { email, secret },
                    notice: Some(notice),
                },
                None => Step { stage: ResetStage::NewPassword { email }, notice: None },
            }
        },
        ResetStage::NewPassword { email } => {
            match _change_password(email.as_str(), input, repository) {
                Ok(_) => Step { stage: ResetStage::Finished, notice: None },
                Err(e) => Step { stage: ResetStage::Finished, notice: Some(Notice::Failure(e)) },
            }
        },
        ResetStage::Finished => Step { stage: ResetStage::Finished, notice: None },
    }
}

/// Where the switching on of two-factor authentication stands.
#[derive(Debug, PartialEq, Eq)]
pub enum EnableStage {
    /// The password of the account is awaited.
    Password,
    /// A code for the new secret is awaited.
    Code {
        /// The secret that was drawn for the user.
        secret: String,
    },
    /// Nothing is awaited.
    Finished,
}

impl EnableStage {
    /// What the stage awaits from the user.
    pub fn prompt(&self) -> (prompt: Option<Prompt>)
        ensures
            prompt == match self {
                EnableStage::Password => Some(Prompt::Password),
                EnableStage::Code { .. } => Some(Prompt::AuthenticationCode),
                EnableStage::Finished => None,
            },
    {
        match self {
            EnableStage::Password => Some(Prompt::Password),
            EnableStage::Code { .. } => Some(Prompt::AuthenticationCode),
            EnableStage::Finished => None,
        }
    }
}

/// What the step may be that answers `password` where the password of the
/// user `user` is awaited to switch two-factor authentication on.
///
/// With the user's password a fresh secret of [`SECRET_LEN`] digits of
/// base 32 is drawn, and the address of the QR code that hands it to an
/// authenticator app is shown; a code for that secret is awaited next.
/// Any other password is refused and another is awaited.
pub open spec fn enable_password_given(
    user: UserView,
    password: Seq<char>,
    step: Step<EnableStage>,
) -> bool {
    if hash_accepts(password, user.password) {
        &&& step.stage matches EnableStage::Code { secret }
        &&& secret@.len() == SECRET_LEN
        &&& forall|i: int| 0 <= i < secret@.len() ==> is_base32_digit(#[trigger] secret@[i])
        &&& step.notice matches Some(Notice::ScanQr { url })
        &&& url@ == qr_code_url(secret@, user.email, ISSUER@, QR_SIZE as int, QR_SIZE as int)
    } else {
        &&& step.stage is Password
        &&& step.notice == Some(Notice::IncorrectPassword)
    }
}

/// What the step may be that answers `code` where a code for `secret` is
/// awaited to switch two-factor authentication on for the user `user`; what
/// the user may be after it; and what a store that held `before` may hold
/// after it.
///
/// Either the code is refused and another is awaited; or the user has the
/// secret, which then is not empty and has `code` for a code at some time,
/// and the store holds the user so; or the store has failed, as one that
/// never fails does not for a user it holds, and user and store are what
/// they were.
pub open spec fn enable_code_given(
    secret: String,
    code: Seq<char>,
    user: UserView,
    user_after: UserView,
    before: Map<Seq<char>, UserView>,
    after: Map<Seq<char>, UserView>,
    never_fails: bool,
    step: Step<EnableStage>,
) -> bool {
    ||| {
        &&& step.stage == (EnableStage::Code { secret })
        &&& step.notice == Some(Notice::IncorrectCode)
        &&& user_after == user
        &&& after == before
    }
    ||| {
        &&& step.stage is Finished
        &&& step.notice is None
        &&& secret@.len() > 0
        &&& code_valid_sometime(secret@, code)
        &&& user_after == user.with_secret_2fa(Some(secret@))
        &&& before.contains_key(user.email) ==> after == before.insert(user.email, user_after)
    }
    ||| {
        &&& step.stage is Finished
        &&& step.notice == Some(Notice::TwoFactorFailed)
        &&& user_after == user
        &&& after == before
        &&& !(never_fails && before.contains_key(user.email))
    }
}

/// What the step may be that answers `input` at `stage` of switching
/// two-factor authentication on for the user `user`; what the user may be
/// after it; and what a store that held `before` may hold after it.
///
/// For a user whose two-factor authentication is on already the step ends
/// the conversation and changes nothing. For any other user, only the step
/// that accepts a code changes user and store.
pub open spec fn enable_moved(
    stage: EnableStage,
    input: Seq<char>,
    user: UserView,
    user_after: UserView,
    before: Map<Seq<char>, UserView>,
    after: Map<Seq<char>, UserView>,
    never_fails: bool,
    step: Step<EnableStage>,
) -> bool {
    if user.secret_2fa is Some {
        &&& step.stage is Finished
        &&& step.notice == Some(Notice::AlreadyEnabled)
        &&& user_after == user
        &&& after == before
    } else {
        match stage {
            EnableStage::Password => {
                &&& enable_password_given(user, input, step)
                &&& user_after == user
                &&& after == before
            },
            EnableStage::Code { secret } => enable_code_given(
                secret,
                input,
                user,
                user_after,
                before,
                after,
                never_fails,
                step,
            ),
            EnableStage::Finished => {
                &&& step.stage is Finished
                &&& step.notice is None
                &&& user_after == user
                &&& after == before
            },
        }
    }
}

/// Two-factor authentication is switched on only by two proofs of
/// identity: user and store change only with a code that is valid at some
/// time for the secret that is awaited, and a code is awaited only after
/// the password of the user. The user that comes out of a step has
/// two-factor authentication on exactly if the user had it on before or the
/// step has switched it on; a store that fails leaves it off.
pub proof fn lemma_enable_takes_password_and_code(
    stage: EnableStage,
    input: Seq<char>,
    user: UserView,
    user_after: UserView,
    before: Map<Seq<char>, UserView>,
    after: Map<Seq<char>, UserView>,
    never_fails: bool,
    step: Step<EnableStage>,
)
    requires
        enable_moved(stage, input, user, user_after, before, after, never_fails, step),
    ensures
        user_after != user || after != before ==> {
            &&& user.secret_2fa is None
            &&& stage matches EnableStage::Code { secret }
            &&& code_valid_sometime(secret@, input)
            &&& user_after.secret_2fa == Some(secret@)
            &&& secret@.len() > 0
            &&& step.stage is Finished
            &&& step.notice is None
        },
        step.stage is Code ==> user.secret_2fa is None && (stage is Code || (stage is Password
            && hash_accepts(input, user.password))),
        step.notice == Some(Notice::TwoFactorFailed) ==> user_after.secret_2fa is None,
        user.secret_2fa is Some ==> user_after == user && after == before,
{
}

/// Concludes the switching on of two-factor authentication for `u`, whose
/// new secret the store was asked to keep and answered with `stored`: where
/// the store failed, the secret is taken from the user again.
pub fn settle_enable(u: &mut User, stored: Result<(), UserDBError>) -> (step: Step<EnableStage>)
    ensures
        step.stage is Finished,
        stored is Ok ==> step.notice is None && final(u)@ == old(u)@,
        stored is Err ==> step.notice == Some(Notice::TwoFactorFailed) && final(u)@ == old(
            u,
        )@.with_secret_2fa(None),
{
    match stored {
        Ok(_) => Step { stage: EnableStage::Finished, notice: None },
        Err(_) => {
            u.set_secret_2fa(None);
            Step { stage: EnableStage::Finished, notice: Some(Notice::TwoFactorFailed) }
        },
    }
}

/// Opens the switching on of two-factor authentication for `u`: there is
/// nothing to do where it is on already, else the password is awaited.
pub fn enable_2fa_process(u: &User) -> (step: Step<EnableStage>)
    ensures
        u@.secret_2fa is Some ==> step.stage is Finished && step.notice == Some(
            Notice::AlreadyEnabled,
        ),
        u@.secret_2fa is None ==> step.stage is Password && step.notice is None,
{
    if u.is_2fa_enabled() {
        Step { stage: EnableStage::Finished, notice: Some(Notice::AlreadyEnabled) }
    } else {
        Step { stage: EnableStage::Password, notice: None }
    }
}

/// Moves the switching on of two-factor authentication for `u` on by the
/// answer `input`: see [`enable_moved`].
///
/// The user is changed, and stored, only by the step that confirms a code
/// for the new secret, which comes after the step that confirms the
/// password. Where the store fails, the user is left without a secret.
/// Nothing is changed for a user whose two-factor authentication is on
/// already.
pub fn _enable_2fa_process<R: UserRepository + ?Sized>(
    u: &mut User,
    stage: EnableStage,
    input: &str,
    repository: &mut R,
) -> (step: Step<EnableStage>)
    ensures
        enable_moved(
            stage,
            input@,
            old(u)@,
            final(u)@,
            old(repository).users(),
            final(repository).users(),
            old(repository).never_fails(),
            step,
        ),
        final(repository).never_fails() == old(repository).never_fails(),
{
    if u.is_2fa_enabled() {
        return Step { stage: EnableStage::Finished, notice: Some(Notice::AlreadyEnabled) };
    }
    match stage {
        EnableStage::Password => {
            let digest = u.get_password();
            match confirm_identity_with_passwd(digest.as_str(), input) {
                Some(notice) => Step { stage: EnableStage::Password, notice: Some(notice) },
                None => {
                    let secret = generate_secret();
                    let email = u.get_email();
                    let url = generate_qr(secret.as_str(), email.as_str(), ISSUER);
                    Step {
                        stage: EnableStage::Code { secret },
                        notice: Some(Notice::ScanQr { url }),
                    }
                },
            }
        },
        EnableStage::Code { secret } => {
            let refusal = if secret.as_str().is_empty() {
                Some(Notice::IncorrectCode)
            } else {
                confirm_2fa_code(secret.as_str(), input)
            };
            match refusal {
                Some(notice) => Step { stage: EnableStage::Code { secret }, notice: Some(notice) },
                None => {
                    u.set_secret_2fa(Some(secret));
                    let stored = repository.update_user(&*u);
                    settle_enable(u, stored)
                },
            }
        },
        EnableStage::Finished => Step { stage: EnableStage::Finished, notice: None },
    }
}

/// Where the switching off of two-factor authentication stands.
#[derive(PartialEq, Eq, Debug, Clone, Copy, Structural)]
pub enum DisableStage {
    /// The password of the account is awaited.
    Password,
    /// A code for the secret of the account is awaited.
    Code,
    /// Nothing is awaited.
    Finished,
}

impl DisableStage {
    /// What the stage awaits from the user.
    pub fn prompt(&self) -> (prompt: Option<Prompt>)
        ensures
            prompt == match self {
                DisableStage::Password => Some(Prompt::Password),
                DisableStage::Code => Some(Prompt::AuthenticationCode),
                DisableStage::Finished => None,
            },
    {
        match self {
            DisableStage::Password => Some(Prompt::Password),
            DisableStage::Code => Some(Prompt::AuthenticationCode),
            DisableStage::Finished => None,
        }
    }
}

/// What the step may be that answers `code` where a code for the secret
/// `secret` of the user `user` is awaited to switch two-factor
/// authentication off; what the user may be after it; and what a store
/// that held `before` may hold after it.
///
/// Either the code is refused and another is awaited; or the user has no
/// secret any more, for which `code` is a code of the secret at some time,
/// and the store holds the user so; or the store has failed, as one that
/// never fails does not for a user it holds, and user and store are what
/// they were.
pub open spec fn disable_code_given(
    secret: Seq<char>,
    code: Seq<char>,
    user: UserView,
    user_after: UserView,
    before: Map<Seq<char>, UserView>,
    after: Map<Seq<char>, UserView>,
    never_fails: bool,
    step: Step<DisableStage>,
) -> bool {
    ||| {
        &&& step.stage is Code
        &&& step.notice == Some(Notice::IncorrectCode)
        &&& user_after == user
        &&& after == before
    }
    ||| {
        &&& step.stage is Finished
        &&& step.notice is None
        &&& code_valid_sometime(secret, code)
        &&& user_after == user.with_secret_2fa(None)
        &&& before.contains_key(user.email) ==> after == before.insert(user.email, user_after)
    }
    ||| {
        &&& step.stage is Finished
        &&& step.notice == Some(Notice::TwoFactorFailed)
        &&& user_after == user
        &&& after == before
        &&& !(never_fails && before.contains_key(user.email))
    }
}

/// What the step may be that answers `input` at `stage` of switching
/// two-factor authentication off for the user `user`; what the user may be
/// after it; and what a store that held `before` may hold after it.
///
/// For a user whose two-factor authentication is off already the step ends
/// the conversation and changes nothing. For any other user the password
/// is confirmed first, and only the step that accepts a code changes user
/// and store.
pub open spec fn disable_moved(
    stage: DisableStage,
    input: Seq<char>,
    user: UserView,
    user_after: UserView,
    before: Map<Seq<char>, UserView>,
    after: Map<Seq<char>, UserView>,
    never_fails: bool,
    step: Step<DisableStage>,
) -> bool {
    match user.secret_2fa {
        None => {
            &&& step.stage is Finished
            &&& step.notice == Some(Notice::AlreadyDisabled)
            &&& user_after == user
            &&& after == before
        },
        Some(secret) => match stage {
            DisableStage::Password => {
                &&& if hash_accepts(input, user.password) {
                    step.stage is Code && step.notice is None
                } else {
                    step.stage is Password && step.notice == Some(Notice::IncorrectPassword)
                }
                &&& user_after == user
                &&& after == before
            },
            DisableStage::Code => disable_code_given(
                secret,
                input,
                user,
                user_after,
                before,
                after,
                never_fails,
                step,
            ),
            DisableStage::Finished => {
                &&& step.stage is Finished
                &&& step.notice is None
                &&& user_after == user
                &&& after == before
            },
        },
    }
}

/// Two-factor authentication is switched off only by two proofs of
/// identity: user and store change only with a code that is valid at some
/// time for the secret of the user, and a code is awaited only after the
/// password of the user. A store that fails leaves the user with the
/// secret.
pub proof fn lemma_disable_takes_password_and_code(
    stage: DisableStage,
    input: Seq<char>,
    user: UserView,
    user_after: UserView,
    before: Map<Seq<char>, UserView>,
    after: Map<Seq<char>, UserView>,
    never_fails: bool,
    step: Step<DisableStage>,
)
    requires
        disable_moved(stage, input, user, user_after, before, after, never_fails, step),
    ensures
        user_after != user || after != before ==> {
            &&& stage is Code
            &&& user.secret_2fa matches Some(secret)
            &&& code_valid_sometime(secret, input)
            &&& user_after.secret_2fa is None
            &&& step.stage is Finished
            &&& step.notice is None
        },
        step.stage is Code ==> user.secret_2fa is Some && (stage is Code || (stage is Password
            && hash_accepts(input, user.password))),
        step.notice == Some(Notice::TwoFactorFailed) ==> user_after.secret_2fa is Some,
        user.secret_2fa is None ==> user_after == user && after == before,
{
}

/// Concludes the switching off of two-factor authentication for `u`, whose
/// secret was `secret` and whom the store was asked to keep without it and
/// answered with `stored`: where the store failed, the user gets the secret
/// back.
pub fn settle_disable(
    u: &mut User,
    secret: String,
    stored: Result<(), UserDBError>,
) -> (step: Step<DisableStage>)
    requires
        secret@.len() > 0,
    ensures
        step.stage is Finished,
        stored is Ok ==> step.notice is None && final(u)@ == old(u)@,
        stored is Err ==> step.notice == Some(Notice::TwoFactorFailed) && final(u)@ == old(
            u,
        )@.with_secret_2fa(Some(secret@)),
{
    match stored {
        Ok(_) => Step { stage: DisableStage::Finished, notice: None },
        Err(_) => {
            u.set_secret_2fa(Some(secret));
            Step { stage: DisableStage::Finished, notice: Some(Notice::TwoFactorFailed) }
        },
    }
}

/// Opens the switching off of two-factor authentication for `u`: there is
/// nothing to do where it is off already, else the password is awaited.
pub fn disable_2fa_process(u: &User) -> (step: Step<DisableStage>)
    ensures
        u@.secret_2fa is None ==> step.stage is Finished && step.notice == Some(
            Notice::AlreadyDisabled,
        ),
        u@.secret_2fa is Some ==> step.stage is Password && step.notice is None,
{
    if u.is_2fa_enabled() {
        Step { stage: DisableStage::Password, notice: None }
    } else {
        Step { stage: DisableStage::Finished, notice: Some(Notice::AlreadyDisabled) }
    }
}

/// Moves the switching off of two-factor authentication for `u` on by the
/// answer `input`: see [`disable_moved`].
///
/// The user is changed, and stored, only by the step that confirms a code
/// for the user's secret, which comes after the step that confirms the
/// password. Where that step succeeds the store holds the user without a
/// secret; where the store fails, the user keeps the secret. Nothing is
/// changed for a user whose two-factor authentication is off already.
pub fn _disable_2fa_process<R: UserRepository + ?Sized>(
    u: &mut User,
    stage: DisableStage,
    input: &str,
    repository: &mut R,
) -> (step: Step<DisableStage>)
    ensures
        disable_moved(
            stage,
            input@,
            old(u)@,
            final(u)@,
            old(repository).users(),
            final(repository).users(),
            old(repository).never_fails(),
            step,
        ),
        final(repository).never_fails() == old(repository).never_fails(),
{
    let secret = match u.get_secret_2fa() {
        Some(secret) => secret,
        None => {
            return Step { stage: DisableStage::Finished, notice: Some(Notice::AlreadyDisabled) };
        },
    };
    match stage {
        DisableStage::Password => {
            let digest = u.get_password();
            match confirm_identity_with_passwd(digest.as_str(), input) {
                Some(notice) => Step { stage: DisableStage::Password, notice: Some(notice) },
                None => Step { stage: DisableStage::Code, notice: None },
            }
        },
        DisableStage::Code => {
            match confirm_2fa_code(secret.as_str(), input) {
                Some(notice) => Step { stage: DisableStage::Code, notice: Some(notice) },
                None => {
                    u.set_secret_2fa(None);
                    let stored = repository.update_user(&*u);
                    settle_disable(u, secret, stored)
                },
            }
        },
        DisableStage::Finished => Step { stage: DisableStage::Finished, notice: None },
    }
}

} // verus!
