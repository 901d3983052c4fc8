//! The user: credentials, a pending password reset, and the secret of the
//! second factor.
use vstd::prelude::*;
use crate::clock::{rfc3339_parsed, rfc3339_text, Timestamp};

verus! {

/// A reset token that is waiting to be used.
pub struct PendingResetView {
    /// The token that was issued.
    pub token: Seq<char>,
    /// When it was issued.
    pub created_at: Timestamp,
}

/// What a [`User`] stands for.
pub struct UserView {
    /// The address that identifies the user.
    pub email: Seq<char>,
    /// The digest of the password.
    pub password: Seq<char>,
    /// The reset token that is waiting to be used, if any.
    pub reset: Option<PendingResetView>,
    /// The secret of the second factor; two-factor authentication is on
    /// exactly when it is present.
    pub secret_2fa: Option<Seq<char>>,
}

impl UserView {
    /// The digest is not empty, and neither is a secret that is present.
    pub open spec fn well_formed(self) -> bool {
        &&& self.password.len() > 0
        &&& self.secret_2fa matches Some(secret) ==> secret.len() > 0
    }

    /// This user with a reset token issued at `created_at`.
    pub open spec fn with_reset(self, token: Seq<char>, created_at: Timestamp) -> UserView {
        UserView { reset: Some(PendingResetView { token, created_at }), ..self }
    }

    /// This user with another password digest.
    pub open spec fn with_password(self, password: Seq<char>) -> UserView {
        UserView { password, ..self }
    }

    /// This user with another second-factor secret, or with none.
    pub open spec fn with_secret_2fa(self, secret_2fa: Option<Seq<char>>) -> UserView {
        UserView { secret_2fa, ..self }
    }
}

/// What an optional string stands for.
pub open spec fn text_of(text: Option<String>) -> Option<Seq<char>> {
    match text {
        Some(text) => Some(text@),
        None => None,
    }
}

/// The user that a store's record stands for: `None` where the digest is
/// empty, where a secret is present but empty, where token and time of issue
/// are not both present or both absent, or where the time of issue is no
/// RFC 3339 date and time.
pub open spec fn restored(
    email: Seq<char>,
    password: Seq<char>,
    reset_token: Option<Seq<char>>,
    reset_token_created_at: Option<Seq<char>>,
    secret_2fa: Option<Seq<char>>,
) -> Option<UserView> {
    if password.len() == 0 || secret_2fa == Some(Seq::<char>::empty()) {
        None
    } else {
        match (reset_token, reset_token_created_at) {
            (None, None) => Some(UserView { email, password, reset: None, secret_2fa }),
            (Some(token), Some(text)) => match rfc3339_parsed(text) {
                Some((secs, nanos)) => Some(
                    UserView {
                        email,
                        password,
                        reset: Some(
                            PendingResetView {
                                token,
                                created_at: Timestamp { secs: secs as i64, nanos: nanos as u32 },
                            },
                        ),
                        secret_2fa,
                    },
                ),
                None => None,
            },
            _ => None,
        }
    }
}

/// A reset token together with the time at which it was issued. The two
/// exist only as a pair.
#[derive(Debug, PartialEq, Eq)]
struct PendingReset {
    token: String,
    created_at: Timestamp,
}

impl View for PendingReset {
    type V = PendingResetView;

    closed spec fn view(&self) -> PendingResetView {
        PendingResetView { token: self.token@, created_at: self.created_at }
    }
}

impl Clone for PendingReset {
    fn clone(&self) -> (copy: Self)
        ensures
            copy@ == self@,
    {
        PendingReset { token: self.token.clone(), created_at: self.created_at }
    }
}

/// A registered user.
///
/// The password digest of a user is never empty, and a second-factor secret
/// that is present is not empty either.
#[derive(Debug, PartialEq, Eq)]
pub struct User {
    email: String,
    password: String,
    reset: Option<PendingReset>,
    secret_2fa: Option<String>,
}

impl View for User {
    type V = UserView;

    closed spec fn view(&self) -> UserView {
        UserView {
            email: self.email@,
            password: self.password@,
            reset: match self.reset {
                Some(pending) => Some(pending@),
                None => None,
            },
            secret_2fa: match self.secret_2fa {
                Some(secret) => Some(secret@),
                None => None,
            },
        }
    }
}

impl Clone for User {
    fn clone(&self) -> (copy: Self)
        ensures
            copy@ == self@,
    {
        proof {
            use_type_invariant(self);
        }
        let reset = match &self.reset {
            Some(pending) => Some(pending.clone()),
            None => None,
        };
        let secret_2fa = match &self.secret_2fa {
            Some(secret) => Some(secret.clone()),
            None => None,
        };
        User { email: self.email.clone(), password: self.password.clone(), reset, secret_2fa }
    }
}

impl User {
    #[verifier::type_invariant]
    spec fn holds_its_invariant(self) -> bool {
        self@.well_formed()
    }

    /// A user with the given address and password digest, without a pending
    /// reset and without a second factor.
    pub fn new(email: &str, password: &str) -> (user: User)
        requires
            password@.len() > 0,
        ensures
            user@ == (UserView {
                email: email@,
                password: password@,
                reset: None,
                secret_2fa: None,
            }),
            user@.well_formed(),
    {
        User {
            email: email.to_owned(),
            password: password.to_owned(),
            reset: None,
            secret_2fa: None,
        }
    }

    /// The address that identifies the user.
    pub fn get_email(&self) -> (email: String)
        ensures
            email@ == self@.email,
    {
        self.email.clone()
    }

    /// The user that a store's record stands for, if the record is one of a
    /// user: see [`restored`].
    pub fn restore(
        email: &str,
        password: &str,
        reset_token: Option<String>,
        reset_token_created_at: Option<String>,
        secret_2fa: Option<String>,
    ) -> (user: Option<User>)
        ensures
            restored(
                email@,
                password@,
                text_of(reset_token),
                text_of(reset_token_created_at),
                text_of(secret_2fa),
            ) == match user {
                Some(user) => Some(user@),
                None => None,
            },
            user matches Some(user) ==> user@.well_formed(),
    {
        if password.is_empty() {
            return None;
        }
        if let Some(secret) = &secret_2fa {
            if secret.as_str().is_empty() {
                assert(secret@ =~= Seq::<char>::empty());
                return None;
            }
        }
        let reset = match (reset_token, reset_token_created_at) {
            (None, None) => None,
            (Some(token), Some(text)) => match Timestamp::parse_rfc3339(text.as_str()) {
                Some(created_at) => Some(PendingReset { token, created_at }),
                None => {
                    return None;
                },
            },
            _ => {
                return None;
            },
        };
        Some(User { email: email.to_owned(), password: password.to_owned(), reset, secret_2fa })
    }

    /// Whether `email` is the address that identifies the user.
    pub fn has_email(&self, email: &str) -> (same: bool)
        ensures
            same == (self@.email == email@),
    {
        self.email == email.to_owned()
    }

    /// The digest of the password.
    pub fn get_password(&self) -> (password: String)
        ensures
            password@ == self@.password,
            password@.len() > 0,
    {
        proof {
            use_type_invariant(self);
        }
        self.password.clone()
    }

    /// Replaces the digest of the password; nothing else changes.
    pub fn set_password(&mut self, password: &str)
        requires
            password@.len() > 0,
        ensures
            final(self)@ == old(self)@.with_password(password@),
    {
        proof {
            use_type_invariant(&*self);
        }
        self.password = password.to_owned();
    }

    /// The reset token that is waiting to be used, if any.
    pub fn get_reset_token(&self) -> (token: Option<String>)
        ensures
            match token {
                Some(token) => self@.reset matches Some(pending) && pending.token == token@,
                None => self@.reset is None,
            },
    {
        match &self.reset {
            Some(pending) => Some(pending.token.clone()),
            None => None,
        }
    }

    /// When the pending reset token was issued, as an RFC 3339 date and time
    /// in UTC; `None` where no token is pending or its time has no such
    /// form.
    pub fn get_reset_token_created_at(&self) -> (text: Option<String>)
        ensures
            match text {
                Some(text) => self@.reset matches Some(pending) && rfc3339_text(
                    pending.created_at.secs as int,
                    pending.created_at.nanos as int,
                ) == Some(text@),
                None => self@.reset matches Some(pending) ==> rfc3339_text(
                    pending.created_at.secs as int,
                    pending.created_at.nanos as int,
                ) is None,
            },
    {
        match &self.reset {
            Some(pending) => pending.created_at.to_rfc3339(),
            None => None,
        }
    }

    /// When the pending reset token was issued, if there is one.
    pub fn reset_token_created_at(&self) -> (at: Option<Timestamp>)
        ensures
            match at {
                Some(at) => self@.reset matches Some(pending) && pending.created_at == at,
                None => self@.reset is None,
            },
    {
        match &self.reset {
            Some(pending) => Some(pending.created_at),
            None => None,
        }
    }

    /// Attaches the reset token `token`, issued at `created_at`, in place of
    /// any earlier one; nothing else changes.
    pub fn set_reset_token_at(&mut self, token: &str, created_at: Timestamp)
        ensures
            final(self)@ == old(self)@.with_reset(token@, created_at),
    {
        proof {
            use_type_invariant(&*self);
        }
        self.reset = Some(PendingReset { token: token.to_owned(), created_at });
    }

    /// Attaches the reset token `token`, issued now, in place of any earlier
    /// one; nothing else changes.
    pub fn set_reset_token(&mut self, token: &str)
        ensures
            final(self)@.reset matches Some(pending) && final(self)@ == old(self)@.with_reset(
                token@,
                pending.created_at,
            ),
    {
        let now = Timestamp::now();
        self.set_reset_token_at(token, now);
    }

    /// Whether two-factor authentication is on: whether a secret is present.
    pub fn is_2fa_enabled(&self) -> (enabled: bool)
        ensures
            enabled == self@.secret_2fa.is_some(),
    {
        self.secret_2fa.is_some()
    }

    /// The secret of the second factor, if two-factor authentication is on.
    pub fn get_secret_2fa(&self) -> (secret: Option<String>)
        ensures
            match secret {
                Some(secret) => self@.secret_2fa == Some(secret@) && secret@.len() > 0,
                None => self@.secret_2fa is None,
            },
    {
        proof {
            use_type_invariant(self);
        }
        match &self.secret_2fa {
            Some(secret) => Some(secret.clone()),
            None => None,
        }
    }

    /// Replaces the secret of the second factor: `Some` switches two-factor
    /// authentication on, `None` switches it off. Nothing else changes.
    pub fn set_secret_2fa(&mut self, secret: Option<String>)
        requires
            secret matches Some(s) ==> s@.len() > 0,
        ensures
            final(self)@ == old(self)@.with_secret_2fa(
                match secret {
                    Some(s) => Some(s@),
                    None => None,
                },
            ),
    {
        proof {
            use_type_invariant(&*self);
        }
        self.secret_2fa = secret;
    }
}

} // verus!
