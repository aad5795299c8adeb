//! Sign-in state: who is signed in, with which token, and why a sign-in
//! failed.
use vstd::prelude::*;
use crate::models::{User, UserStatus};
use crate::message::utf8_len;
use crate::text::{str_concat, is_blank, all_white_space, str_eq, before_first, before_char};

verus! {

/// What is kept of a session between runs.
#[derive(Debug)]
pub struct StoredAuth {
    pub token: String,
    pub user: User,
}

/// The session in memory.
#[derive(Debug)]
pub struct AuthState {
    pub current_user: Option<User>,
    pub token: Option<String>,
    pub login_error: Option<String>,
}

/// The session that `stored` restores.
pub open spec fn restored(stored: Option<StoredAuth>) -> AuthState {
    match stored {
        Some(s) => AuthState { current_user: Some(s.user), token: Some(s.token), login_error: None },
        None => AuthState { current_user: None, token: None, login_error: None },
    }
}

/// What is kept of session `a`: its token and user, when it has both.
pub open spec fn kept_of(a: AuthState) -> Option<StoredAuth> {
    match (a.token, a.current_user) {
        (Some(t), Some(u)) => Some(StoredAuth { token: t, user: u }),
        _ => None,
    }
}

/// A session that is kept and then restored is the same session: the same
/// user with the same token, signed in.
pub proof fn law_session_roundtrip(a: AuthState)
    requires
        a.token is Some,
        a.current_user is Some,
    ensures
        restored(kept_of(a)).current_user == a.current_user,
        restored(kept_of(a)).token == a.token,
        restored(kept_of(a)).token is Some,
{
}

impl AuthState {
    /// The session restored from `stored`, or a signed-out one.
    pub fn new(stored: Option<StoredAuth>) -> (r: Self)
        ensures
            r == restored(stored),
    {
        match stored {
            Some(s) => AuthState { current_user: Some(s.user), token: Some(s.token), login_error: None },
            None => AuthState { current_user: None, token: None, login_error: None },
        }
    }

    /// Whether a token is held.
    pub fn is_authenticated(&self) -> (r: bool)
        ensures
            r == self.token.is_some(),
    {
        self.token.is_some()
    }

    /// Signs in with an e-mail address (or user name) and a password. An
    /// address that is blank, or a password shorter than six bytes, is
    /// refused with a message in `login_error`; otherwise the user named by the
    /// part of the address before `@` is signed in.
    pub fn login(&mut self, email: &str, password: &str) -> (ok: bool)
        ensures
            ok == (!all_white_space(email@) && utf8_len(password@) >= 6),
            all_white_space(email@) ==> (final(self).login_error matches Some(e) && e@
                == "Email is required."@),
            !all_white_space(email@) && utf8_len(password@) < 6 ==> (final(self).login_error
                matches Some(e) && e@ == "Password must be at least 6 characters."@),
            !ok ==> final(self).current_user == old(self).current_user && final(self).token
                == old(self).token,
            ok ==> final(self).login_error is None,
            ok ==> (final(self).current_user matches Some(u) && u.id@ == seq!['u', 's', 'e', 'r', '_']
                + before_first(email@, '@') && u.username@ == before_first(email@, '@')
                && u.discriminator@ == "0001"@ && u.status == UserStatus::Online),
            ok ==> (final(self).token matches Some(t) && t@ == "token_mock_"@ + email@),
    {
        if is_blank(email) {
            self.login_error = Some(String::from_str("Email is required."));
            return false;
        }
        if password.as_bytes().len() < 6 {
            self.login_error = Some(String::from_str("Password must be at least 6 characters."));
            return false;
        }
        let username = before_char(email, '@');
        let id = str_concat("user_", username.as_str());
        proof {
            reveal_strlit("user_");
            assert(id@ =~= seq!['u', 's', 'e', 'r', '_'] + before_first(email@, '@'));
        }
        let user = User {
            id,
            username,
            discriminator: String::from_str("0001"),
            status: UserStatus::Online,
        };
        let token = str_concat("token_mock_", email);
        self.current_user = Some(user);
        self.token = Some(token);
        self.login_error = None;
        true
    }

    /// Signs in as the development user without any check.
    pub fn bypass_login(&mut self)
        ensures
            final(self).current_user matches Some(u) && u.id@ == "dev_user"@ && u.username@
                == "DevUser"@ && u.discriminator@ == "9999"@ && u.status == UserStatus::Online,
            final(self).token matches Some(t) && t@ == "dev_bypass_token"@,
            final(self).login_error is None,
    {
        let user = User {
            id: String::from_str("dev_user"),
            username: String::from_str("DevUser"),
            discriminator: String::from_str("9999"),
            status: UserStatus::Online,
        };
        self.current_user = Some(user);
        self.token = Some(String::from_str("dev_bypass_token"));
        self.login_error = None;
    }

    /// Forgets the session.
    pub fn logout(&mut self)
        ensures
            final(self).current_user is None,
            final(self).token is None,
            final(self).login_error is None,
    {
        self.current_user = None;
        self.token = None;
        self.login_error = None;
    }

    /// What is to be kept of the session: the token and the user, when both
    /// are present.
    pub fn stored(&self) -> (r: Option<StoredAuth>)
        ensures
            r == kept_of(*self),
    {
        match (&self.token, &self.current_user) {
            (Some(t), Some(u)) => Some(StoredAuth { token: t.clone(), user: u.clone() }),
            _ => None,
        }
    }
}

} // verus!
