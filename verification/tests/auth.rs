use tripwire::auth::{AuthState, StoredAuth};
use tripwire::models::UserStatus;
use tripwire::mock_data::make_user;

#[test]
fn new_session_is_signed_out() {
    let a = AuthState::new(None);
    assert!(!a.is_authenticated());
    assert!(a.current_user.is_none());
    assert!(a.stored().is_none());
}

#[test]
fn blank_email_is_refused() {
    let mut a = AuthState::new(None);
    assert!(!a.login("   ", "secret123"));
    assert_eq!(a.login_error.as_deref(), Some("Email is required."));
    assert!(!a.is_authenticated());
}

#[test]
fn short_password_is_refused() {
    let mut a = AuthState::new(None);
    assert!(!a.login("bob@example.com", "12345"));
    assert_eq!(a.login_error.as_deref(), Some("Password must be at least 6 characters."));
    assert!(!a.is_authenticated());
    // Six bytes, fewer characters: accepted.
    assert!(a.login("bob@example.com", "ééé"));
}

#[test]
fn login_derives_the_user_from_the_address() {
    let mut a = AuthState::new(None);
    assert!(a.login("bob@example.com", "123456"));
    let u = a.current_user.clone().unwrap();
    assert_eq!(u.id, "user_bob");
    assert_eq!(u.username, "bob");
    assert_eq!(u.discriminator, "0001");
    assert_eq!(u.status, UserStatus::Online);
    assert_eq!(a.token.as_deref(), Some("token_mock_bob@example.com"));
    assert!(a.login_error.is_none());
    assert!(a.is_authenticated());
}

#[test]
fn login_without_at_uses_the_whole_name() {
    let mut a = AuthState::new(None);
    assert!(a.login("carol", "password"));
    assert_eq!(a.current_user.unwrap().username, "carol");
}

#[test]
fn failed_login_keeps_the_session() {
    let mut a = AuthState::new(None);
    a.bypass_login();
    assert!(!a.login("", "x"));
    assert!(a.is_authenticated());
    assert_eq!(a.current_user.unwrap().id, "dev_user");
}

#[test]
fn bypass_login_signs_in_the_dev_user() {
    let mut a = AuthState::new(None);
    a.bypass_login();
    let u = a.current_user.clone().unwrap();
    assert_eq!((u.id.as_str(), u.username.as_str(), u.discriminator.as_str()), ("dev_user", "DevUser", "9999"));
    assert_eq!(a.token.as_deref(), Some("dev_bypass_token"));
}

#[test]
fn logout_forgets_everything() {
    let mut a = AuthState::new(None);
    a.bypass_login();
    a.logout();
    assert!(!a.is_authenticated());
    assert!(a.current_user.is_none());
    assert!(a.login_error.is_none());
}

#[test]
fn session_roundtrip_restores_user_and_token() {
    let mut a = AuthState::new(None);
    assert!(a.login("dave@x.org", "hunter22"));
    let kept = a.stored().unwrap();
    let b = AuthState::new(Some(kept));
    assert!(b.is_authenticated());
    assert_eq!(b.token, a.token);
    assert_eq!(b.current_user.unwrap().id, "user_dave");
    let c = AuthState::new(Some(StoredAuth {
        token: "t".into(),
        user: make_user("u1", "Alice", "0001", UserStatus::Online),
    }));
    assert_eq!(c.token.as_deref(), Some("t"));
}
