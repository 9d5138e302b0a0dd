use sockets::auth::{Authenticator, SingleKeyAuthenticator};
use sockets::error::Error;

#[test]
fn single_key_accepts_its_key() {
    let auth = SingleKeyAuthenticator::new("secret".to_string());
    assert!(auth.authenticate("secret".to_string()).is_ok());
}

#[test]
fn single_key_refuses_other_key() {
    let auth = SingleKeyAuthenticator::new("secret".to_string());
    assert!(matches!(auth.authenticate("Secret".to_string()), Err(Error::Unauthorized)));
    assert!(matches!(auth.authenticate("".to_string()), Err(Error::Unauthorized)));
    assert!(matches!(auth.authenticate("secret ".to_string()), Err(Error::Unauthorized)));
}

#[test]
fn single_key_needs_auth_when_key_set() {
    let auth = SingleKeyAuthenticator::new("k".to_string());
    assert!(auth.auth_needed());
}

#[test]
fn empty_key_needs_no_auth_and_accepts_empty_key() {
    let auth = SingleKeyAuthenticator::new(String::new());
    assert!(!auth.auth_needed());
    assert!(auth.authenticate(String::new()).is_ok());
    assert!(matches!(auth.authenticate("x".to_string()), Err(Error::Unauthorized)));
}

#[test]
fn authenticator_usable_as_trait_object() {
    let auth: Box<dyn Authenticator> = Box::new(SingleKeyAuthenticator::new("abc".to_string()));
    assert!(auth.auth_needed());
    assert!(auth.authenticate("abc".to_string()).is_ok());
    assert!(auth.authenticate("abd".to_string()).is_err());
}

#[test]
fn failed_attempts_lock_nothing_out() {
    let auth = SingleKeyAuthenticator::new("key".to_string());
    for wrong in ["", "k", "KEY", "key2"] {
        assert!(matches!(auth.authenticate(wrong.to_string()), Err(Error::Unauthorized)));
    }
    assert!(auth.auth_needed());
    assert!(auth.authenticate("key".to_string()).is_ok());
    assert!(matches!(auth.authenticate("nope".to_string()), Err(Error::Unauthorized)));
    assert!(auth.authenticate("key".to_string()).is_ok());
}
