use chatroom::user::{Error, UserRegistry, Username};

#[test]
fn test_username_valid() {
    assert!(Username::new("alice").is_ok());
    assert!(Username::new("user_123").is_ok());
    assert!(Username::new("你好").is_ok());
}

#[test]
fn test_username_trims_whitespace() {
    let username = Username::new("  alice  ").unwrap();
    assert_eq!(username.text(), "alice");
}

#[test]
fn test_username_empty() {
    assert_eq!(Username::new("").unwrap_err(), Error::UsernameEmpty);
    assert_eq!(Username::new("   ").unwrap_err(), Error::UsernameEmpty);
}

#[test]
fn test_username_too_long() {
    let long_name = "a".repeat(33);
    assert_eq!(Username::new(&long_name).unwrap_err(), Error::UsernameTooLong);
}

#[test]
fn test_username_invalid_chars() {
    assert_eq!(
        Username::new("user@name").unwrap_err(),
        Error::UsernameNotAlphanumeric
    );
    assert_eq!(
        Username::new("hello!").unwrap_err(),
        Error::UsernameNotAlphanumeric
    );
}

#[test]
fn test_username_display() {
    let username = Username::new("alice").unwrap();
    assert_eq!(username.text(), "alice");
}

#[test]
fn test_registry_register_success() {
    let mut registry = UserRegistry::new();
    let (tx, _rx) = crossbeam::channel::bounded(256);
    let username = Username::new("alice").unwrap();

    let result = registry.register(&username, tx);
    assert!(result.is_ok());
    assert_eq!(result.unwrap().get_username(), username);
}

#[test]
fn test_registry_duplicate_detection() {
    let mut registry = UserRegistry::new();
    let (tx1, _rx1) = crossbeam::channel::bounded(256);
    let (tx2, _rx2) = crossbeam::channel::bounded(256);
    let username = Username::new("bob").unwrap();

    assert!(registry.register(&username, tx1).is_ok());
    let err = registry.register(&username, tx2).unwrap_err();
    assert_eq!(err, Error::UsernameTaken("bob".to_string()));
}

#[test]
fn test_registry_case_insensitive_duplicate() {
    let mut registry = UserRegistry::new();
    let (tx1, _rx1) = crossbeam::channel::bounded(256);
    let (tx2, _rx2) = crossbeam::channel::bounded(256);

    let alice_lower = Username::new("alice").unwrap();
    let alice_upper = Username::new("ALICE").unwrap();

    assert!(registry.register(&alice_lower, tx1).is_ok());
    let err = registry.register(&alice_upper, tx2).unwrap_err();
    assert_eq!(err, Error::UsernameTaken("ALICE".to_string()));
}

#[test]
fn test_registry_unregister() {
    let mut registry = UserRegistry::new();
    let (tx, _rx) = crossbeam::channel::bounded(256);
    let username = Username::new("charlie").unwrap();

    let user = registry.register(&username, tx).unwrap();
    assert!(registry.unregister(&user).unwrap());

    assert!(!registry.unregister(&user).unwrap());
}

#[test]
fn test_registry_reregister_after_unregister() {
    let mut registry = UserRegistry::new();
    let (tx1, _rx1) = crossbeam::channel::bounded(256);
    let (tx2, _rx2) = crossbeam::channel::bounded(256);
    let username = Username::new("dave").unwrap();

    let user = registry.register(&username, tx1).unwrap();
    assert!(registry.unregister(&user).unwrap());

    assert!(registry.register(&username, tx2).is_ok());
}

#[test]
fn test_user_display() {
    let mut registry = UserRegistry::new();
    let (tx, _rx) = crossbeam::channel::bounded(256);
    let username = Username::new("echo").unwrap();
    let user = registry.register(&username, tx).unwrap();
    assert_eq!(user.get_username().text(), "echo");
}

#[test]
fn test_error_messages() {
    assert_eq!(Error::UsernameEmpty.message(), "username cannot be empty");
    assert_eq!(
        Error::UsernameTooLong.message(),
        "username too long (max 32 chars)"
    );
    assert_eq!(
        Error::UsernameNotAlphanumeric.message(),
        "username must be alphanumeric"
    );
    assert_eq!(
        Error::UsernameTaken("zoe".to_string()).message(),
        "username 'zoe' is already taken"
    );
    assert_eq!(Error::LockTimeout.message(), "registry lock timeout");
}

#[test]
fn test_broadcast_counts_and_excludes() {
    let mut registry = UserRegistry::new();
    let (tx1, rx1) = crossbeam::channel::bounded(256);
    let (tx2, rx2) = crossbeam::channel::bounded(256);
    let alice = Username::new("alice").unwrap();
    let bob = Username::new("bob").unwrap();
    registry.register(&alice, tx1).unwrap();
    registry.register(&bob, tx2).unwrap();

    // No exclusion: both get the payload.
    let sent = registry.broadcast(&"hi".to_string(), None).unwrap();
    assert_eq!(sent, 2);
    assert_eq!(rx1.try_recv().unwrap(), "hi");
    assert_eq!(rx2.try_recv().unwrap(), "hi");

    // Excluding alice: only bob gets it.
    let sent = registry.broadcast(&"yo".to_string(), Some(&alice)).unwrap();
    assert_eq!(sent, 1);
    assert!(rx1.try_recv().is_err());
    assert_eq!(rx2.try_recv().unwrap(), "yo");

    // Excluding an unregistered name changes nothing.
    let carol = Username::new("carol").unwrap();
    let sent = registry.broadcast(&"ho".to_string(), Some(&carol)).unwrap();
    assert_eq!(sent, 2);
}

#[test]
fn test_broadcast_preserves_per_recipient_order() {
    let mut registry = UserRegistry::new();
    let (tx, rx) = crossbeam::channel::bounded(256);
    let dana = Username::new("dana").unwrap();
    registry.register(&dana, tx).unwrap();

    for i in 0..5 {
        registry.broadcast(&format!("m{i}"), None).unwrap();
    }
    for i in 0..5 {
        assert_eq!(rx.try_recv().unwrap(), format!("m{i}"));
    }
}

#[test]
fn test_register_after_register_iff_keys_differ() {
    // Same normalized key (case fold): second registration refused.
    let mut registry = UserRegistry::new();
    let (tx1, _rx1) = crossbeam::channel::bounded(256);
    let (tx2, _rx2) = crossbeam::channel::bounded(256);
    let a = Username::new("Straße").unwrap();
    let b = Username::new("STRASSE").unwrap();
    registry.register(&a, tx1).unwrap();
    assert!(registry.register(&b, tx2).is_err());

    // Different keys: both succeed.
    let mut registry = UserRegistry::new();
    let (tx1, _rx1) = crossbeam::channel::bounded(256);
    let (tx2, _rx2) = crossbeam::channel::bounded(256);
    let a = Username::new("alice").unwrap();
    let b = Username::new("bob").unwrap();
    assert!(registry.register(&a, tx1).is_ok());
    assert!(registry.register(&b, tx2).is_ok());
}
