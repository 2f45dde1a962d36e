use phi_bitwarden_helper::engine::{
    Engine, EngineError, LookupOutcome, Query, StubEngine, VaultItem, VaultStatus,
};

#[test]
fn status_wire_strings() {
    assert_eq!(VaultStatus::NotInstalled.wire(), "notInstalled");
    assert_eq!(VaultStatus::NotConfigured.wire(), "notConfigured");
    assert_eq!(VaultStatus::LoggedOut.wire(), "loggedOut");
    assert_eq!(VaultStatus::Locked.wire(), "locked");
    assert_eq!(VaultStatus::Unlocked.wire(), "unlocked");
}

#[test]
fn only_errors_to_act_on_have_a_code() {
    assert_eq!(EngineError::TwoFactorRequired.code(), Some("twoFactorRequired"));
    assert_eq!(
        EngineError::NewDeviceVerificationRequired.code(),
        Some("newDeviceVerificationRequired")
    );
    assert_eq!(EngineError::InvalidNewDeviceOtp.code(), Some("invalidNewDeviceOtp"));
    assert_eq!(EngineError::NotImplemented.code(), None);
    assert_eq!(EngineError::Locked.code(), None);
    assert_eq!(EngineError::LoggedOut.code(), None);
    assert_eq!(EngineError::NotFound.code(), None);
    assert_eq!(EngineError::Failure("boom".to_string()).code(), None);
}

#[test]
fn error_messages() {
    assert_eq!(EngineError::NotImplemented.message(), "Not implemented in this build.");
    assert_eq!(EngineError::Locked.message(), "The vault is locked.");
    assert_eq!(EngineError::LoggedOut.message(), "Not logged in.");
    assert_eq!(EngineError::NotFound.message(), "No matching item.");
    assert_eq!(EngineError::TwoFactorRequired.message(), "Two-step code required.");
    assert_eq!(
        EngineError::NewDeviceVerificationRequired.message(),
        "New device verification required. Enter the code emailed to you."
    );
    assert_eq!(
        EngineError::InvalidNewDeviceOtp.message(),
        "That verification code is invalid or has expired."
    );
    assert_eq!(EngineError::Failure("boom".to_string()).message(), "boom");
}

#[test]
fn the_stub_refuses_every_operation() {
    let stub = StubEngine::new();
    let query = Query::Id("x".to_string());
    assert!(matches!(stub.status(), Ok(VaultStatus::NotConfigured)));
    assert!(stub.account().is_none());
    assert!(matches!(
        stub.login("a@b.c", "pw", None, None, None, None, "", ""),
        Err(EngineError::NotImplemented)
    ));
    assert!(matches!(stub.unlock(Some("pw"), None, None), Err(EngineError::NotImplemented)));
    stub.lock();
    assert!(matches!(stub.logout(), Err(EngineError::NotImplemented)));
    assert!(matches!(
        stub.restore("a@b.c", None, None, None, None, "", ""),
        Err(EngineError::NotImplemented)
    ));
    assert!(matches!(stub.lookup(&query), Err(EngineError::NotImplemented)));
    assert!(matches!(stub.totp(&query), Err(EngineError::NotImplemented)));
    stub.set_timeout("never", "lock");
    stub.enforce_timeout(1_000_000);
    assert!(matches!(stub.status(), Ok(VaultStatus::NotConfigured)));
}

#[test]
fn a_default_item_is_empty() {
    let item = VaultItem::default();
    assert_eq!(item.id, "");
    assert_eq!(item.kind, "");
    assert!(item.password.is_none());
    assert!(item.typed.is_empty());
    assert!(!matches!(LookupOutcome::Miss, LookupOutcome::Hit(_)));
}
