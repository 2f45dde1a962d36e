use phi_bitwarden_helper::cipher::{Cipher, CipherType};
use phi_bitwarden_helper::engine::{
    EngineError, LookupOutcome, PersistedRecord, Query, VaultStatus,
};
use phi_bitwarden_helper::session::{Persist, Session, TimeoutAction, TimeoutKind, UnlockStep};
use phi_bitwarden_helper::signin::{
    code_request, complete_login, login_error, login_outcome, login_request, readable,
    remember_request, restore_request, LoginFailure, LoginReply, SignedIn, TwoFactorProvider,
};

fn note(name: &str) -> Cipher {
    Cipher {
        id: Some(name.to_string()),
        kind: CipherType::SecureNote,
        name: name.to_string(),
        notes: None,
        login: None,
        card: None,
        identity: None,
        ssh_key: None,
        view_password: true,
        reprompt: false,
        deleted: false,
        archived: false,
    }
}

fn signed_in(client: u32, token: Option<&str>) -> Result<SignedIn<u32>, EngineError> {
    Ok(SignedIn {
        client,
        ciphers: vec![note("alpha")],
        remember_token: token.map(str::to_string),
    })
}

fn unlocked(timeout: &str, action: &str) -> Session<u32> {
    let mut session = Session::new();
    session
        .finish_login(
            signed_in(7, Some("token")),
            "a@b.c",
            "pw",
            Some("https://i"),
            Some(""),
            timeout,
            action,
        )
        .expect("the login succeeded");
    session
}

fn stored(persist: Persist) -> PersistedRecord {
    match persist {
        Persist::Store(record) => record,
        other => panic!("unexpected: {other:?}"),
    }
}

fn search(needle: &str) -> Query {
    Query::Search(needle.to_string())
}

#[test]
fn policies_are_read_from_their_wire_strings() {
    assert_eq!(TimeoutKind::parse("oneHour"), TimeoutKind::OneHour);
    assert_eq!(TimeoutKind::parse("fourHours"), TimeoutKind::FourHours);
    assert_eq!(TimeoutKind::parse("onSystemLock"), TimeoutKind::OnSystemLock);
    assert_eq!(TimeoutKind::parse("never"), TimeoutKind::Never);
    assert_eq!(TimeoutKind::parse("onBrowserRestart"), TimeoutKind::OnBrowserRestart);
    assert_eq!(TimeoutKind::parse(""), TimeoutKind::OnBrowserRestart);
    assert_eq!(TimeoutAction::parse("logOut"), TimeoutAction::LogOut);
    assert_eq!(TimeoutAction::parse("lock"), TimeoutAction::Lock);
    assert_eq!(TimeoutAction::parse("x"), TimeoutAction::Lock);
    assert_eq!(TimeoutKind::OneHour.idle_secs(), Some(3600));
    assert_eq!(TimeoutKind::FourHours.idle_secs(), Some(14400));
    assert_eq!(TimeoutKind::OnSystemLock.idle_secs(), None);
    assert_eq!(TimeoutKind::OnBrowserRestart.idle_secs(), None);
    assert_eq!(TimeoutKind::Never.idle_secs(), None);
}

#[test]
fn a_new_session_is_logged_out() {
    let session: Session<u32> = Session::new();
    assert_eq!(session.status(), VaultStatus::LoggedOut);
    assert!(session.account().is_none());
    assert!(session.persist_record().is_none());
    assert!(matches!(session.require_client(), Err(EngineError::LoggedOut)));
    assert!(matches!(session.totp(&search("x")), Err(EngineError::NotImplemented)));
}

#[test]
fn a_login_unlocks_and_persists_by_policy() {
    let session = unlocked("never", "lock");
    assert_eq!(session.status(), VaultStatus::Unlocked);
    assert_eq!(session.account().as_deref(), Some("a@b.c"));
    assert_eq!(session.require_client().unwrap(), &7);
    let record = session.persist_record().unwrap();
    assert_eq!(record.email, "a@b.c");
    assert_eq!(record.master_password.as_deref(), Some("pw"));
    assert_eq!(record.two_factor_token.as_deref(), Some("token"));
    assert_eq!(record.identity_url.as_deref(), Some("https://i"));
    assert!(record.api_url.is_none());
}

#[test]
fn a_browser_restart_policy_persists_no_password() {
    let record = unlocked("onBrowserRestart", "lock").persist_record().unwrap();
    assert!(record.master_password.is_none());
    assert_eq!(record.two_factor_token.as_deref(), Some("token"));
    assert!(restore_request(
        &record.email,
        record.master_password.as_deref(),
        record.two_factor_token.as_deref(),
        None,
        None
    )
    .is_none());
    assert!(unlocked("onBrowserRestart", "logOut").persist_record().is_none());
    for timeout in ["oneHour", "fourHours", "onSystemLock", "never"] {
        for action in ["lock", "logOut"] {
            let record = unlocked(timeout, action).persist_record().unwrap();
            assert_eq!(record.master_password.as_deref(), Some("pw"));
        }
    }
}

#[test]
fn a_failed_login_changes_nothing() {
    let mut session = unlocked("never", "lock");
    let refused = session.finish_login(
        Err(EngineError::TwoFactorRequired),
        "x@y.z",
        "other",
        None,
        None,
        "oneHour",
        "logOut",
    );
    assert!(matches!(refused, Err(EngineError::TwoFactorRequired)));
    assert_eq!(session.account().as_deref(), Some("a@b.c"));
    assert!(matches!(
        session.finish_unlock(Err(EngineError::Failure("no".to_string())), "pw"),
        Err(EngineError::Failure(m)) if m == "no"
    ));
    assert!(matches!(
        session.finish_restore(
            Err(EngineError::LoggedOut), "x@y.z", "p", None, None, None, "", ""
        ),
        Err(EngineError::LoggedOut)
    ));
    assert_eq!(session.status(), VaultStatus::Unlocked);
    assert_eq!(session.account().as_deref(), Some("a@b.c"));
}

#[test]
fn locking_seals_the_vault_and_keeps_the_account() {
    let mut session = unlocked("never", "lock");
    let record = stored(session.lock());
    assert!(record.master_password.is_none());
    assert_eq!(record.two_factor_token.as_deref(), Some("token"));
    assert_eq!(session.status(), VaultStatus::Locked);
    assert_eq!(session.account().as_deref(), Some("a@b.c"));
    assert!(matches!(session.require_client(), Err(EngineError::LoggedOut)));
    // Again: the same record.
    assert_eq!(stored(session.lock()).email, "a@b.c");
    assert_eq!(session.status(), VaultStatus::Locked);
    // Without an account there is nothing to downgrade.
    let mut fresh: Session<u32> = Session::new();
    assert!(matches!(fresh.lock(), Persist::Keep));
    assert_eq!(fresh.status(), VaultStatus::LoggedOut);
}

#[test]
fn unlocking_replays_the_token_unless_a_code_is_typed() {
    let mut session = unlocked("never", "lock");
    assert!(matches!(session.begin_unlock(None, None, None), UnlockStep::AlreadyUnlocked));
    session.lock();
    match session.begin_unlock(Some("pw2"), Some(""), Some("otp")) {
        UnlockStep::SignIn(request) => {
            assert_eq!(request.email, "a@b.c");
            assert_eq!(request.password, "pw2");
            let factor = request.two_factor.unwrap();
            assert_eq!(factor.token, "token");
            assert_eq!(factor.provider, TwoFactorProvider::Remember);
            assert!(!factor.remember);
            assert_eq!(request.new_device_otp.as_deref(), Some("otp"));
            assert_eq!(request.identity_url.as_deref(), Some("https://i"));
            assert!(request.api_url.is_none());
        }
        _ => panic!("not signing in"),
    }
    match session.begin_unlock(Some("pw2"), Some("42"), None) {
        UnlockStep::SignIn(request) => {
            let factor = request.two_factor.unwrap();
            assert_eq!(factor.token, "42");
            assert_eq!(factor.provider, TwoFactorProvider::Authenticator);
            assert!(factor.remember);
            assert!(request.new_device_otp.is_none());
        }
        _ => panic!("not signing in"),
    }
    let record = stored(session.finish_unlock(signed_in(8, None), "pw2").unwrap());
    assert_eq!(record.master_password.as_deref(), Some("pw2"));
    assert_eq!(record.two_factor_token.as_deref(), Some("token"));
    assert_eq!(session.status(), VaultStatus::Unlocked);
    session.lock();
    let record = stored(session.finish_unlock(signed_in(9, Some("new")), "pw2").unwrap());
    assert_eq!(record.two_factor_token.as_deref(), Some("new"));
}

#[test]
fn unlocking_is_refused_without_account_or_password() {
    let session: Session<u32> = Session::new();
    match session.begin_unlock(Some("pw"), None, None) {
        UnlockStep::Refused(EngineError::Failure(m)) => assert_eq!(m, "Log in to unlock."),
        _ => panic!("not refused"),
    }
    let mut session = unlocked("never", "lock");
    session.lock();
    for password in [None, Some("")] {
        match session.begin_unlock(password, None, None) {
            UnlockStep::Refused(EngineError::Failure(m)) => {
                assert_eq!(m, "Master password required.")
            }
            _ => panic!("not refused"),
        }
    }
}

#[test]
fn logging_out_forgets_all_but_the_policy() {
    let mut session = unlocked("oneHour", "logOut");
    assert!(matches!(session.logout(), Persist::Forget));
    assert_eq!(session.status(), VaultStatus::LoggedOut);
    assert!(session.account().is_none());
    // The policy is kept: an unlock of a later login ends after an hour.
    let persist = session.finish_unlock(signed_in(1, None), "pw").unwrap();
    assert!(matches!(persist, Persist::Forget));
    assert!(matches!(session.enforce_timeout(3600), Persist::Forget));
}

#[test]
fn policy_changes_rewrite_the_record() {
    let mut session = unlocked("never", "lock");
    assert!(matches!(session.set_timeout("onBrowserRestart", "logOut"), Persist::Forget));
    assert!(stored(session.set_timeout("onBrowserRestart", "lock")).master_password.is_none());
    assert!(stored(session.set_timeout("fourHours", "lock")).master_password.is_some());
    assert_eq!(session.status(), VaultStatus::Unlocked);
    let mut fresh: Session<u32> = Session::new();
    assert!(matches!(fresh.set_timeout("never", "lock"), Persist::Forget));
}

#[test]
fn idle_sessions_end_at_their_threshold() {
    let mut session = unlocked("oneHour", "lock");
    assert!(matches!(session.enforce_timeout(3599), Persist::Keep));
    assert_eq!(session.status(), VaultStatus::Unlocked);
    assert!(stored(session.enforce_timeout(3600)).master_password.is_none());
    assert_eq!(session.status(), VaultStatus::Locked);
    assert!(matches!(session.enforce_timeout(u64::MAX), Persist::Keep));

    let mut session = unlocked("fourHours", "logOut");
    assert!(matches!(session.enforce_timeout(14399), Persist::Keep));
    assert!(matches!(session.enforce_timeout(14400), Persist::Forget));
    assert_eq!(session.status(), VaultStatus::LoggedOut);

    for timeout in ["onSystemLock", "onBrowserRestart", "never"] {
        let mut session = unlocked(timeout, "logOut");
        assert!(matches!(session.enforce_timeout(u64::MAX), Persist::Keep));
        assert_eq!(session.status(), VaultStatus::Unlocked);
    }
}

#[test]
fn restoring_without_a_password_stays_sealed() {
    let mut session: Session<u32> = Session::new();
    let status =
        session.restore_locked("a@b.c", Some("token"), Some(""), Some("https://a"), "never", "lock");
    assert_eq!(status, VaultStatus::Locked);
    assert_eq!(session.status(), VaultStatus::Locked);
    match session.begin_unlock(Some("pw"), None, None) {
        UnlockStep::SignIn(request) => {
            assert_eq!(request.two_factor.unwrap().token, "token");
            assert!(request.identity_url.is_none());
            assert_eq!(request.api_url.as_deref(), Some("https://a"));
        }
        _ => panic!("not signing in"),
    }
}

#[test]
fn restoring_a_locked_record_brings_the_locked_session_back() {
    let mut before = unlocked("never", "lock");
    let record = stored(before.lock());
    let mut after: Session<u32> = Session::new();
    after.restore_locked(
        &record.email,
        record.two_factor_token.as_deref(),
        record.identity_url.as_deref(),
        record.api_url.as_deref(),
        "never",
        "lock",
    );
    assert_eq!(after.status(), before.status());
    assert_eq!(after.account(), before.account());
    let (b, a) = (before.persist_record().unwrap(), after.persist_record().unwrap());
    assert_eq!(a.two_factor_token, b.two_factor_token);
    assert_eq!(a.identity_url, b.identity_url);
    assert_eq!(a.api_url, b.api_url);
}

#[test]
fn restoring_with_a_password_signs_in_silently() {
    let request =
        restore_request("a@b.c", Some("pw"), Some("token"), Some("https://i"), Some("")).unwrap();
    assert_eq!(request.email, "a@b.c");
    assert_eq!(request.password, "pw");
    assert_eq!(request.two_factor.unwrap().provider, TwoFactorProvider::Remember);
    assert!(request.new_device_otp.is_none());
    assert_eq!(request.identity_url.as_deref(), Some("https://i"));
    assert!(request.api_url.is_none());
    assert!(restore_request("a@b.c", Some(""), None, None, None).is_none());

    let mut session: Session<u32> = Session::new();
    let status = session
        .finish_restore(
            signed_in(3, None), "a@b.c", "pw", Some("token"), None, None, "never", "lock",
        )
        .unwrap();
    assert_eq!(status, VaultStatus::Unlocked);
    assert_eq!(session.status(), VaultStatus::Unlocked);
    let record = session.persist_record().unwrap();
    assert_eq!(record.two_factor_token.as_deref(), Some("token"));
    let mut session: Session<u32> = Session::new();
    session
        .finish_restore(
            signed_in(3, Some("new")), "a@b.c", "pw", Some("token"), None, None, "never", "lock",
        )
        .unwrap();
    assert_eq!(
        session.persist_record().unwrap().two_factor_token.as_deref(),
        Some("new")
    );
}

#[test]
fn lookups_fall_back_to_the_last_vault() {
    let mut session = unlocked("never", "lock");
    let offline = || Err(EngineError::Failure("offline".to_string()));
    assert!(matches!(
        session.lookup(Ok(vec![note("beta")]), &search("beta")),
        Ok(LookupOutcome::Hit(_))
    ));
    // The fresh vault replaced the one of the login.
    assert!(matches!(session.lookup(offline(), &search("beta")), Ok(LookupOutcome::Hit(_))));
    assert!(matches!(session.lookup(offline(), &search("alpha")), Ok(LookupOutcome::Miss)));
    session.lookup(Ok(Vec::new()), &search("beta")).unwrap();
    match session.lookup(offline(), &search("beta")) {
        Err(EngineError::Failure(m)) => assert_eq!(m, "Vault sync failed: offline"),
        other => panic!("unexpected: {other:?}"),
    }
}

#[test]
fn login_requests_drop_blank_codes() {
    let request =
        login_request("a@b.c", "pw", Some(""), Some(""), Some("https://i"), Some("https://a"));
    assert_eq!(request.email, "a@b.c");
    assert_eq!(request.password, "pw");
    assert!(request.two_factor.is_none());
    assert!(request.new_device_otp.is_none());
    assert_eq!(request.identity_url.as_deref(), Some("https://i"));
    assert_eq!(request.api_url.as_deref(), Some("https://a"));
    let request = login_request("a@b.c", "pw", Some("42"), Some("99"), None, None);
    assert_eq!(request.two_factor.unwrap().token, "42");
    assert_eq!(request.new_device_otp.as_deref(), Some("99"));
    assert!(code_request(None).is_none());
    assert!(remember_request(&None).is_none());
}

#[test]
fn login_failures_keep_what_a_client_acts_on() {
    assert!(matches!(
        login_error(LoginFailure::NewDeviceVerificationRequired),
        EngineError::NewDeviceVerificationRequired
    ));
    assert!(matches!(
        login_error(LoginFailure::InvalidNewDeviceOtp),
        EngineError::InvalidNewDeviceOtp
    ));
    assert!(matches!(
        login_error(LoginFailure::Other("nope".to_string())),
        EngineError::Failure(m) if m == "nope"
    ));
}

#[test]
fn a_pending_second_factor_is_no_login() {
    let reply = |two_factor_required: bool| LoginReply {
        two_factor_required,
        remember_token: Some("t".to_string()),
    };
    assert!(matches!(login_outcome(Ok(reply(true))), Err(EngineError::TwoFactorRequired)));
    assert!(matches!(login_outcome(Ok(reply(false))), Ok(Some(t)) if t == "t"));
    assert!(matches!(
        login_outcome(Err(LoginFailure::InvalidNewDeviceOtp)),
        Err(EngineError::InvalidNewDeviceOtp)
    ));
}

#[test]
fn a_login_needs_its_first_sync() {
    let done = complete_login(5u32, Some("t".to_string()), Ok(vec![note("a")])).unwrap();
    assert_eq!(done.client, 5);
    assert_eq!(done.ciphers.len(), 1);
    assert_eq!(done.remember_token.as_deref(), Some("t"));
    match complete_login(5u32, None, Err(EngineError::Failure("offline".to_string()))) {
        Err(EngineError::Failure(m)) => {
            assert_eq!(m, "Login succeeded but sync failed: offline")
        }
        _ => panic!("not refused"),
    }
}

#[test]
fn unreadable_items_are_skipped() {
    let items = readable(vec![Some(note("a")), None, Some(note("b")), None]);
    let names: Vec<&str> = items.iter().map(|c| c.name.as_str()).collect();
    assert_eq!(names, vec!["a", "b"]);
    assert!(readable(Vec::new()).is_empty());
}
