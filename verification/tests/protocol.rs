use std::cell::RefCell;
use std::sync::Mutex;

use phi_bitwarden_helper::codec::decode;
use phi_bitwarden_helper::command::{parse_command, parse_query, Command};
use phi_bitwarden_helper::engine::{
    Engine, EngineError, LookupCandidate, LookupHit, LookupOutcome, PersistedRecord, Query,
    StubEngine, VaultItem, VaultStatus,
};
use phi_bitwarden_helper::json::Json;
use phi_bitwarden_helper::protocol::{dispatch, handle, respond};
use phi_bitwarden_helper::reply::{
    encode_candidate, encode_item, encode_lookup, persist_event, persist_session_value,
    MAX_CANDIDATES,
};
use phi_bitwarden_helper::session::Persist;

fn json(text: &str) -> Json {
    decode(text.as_bytes()).expect("valid JSON")
}

fn text(s: &str) -> Json {
    Json::Text(s.to_string())
}

fn candidate(id: &str, kind: &str, name: &str, username: Option<&str>) -> LookupCandidate {
    LookupCandidate {
        id: id.to_string(),
        kind: kind.to_string(),
        name: name.to_string(),
        username: username.map(str::to_string),
        uri: None,
        domain: Some("example.com".to_string()),
    }
}

/// Engine stub whose lookup always reports two matching accounts.
struct AmbiguousEngine;

impl Engine for AmbiguousEngine {
    fn status(&self) -> Result<VaultStatus, EngineError> {
        Ok(VaultStatus::Unlocked)
    }
    fn account(&self) -> Option<String> {
        None
    }
    fn login(
        &self,
        _email: &str,
        _master_password: &str,
        _two_factor: Option<&str>,
        _new_device_otp: Option<&str>,
        _identity_url: Option<&str>,
        _api_url: Option<&str>,
        _timeout: &str,
        _action: &str,
    ) -> Result<(), EngineError> {
        Err(EngineError::NotImplemented)
    }
    fn unlock(
        &self,
        _master_password: Option<&str>,
        _two_factor: Option<&str>,
        _new_device_otp: Option<&str>,
    ) -> Result<(), EngineError> {
        Err(EngineError::NotImplemented)
    }
    fn lock(&self) {}
    fn logout(&self) -> Result<(), EngineError> {
        Err(EngineError::NotImplemented)
    }
    fn lookup(&self, _query: &Query) -> Result<LookupOutcome, EngineError> {
        Ok(LookupOutcome::Ambiguous(vec![
            LookupCandidate {
                id: "id-1".into(),
                kind: "login".into(),
                name: "Example".into(),
                username: Some("alice@example.com".into()),
                uri: Some("https://example.com".into()),
                domain: Some("example.com".into()),
            },
            LookupCandidate {
                id: "id-2".into(),
                kind: "note".into(),
                name: "example note".into(),
                username: None,
                uri: None,
                domain: Some("example.com".into()),
            },
        ]))
    }
    fn totp(&self, _query: &Query) -> Result<Option<String>, EngineError> {
        Err(EngineError::NotImplemented)
    }
}

/// The wire contract of ambiguity: an ambiguous lookup must carry NO item (and
/// thus no secret), read as not-found to an older client, and expose only
/// candidate identities.
#[test]
fn ambiguous_lookup_releases_no_item() {
    let engine = AmbiguousEngine;
    let result =
        handle("lookup", &json(r#"{"query": {"domain": "example.com"}}"#), &engine).unwrap();
    assert_eq!(result.get("found"), Some(&Json::Bool(false)));
    assert_eq!(result.get("ambiguous"), Some(&Json::Bool(true)));
    assert_eq!(result.get("matches"), Some(&Json::Count(2)));
    assert!(result.get("item").is_none());
    let candidates = match result.get("candidates") {
        Some(Json::Array(candidates)) => candidates,
        other => panic!("unexpected: {other:?}"),
    };
    assert_eq!(candidates.len(), 2);
    for candidate in candidates {
        assert!(candidate.get("password").is_none());
        assert!(candidate.get("notes").is_none());
        assert!(candidate.get("totp").is_none());
    }
    assert_eq!(candidates[0].get("username"), Some(&text("alice@example.com")));
    assert_eq!(candidates[1].get("credentialId"), Some(&text("id-2")));
    // Non-login candidates are identified by type + name instead.
    assert_eq!(candidates[1].get("type"), Some(&text("note")));
    assert_eq!(candidates[1].get("name"), Some(&text("example note")));
}

/// A non-login item rides the same envelope: its wire type and name are
/// present and its type-specific fields land flat next to the fixed keys.
#[test]
fn typed_item_encodes_type_and_flat_fields() {
    let encoded = encode_item(&VaultItem {
        id: "id-3".into(),
        kind: "card".into(),
        name: "Visa".into(),
        typed: vec![
            ("number".into(), "4111111111111111".into()),
            ("code".into(), "123".into()),
            ("brand".into(), "Visa".into()),
        ],
        ..Default::default()
    });
    assert_eq!(encoded.get("credentialId"), Some(&text("id-3")));
    assert_eq!(encoded.get("type"), Some(&text("card")));
    assert_eq!(encoded.get("name"), Some(&text("Visa")));
    assert_eq!(encoded.get("number"), Some(&text("4111111111111111")));
    assert_eq!(encoded.get("code"), Some(&text("123")));
    assert!(encoded.get("username").is_none());
}

/// Engine stub whose lookup always hits.
struct HitEngine;

impl Engine for HitEngine {
    fn status(&self) -> Result<VaultStatus, EngineError> {
        Ok(VaultStatus::Unlocked)
    }
    fn account(&self) -> Option<String> {
        None
    }
    fn login(
        &self,
        _email: &str,
        _master_password: &str,
        _two_factor: Option<&str>,
        _new_device_otp: Option<&str>,
        _identity_url: Option<&str>,
        _api_url: Option<&str>,
        _timeout: &str,
        _action: &str,
    ) -> Result<(), EngineError> {
        Err(EngineError::NotImplemented)
    }
    fn unlock(
        &self,
        _mp: Option<&str>,
        _tf: Option<&str>,
        _otp: Option<&str>,
    ) -> Result<(), EngineError> {
        Err(EngineError::NotImplemented)
    }
    fn lock(&self) {}
    fn logout(&self) -> Result<(), EngineError> {
        Err(EngineError::NotImplemented)
    }
    fn lookup(&self, _query: &Query) -> Result<LookupOutcome, EngineError> {
        Ok(LookupOutcome::Hit(LookupHit {
            item: VaultItem {
                id: "id-1".into(),
                username: Some("alice@example.com".into()),
                password: Some("s3cret".into()),
                ..Default::default()
            },
            matches: 1,
        }))
    }
    fn totp(&self, _query: &Query) -> Result<Option<String>, EngineError> {
        Err(EngineError::NotImplemented)
    }
}

/// A unique hit serves the item.
#[test]
fn unique_lookup_still_serves_the_item() {
    let result =
        handle("lookup", &json(r#"{"query": {"domain": "example.com"}}"#), &HitEngine).unwrap();
    assert_eq!(result.get("found"), Some(&Json::Bool(true)));
    assert_eq!(result.get("matches"), Some(&Json::Count(1)));
    assert_eq!(result.get("item").and_then(|i| i.get("password")), Some(&text("s3cret")));
    assert!(result.get("ambiguous").is_none());
}

/// The persisted record round-trips the 2FA remember token: it must ride the
/// `persist` event in both restore shapes.
#[test]
fn persist_event_carries_two_factor_token() {
    let value = persist_session_value(Some(PersistedRecord {
        email: "a@b.c".into(),
        master_password: None,
        two_factor_token: Some("remember-me".into()),
        identity_url: None,
        api_url: None,
    }));
    assert_eq!(value.get("email"), Some(&text("a@b.c")));
    assert_eq!(value.get("twoFactorToken"), Some(&text("remember-me")));
    assert!(value.get("masterPassword").is_none());
}

#[test]
fn parse_query_rejects_blank_text() {
    for params in [
        r#"{"query": {"search": ""}}"#,
        r#"{"query": {"search": "   "}}"#,
        r#"{"query": {"domain": " "}}"#,
        r#"{"query": {"id": ""}}"#,
        r#"{"query": {}}"#,
        r#"{}"#,
    ] {
        assert!(parse_query(&json(params)).is_err(), "accepted: {params}");
    }
}

#[test]
fn parse_query_trims_search() {
    match parse_query(&json(r#"{"query": {"search": " github "}}"#)) {
        Ok(Query::Search(s)) => assert_eq!(s, "github"),
        other => panic!("unexpected: {other:?}"),
    }
}

#[test]
fn parse_query_says_what_is_missing() {
    for (params, message) in [
        (r#"null"#, "Missing query"),
        (r#"{"query": {"domain": " ", "id": "x"}}"#, "Empty domain in query"),
        (r#"{"query": {"id": "\t"}}"#, "Empty id in query"),
        (r#"{"query": {"search": ""}}"#, "Empty search in query"),
        (r#"{"query": {"domain": 7}}"#, "Empty query"),
        (r#"{"query": "example.com"}"#, "Empty query"),
    ] {
        match parse_query(&json(params)) {
            Err(EngineError::Failure(m)) => assert_eq!(m, message, "{params}"),
            other => panic!("unexpected: {other:?}"),
        }
    }
}

#[test]
fn parse_query_prefers_domain_then_id() {
    match parse_query(&json(
        r#"{"query": {"search": "s", "id": "i", "domain": " d ", "username": " u "}}"#,
    )) {
        Ok(Query::Domain { domain, username }) => {
            assert_eq!(domain, "d");
            assert_eq!(username.as_deref(), Some(" u "));
        }
        other => panic!("unexpected: {other:?}"),
    }
    match parse_query(&json(r#"{"query": {"search": "s", "id": " i "}}"#)) {
        Ok(Query::Id(id)) => assert_eq!(id, "i"),
        other => panic!("unexpected: {other:?}"),
    }
}

/// Engine that writes down what it was asked.
struct Recorder {
    calls: Mutex<RefCell<Vec<String>>>,
}

impl Recorder {
    fn new() -> Recorder {
        Recorder { calls: Mutex::new(RefCell::new(Vec::new())) }
    }
    fn note(&self, call: String) {
        self.calls.lock().unwrap().borrow_mut().push(call);
    }
    fn take(&self) -> Vec<String> {
        self.calls.lock().unwrap().borrow_mut().drain(..).collect()
    }
}

impl Engine for Recorder {
    fn status(&self) -> Result<VaultStatus, EngineError> {
        Ok(VaultStatus::Locked)
    }
    fn account(&self) -> Option<String> {
        Some("a@b.c".to_string())
    }
    fn login(
        &self,
        email: &str,
        master_password: &str,
        two_factor: Option<&str>,
        new_device_otp: Option<&str>,
        identity_url: Option<&str>,
        api_url: Option<&str>,
        timeout: &str,
        action: &str,
    ) -> Result<(), EngineError> {
        self.note(format!(
            "login {email} {master_password} {two_factor:?} {new_device_otp:?} \
             {identity_url:?} {api_url:?} {timeout} {action}"
        ));
        if new_device_otp.is_none() {
            return Err(EngineError::NewDeviceVerificationRequired);
        }
        Ok(())
    }
    fn unlock(
        &self,
        master_password: Option<&str>,
        two_factor: Option<&str>,
        new_device_otp: Option<&str>,
    ) -> Result<(), EngineError> {
        self.note(format!("unlock {master_password:?} {two_factor:?} {new_device_otp:?}"));
        Ok(())
    }
    fn lock(&self) {
        self.note("lock".to_string());
    }
    fn logout(&self) -> Result<(), EngineError> {
        self.note("logout".to_string());
        Ok(())
    }
    fn restore(
        &self,
        email: &str,
        master_password: Option<&str>,
        two_factor_token: Option<&str>,
        identity_url: Option<&str>,
        api_url: Option<&str>,
        timeout: &str,
        action: &str,
    ) -> Result<VaultStatus, EngineError> {
        self.note(format!(
            "restore {email} {master_password:?} {two_factor_token:?} {identity_url:?} \
             {api_url:?} {timeout} {action}"
        ));
        Ok(VaultStatus::Unlocked)
    }
    fn lookup(&self, query: &Query) -> Result<LookupOutcome, EngineError> {
        self.note(format!("lookup {query:?}"));
        Ok(LookupOutcome::Miss)
    }
    fn totp(&self, query: &Query) -> Result<Option<String>, EngineError> {
        self.note(format!("totp {query:?}"));
        match query {
            Query::Id(_) => Ok(Some("123456".to_string())),
            _ => Ok(None),
        }
    }
    fn set_timeout(&self, timeout: &str, action: &str) {
        self.note(format!("setTimeout {timeout} {action}"));
    }
}

#[test]
fn every_method_reaches_the_engine_with_its_params() {
    let engine = Recorder::new();
    let ask = |method: &str, params: &str| handle(method, &json(params), &engine);

    let result = ask("status", "null").unwrap();
    assert_eq!(result.get("status"), Some(&text("locked")));
    assert_eq!(result.get("account"), Some(&text("a@b.c")));

    let login = r#"{"email": "a@b.c", "masterPassword": "pw", "twoFactor": "42",
        "newDeviceOtp": "99", "server": {"identityUrl": "https://i", "apiUrl": "https://a"},
        "timeout": "never", "action": "lock"}"#;
    assert_eq!(ask("login", login).unwrap(), Json::Object(Vec::new()));
    assert!(matches!(ask("login", "{}"), Err(EngineError::NewDeviceVerificationRequired)));

    let restored = ask("restore", r#"{"email": "a@b.c", "twoFactorToken": "t"}"#).unwrap();
    assert_eq!(restored.get("status"), Some(&text("unlocked")));
    assert_eq!(
        ask("setTimeout", r#"{"timeout": "oneHour", "action": "logOut"}"#).unwrap(),
        Json::Object(Vec::new())
    );
    assert!(ask("unlock", r#"{"masterPassword": "pw", "newDeviceOtp": "1"}"#).is_ok());
    assert!(ask("lock", "{}").is_ok());
    assert!(ask("logout", "{}").is_ok());
    let missed = ask("lookup", r#"{"query": {"search": "x"}}"#).unwrap();
    assert_eq!(missed.get("found"), Some(&Json::Bool(false)));
    assert!(missed.get("ambiguous").is_none());
    let code = ask("getTotp", r#"{"query": {"id": "i"}}"#).unwrap();
    assert_eq!(code.get("totp"), Some(&text("123456")));
    let none = ask("getTotp", r#"{"query": {"search": "i"}}"#).unwrap();
    assert_eq!(none.get("totp"), Some(&text("")));

    assert_eq!(
        engine.take(),
        vec![
            r#"login a@b.c pw Some("42") Some("99") Some("https://i") Some("https://a") never lock"#,
            r#"login   None None None None  "#,
            r#"restore a@b.c None Some("t") None None  "#,
            "setTimeout oneHour logOut",
            r#"unlock Some("pw") None Some("1")"#,
            "lock",
            "logout",
            r#"lookup Search("x")"#,
            r#"totp Id("i")"#,
            r#"totp Search("i")"#,
        ]
    );
}

#[test]
fn unknown_methods_and_bad_queries_never_reach_the_engine() {
    let engine = Recorder::new();
    match handle("reboot", &Json::Null, &engine) {
        Err(EngineError::Failure(m)) => assert_eq!(m, "Unknown method: reboot"),
        other => panic!("unexpected: {other:?}"),
    }
    assert!(handle("lookup", &Json::Null, &engine).is_err());
    assert!(handle("getTotp", &Json::Null, &engine).is_err());
    assert!(engine.take().is_empty());
}

#[test]
fn envelopes_tell_success_from_failure() {
    let engine = Recorder::new();
    let ok = dispatch(&json(r#"{"method": "lock"}"#), &engine);
    assert_eq!(ok.get("ok"), Some(&Json::Bool(true)));
    assert_eq!(ok.get("result"), Some(&Json::Object(Vec::new())));
    assert!(ok.get("error").is_none());

    let failed = dispatch(&json(r#"{"method": "login", "params": {}}"#), &engine);
    assert_eq!(failed.get("ok"), Some(&Json::Bool(false)));
    assert!(failed.get("result").is_none());
    let error = failed.get("error").unwrap();
    assert_eq!(
        error.text_at("message"),
        Some("New device verification required. Enter the code emailed to you.")
    );
    assert_eq!(error.text_at("code"), Some("newDeviceVerificationRequired"));

    let stub = StubEngine::new();
    let plain = dispatch(&json(r#"{"method": "logout"}"#), &stub);
    assert_eq!(
        plain.get("error").unwrap().text_at("message"),
        Some("Not implemented in this build.")
    );
    assert!(plain.get("error").unwrap().get("code").is_none());

    let nameless = dispatch(&json("[]"), &stub);
    assert_eq!(nameless.get("error").unwrap().text_at("message"), Some("Unknown method: "));
}

#[test]
fn replies_echo_the_request_id() {
    let stub = StubEngine::new();
    let reply = respond(json(r#"{"method": "status", "request_id": "r-1"}"#), &stub);
    assert_eq!(reply.get("request_id"), Some(&text("r-1")));
    assert_eq!(reply.get("ok"), Some(&Json::Bool(true)));
    assert_eq!(reply.get("result").unwrap().text_at("status"), Some("notConfigured"));
    assert!(reply.get("result").unwrap().get("account").is_none());
    // Whatever the id is, it comes back.
    let reply = respond(json(r#"{"method": "x", "request_id": {"n": 3}}"#), &stub);
    assert_eq!(reply.get("request_id").unwrap().get("n"), Some(&Json::Count(3)));
    let reply = respond(json(r#"{"method": "status", "request_id": -1}"#), &stub);
    assert_eq!(reply.get("request_id"), Some(&Json::Negative(-1)));
    let reply = respond(json(r#"{"method": "status"}"#), &stub);
    assert!(reply.get("request_id").is_none());
}

#[test]
fn persisted_records_come_back_as_restores() {
    let value = persist_session_value(Some(PersistedRecord {
        email: "a@b.c".to_string(),
        master_password: Some("pw".to_string()),
        two_factor_token: Some("t".to_string()),
        identity_url: None,
        api_url: Some("https://a".to_string()),
    }));
    match parse_command("restore", &value) {
        Ok(Command::Restore {
            email,
            master_password,
            two_factor_token,
            identity_url,
            api_url,
            timeout,
            action,
        }) => {
            assert_eq!(email, "a@b.c");
            assert_eq!(master_password, Some("pw"));
            assert_eq!(two_factor_token, Some("t"));
            assert_eq!(identity_url, None);
            assert_eq!(api_url, Some("https://a"));
            assert_eq!(timeout, "");
            assert_eq!(action, "");
        }
        _ => panic!("not a restore"),
    }
    assert_eq!(persist_session_value(None), Json::Null);
}

#[test]
fn persist_events() {
    assert!(persist_event(Persist::Keep).is_none());
    let event = persist_event(Persist::Forget).unwrap();
    assert_eq!(event.get("event"), Some(&text("persist")));
    assert_eq!(event.get("session"), Some(&Json::Null));
    let event = persist_event(Persist::Store(PersistedRecord {
        email: "a@b.c".to_string(),
        master_password: None,
        two_factor_token: None,
        identity_url: Some("https://i".to_string()),
        api_url: None,
    }))
    .unwrap();
    let session = event.get("session").unwrap();
    assert_eq!(session.text_at("email"), Some("a@b.c"));
    assert_eq!(session.get("server").unwrap().text_at("identityUrl"), Some("https://i"));
    assert!(session.get("server").unwrap().get("apiUrl").is_none());
}

#[test]
fn seeds_are_never_encoded() {
    let encoded = encode_item(&VaultItem {
        id: "id".into(),
        totp: Some("SEED".into()),
        notes: Some("n".into()),
        uri: Some("u".into()),
        domain: Some("d".into()),
        ..Default::default()
    });
    assert!(encoded.get("totp").is_none());
    assert!(encoded.get("type").is_none());
    assert!(encoded.get("name").is_none());
    assert_eq!(encoded.text_at("notes"), Some("n"));
    assert_eq!(encoded.text_at("uri"), Some("u"));
    assert_eq!(encoded.text_at("domain"), Some("d"));
}

#[test]
fn long_candidate_lists_are_cut_but_counted() {
    let many: Vec<LookupCandidate> =
        (0..25).map(|i| candidate(&format!("id-{i}"), "login", "", None)).collect();
    let reply = encode_lookup(&LookupOutcome::Ambiguous(many));
    assert_eq!(reply.get("matches"), Some(&Json::Count(25)));
    match reply.get("candidates") {
        Some(Json::Array(listed)) => {
            assert_eq!(listed.len(), MAX_CANDIDATES);
            assert_eq!(listed.len(), 20);
            assert_eq!(listed[19].text_at("credentialId"), Some("id-19"));
        }
        other => panic!("unexpected: {other:?}"),
    }
    let one = encode_candidate(&candidate("i", "", "n", Some("u")));
    assert!(one.get("type").is_none());
    assert_eq!(one.text_at("username"), Some("u"));
    assert_eq!(one.text_at("domain"), Some("example.com"));
}

#[test]
fn restores_carry_the_policy_sent_with_the_record() {
    let mut params = match persist_session_value(Some(PersistedRecord {
        email: "a@b.c".to_string(),
        master_password: None,
        two_factor_token: Some("t".to_string()),
        identity_url: None,
        api_url: None,
    })) {
        Json::Object(fields) => fields,
        other => panic!("unexpected: {other:?}"),
    };
    params.push(("timeout".to_string(), text("oneHour")));
    params.push(("action".to_string(), text("logOut")));
    match parse_command("restore", &Json::Object(params)) {
        Ok(Command::Restore { email, master_password, two_factor_token, timeout, action, .. }) => {
            assert_eq!(email, "a@b.c");
            assert_eq!(master_password, None);
            assert_eq!(two_factor_token, Some("t"));
            assert_eq!(timeout, "oneHour");
            assert_eq!(action, "logOut");
        }
        _ => panic!("not a restore"),
    }
}
