//! The vault engine seam: what the protocol server asks of a vault, and the
//! values that cross it.

use vstd::prelude::*;

use crate::text;

verus! {

/// Authentication/lock state of the vault.
#[derive(Clone, Copy, Debug, PartialEq, Eq, Structural)]
pub enum VaultStatus {
    NotInstalled,
    NotConfigured,
    LoggedOut,
    Locked,
    Unlocked,
}

impl VaultStatus {
    /// The wire string of the status.
    pub open spec fn wire_view(self) -> Seq<char> {
        match self {
            VaultStatus::NotInstalled => "notInstalled"@,
            VaultStatus::NotConfigured => "notConfigured"@,
            VaultStatus::LoggedOut => "loggedOut"@,
            VaultStatus::Locked => "locked"@,
            VaultStatus::Unlocked => "unlocked"@,
        }
    }

    /// The string the client reads the status from.
    pub fn wire(self) -> (r: &'static str)
        ensures
            r@ == self.wire_view(),
    {
        match self {
            VaultStatus::NotInstalled => "notInstalled",
            VaultStatus::NotConfigured => "notConfigured",
            VaultStatus::LoggedOut => "loggedOut",
            VaultStatus::Locked => "locked",
            VaultStatus::Unlocked => "unlocked",
        }
    }
}

/// No two states share a wire string, so the client reads the state back.
pub proof fn wire_strings_are_distinct(a: VaultStatus, b: VaultStatus)
    requires
        a.wire_view() == b.wire_view(),
    ensures
        a == b,
{
    reveal_strlit("notInstalled");
    reveal_strlit("notConfigured");
    reveal_strlit("loggedOut");
    reveal_strlit("locked");
    reveal_strlit("unlocked");
    assert("notInstalled"@.len() == 12);
    assert("notConfigured"@.len() == 13);
    assert("loggedOut"@.len() == 9);
    assert("locked"@.len() == 6);
    assert("unlocked"@.len() == 8);
}

/// A credential query. Exactly one variant. A domain query may carry a
/// username to disambiguate between several accounts on the same site.
#[derive(Clone, Debug)]
pub enum Query {
    Domain { domain: String, username: Option<String> },
    Id(String),
    Search(String),
}

/// The mathematical value of a `Query`.
pub enum QueryView {
    Domain { domain: Seq<char>, username: Option<Seq<char>> },
    Id(Seq<char>),
    Search(Seq<char>),
}

impl View for Query {
    type V = QueryView;

    open spec fn view(&self) -> QueryView {
        match *self {
            Query::Domain { domain, username } => QueryView::Domain {
                domain: domain@,
                username: text::opt_view(username),
            },
            Query::Id(id) => QueryView::Id(id@),
            Query::Search(needle) => QueryView::Search(needle@),
        }
    }
}

/// A decrypted vault item reduced to the fields the credential surface exposes.
/// `kind` is the wire item type (`login` / `note` / `card` / `identity` /
/// `sshKey`; empty reads as login for wire compatibility). `typed` carries the
/// type-specific fields of cards, identities, and SSH keys as already
/// wire-named (key, value) pairs; the login fields keep their dedicated slots.
#[derive(Clone, Debug)]
pub struct VaultItem {
    pub id: String,
    pub kind: String,
    pub name: String,
    pub username: Option<String>,
    pub password: Option<String>,
    pub totp: Option<String>,
    pub uri: Option<String>,
    pub notes: Option<String>,
    pub domain: Option<String>,
    pub typed: Vec<(String, String)>,
}

/// The mathematical value of a `VaultItem`.
#[verifier::ext_equal]
pub struct VaultItemView {
    pub id: Seq<char>,
    pub kind: Seq<char>,
    pub name: Seq<char>,
    pub username: Option<Seq<char>>,
    pub password: Option<Seq<char>>,
    pub totp: Option<Seq<char>>,
    pub uri: Option<Seq<char>>,
    pub notes: Option<Seq<char>>,
    pub domain: Option<Seq<char>>,
    pub typed: Seq<(Seq<char>, Seq<char>)>,
}

/// The (key, value) pairs of a field list.
pub open spec fn pairs_view(pairs: Seq<(String, String)>) -> Seq<(Seq<char>, Seq<char>)> {
    Seq::new(pairs.len(), |i: int| (pairs[i].0@, pairs[i].1@))
}

impl View for VaultItem {
    type V = VaultItemView;

    open spec fn view(&self) -> VaultItemView {
        VaultItemView {
            id: self.id@,
            kind: self.kind@,
            name: self.name@,
            username: text::opt_view(self.username),
            password: text::opt_view(self.password),
            totp: text::opt_view(self.totp),
            uri: text::opt_view(self.uri),
            notes: text::opt_view(self.notes),
            domain: text::opt_view(self.domain),
            typed: pairs_view(self.typed@),
        }
    }
}

impl Default for VaultItem {
    fn default() -> (r: VaultItem)
        ensures
            r@ == (VaultItemView {
                id: Seq::empty(),
                kind: Seq::empty(),
                name: Seq::empty(),
                username: None,
                password: None,
                totp: None,
                uri: None,
                notes: None,
                domain: None,
                typed: Seq::empty(),
            }),
    {
        let r = VaultItem {
            id: String::new(),
            kind: String::new(),
            name: String::new(),
            username: None,
            password: None,
            totp: None,
            uri: None,
            notes: None,
            domain: None,
            typed: Vec::new(),
        };
        assert(pairs_view(r.typed@) =~= Seq::empty());
        r
    }
}

/// A successful lookup: the single item the query resolved to. `matches` is
/// kept for wire compatibility and is always 1: a query matching several
/// servable items yields `LookupOutcome::Ambiguous`, never a hit.
#[derive(Clone, Debug)]
pub struct LookupHit {
    pub item: VaultItem,
    pub matches: usize,
}

/// The mathematical value of a `LookupHit`.
pub struct LookupHitView {
    pub item: VaultItemView,
    pub matches: nat,
}

impl View for LookupHit {
    type V = LookupHitView;

    open spec fn view(&self) -> LookupHitView {
        LookupHitView { item: self.item@, matches: self.matches as nat }
    }
}

/// The non-secret identity of one matching item, returned when a query is
/// ambiguous so the caller can narrow it (by username or id). Structurally
/// incapable of carrying a secret: no password/totp/notes field exists.
/// `kind`/`name` identify non-login items, which have no username to go by.
#[derive(Clone, Debug)]
pub struct LookupCandidate {
    pub id: String,
    pub kind: String,
    pub name: String,
    pub username: Option<String>,
    pub uri: Option<String>,
    pub domain: Option<String>,
}

/// The mathematical value of a `LookupCandidate`.
#[verifier::ext_equal]
pub struct LookupCandidateView {
    pub id: Seq<char>,
    pub kind: Seq<char>,
    pub name: Seq<char>,
    pub username: Option<Seq<char>>,
    pub uri: Option<Seq<char>>,
    pub domain: Option<Seq<char>>,
}

impl View for LookupCandidate {
    type V = LookupCandidateView;

    open spec fn view(&self) -> LookupCandidateView {
        LookupCandidateView {
            id: self.id@,
            kind: self.kind@,
            name: self.name@,
            username: text::opt_view(self.username),
            uri: text::opt_view(self.uri),
            domain: text::opt_view(self.domain),
        }
    }
}

/// Outcome of a lookup. A secret is released only through `Hit`, and a hit
/// requires the query to have matched exactly one servable item: several
/// matches come back as `Ambiguous` with candidate identities instead, so the
/// engine never picks an arbitrary account on the caller's behalf.
#[derive(Clone, Debug)]
pub enum LookupOutcome {
    Miss,
    Hit(LookupHit),
    Ambiguous(Vec<LookupCandidate>),
}

/// The mathematical value of a `LookupOutcome`.
pub enum LookupOutcomeView {
    Miss,
    Hit(LookupHitView),
    Ambiguous(Seq<LookupCandidateView>),
}

/// The candidates of a list.
pub open spec fn candidates_view(list: Seq<LookupCandidate>) -> Seq<LookupCandidateView> {
    Seq::new(list.len(), |i: int| list[i]@)
}

impl View for LookupOutcome {
    type V = LookupOutcomeView;

    open spec fn view(&self) -> LookupOutcomeView {
        match *self {
            LookupOutcome::Miss => LookupOutcomeView::Miss,
            LookupOutcome::Hit(hit) => LookupOutcomeView::Hit(hit@),
            LookupOutcome::Ambiguous(list) => LookupOutcomeView::Ambiguous(candidates_view(list@)),
        }
    }
}

/// The session record the *app* persists on the helper's behalf. The helper
/// owns no at-rest store: it only decides *what* to persist, and the app's
/// Keychain holds it.
///
/// `master_password` present means "unlocked-restore" (silent re-login on the
/// next start); absent means "locked-restore" (identity known, vault sealed).
///
/// `two_factor_token` is the server-issued 2FA remember token. It rides along
/// in BOTH restore shapes: it is device trust, not vault-key material.
#[derive(Clone, Debug)]
pub struct PersistedRecord {
    pub email: String,
    pub master_password: Option<String>,
    pub two_factor_token: Option<String>,
    pub identity_url: Option<String>,
    pub api_url: Option<String>,
}

/// The mathematical value of a `PersistedRecord`.
pub struct PersistedRecordView {
    pub email: Seq<char>,
    pub master_password: Option<Seq<char>>,
    pub two_factor_token: Option<Seq<char>>,
    pub identity_url: Option<Seq<char>>,
    pub api_url: Option<Seq<char>>,
}

impl View for PersistedRecord {
    type V = PersistedRecordView;

    open spec fn view(&self) -> PersistedRecordView {
        PersistedRecordView {
            email: self.email@,
            master_password: text::opt_view(self.master_password),
            two_factor_token: text::opt_view(self.two_factor_token),
            identity_url: text::opt_view(self.identity_url),
            api_url: text::opt_view(self.api_url),
        }
    }
}

/// The view of an optional record: a record to store, or nothing to keep.
pub open spec fn record_view(o: Option<PersistedRecord>) -> Option<PersistedRecordView> {
    match o {
        Some(r) => Some(r@),
        None => None,
    }
}

/// A failed operation. The variants between `NotFound` and `Failure` are the
/// ones a client must *act* on rather than merely display: each carries a
/// stable `code()` that goes on the wire beside the message, so the sign-in UI
/// can ask for exactly what the server is missing.
#[derive(Debug)]
pub enum EngineError {
    NotImplemented,
    Locked,
    LoggedOut,
    NotFound,
    /// The account has a second factor and this login offered neither a fresh
    /// code nor remembered device trust.
    TwoFactorRequired,
    /// New-device login protection: the server does not recognize this
    /// device's identifier, has emailed a one-time code, and refuses every
    /// login from here until one arrives. Retry carrying `new_device_otp`.
    NewDeviceVerificationRequired,
    /// The `new_device_otp` sent with the last attempt was wrong or expired;
    /// the server has emailed a fresh code.
    InvalidNewDeviceOtp,
    Failure(String),
}

/// The mathematical value of an `EngineError`.
pub enum EngineErrorView {
    NotImplemented,
    Locked,
    LoggedOut,
    NotFound,
    TwoFactorRequired,
    NewDeviceVerificationRequired,
    InvalidNewDeviceOtp,
    Failure(Seq<char>),
}

impl View for EngineError {
    type V = EngineErrorView;

    open spec fn view(&self) -> EngineErrorView {
        match *self {
            EngineError::NotImplemented => EngineErrorView::NotImplemented,
            EngineError::Locked => EngineErrorView::Locked,
            EngineError::LoggedOut => EngineErrorView::LoggedOut,
            EngineError::NotFound => EngineErrorView::NotFound,
            EngineError::TwoFactorRequired => EngineErrorView::TwoFactorRequired,
            EngineError::NewDeviceVerificationRequired
                => EngineErrorView::NewDeviceVerificationRequired,
            EngineError::InvalidNewDeviceOtp => EngineErrorView::InvalidNewDeviceOtp,
            EngineError::Failure(m) => EngineErrorView::Failure(m@),
        }
    }
}

impl EngineErrorView {
    /// The tag of an error that a client branches on.
    pub open spec fn code(self) -> Option<Seq<char>> {
        match self {
            EngineErrorView::TwoFactorRequired => Some("twoFactorRequired"@),
            EngineErrorView::NewDeviceVerificationRequired => Some(
                "newDeviceVerificationRequired"@,
            ),
            EngineErrorView::InvalidNewDeviceOtp => Some("invalidNewDeviceOtp"@),
            _ => None,
        }
    }

    /// The text of an error, as shown to the user.
    pub open spec fn message(self) -> Seq<char> {
        match self {
            EngineErrorView::NotImplemented => "Not implemented in this build."@,
            EngineErrorView::Locked => "The vault is locked."@,
            EngineErrorView::LoggedOut => "Not logged in."@,
            EngineErrorView::NotFound => "No matching item."@,
            EngineErrorView::TwoFactorRequired => "Two-step code required."@,
            EngineErrorView::NewDeviceVerificationRequired
                => "New device verification required. Enter the code emailed to you."@,
            EngineErrorView::InvalidNewDeviceOtp
                => "That verification code is invalid or has expired."@,
            EngineErrorView::Failure(m) => m,
        }
    }
}

impl EngineError {
    /// Machine-readable tag for the errors a client branches on; `None` means
    /// "just display the message".
    pub fn code(&self) -> (r: Option<&'static str>)
        ensures
            text::opt_str_view(r) == self@.code(),
    {
        match self {
            EngineError::TwoFactorRequired => Some("twoFactorRequired"),
            EngineError::NewDeviceVerificationRequired => Some("newDeviceVerificationRequired"),
            EngineError::InvalidNewDeviceOtp => Some("invalidNewDeviceOtp"),
            _ => None,
        }
    }

    /// The text of the error, as shown to the user.
    pub fn message(&self) -> (r: String)
        ensures
            r@ == self@.message(),
    {
        match self {
            EngineError::NotImplemented => "Not implemented in this build.".to_owned(),
            EngineError::Locked => "The vault is locked.".to_owned(),
            EngineError::LoggedOut => "Not logged in.".to_owned(),
            EngineError::NotFound => "No matching item.".to_owned(),
            EngineError::TwoFactorRequired => "Two-step code required.".to_owned(),
            EngineError::NewDeviceVerificationRequired
                => "New device verification required. Enter the code emailed to you.".to_owned(),
            EngineError::InvalidNewDeviceOtp
                => "That verification code is invalid or has expired.".to_owned(),
            EngineError::Failure(m) => m.clone(),
        }
    }
}

/// A code names one error, so a client that reads it knows what to ask for.
pub proof fn codes_tell_errors_apart(a: EngineErrorView, b: EngineErrorView)
    requires
        a.code() is Some,
        a.code() == b.code(),
    ensures
        a == b,
{
    reveal_strlit("twoFactorRequired");
    reveal_strlit("newDeviceVerificationRequired");
    reveal_strlit("invalidNewDeviceOtp");
    assert("twoFactorRequired"@.len() == 17);
    assert("newDeviceVerificationRequired"@.len() == 29);
    assert("invalidNewDeviceOtp"@.len() == 19);
}

/// Vault operations the protocol server dispatches to. Synchronous: each
/// request is served on its own thread, so blocking is fine.
pub trait Engine: Send + Sync {
    fn status(&self) -> Result<VaultStatus, EngineError>;

    /// Display account identifier (e.g. email) when known.
    fn account(&self) -> Option<String>;

    /// `identity_url`/`api_url` target a non-default server (EU cloud or a
    /// self-hosted instance); both `None` means the default US cloud.
    /// `timeout`/`action` are the session-timeout policy wire strings (see
    /// `set_timeout`); they decide what survives across restarts.
    /// `new_device_otp` is the one-time code the server emails when it does not
    /// recognize this device (see `EngineError::NewDeviceVerificationRequired`);
    /// omitted on the first attempt, which is what triggers that email.
    fn login(
        &self,
        email: &str,
        master_password: &str,
        two_factor: Option<&str>,
        new_device_otp: Option<&str>,
        identity_url: Option<&str>,
        api_url: Option<&str>,
        timeout: &str,
        action: &str,
    ) -> Result<(), EngineError>;

    /// Re-establish the vault from a locked state. `master_password` is the
    /// user's password (typed, or released by biometric/PIN on the app side).
    /// `two_factor` is a freshly typed second-factor code for accounts whose
    /// remember token has expired. `new_device_otp` is as in `login`: an unlock
    /// is a re-login, so a device the server has forgotten must verify again.
    fn unlock(
        &self,
        master_password: Option<&str>,
        two_factor: Option<&str>,
        new_device_otp: Option<&str>,
    ) -> Result<(), EngineError>;

    fn lock(&self);

    fn logout(&self) -> Result<(), EngineError>;

    /// Re-establish a session the app restored from *its* Keychain and sent
    /// right after the handshake. With a `master_password` the vault comes back
    /// unlocked; without one it comes back locked (identity known, sealed).
    /// Deliberately does NOT persist: the app already holds this record.
    /// Default: unsupported.
    fn restore(
        &self,
        _email: &str,
        _master_password: Option<&str>,
        _two_factor_token: Option<&str>,
        _identity_url: Option<&str>,
        _api_url: Option<&str>,
        _timeout: &str,
        _action: &str,
    ) -> (r: Result<VaultStatus, EngineError>)
        default_ensures
            r matches Err(EngineError::NotImplemented),
    {
        Err(EngineError::NotImplemented)
    }

    fn lookup(&self, query: &Query) -> Result<LookupOutcome, EngineError>;

    fn totp(&self, query: &Query) -> Result<Option<String>, EngineError>;

    /// Update the session-timeout policy on the running session. `timeout` is
    /// one of `oneHour|fourHours|onSystemLock|onBrowserRestart|never`, `action`
    /// is `lock|logOut`. Default no-op.
    fn set_timeout(&self, _timeout: &str, _action: &str) {
    }

    /// Called periodically by the lifecycle monitor with the seconds since the
    /// last request; an engine applies its idle timeout here. Default no-op.
    fn enforce_timeout(&self, _idle_secs: u64) {
    }
}

/// Placeholder engine used when no vault is linked in. Reports `notConfigured`
/// and refuses every operation with a clean error, so the socket, the framing
/// and the client can be exercised without any real vault.
pub struct StubEngine;

impl StubEngine {
    pub fn new() -> (r: StubEngine)
        ensures
            r == StubEngine,
    {
        StubEngine
    }
}

impl Engine for StubEngine {
    fn status(&self) -> (r: Result<VaultStatus, EngineError>)
        ensures
            r matches Ok(VaultStatus::NotConfigured),
    {
        Ok(VaultStatus::NotConfigured)
    }

    fn account(&self) -> (r: Option<String>)
        ensures
            r is None,
    {
        None
    }

    fn login(
        &self,
        _email: &str,
        _master_password: &str,
        _two_factor: Option<&str>,
        _new_device_otp: Option<&str>,
        _identity_url: Option<&str>,
        _api_url: Option<&str>,
        _timeout: &str,
        _action: &str,
    ) -> (r: Result<(), EngineError>)
        ensures
            r matches Err(EngineError::NotImplemented),
    {
        Err(EngineError::NotImplemented)
    }

    fn unlock(
        &self,
        _master_password: Option<&str>,
        _two_factor: Option<&str>,
        _new_device_otp: Option<&str>,
    ) -> (r: Result<(), EngineError>)
        ensures
            r matches Err(EngineError::NotImplemented),
    {
        Err(EngineError::NotImplemented)
    }

    fn lock(&self) {
    }

    fn logout(&self) -> (r: Result<(), EngineError>)
        ensures
            r matches Err(EngineError::NotImplemented),
    {
        Err(EngineError::NotImplemented)
    }

    fn lookup(&self, _query: &Query) -> (r: Result<LookupOutcome, EngineError>)
        ensures
            r matches Err(EngineError::NotImplemented),
    {
        Err(EngineError::NotImplemented)
    }

    fn totp(&self, _query: &Query) -> (r: Result<Option<String>, EngineError>)
        ensures
            r matches Err(EngineError::NotImplemented),
    {
        Err(EngineError::NotImplemented)
    }
}

/// A failure says exactly what it carries, and only the three errors that a client
/// acts on have a code.
pub proof fn failures_say_what_they_carry(m: Seq<char>, e: EngineErrorView)
    ensures
        EngineErrorView::Failure(m).message() == m,
        e.code() is Some <==> e is TwoFactorRequired || e is NewDeviceVerificationRequired
            || e is InvalidNewDeviceOtp,
{
}

/// What an error says of itself is what it shows.
pub proof fn errors_report_themselves(e: &EngineError, code: Option<&'static str>, message: String)
    requires
        call_ensures(EngineError::code, (e,), code),
        call_ensures(EngineError::message, (e,), message),
    ensures
        e matches EngineError::Failure(m) ==> message@ == m@ && code is None,
        code is Some <==> e is TwoFactorRequired || e is NewDeviceVerificationRequired
            || e is InvalidNewDeviceOtp,
{
}

} // verus!
