//! The session of the SDK-backed engine: what it knows of the account, how its
//! operations change that, and what the app is asked to persist.

use vstd::prelude::*;
use vstd::string::*;

use crate::cipher;
use crate::cipher::{Cipher, CipherView};
use crate::engine::{
    EngineError, EngineErrorView, LookupOutcome, LookupOutcomeView, PersistedRecord,
    PersistedRecordView, Query, QueryView, VaultStatus,
};
use crate::lookup;
use crate::signin;
use crate::signin::{LoginRequest, LoginRequestView, SignedIn, TwoFactor};
use crate::text;

verus! {

/// When the current unlocked session ends. Drives both idle enforcement and
/// what the persisted record encodes for the next start.
#[derive(Clone, Copy, Debug, PartialEq, Eq, Structural)]
pub enum TimeoutKind {
    OneHour,
    FourHours,
    OnSystemLock,
    OnBrowserRestart,
    Never,
}

impl TimeoutKind {
    /// The kind that a wire string names; any other string names the default.
    pub open spec fn named(s: Seq<char>) -> TimeoutKind {
        if s == "oneHour"@ {
            TimeoutKind::OneHour
        } else if s == "fourHours"@ {
            TimeoutKind::FourHours
        } else if s == "onSystemLock"@ {
            TimeoutKind::OnSystemLock
        } else if s == "never"@ {
            TimeoutKind::Never
        } else {
            TimeoutKind::OnBrowserRestart
        }
    }

    /// The idle threshold of the time-based kinds.
    pub open spec fn threshold(self) -> Option<u64> {
        match self {
            TimeoutKind::OneHour => Some(3600),
            TimeoutKind::FourHours => Some(14400),
            _ => None,
        }
    }

    /// The kind that a wire string names. The default matches the settings
    /// default shown to the user.
    pub fn parse(s: &str) -> (r: TimeoutKind)
        ensures
            r == TimeoutKind::named(s@),
    {
        if text::same(s, "oneHour") {
            TimeoutKind::OneHour
        } else if text::same(s, "fourHours") {
            TimeoutKind::FourHours
        } else if text::same(s, "onSystemLock") {
            TimeoutKind::OnSystemLock
        } else if text::same(s, "never") {
            TimeoutKind::Never
        } else {
            TimeoutKind::OnBrowserRestart
        }
    }

    /// Idle threshold in seconds, for the time-based kinds only.
    pub fn idle_secs(self) -> (r: Option<u64>)
        ensures
            r == self.threshold(),
    {
        match self {
            TimeoutKind::OneHour => Some(3600),
            TimeoutKind::FourHours => Some(4 * 3600),
            _ => None,
        }
    }
}

/// What ending the session does.
#[derive(Clone, Copy, Debug, PartialEq, Eq, Structural)]
pub enum TimeoutAction {
    Lock,
    LogOut,
}

impl TimeoutAction {
    /// The action that a wire string names; any other string names the default.
    pub open spec fn named(s: Seq<char>) -> TimeoutAction {
        if s == "logOut"@ {
            TimeoutAction::LogOut
        } else {
            TimeoutAction::Lock
        }
    }

    /// The action that a wire string names.
    pub fn parse(s: &str) -> (r: TimeoutAction)
        ensures
            r == TimeoutAction::named(s@),
    {
        if text::same(s, "logOut") {
            TimeoutAction::LogOut
        } else {
            TimeoutAction::Lock
        }
    }
}

/// What the app is asked to do with the session it holds at rest.
#[derive(Debug)]
pub enum Persist {
    /// Leave it as it is.
    Keep,
    /// Replace it.
    Store(PersistedRecord),
    /// Clear it.
    Forget,
}

/// The mathematical value of a `Persist`.
pub enum PersistView {
    Keep,
    Store(PersistedRecordView),
    Forget,
}

impl View for Persist {
    type V = PersistView;

    open spec fn view(&self) -> PersistView {
        match *self {
            Persist::Keep => PersistView::Keep,
            Persist::Store(record) => PersistView::Store(record@),
            Persist::Forget => PersistView::Forget,
        }
    }
}

/// A record to store, or to forget where there is none.
pub open spec fn emitted(record: Option<PersistedRecordView>) -> PersistView {
    match record {
        Some(r) => PersistView::Store(r),
        None => PersistView::Forget,
    }
}

/// A record to store, or to forget where there is none.
pub fn emit(record: Option<PersistedRecord>) -> (r: Persist)
    ensures
        r@ == emitted(crate::engine::record_view(record)),
{
    match record {
        Some(record) => Persist::Store(record),
        None => Persist::Forget,
    }
}

/// What the engine knows of the session. `C` is the logged-in SDK client.
pub struct Session<C> {
    /// The logged-in client, or None when logged out / locked. A present client
    /// means an unlocked vault.
    client: Option<C>,
    email: Option<String>,
    /// Decrypted vault items of the last sync, searched by `lookup`.
    ciphers: Vec<Cipher>,
    /// Master password held in RAM while unlocked, so the persisted record can
    /// be rewritten as the timeout policy changes without another login.
    master_password: Option<String>,
    /// Server-issued 2FA remember token. Survives lock, since it is device
    /// trust, not vault-key material. Cleared on logout.
    two_factor_token: Option<String>,
    identity_url: Option<String>,
    api_url: Option<String>,
    /// True when an account identity is known but no in-memory key is loaded.
    locked: bool,
    timeout: TimeoutKind,
    action: TimeoutAction,
}

/// The mathematical value of a `Session`.
#[verifier::reject_recursive_types(C)]
pub struct SessionView<C> {
    pub client: Option<C>,
    pub email: Option<Seq<char>>,
    pub ciphers: Seq<CipherView>,
    pub master_password: Option<Seq<char>>,
    pub two_factor_token: Option<Seq<char>>,
    pub identity_url: Option<Seq<char>>,
    pub api_url: Option<Seq<char>>,
    pub locked: bool,
    pub timeout: TimeoutKind,
    pub action: TimeoutAction,
}

impl<C> View for Session<C> {
    type V = SessionView<C>;

    closed spec fn view(&self) -> SessionView<C> {
        SessionView {
            client: self.client,
            email: text::opt_view(self.email),
            ciphers: cipher::ciphers_view(self.ciphers@),
            master_password: text::opt_view(self.master_password),
            two_factor_token: text::opt_view(self.two_factor_token),
            identity_url: text::opt_view(self.identity_url),
            api_url: text::opt_view(self.api_url),
            locked: self.locked,
            timeout: self.timeout,
            action: self.action,
        }
    }
}

impl<C> SessionView<C> {
    /// No account.
    pub open spec fn fresh(timeout: TimeoutKind, action: TimeoutAction) -> SessionView<C> {
        SessionView {
            client: None,
            email: None,
            ciphers: Seq::empty(),
            master_password: None,
            two_factor_token: None,
            identity_url: None,
            api_url: None,
            locked: false,
            timeout,
            action,
        }
    }

    /// What holds of the session between operations: an unlocked session is not
    /// locked, a locked one knows its account, the master password is in memory
    /// exactly while the vault is unlocked, and no server URL is blank.
    pub open spec fn well_formed(self) -> bool {
        &&& self.client is Some ==> !self.locked
        &&& self.locked ==> self.email is Some
        &&& self.master_password is Some <==> self.client is Some
        &&& self.identity_url == text::non_empty(self.identity_url)
        &&& self.api_url == text::non_empty(self.api_url)
    }

    /// The session of an account that is known but sealed.
    pub open spec fn locked_in(
        email: Seq<char>,
        two_factor_token: Option<Seq<char>>,
        identity_url: Option<Seq<char>>,
        api_url: Option<Seq<char>>,
        timeout: TimeoutKind,
        action: TimeoutAction,
    ) -> SessionView<C> {
        SessionView {
            client: None,
            email: Some(email),
            ciphers: Seq::empty(),
            master_password: None,
            two_factor_token,
            identity_url,
            api_url,
            locked: true,
            timeout,
            action,
        }
    }

    pub open spec fn status(self) -> VaultStatus {
        if self.client is Some {
            VaultStatus::Unlocked
        } else if self.locked {
            VaultStatus::Locked
        } else {
            VaultStatus::LoggedOut
        }
    }

    /// The record of the account with the password `password`.
    pub open spec fn record(self, password: Option<Seq<char>>) -> Option<PersistedRecordView> {
        match self.email {
            Some(email) => Some(
                PersistedRecordView {
                    email,
                    master_password: password,
                    two_factor_token: self.two_factor_token,
                    identity_url: self.identity_url,
                    api_url: self.api_url,
                },
            ),
            None => None,
        }
    }

    /// The record to persist: none under "log out on browser restart", one
    /// without the password under "lock on browser restart", and one with it
    /// under every other policy, for which a restart is not the trigger.
    pub open spec fn persisted(self) -> Option<PersistedRecordView> {
        if self.timeout != TimeoutKind::OnBrowserRestart {
            self.record(self.master_password)
        } else if self.action == TimeoutAction::Lock {
            self.record(None)
        } else {
            None
        }
    }

    /// The session after a lock: the key and the cached vault are gone, the
    /// account is kept.
    pub open spec fn sealed(self) -> SessionView<C> {
        SessionView {
            client: None,
            ciphers: Seq::empty(),
            master_password: None,
            locked: self.email is Some,
            ..self
        }
    }

    /// What a lock asks the app to persist: the account without its password,
    /// nothing where there is no account.
    pub open spec fn seal_request(self) -> PersistView {
        match self.record(None) {
            Some(record) => PersistView::Store(record),
            None => PersistView::Keep,
        }
    }

    /// What the idle time calls for.
    pub open spec fn due(self, idle_secs: u64) -> Option<TimeoutAction> {
        if self.client is Some && (self.timeout.threshold() matches Some(t) && idle_secs >= t) {
            Some(self.action)
        } else {
            None
        }
    }
}

/// The view of what a sync came back with.
pub open spec fn synced_view(synced: Result<Vec<Cipher>, EngineError>) -> Result<
    Seq<CipherView>,
    EngineErrorView,
> {
    match synced {
        Ok(ciphers) => Ok(cipher::ciphers_view(ciphers@)),
        Err(e) => Err(e@),
    }
}

/// The remember token that counts after a login: a newly issued one, else the
/// one already held.
pub open spec fn token_after(issued: Option<Seq<char>>, held: Option<Seq<char>>) -> Option<
    Seq<char>,
> {
    match issued {
        Some(token) => Some(token),
        None => held,
    }
}

/// What an unlock starts with.
pub enum UnlockStep {
    /// The vault is unlocked already.
    AlreadyUnlocked,
    Refused(EngineError),
    /// The vault is unlocked by this login.
    SignIn(LoginRequest),
}

/// The mathematical value of an `UnlockStep`.
pub enum UnlockStepView {
    AlreadyUnlocked,
    Refused(EngineErrorView),
    SignIn(LoginRequestView),
}

impl View for UnlockStep {
    type V = UnlockStepView;

    open spec fn view(&self) -> UnlockStepView {
        match *self {
            UnlockStep::AlreadyUnlocked => UnlockStepView::AlreadyUnlocked,
            UnlockStep::Refused(e) => UnlockStepView::Refused(e@),
            UnlockStep::SignIn(request) => UnlockStepView::SignIn(request@),
        }
    }
}

impl<C> SessionView<C> {
    /// The session after an interactive login.
    pub open spec fn logged_in(
        self,
        client: C,
        ciphers: Seq<CipherView>,
        remember_token: Option<Seq<char>>,
        email: Seq<char>,
        master_password: Seq<char>,
        identity_url: Option<Seq<char>>,
        api_url: Option<Seq<char>>,
        timeout: Seq<char>,
        action: Seq<char>,
    ) -> SessionView<C> {
        SessionView {
            client: Some(client),
            email: Some(email),
            ciphers,
            master_password: Some(master_password),
            two_factor_token: token_after(remember_token, self.two_factor_token),
            identity_url: text::non_empty(identity_url),
            api_url: text::non_empty(api_url),
            locked: false,
            timeout: TimeoutKind::named(timeout),
            action: TimeoutAction::named(action),
        }
    }

    /// The session after the login of an unlock.
    pub open spec fn unlocked_by(
        self,
        client: C,
        ciphers: Seq<CipherView>,
        remember_token: Option<Seq<char>>,
        password: Seq<char>,
    ) -> SessionView<C> {
        SessionView {
            client: Some(client),
            ciphers,
            master_password: Some(password),
            two_factor_token: token_after(remember_token, self.two_factor_token),
            locked: false,
            ..self
        }
    }

    /// The session after the silent login of a restore.
    pub open spec fn restored_by(
        client: C,
        ciphers: Seq<CipherView>,
        remember_token: Option<Seq<char>>,
        email: Seq<char>,
        password: Seq<char>,
        two_factor_token: Option<Seq<char>>,
        identity_url: Option<Seq<char>>,
        api_url: Option<Seq<char>>,
        timeout: Seq<char>,
        action: Seq<char>,
    ) -> SessionView<C> {
        SessionView {
            client: Some(client),
            email: Some(email),
            ciphers,
            master_password: Some(password),
            two_factor_token: token_after(remember_token, text::non_empty(two_factor_token)),
            identity_url: text::non_empty(identity_url),
            api_url: text::non_empty(api_url),
            locked: false,
            timeout: TimeoutKind::named(timeout),
            action: TimeoutAction::named(action),
        }
    }

    /// The session after a restore without a password.
    pub open spec fn restored_locked(
        email: Seq<char>,
        two_factor_token: Option<Seq<char>>,
        identity_url: Option<Seq<char>>,
        api_url: Option<Seq<char>>,
        timeout: Seq<char>,
        action: Seq<char>,
    ) -> SessionView<C> {
        SessionView::<C>::locked_in(
            email,
            text::non_empty(two_factor_token),
            text::non_empty(identity_url),
            text::non_empty(api_url),
            TimeoutKind::named(timeout),
            TimeoutAction::named(action),
        )
    }

    /// The session under another policy.
    pub open spec fn under(self, timeout: Seq<char>, action: Seq<char>) -> SessionView<C> {
        SessionView {
            timeout: TimeoutKind::named(timeout),
            action: TimeoutAction::named(action),
            ..self
        }
    }

    /// The session and the outcome of a lookup, given what a sync came back with.
    pub open spec fn looked_up(
        self,
        synced: Result<Seq<CipherView>, EngineErrorView>,
        query: QueryView,
    ) -> (SessionView<C>, Result<LookupOutcomeView, EngineErrorView>) {
        match synced {
            Ok(fresh) => (
                SessionView { ciphers: fresh, ..self },
                lookup::resolved(fresh, query),
            ),
            Err(e) => (
                self,
                if self.ciphers.len() == 0 {
                    Err(EngineErrorView::Failure("Vault sync failed: "@ + e.message()))
                } else {
                    lookup::resolved(self.ciphers, query)
                },
            ),
        }
    }

    /// What an unlock starts with. A freshly typed code wins over the stored
    /// remember token.
    pub open spec fn unlock_step(
        self,
        master_password: Option<Seq<char>>,
        two_factor: Option<Seq<char>>,
        new_device_otp: Option<Seq<char>>,
    ) -> UnlockStepView {
        if self.client is Some {
            UnlockStepView::AlreadyUnlocked
        } else if self.email is None || !self.locked {
            UnlockStepView::Refused(EngineErrorView::Failure("Log in to unlock."@))
        } else {
            match text::non_empty(master_password) {
                None => UnlockStepView::Refused(
                    EngineErrorView::Failure("Master password required."@),
                ),
                Some(password) => UnlockStepView::SignIn(
                    LoginRequestView {
                        email: self.email->0,
                        password,
                        two_factor: match signin::typed_code(two_factor) {
                            Some(code) => Some(code),
                            None => signin::remembered(self.two_factor_token),
                        },
                        new_device_otp: text::non_empty(new_device_otp),
                        identity_url: self.identity_url,
                        api_url: self.api_url,
                    },
                ),
            }
        }
    }
}

impl<C> Session<C> {
    /// A session without an account, under the default policy.
    pub fn new() -> (r: Session<C>)
        ensures
            r@ == SessionView::<C>::fresh(TimeoutKind::OnBrowserRestart, TimeoutAction::Lock),
            r@.well_formed(),
    {
        let r = Session {
            client: None,
            email: None,
            ciphers: Vec::new(),
            master_password: None,
            two_factor_token: None,
            identity_url: None,
            api_url: None,
            locked: false,
            timeout: TimeoutKind::OnBrowserRestart,
            action: TimeoutAction::Lock,
        };
        assert(cipher::ciphers_view(r.ciphers@) =~= Seq::empty());
        r
    }

    /// The record of the account, with the master password where `password`
    /// says so.
    fn record_with(&self, password: bool) -> (r: Option<PersistedRecord>)
        ensures
            crate::engine::record_view(r) == self@.record(
                if password {
                    self@.master_password
                } else {
                    None
                },
            ),
    {
        match &self.email {
            Some(email) => Some(
                PersistedRecord {
                    email: email.clone(),
                    master_password: if password {
                        text::copy(&self.master_password)
                    } else {
                        None
                    },
                    two_factor_token: text::copy(&self.two_factor_token),
                    identity_url: text::copy(&self.identity_url),
                    api_url: text::copy(&self.api_url),
                },
            ),
            None => None,
        }
    }

    /// The record to persist for the current account + policy: unlocked-restore
    /// (store password), locked-restore (identity only), or forget (`None`).
    pub fn persist_record(&self) -> (r: Option<PersistedRecord>)
        ensures
            crate::engine::record_view(r) == self@.persisted(),
    {
        match self.timeout {
            TimeoutKind::OnBrowserRestart => match self.action {
                TimeoutAction::LogOut => None,
                TimeoutAction::Lock => self.record_with(false),
            },
            _ => self.record_with(true),
        }
    }

    pub fn status(&self) -> (r: VaultStatus)
        ensures
            r == self@.status(),
    {
        if self.client.is_some() {
            VaultStatus::Unlocked
        } else if self.locked {
            VaultStatus::Locked
        } else {
            VaultStatus::LoggedOut
        }
    }

    pub fn account(&self) -> (r: Option<String>)
        ensures
            text::opt_view(r) == self@.email,
    {
        text::copy(&self.email)
    }

    /// Takes up what an interactive login came back with. A login that failed
    /// leaves the session as it was.
    pub fn finish_login(
        &mut self,
        attempt: Result<SignedIn<C>, EngineError>,
        email: &str,
        master_password: &str,
        identity_url: Option<&str>,
        api_url: Option<&str>,
        timeout: &str,
        action: &str,
    ) -> (r: Result<Persist, EngineError>)
        ensures
            match attempt {
                Ok(login) => {
                    &&& final(self)@ == old(self)@.logged_in(
                        login.client,
                        cipher::ciphers_view(login.ciphers@),
                        text::opt_view(login.remember_token),
                        email@,
                        master_password@,
                        text::opt_str_view(identity_url),
                        text::opt_str_view(api_url),
                        timeout@,
                        action@,
                    )
                    &&& r matches Ok(p) && p@ == emitted(final(self)@.persisted())
                },
                Err(e) => *final(self) == *old(self) && r == Err::<Persist, EngineError>(e),
            },
            old(self)@.well_formed() ==> final(self)@.well_formed(),
    {
        let login = match attempt {
            Ok(login) => login,
            Err(e) => return Err(e),
        };
        self.client = Some(login.client);
        self.email = Some(email.to_owned());
        self.ciphers = login.ciphers;
        self.master_password = Some(master_password.to_owned());
        if login.remember_token.is_some() {
            self.two_factor_token = login.remember_token;
        }
        self.identity_url = text::owned_non_empty(identity_url);
        self.api_url = text::owned_non_empty(api_url);
        self.locked = false;
        self.timeout = TimeoutKind::parse(timeout);
        self.action = TimeoutAction::parse(action);
        Ok(emit(self.persist_record()))
    }

    /// What an unlock starts with.
    pub fn begin_unlock(
        &self,
        master_password: Option<&str>,
        two_factor: Option<&str>,
        new_device_otp: Option<&str>,
    ) -> (r: UnlockStep)
        ensures
            r@ == self@.unlock_step(
                text::opt_str_view(master_password),
                text::opt_str_view(two_factor),
                text::opt_str_view(new_device_otp),
            ),
    {
        if self.client.is_some() {
            return UnlockStep::AlreadyUnlocked;
        }
        let email: String = match &self.email {
            Some(email) => email.clone(),
            None => return UnlockStep::Refused(
                EngineError::Failure("Log in to unlock.".to_owned()),
            ),
        };
        if !self.locked {
            return UnlockStep::Refused(EngineError::Failure("Log in to unlock.".to_owned()));
        }
        let password: String = match text::owned_non_empty(master_password) {
            Some(password) => password,
            None => return UnlockStep::Refused(
                EngineError::Failure("Master password required.".to_owned()),
            ),
        };
        let two_factor: Option<TwoFactor> = match signin::code_request(two_factor) {
            Some(code) => Some(code),
            None => signin::remember_request(&self.two_factor_token),
        };
        UnlockStep::SignIn(
            LoginRequest {
                email,
                password,
                two_factor,
                new_device_otp: text::owned_non_empty(new_device_otp),
                identity_url: text::copy(&self.identity_url),
                api_url: text::copy(&self.api_url),
            },
        )
    }

    /// Takes up what the login of an unlock came back with. A login that failed
    /// leaves the session as it was.
    pub fn finish_unlock(
        &mut self,
        attempt: Result<SignedIn<C>, EngineError>,
        password: &str,
    ) -> (r: Result<Persist, EngineError>)
        ensures
            match attempt {
                Ok(login) => {
                    &&& final(self)@ == old(self)@.unlocked_by(
                        login.client,
                        cipher::ciphers_view(login.ciphers@),
                        text::opt_view(login.remember_token),
                        password@,
                    )
                    &&& r matches Ok(p) && p@ == emitted(final(self)@.persisted())
                },
                Err(e) => *final(self) == *old(self) && r == Err::<Persist, EngineError>(e),
            },
            old(self)@.well_formed() ==> final(self)@.well_formed(),
    {
        let login = match attempt {
            Ok(login) => login,
            Err(e) => return Err(e),
        };
        self.client = Some(login.client);
        self.ciphers = login.ciphers;
        self.master_password = Some(password.to_owned());
        if login.remember_token.is_some() {
            self.two_factor_token = login.remember_token;
        }
        self.locked = false;
        Ok(emit(self.persist_record()))
    }

    /// Drops the in-memory key and cached vault, but keeps the account identity
    /// so the vault can be unlocked (not re-logged-in). The persisted record is
    /// downgraded to locked-restore so a browser restart also stays locked; a
    /// bare lock with no account keeps whatever the app already holds.
    pub fn lock(&mut self) -> (r: Persist)
        ensures
            final(self)@ == old(self)@.sealed(),
            old(self)@.well_formed() ==> final(self)@.well_formed(),
            r@ == old(self)@.seal_request(),
    {
        self.client = None;
        self.ciphers = Vec::new();
        self.master_password = None;
        self.locked = self.email.is_some();
        assert(cipher::ciphers_view(self.ciphers@) =~= Seq::empty());
        match self.record_with(false) {
            Some(record) => Persist::Store(record),
            None => Persist::Keep,
        }
    }

    /// Deliberate "forget me": drops the persisted session and all state,
    /// keeping only the current timeout policy.
    pub fn logout(&mut self) -> (r: Persist)
        ensures
            final(self)@ == SessionView::<C>::fresh(old(self)@.timeout, old(self)@.action),
            final(self)@.well_formed(),
            r@ == PersistView::Forget,
    {
        self.client = None;
        self.email = None;
        self.ciphers = Vec::new();
        self.master_password = None;
        self.two_factor_token = None;
        self.identity_url = None;
        self.api_url = None;
        self.locked = false;
        assert(cipher::ciphers_view(self.ciphers@) =~= Seq::empty());
        Persist::Forget
    }

    /// Updates the timeout policy and brings the persisted restart behavior in
    /// line with it.
    pub fn set_timeout(&mut self, timeout: &str, action: &str) -> (r: Persist)
        ensures
            final(self)@ == old(self)@.under(timeout@, action@),
            old(self)@.well_formed() ==> final(self)@.well_formed(),
            r@ == emitted(final(self)@.persisted()),
    {
        self.timeout = TimeoutKind::parse(timeout);
        self.action = TimeoutAction::parse(action);
        emit(self.persist_record())
    }

    /// Takes up an account that the app restored without a password: identity
    /// known, vault sealed. Nothing is persisted; the app holds this record.
    pub fn restore_locked(
        &mut self,
        email: &str,
        two_factor_token: Option<&str>,
        identity_url: Option<&str>,
        api_url: Option<&str>,
        timeout: &str,
        action: &str,
    ) -> (r: VaultStatus)
        ensures
            final(self)@ == SessionView::<C>::restored_locked(
                email@,
                text::opt_str_view(two_factor_token),
                text::opt_str_view(identity_url),
                text::opt_str_view(api_url),
                timeout@,
                action@,
            ),
            final(self)@.well_formed(),
            r == VaultStatus::Locked,
            r == final(self)@.status(),
    {
        self.client = None;
        self.ciphers = Vec::new();
        self.master_password = None;
        self.two_factor_token = text::owned_non_empty(two_factor_token);
        self.email = Some(email.to_owned());
        self.identity_url = text::owned_non_empty(identity_url);
        self.api_url = text::owned_non_empty(api_url);
        self.locked = true;
        self.timeout = TimeoutKind::parse(timeout);
        self.action = TimeoutAction::parse(action);
        assert(cipher::ciphers_view(self.ciphers@) =~= Seq::empty());
        VaultStatus::Locked
    }

    /// Takes up what the silent re-login of a restored account came back with.
    /// Nothing is persisted; the app holds this record. A login that failed
    /// leaves the session as it was.
    pub fn finish_restore(
        &mut self,
        attempt: Result<SignedIn<C>, EngineError>,
        email: &str,
        password: &str,
        two_factor_token: Option<&str>,
        identity_url: Option<&str>,
        api_url: Option<&str>,
        timeout: &str,
        action: &str,
    ) -> (r: Result<VaultStatus, EngineError>)
        ensures
            match attempt {
                Ok(login) => {
                    &&& final(self)@ == SessionView::<C>::restored_by(
                        login.client,
                        cipher::ciphers_view(login.ciphers@),
                        text::opt_view(login.remember_token),
                        email@,
                        password@,
                        text::opt_str_view(two_factor_token),
                        text::opt_str_view(identity_url),
                        text::opt_str_view(api_url),
                        timeout@,
                        action@,
                    )
                    &&& r == Ok::<VaultStatus, EngineError>(VaultStatus::Unlocked)
                },
                Err(e) => *final(self) == *old(self) && r == Err::<VaultStatus, EngineError>(e),
            },
            old(self)@.well_formed() ==> final(self)@.well_formed(),
    {
        let login = match attempt {
            Ok(login) => login,
            Err(e) => return Err(e),
        };
        self.client = Some(login.client);
        self.email = Some(email.to_owned());
        self.ciphers = login.ciphers;
        self.master_password = Some(password.to_owned());
        self.two_factor_token = match login.remember_token {
            Some(token) => Some(token),
            None => text::owned_non_empty(two_factor_token),
        };
        self.identity_url = text::owned_non_empty(identity_url);
        self.api_url = text::owned_non_empty(api_url);
        self.locked = false;
        self.timeout = TimeoutKind::parse(timeout);
        self.action = TimeoutAction::parse(action);
        Ok(VaultStatus::Unlocked)
    }

    /// Applies the idle timeout: an unlocked session that has been idle for the
    /// threshold of its policy is locked or logged out.
    pub fn enforce_timeout(&mut self, idle_secs: u64) -> (r: Persist)
        ensures
            match old(self)@.due(idle_secs) {
                None => *final(self) == *old(self) && r@ == PersistView::Keep,
                Some(TimeoutAction::Lock) => final(self)@ == old(self)@.sealed() && r@ == old(
                    self,
                )@.seal_request(),
                Some(TimeoutAction::LogOut) => final(self)@ == SessionView::<C>::fresh(
                    old(self)@.timeout,
                    old(self)@.action,
                ) && r@ == PersistView::Forget,
            },
            old(self)@.well_formed() ==> final(self)@.well_formed(),
    {
        if self.client.is_none() {
            return Persist::Keep;
        }
        match self.timeout.idle_secs() {
            Some(threshold) => if idle_secs >= threshold {
                match self.action {
                    TimeoutAction::Lock => self.lock(),
                    TimeoutAction::LogOut => self.logout(),
                }
            } else {
                Persist::Keep
            },
            None => Persist::Keep,
        }
    }

    /// The client to sync a lookup with.
    pub fn require_client(&self) -> (r: Result<&C, EngineError>)
        ensures
            match r {
                Ok(client) => self@.client == Some(*client),
                Err(e) => self@.client is None && e is LoggedOut,
            },
    {
        match &self.client {
            Some(client) => Ok(client),
            None => Err(EngineError::LoggedOut),
        }
    }

    /// Resolves a query with what a sync came back with. A fresh vault replaces
    /// the cached one. On a transient sync failure the cached one answers, but
    /// only when there is one: answering from an empty cache would misreport
    /// every item as missing.
    pub fn lookup(
        &mut self,
        synced: Result<Vec<Cipher>, EngineError>,
        query: &Query,
    ) -> (r: Result<LookupOutcome, EngineError>)
        ensures
            (final(self)@, lookup::result_view(r)) == old(self)@.looked_up(
                synced_view(synced),
                query@,
            ),
            synced is Err ==> *final(self) == *old(self),
            old(self)@.well_formed() ==> final(self)@.well_formed(),
    {
        match synced {
            Ok(fresh) => {
                self.ciphers = fresh;
            },
            Err(e) => {
                if self.ciphers.len() == 0 {
                    return Err(
                        EngineError::Failure(
                            "Vault sync failed: ".to_owned().concat(e.message().as_str()),
                        ),
                    );
                }
            },
        }
        lookup::resolve(&self.ciphers, query)
    }

    /// Deliberately unimplemented: releasing a live two-step code collapses both
    /// factors behind one approval prompt.
    pub fn totp(&self, _query: &Query) -> (r: Result<Option<String>, EngineError>)
        ensures
            r == Err::<Option<String>, EngineError>(EngineError::NotImplemented),
    {
        Err(EngineError::NotImplemented)
    }
}

/// Locking drops everything a secret could be read from and keeps the account,
/// its device trust, its servers and its policy. The record that replaces the
/// persisted one carries the same account without its password.
pub proof fn locking_keeps_only_the_account<C>(s: SessionView<C>)
    ensures
        s.sealed().client is None,
        s.sealed().master_password is None,
        s.sealed().ciphers.len() == 0,
        s.sealed().email == s.email,
        s.sealed().two_factor_token == s.two_factor_token,
        s.sealed().identity_url == s.identity_url,
        s.sealed().api_url == s.api_url,
        s.sealed().timeout == s.timeout,
        s.sealed().action == s.action,
        s.sealed().status() == if s.email is Some {
            VaultStatus::Locked
        } else {
            VaultStatus::LoggedOut
        },
        s.seal_request() is Store <==> s.email is Some,
        s.seal_request() matches PersistView::Store(r) ==> {
            &&& r.master_password is None
            &&& Some(r.email) == s.email
            &&& r.two_factor_token == s.two_factor_token
            &&& r.identity_url == s.identity_url
            &&& r.api_url == s.api_url
        },
{
}

/// Locking a locked session changes nothing, and asks for the same record.
pub proof fn locking_twice_is_locking_once<C>(s: SessionView<C>)
    ensures
        s.sealed().sealed() == s.sealed(),
        s.sealed().seal_request() == s.seal_request(),
{
}

/// An account that was locked is unlocked by its password alone: the login goes
/// to the account's own servers and replays its remember token, unless a code
/// was typed.
pub proof fn a_locked_account_needs_only_its_password<C>(
    s: SessionView<C>,
    password: Seq<char>,
    new_device_otp: Option<Seq<char>>,
)
    requires
        s.email is Some,
        password.len() > 0,
    ensures
        s.sealed().unlock_step(Some(password), None, new_device_otp) == UnlockStepView::SignIn(
            LoginRequestView {
                email: s.email->0,
                password,
                two_factor: signin::remembered(s.two_factor_token),
                new_device_otp: text::non_empty(new_device_otp),
                identity_url: s.identity_url,
                api_url: s.api_url,
            },
        ),
{
}

/// A logged-out session knows nothing that could be persisted or unlocked.
pub proof fn logging_out_forgets_the_account<C>(
    timeout: TimeoutKind,
    action: TimeoutAction,
    master_password: Option<Seq<char>>,
    two_factor: Option<Seq<char>>,
    new_device_otp: Option<Seq<char>>,
)
    ensures
        SessionView::<C>::fresh(timeout, action).status() == VaultStatus::LoggedOut,
        SessionView::<C>::fresh(timeout, action).persisted() is None,
        SessionView::<C>::fresh(timeout, action).seal_request() == PersistView::Keep,
        SessionView::<C>::fresh(timeout, action).unlock_step(
            master_password,
            two_factor,
            new_device_otp,
        ) == UnlockStepView::Refused(EngineErrorView::Failure("Log in to unlock."@)),
{
}

/// Device trust rides along in every record that is persisted.
pub proof fn every_record_carries_the_remember_token<C>(s: SessionView<C>)
    ensures
        s.persisted() matches Some(r) ==> {
            &&& Some(r.email) == s.email
            &&& r.two_factor_token == s.two_factor_token
            &&& r.identity_url == s.identity_url
            &&& r.api_url == s.api_url
        },
{
}

/// Under a browser-restart policy the session never returns unlocked: what is
/// persisted holds no password, so restoring it signs nobody in, and where the
/// action is to log out nothing is persisted at all.
pub proof fn a_browser_restart_never_returns_unlocked<C>(s: SessionView<C>)
    requires
        s.timeout == TimeoutKind::OnBrowserRestart,
    ensures
        s.action == TimeoutAction::LogOut ==> s.persisted() is None,
        s.action == TimeoutAction::Lock && s.email is Some ==> s.persisted() is Some,
        s.persisted() matches Some(r) ==> {
            &&& r.master_password is None
            &&& signin::restore_login(
                r.email,
                r.master_password,
                r.two_factor_token,
                r.identity_url,
                r.api_url,
            ) is None
        },
{
}

/// Under every other policy an unlocked session survives a restart: restoring
/// what was persisted signs the same account in again, with its password and its
/// remember token, on its own servers.
pub proof fn other_policies_return_unlocked<C>(s: SessionView<C>)
    requires
        s.well_formed(),
        s.timeout != TimeoutKind::OnBrowserRestart,
        s.client is Some,
        s.email is Some,
        s.master_password->0.len() > 0,
    ensures
        s.persisted() matches Some(r) && signin::restore_login(
            r.email,
            r.master_password,
            r.two_factor_token,
            r.identity_url,
            r.api_url,
        ) == Some(
            LoginRequestView {
                email: s.email->0,
                password: s.master_password->0,
                two_factor: signin::remembered(text::non_empty(s.two_factor_token)),
                new_device_otp: None,
                identity_url: s.identity_url,
                api_url: s.api_url,
            },
        ),
{
}

/// Restoring the record of a locked session brings back that locked session.
pub proof fn a_sealed_record_restores_the_sealed_session<C>(s: SessionView<C>)
    requires
        s.well_formed(),
        s.email is Some,
        s.two_factor_token == text::non_empty(s.two_factor_token),
    ensures
        s.seal_request() matches PersistView::Store(r) && SessionView::<C>::locked_in(
            r.email,
            text::non_empty(r.two_factor_token),
            text::non_empty(r.identity_url),
            text::non_empty(r.api_url),
            s.timeout,
            s.action,
        ) == s.sealed(),
{
}

/// Idle time ends only an unlocked session under a time-based policy, and from
/// the threshold on. It ends it once.
pub proof fn only_idle_unlocked_sessions_end<C>(s: SessionView<C>, idle_secs: u64, later: u64)
    ensures
        s.status() != VaultStatus::Unlocked ==> s.due(idle_secs) is None,
        s.timeout.threshold() is None ==> s.due(idle_secs) is None,
        s.due(idle_secs) is Some && idle_secs <= later ==> s.due(later) == s.due(idle_secs),
        s.due(idle_secs) is Some ==> s.due(idle_secs) == Some(s.action),
        s.status() == VaultStatus::Unlocked && s.timeout == TimeoutKind::OneHour ==> (s.due(
            idle_secs,
        ) is Some <==> idle_secs >= 60 * 60),
        s.status() == VaultStatus::Unlocked && s.timeout == TimeoutKind::FourHours ==> (s.due(
            idle_secs,
        ) is Some <==> idle_secs >= 4 * 60 * 60),
        s.sealed().due(later) is None,
        SessionView::<C>::fresh(s.timeout, s.action).due(later) is None,
{
}

/// What a login has the app store signs the same account in again: with the
/// password it was made with, with the token it was issued or, where it was
/// issued none, the one held before, and on the servers it was made on. Only
/// under the browser-restart policy does it not.
pub proof fn what_a_login_stores_signs_in_again<C>(
    s: SessionView<C>,
    client: C,
    ciphers: Seq<CipherView>,
    issued: Option<Seq<char>>,
    email: Seq<char>,
    password: Seq<char>,
    identity_url: Option<Seq<char>>,
    api_url: Option<Seq<char>>,
    timeout: Seq<char>,
    action: Seq<char>,
)
    requires
        password.len() > 0,
        TimeoutKind::named(timeout) != TimeoutKind::OnBrowserRestart,
    ensures
        ({
            let after = s.logged_in(
                client,
                ciphers,
                issued,
                email,
                password,
                identity_url,
                api_url,
                timeout,
                action,
            );
            let token = if issued is Some {
                issued
            } else {
                s.two_factor_token
            };
            &&& after.status() == VaultStatus::Unlocked
            &&& after.client == Some(client)
            &&& after.ciphers == ciphers
            &&& after.persisted() matches Some(r) && signin::restore_login(
                r.email,
                r.master_password,
                r.two_factor_token,
                r.identity_url,
                r.api_url,
            ) == Some(
                LoginRequestView {
                    email,
                    password,
                    two_factor: signin::remembered(text::non_empty(token)),
                    new_device_otp: None,
                    identity_url: text::non_empty(identity_url),
                    api_url: text::non_empty(api_url),
                },
            )
        }),
{
}

/// A session ends when it was told to: the policy that a login, a restore or a
/// change of policy names is the one its idle time is held against.
pub proof fn sessions_end_under_the_policy_they_were_given<C>(
    s: SessionView<C>,
    client: C,
    ciphers: Seq<CipherView>,
    token: Option<Seq<char>>,
    email: Seq<char>,
    password: Seq<char>,
    url: Option<Seq<char>>,
    timeout: Seq<char>,
    action: Seq<char>,
    idle_secs: u64,
)
    requires
        timeout == "oneHour"@ || timeout == "fourHours"@,
        action == "lock"@ || action == "logOut"@,
    ensures
        ({
            let ended = if idle_secs < (if timeout == "oneHour"@ {
                3600u64
            } else {
                14400u64
            }) {
                None
            } else if action == "lock"@ {
                Some(TimeoutAction::Lock)
            } else {
                Some(TimeoutAction::LogOut)
            };
            &&& s.logged_in(
                client,
                ciphers,
                token,
                email,
                password,
                url,
                url,
                timeout,
                action,
            ).due(idle_secs) == ended
            &&& SessionView::<C>::restored_by(
                client,
                ciphers,
                token,
                email,
                password,
                token,
                url,
                url,
                timeout,
                action,
            ).due(idle_secs) == ended
            &&& s.client is Some ==> s.under(timeout, action).due(idle_secs) == ended
            &&& SessionView::<C>::locked_in(
                email,
                token,
                url,
                url,
                TimeoutKind::named(timeout),
                TimeoutAction::named(action),
            ).unlocked_by(client, ciphers, token, password).due(idle_secs) == ended
        }),
{
    reveal_strlit("oneHour");
    reveal_strlit("fourHours");
    reveal_strlit("lock");
    reveal_strlit("logOut");
    assert("oneHour"@.len() == 7);
    assert("fourHours"@.len() == 9);
    assert("lock"@.len() == 4);
    assert("logOut"@.len() == 6);
}

/// An unlock gives back the session that was locked, with the client and the
/// vault of its login, the password it was made with, and the token it was issued
/// where it was issued one: the account, the servers and the policy are the same.
pub proof fn an_unlock_gives_the_session_back<C>(
    s: SessionView<C>,
    client: C,
    ciphers: Seq<CipherView>,
    issued: Option<Seq<char>>,
    password: Seq<char>,
)
    requires
        s.well_formed(),
        s.client == Some(client),
        s.ciphers == ciphers,
        s.master_password == Some(password),
    ensures
        s.sealed().unlocked_by(client, ciphers, None, password) == s,
        issued is Some ==> s.sealed().unlocked_by(client, ciphers, issued, password)
            == (SessionView { two_factor_token: issued, ..s }),
{
}

/// A restore with a password leaves the session that a login of the same account
/// would leave where the token of the record was held before.
pub proof fn a_restore_is_a_login_with_its_token<C>(
    client: C,
    ciphers: Seq<CipherView>,
    issued: Option<Seq<char>>,
    email: Seq<char>,
    password: Seq<char>,
    token: Option<Seq<char>>,
    identity_url: Option<Seq<char>>,
    api_url: Option<Seq<char>>,
    timeout: Seq<char>,
    action: Seq<char>,
)
    ensures
        SessionView::<C>::restored_by(
            client,
            ciphers,
            issued,
            email,
            password,
            token,
            identity_url,
            api_url,
            timeout,
            action,
        ) == SessionView::<C>::locked_in(
            email,
            text::non_empty(token),
            text::non_empty(identity_url),
            text::non_empty(api_url),
            TimeoutKind::named(timeout),
            TimeoutAction::named(action),
        ).logged_in(
            client,
            ciphers,
            issued,
            email,
            password,
            identity_url,
            api_url,
            timeout,
            action,
        ),
{
}

/// A typed code wins over the stored token and is what the login sends; the code
/// for a new device goes with it. A blank code counts as none.
pub proof fn typed_codes_win<C>(
    s: SessionView<C>,
    password: Seq<char>,
    code: Seq<char>,
    new_device_otp: Seq<char>,
)
    requires
        s.email is Some,
        password.len() > 0,
        code.len() > 0,
        new_device_otp.len() > 0,
    ensures
        s.sealed().unlock_step(Some(password), Some(code), Some(new_device_otp)) matches
            UnlockStepView::SignIn(request) && request.two_factor is Some
            && request.two_factor->0.token == code && request.two_factor->0.provider is Authenticator
            && request.two_factor->0.remember && request.new_device_otp == Some(new_device_otp)
            && request.password == password && Some(request.email) == s.email,
        s.sealed().unlock_step(Some(password), Some(Seq::empty()), Some(Seq::empty()))
            == s.sealed().unlock_step(Some(password), None, None),
        s.sealed().unlock_step(None, Some(code), Some(new_device_otp)) is Refused,
        s.sealed().unlock_step(Some(Seq::empty()), Some(code), Some(new_device_otp)) is Refused,
{
}

/// A lookup answers from the vault that was just pulled, which replaces the last
/// one; where the pull failed, from the last one, unless that is empty.
pub proof fn lookups_answer_from_the_freshest_vault<C>(
    s: SessionView<C>,
    fresh: Seq<CipherView>,
    e: EngineErrorView,
    query: QueryView,
)
    ensures
        s.looked_up(Ok(fresh), query).1 == lookup::resolved(fresh, query),
        s.looked_up(Ok(fresh), query).0 == (SessionView { ciphers: fresh, ..s }),
        fresh.len() > 0 ==> s.looked_up(Ok(fresh), query).0.looked_up(Err(e), query).1
            == lookup::resolved(fresh, query),
        s.looked_up(Err(e), query).0 == s,
        s.ciphers.len() == 0 ==> s.looked_up(Err(e), query).1 is Err,
{
}

/// A change of policy leaves the account, the keys and the vault as they are, and
/// has the app store what the new policy lets survive a restart: the password
/// except under the browser-restart policy.
pub proof fn a_policy_changes_only_what_survives<C>(
    s: SessionView<C>,
    timeout: Seq<char>,
    action: Seq<char>,
)
    requires
        s.email is Some,
    ensures
        ({
            let after = s.under(timeout, action);
            &&& after.client == s.client && after.ciphers == s.ciphers && after.email == s.email
            &&& after.master_password == s.master_password && after.locked == s.locked
            &&& after.two_factor_token == s.two_factor_token
            &&& after.identity_url == s.identity_url && after.api_url == s.api_url
            &&& timeout == "never"@ || timeout == "oneHour"@ || timeout == "fourHours"@ || timeout
                == "onSystemLock"@ ==> after.persisted() is Some
                && after.persisted()->0.master_password == s.master_password
            &&& timeout == "onBrowserRestart"@ && action == "lock"@ ==> after.persisted() is Some
                && after.persisted()->0.master_password is None
            &&& timeout == "onBrowserRestart"@ && action == "logOut"@ ==> after.persisted() is None
        }),
{
    reveal_strlit("oneHour");
    reveal_strlit("fourHours");
    reveal_strlit("onSystemLock");
    reveal_strlit("never");
    reveal_strlit("onBrowserRestart");
    reveal_strlit("lock");
    reveal_strlit("logOut");
    assert("oneHour"@.len() == 7);
    assert("fourHours"@.len() == 9);
    assert("onSystemLock"@.len() == 12);
    assert("never"@.len() == 5);
    assert("onBrowserRestart"@.len() == 16);
    assert("lock"@.len() == 4);
    assert("logOut"@.len() == 6);
}

/// A login that succeeded leaves the account it was made for: its client, its
/// vault, its address, its password, its own servers each in its place, and the
/// policy it names. A token it was issued replaces the one held before.
pub proof fn logins_leave_their_account<C>(
    s: &mut Session<C>,
    login: SignedIn<C>,
    email: &str,
    password: &str,
    identity_url: Option<&str>,
    api_url: Option<&str>,
    timeout: &str,
    action: &str,
    r: Result<Persist, EngineError>,
)
    requires
        call_ensures(
            Session::<C>::finish_login,
            (
                s,
                Ok::<SignedIn<C>, EngineError>(login),
                email,
                password,
                identity_url,
                api_url,
                timeout,
                action,
            ),
            r,
        ),
    ensures
        r is Ok,
        final(s)@.client == Some(login.client),
        final(s)@.ciphers.len() == login.ciphers@.len(),
        forall|i: int|
            0 <= i < login.ciphers@.len() ==> final(s)@.ciphers[i] == (#[trigger] login.ciphers@[i])@,
        final(s)@.email == Some(email@),
        final(s)@.master_password == Some(password@),
        final(s)@.identity_url == text::non_empty(text::opt_str_view(identity_url)),
        final(s)@.api_url == text::non_empty(text::opt_str_view(api_url)),
        final(s)@.timeout == TimeoutKind::named(timeout@),
        final(s)@.action == TimeoutAction::named(action@),
        login.remember_token is Some ==> final(s)@.two_factor_token == Some(login.remember_token->0@),
        login.remember_token is None ==> final(s)@.two_factor_token == old(s)@.two_factor_token,
        final(s)@.persisted() is Some ==> r->Ok_0@ == PersistView::Store(final(s)@.persisted()->0),
        final(s)@.persisted() is None ==> r->Ok_0@ == PersistView::Forget,
{
}

/// An unlock that succeeded leaves the account that was locked, with the client,
/// the vault and the password of its login; its servers and its policy are as
/// before. A token it was issued replaces the one held before.
pub proof fn unlocks_leave_the_account_they_found<C>(
    s: &mut Session<C>,
    login: SignedIn<C>,
    password: &str,
    r: Result<Persist, EngineError>,
)
    requires
        call_ensures(
            Session::<C>::finish_unlock,
            (s, Ok::<SignedIn<C>, EngineError>(login), password),
            r,
        ),
    ensures
        r is Ok,
        final(s)@.client == Some(login.client),
        final(s)@.ciphers.len() == login.ciphers@.len(),
        forall|i: int|
            0 <= i < login.ciphers@.len() ==> final(s)@.ciphers[i] == (#[trigger] login.ciphers@[i])@,
        final(s)@.master_password == Some(password@),
        final(s)@.email == old(s)@.email,
        final(s)@.identity_url == old(s)@.identity_url,
        final(s)@.api_url == old(s)@.api_url,
        final(s)@.timeout == old(s)@.timeout,
        final(s)@.action == old(s)@.action,
        final(s)@.status() == VaultStatus::Unlocked,
        login.remember_token is Some ==> final(s)@.two_factor_token == Some(login.remember_token->0@),
        login.remember_token is None ==> final(s)@.two_factor_token == old(s)@.two_factor_token,
        final(s)@.persisted() is Some ==> r->Ok_0@ == PersistView::Store(final(s)@.persisted()->0),
        final(s)@.persisted() is None ==> r->Ok_0@ == PersistView::Forget,
{
}

/// A restore that signed in leaves the account of the record, unlocked: with the
/// password, the servers and the policy it names, each in its place, and with the
/// token of the record unless it was issued another.
pub proof fn restores_leave_the_account_of_the_record<C>(
    s: &mut Session<C>,
    login: SignedIn<C>,
    email: &str,
    password: &str,
    token: Option<&str>,
    identity_url: Option<&str>,
    api_url: Option<&str>,
    timeout: &str,
    action: &str,
    r: Result<VaultStatus, EngineError>,
)
    requires
        call_ensures(
            Session::<C>::finish_restore,
            (
                s,
                Ok::<SignedIn<C>, EngineError>(login),
                email,
                password,
                token,
                identity_url,
                api_url,
                timeout,
                action,
            ),
            r,
        ),
    ensures
        r == Ok::<VaultStatus, EngineError>(VaultStatus::Unlocked),
        final(s)@.client == Some(login.client),
        final(s)@.ciphers.len() == login.ciphers@.len(),
        forall|i: int|
            0 <= i < login.ciphers@.len() ==> final(s)@.ciphers[i] == (#[trigger] login.ciphers@[i])@,
        final(s)@.email == Some(email@),
        final(s)@.master_password == Some(password@),
        final(s)@.identity_url == text::non_empty(text::opt_str_view(identity_url)),
        final(s)@.api_url == text::non_empty(text::opt_str_view(api_url)),
        final(s)@.timeout == TimeoutKind::named(timeout@),
        final(s)@.action == TimeoutAction::named(action@),
        login.remember_token is Some ==> final(s)@.two_factor_token == Some(login.remember_token->0@),
        login.remember_token is None ==> final(s)@.two_factor_token == text::non_empty(
            text::opt_str_view(token),
        ),
{
}

/// A restore without a password leaves the account of the record, locked: with the
/// token, the servers and the policy it names, each in its place, and with no key.
pub proof fn locked_restores_leave_the_account_of_the_record<C>(
    s: &mut Session<C>,
    email: &str,
    token: Option<&str>,
    identity_url: Option<&str>,
    api_url: Option<&str>,
    timeout: &str,
    action: &str,
    r: VaultStatus,
)
    requires
        call_ensures(
            Session::<C>::restore_locked,
            (s, email, token, identity_url, api_url, timeout, action),
            r,
        ),
    ensures
        r == VaultStatus::Locked,
        final(s)@.status() == VaultStatus::Locked,
        final(s)@.client is None,
        final(s)@.master_password is None,
        final(s)@.ciphers.len() == 0,
        final(s)@.email == Some(email@),
        final(s)@.two_factor_token == text::non_empty(text::opt_str_view(token)),
        final(s)@.identity_url == text::non_empty(text::opt_str_view(identity_url)),
        final(s)@.api_url == text::non_empty(text::opt_str_view(api_url)),
        final(s)@.timeout == TimeoutKind::named(timeout@),
        final(s)@.action == TimeoutAction::named(action@),
{
}

/// A login that failed, for whatever reason, changes nothing and is reported as
/// it failed: at sign-in, at an unlock and at a restore.
pub proof fn failed_logins_change_nothing<C>(
    s: &mut Session<C>,
    u: &mut Session<C>,
    t: &mut Session<C>,
    e: EngineError,
    email: &str,
    password: &str,
    token: Option<&str>,
    identity_url: Option<&str>,
    api_url: Option<&str>,
    timeout: &str,
    action: &str,
    signed: Result<Persist, EngineError>,
    unlocked: Result<Persist, EngineError>,
    restored: Result<VaultStatus, EngineError>,
)
    requires
        call_ensures(
            Session::<C>::finish_login,
            (
                s,
                Err::<SignedIn<C>, EngineError>(e),
                email,
                password,
                identity_url,
                api_url,
                timeout,
                action,
            ),
            signed,
        ),
        call_ensures(
            Session::<C>::finish_unlock,
            (u, Err::<SignedIn<C>, EngineError>(e), password),
            unlocked,
        ),
        call_ensures(
            Session::<C>::finish_restore,
            (
                t,
                Err::<SignedIn<C>, EngineError>(e),
                email,
                password,
                token,
                identity_url,
                api_url,
                timeout,
                action,
            ),
            restored,
        ),
    ensures
        *final(s) == *old(s) && signed == Err::<Persist, EngineError>(e),
        *final(u) == *old(u) && unlocked == Err::<Persist, EngineError>(e),
        *final(t) == *old(t) && restored == Err::<VaultStatus, EngineError>(e),
{
}

/// A lock leaves the account, its token, its servers and its policy, and neither
/// key, password nor vault. The app is asked to store the same account without a
/// password, and nothing where there is none.
pub proof fn locks_leave_only_the_account<C>(s: &mut Session<C>, r: Persist)
    requires
        call_ensures(Session::<C>::lock, (s,), r),
    ensures
        final(s)@.client is None,
        final(s)@.master_password is None,
        final(s)@.ciphers.len() == 0,
        final(s)@.email == old(s)@.email,
        final(s)@.two_factor_token == old(s)@.two_factor_token,
        final(s)@.identity_url == old(s)@.identity_url,
        final(s)@.api_url == old(s)@.api_url,
        final(s)@.timeout == old(s)@.timeout,
        final(s)@.action == old(s)@.action,
        old(s)@.email is None ==> r@ == PersistView::Keep && final(s)@.status()
            == VaultStatus::LoggedOut,
        old(s)@.email is Some ==> final(s)@.status() == VaultStatus::Locked && r@
            == PersistView::Store(
            PersistedRecordView {
                email: old(s)@.email->0,
                master_password: None,
                two_factor_token: old(s)@.two_factor_token,
                identity_url: old(s)@.identity_url,
                api_url: old(s)@.api_url,
            },
        ),
{
}

/// A logout leaves nothing but the policy, and has the app forget the account.
pub proof fn logouts_leave_only_the_policy<C>(s: &mut Session<C>, r: Persist)
    requires
        call_ensures(Session::<C>::logout, (s,), r),
    ensures
        r@ == PersistView::Forget,
        final(s)@.client is None,
        final(s)@.email is None,
        final(s)@.ciphers.len() == 0,
        final(s)@.master_password is None,
        final(s)@.two_factor_token is None,
        final(s)@.identity_url is None,
        final(s)@.api_url is None,
        !final(s)@.locked,
        final(s)@.timeout == old(s)@.timeout,
        final(s)@.action == old(s)@.action,
{
}

/// Idle time below the threshold, or in a session that is not unlocked, changes
/// nothing. From the threshold on it does what a lock or a logout does.
pub proof fn idle_time_locks_or_logs_out<C>(
    s: &mut Session<C>,
    t: &mut Session<C>,
    idle_secs: u64,
    r: Persist,
    q: Persist,
)
    requires
        call_ensures(Session::<C>::enforce_timeout, (s, idle_secs), r),
        *old(t) == *old(s),
        old(s)@.action == TimeoutAction::Lock ==> call_ensures(Session::<C>::lock, (t,), q),
        old(s)@.action == TimeoutAction::LogOut ==> call_ensures(Session::<C>::logout, (t,), q),
    ensures
        ({
            let over = match old(s)@.timeout {
                TimeoutKind::OneHour => idle_secs >= 60 * 60,
                TimeoutKind::FourHours => idle_secs >= 4 * 60 * 60,
                _ => false,
            };
            if over && old(s)@.client is Some {
                final(s)@ == final(t)@ && r@ == q@
            } else {
                *final(s) == *old(s) && r@ == PersistView::Keep
            }
        }),
{
}

/// A session reports what it is: unlocked with a client, locked where an account
/// is known without one, logged out otherwise; and the address of its account.
pub proof fn sessions_report_what_they_are<C>(
    s: &Session<C>,
    status: VaultStatus,
    account: Option<String>,
    client: Result<&C, EngineError>,
)
    requires
        s@.well_formed(),
        call_ensures(Session::<C>::status, (s,), status),
        call_ensures(Session::<C>::account, (s,), account),
        call_ensures(Session::<C>::require_client, (s,), client),
    ensures
        status == VaultStatus::Unlocked <==> s@.client is Some,
        status == VaultStatus::Locked <==> s@.client is None && s@.locked,
        status == VaultStatus::LoggedOut <==> s@.client is None && !s@.locked,
        text::opt_view(account) == s@.email,
        s@.client is Some ==> client is Ok && *client->Ok_0 == s@.client->0,
        s@.client is None ==> client == Err::<&C, EngineError>(EngineError::LoggedOut),
{
}

/// A lookup answers from the vault it is given, which is kept for the next one;
/// given none, from the last, and without one says why it has none.
pub proof fn lookups_answer_from_the_vault_they_are_given<C>(
    s: &mut Session<C>,
    fresh: Vec<Cipher>,
    t: &mut Session<C>,
    e: EngineError,
    query: &Query,
    r: Result<LookupOutcome, EngineError>,
    q: Result<LookupOutcome, EngineError>,
)
    requires
        call_ensures(
            Session::<C>::lookup,
            (s, Ok::<Vec<Cipher>, EngineError>(fresh), query),
            r,
        ),
        call_ensures(
            Session::<C>::lookup,
            (t, Err::<Vec<Cipher>, EngineError>(e), query),
            q,
        ),
    ensures
        lookup::result_view(r) == lookup::resolved(
            Seq::new(fresh@.len(), |i: int| fresh@[i]@),
            query@,
        ),
        final(s)@ == (SessionView {
            ciphers: Seq::new(fresh@.len(), |i: int| fresh@[i]@),
            ..old(s)@
        }),
        *final(t) == *old(t),
        old(t)@.ciphers.len() > 0 ==> lookup::result_view(q) == lookup::resolved(
            old(t)@.ciphers,
            query@,
        ),
        old(t)@.ciphers.len() == 0 ==> (q matches Err(f) && f@ == EngineErrorView::Failure(
            "Vault sync failed: "@ + e@.message(),
        )),
{
    assert(cipher::ciphers_view(fresh@) =~= Seq::new(fresh@.len(), |i: int| fresh@[i]@));
}

/// A session shows each of its parts as it is and in its own place.
proof fn session_shows_its_parts<C>(s: Session<C>)
    ensures
        s@.client == s.client,
        s@.email == text::opt_view(s.email),
        s@.ciphers.len() == s.ciphers@.len(),
        forall|i: int| 0 <= i < s.ciphers@.len() ==> s@.ciphers[i] == (#[trigger] s.ciphers@[i])@,
        s@.master_password == text::opt_view(s.master_password),
        s@.two_factor_token == text::opt_view(s.two_factor_token),
        s@.identity_url == text::opt_view(s.identity_url),
        s@.api_url == text::opt_view(s.api_url),
        s@.locked == s.locked,
        s@.timeout == s.timeout,
        s@.action == s.action,
{
}

} // verus!
