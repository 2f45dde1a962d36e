//! What a login sends and what its answer means.

use vstd::prelude::*;
use vstd::string::*;

use crate::cipher;
use crate::cipher::{Cipher, CipherView};
use crate::engine::{EngineError, EngineErrorView};
use crate::text;

verus! {

/// Where a second factor comes from.
#[derive(Clone, Copy, Debug, PartialEq, Eq, Structural)]
pub enum TwoFactorProvider {
    Authenticator,
    Remember,
}

/// A second factor sent with a login. `remember` asks the server to issue a
/// remember token for this device.
#[derive(Clone, Debug)]
pub struct TwoFactor {
    pub token: String,
    pub provider: TwoFactorProvider,
    pub remember: bool,
}

/// The mathematical value of a `TwoFactor`.
pub struct TwoFactorView {
    pub token: Seq<char>,
    pub provider: TwoFactorProvider,
    pub remember: bool,
}

impl View for TwoFactor {
    type V = TwoFactorView;

    open spec fn view(&self) -> TwoFactorView {
        TwoFactorView { token: self.token@, provider: self.provider, remember: self.remember }
    }
}

/// The view of an optional second factor.
pub open spec fn factor_view(o: Option<TwoFactor>) -> Option<TwoFactorView> {
    match o {
        Some(f) => Some(f@),
        None => None,
    }
}

/// A login with the master password.
#[derive(Clone, Debug)]
pub struct LoginRequest {
    pub email: String,
    pub password: String,
    pub two_factor: Option<TwoFactor>,
    pub new_device_otp: Option<String>,
    pub identity_url: Option<String>,
    pub api_url: Option<String>,
}

/// The mathematical value of a `LoginRequest`.
pub struct LoginRequestView {
    pub email: Seq<char>,
    pub password: Seq<char>,
    pub two_factor: Option<TwoFactorView>,
    pub new_device_otp: Option<Seq<char>>,
    pub identity_url: Option<Seq<char>>,
    pub api_url: Option<Seq<char>>,
}

impl View for LoginRequest {
    type V = LoginRequestView;

    open spec fn view(&self) -> LoginRequestView {
        LoginRequestView {
            email: self.email@,
            password: self.password@,
            two_factor: factor_view(self.two_factor),
            new_device_otp: text::opt_view(self.new_device_otp),
            identity_url: text::opt_view(self.identity_url),
            api_url: text::opt_view(self.api_url),
        }
    }
}

/// The view of an optional login.
pub open spec fn request_view(o: Option<LoginRequest>) -> Option<LoginRequestView> {
    match o {
        Some(r) => Some(r@),
        None => None,
    }
}

/// A typed code as a second factor. It asks the server to remember this device,
/// so that later logins do without one.
pub open spec fn typed_code(code: Option<Seq<char>>) -> Option<TwoFactorView> {
    match text::non_empty(code) {
        Some(token) => Some(
            TwoFactorView { token, provider: TwoFactorProvider::Authenticator, remember: true },
        ),
        None => None,
    }
}

/// A stored remember token as a second factor.
pub open spec fn remembered(token: Option<Seq<char>>) -> Option<TwoFactorView> {
    match token {
        Some(token) => Some(
            TwoFactorView { token, provider: TwoFactorProvider::Remember, remember: false },
        ),
        None => None,
    }
}

/// A typed code as a second factor, or None when none was typed.
pub fn code_request(code: Option<&str>) -> (r: Option<TwoFactor>)
    ensures
        factor_view(r) == typed_code(text::opt_str_view(code)),
{
    match text::owned_non_empty(code) {
        Some(token) => Some(
            TwoFactor { token, provider: TwoFactorProvider::Authenticator, remember: true },
        ),
        None => None,
    }
}

/// A second factor replaying a stored remember token (no fresh code, no new
/// token requested), or None when no token is held.
pub fn remember_request(token: &Option<String>) -> (r: Option<TwoFactor>)
    ensures
        factor_view(r) == remembered(text::opt_view(*token)),
{
    match token {
        Some(token) => Some(
            TwoFactor {
                token: token.clone(),
                provider: TwoFactorProvider::Remember,
                remember: false,
            },
        ),
        None => None,
    }
}

/// An owned copy of an optional text.
fn owned(o: Option<&str>) -> (r: Option<String>)
    ensures
        text::opt_view(r) == text::opt_str_view(o),
{
    match o {
        Some(s) => Some(s.to_owned()),
        None => None,
    }
}

/// The login that an interactive sign-in performs.
pub open spec fn interactive_login(
    email: Seq<char>,
    master_password: Seq<char>,
    two_factor: Option<Seq<char>>,
    new_device_otp: Option<Seq<char>>,
    identity_url: Option<Seq<char>>,
    api_url: Option<Seq<char>>,
) -> LoginRequestView {
    LoginRequestView {
        email,
        password: master_password,
        two_factor: typed_code(two_factor),
        new_device_otp: text::non_empty(new_device_otp),
        identity_url,
        api_url,
    }
}

/// The login that an interactive sign-in performs.
pub fn login_request(
    email: &str,
    master_password: &str,
    two_factor: Option<&str>,
    new_device_otp: Option<&str>,
    identity_url: Option<&str>,
    api_url: Option<&str>,
) -> (r: LoginRequest)
    ensures
        r@ == interactive_login(
            email@,
            master_password@,
            text::opt_str_view(two_factor),
            text::opt_str_view(new_device_otp),
            text::opt_str_view(identity_url),
            text::opt_str_view(api_url),
        ),
{
    LoginRequest {
        email: email.to_owned(),
        password: master_password.to_owned(),
        two_factor: code_request(two_factor),
        new_device_otp: text::owned_non_empty(new_device_otp),
        identity_url: owned(identity_url),
        api_url: owned(api_url),
    }
}

/// The login that a restore performs, or None where the app sent no password
/// and the vault stays sealed. It replays the remember token and has no
/// one-time code to offer: a restore runs before any UI exists.
pub open spec fn restore_login(
    email: Seq<char>,
    master_password: Option<Seq<char>>,
    two_factor_token: Option<Seq<char>>,
    identity_url: Option<Seq<char>>,
    api_url: Option<Seq<char>>,
) -> Option<LoginRequestView> {
    match text::non_empty(master_password) {
        Some(password) => Some(
            LoginRequestView {
                email,
                password,
                two_factor: remembered(text::non_empty(two_factor_token)),
                new_device_otp: None,
                identity_url: text::non_empty(identity_url),
                api_url: text::non_empty(api_url),
            },
        ),
        None => None,
    }
}

/// The login that a restore performs, or None for a locked-restore.
pub fn restore_request(
    email: &str,
    master_password: Option<&str>,
    two_factor_token: Option<&str>,
    identity_url: Option<&str>,
    api_url: Option<&str>,
) -> (r: Option<LoginRequest>)
    ensures
        request_view(r) == restore_login(
            email@,
            text::opt_str_view(master_password),
            text::opt_str_view(two_factor_token),
            text::opt_str_view(identity_url),
            text::opt_str_view(api_url),
        ),
{
    match text::owned_non_empty(master_password) {
        Some(password) => Some(
            LoginRequest {
                email: email.to_owned(),
                password,
                two_factor: remember_request(&text::owned_non_empty(two_factor_token)),
                new_device_otp: None,
                identity_url: text::owned_non_empty(identity_url),
                api_url: text::owned_non_empty(api_url),
            },
        ),
        None => None,
    }
}

/// How a login failed.
#[derive(Debug)]
pub enum LoginFailure {
    NewDeviceVerificationRequired,
    InvalidNewDeviceOtp,
    /// Any other failure, in the SDK's words.
    Other(String),
}

/// Translates login failures into the engine's own errors. Only the ones a
/// client must *act* on get a variant of their own; everything else keeps the
/// SDK's message, which the sign-in sheet shows verbatim.
pub open spec fn failure_error(failure: LoginFailure) -> EngineErrorView {
    match failure {
        LoginFailure::NewDeviceVerificationRequired
            => EngineErrorView::NewDeviceVerificationRequired,
        LoginFailure::InvalidNewDeviceOtp => EngineErrorView::InvalidNewDeviceOtp,
        LoginFailure::Other(m) => EngineErrorView::Failure(m@),
    }
}

/// The engine error of a login failure.
pub fn login_error(failure: LoginFailure) -> (r: EngineError)
    ensures
        r@ == failure_error(failure),
{
    match failure {
        LoginFailure::NewDeviceVerificationRequired => EngineError::NewDeviceVerificationRequired,
        LoginFailure::InvalidNewDeviceOtp => EngineError::InvalidNewDeviceOtp,
        LoginFailure::Other(m) => EngineError::Failure(m),
    }
}

/// The server's answer to a login that did not fail outright.
#[derive(Debug)]
pub struct LoginReply {
    /// The server asks for a second factor instead of logging in.
    pub two_factor_required: bool,
    /// The remember token issued for this device.
    pub remember_token: Option<String>,
}

/// The remember token of a completed login, or why it is not complete.
pub fn login_outcome(reply: Result<LoginReply, LoginFailure>) -> (r: Result<
    Option<String>,
    EngineError,
>)
    ensures
        match reply {
            Err(failure) => r matches Err(e) && e@ == failure_error(failure),
            Ok(reply) => if reply.two_factor_required {
                r matches Err(EngineError::TwoFactorRequired)
            } else {
                r matches Ok(token) && token == reply.remember_token
            },
        },
{
    match reply {
        Err(failure) => Err(login_error(failure)),
        Ok(reply) => if reply.two_factor_required {
            Err(EngineError::TwoFactorRequired)
        } else {
            Ok(reply.remember_token)
        },
    }
}

/// A completed login: the unlocked client, its decrypted vault items, and the
/// remember token the server issued for this device, if it did.
pub struct SignedIn<C> {
    pub client: C,
    pub ciphers: Vec<Cipher>,
    pub remember_token: Option<String>,
}

/// Completes a login with what its first sync came back with, so that lookups
/// have data. A sync that failed fails the login, with a message that says which
/// half did.
pub fn complete_login<C>(
    client: C,
    remember_token: Option<String>,
    synced: Result<Vec<Cipher>, EngineError>,
) -> (r: Result<SignedIn<C>, EngineError>)
    ensures
        match synced {
            Ok(ciphers) => r == Ok::<SignedIn<C>, EngineError>(
                (SignedIn { client, ciphers, remember_token }),
            ),
            Err(e) => r matches Err(f) && f@ == EngineErrorView::Failure(
                "Login succeeded but sync failed: "@ + e@.message(),
            ),
        },
{
    match synced {
        Ok(ciphers) => Ok(SignedIn { client, ciphers, remember_token }),
        Err(e) => Err(
            EngineError::Failure(
                "Login succeeded but sync failed: ".to_owned().concat(e.message().as_str()),
            ),
        ),
    }
}

/// The items among those of a sync that could be read, in order.
pub open spec fn readable_view(items: Seq<Option<Cipher>>) -> Seq<CipherView>
    decreases items.len(),
{
    if items.len() == 0 {
        Seq::empty()
    } else {
        match items.last() {
            Some(c) => readable_view(items.drop_last()).push(c@),
            None => readable_view(items.drop_last()),
        }
    }
}

/// The items of a sync, those that failed to convert or decrypt being skipped,
/// not fatal.
pub fn readable(items: Vec<Option<Cipher>>) -> (r: Vec<Cipher>)
    ensures
        cipher::ciphers_view(r@) == readable_view(items@),
{
    let ghost all = items@;
    let mut r: Vec<Cipher> = Vec::new();
    assert(cipher::ciphers_view(r@) =~= Seq::empty());
    assert(all.take(0) =~= Seq::empty());
    for item in it: items
        invariant
            it.seq() == all,
            cipher::ciphers_view(r@) == readable_view(all.take(it.index() as int)),
    {
        proof {
            assert(all.take(it.index() + 1).drop_last() =~= all.take(it.index() as int));
            assert(all.take(it.index() + 1).last() == item);
        }
        if let Some(c) = item {
            let ghost before = r@;
            r.push(c);
            assert(cipher::ciphers_view(r@) =~= cipher::ciphers_view(before).push(c@));
        }
    }
    assert(all.take(all.len() as int) =~= all);
    r
}

/// The readable items of a sync keep their order, and only those that could not
/// be read are left out.
pub proof fn readable_items_keep_their_order(items: Seq<Option<Cipher>>, c: Cipher)
    ensures
        readable_view(Seq::empty()) == Seq::<CipherView>::empty(),
        readable_view(items.push(Some(c))) == readable_view(items).push(c@),
        readable_view(items.push(None)) == readable_view(items),
{
    assert(items.push(Some(c)).drop_last() =~= items);
    assert(items.push(None).drop_last() =~= items);
}

/// A typed code is sent as it is, from an authenticator, and asks to be
/// remembered; a blank one is none. A stored token is sent as it is, as a
/// remembered one, and asks for nothing.
pub proof fn second_factors_are_sent_as_they_are(code: Seq<char>)
    requires
        code.len() > 0,
    ensures
        typed_code(Some(code)) is Some,
        typed_code(Some(code))->0.token == code,
        typed_code(Some(code))->0.provider is Authenticator,
        typed_code(Some(code))->0.remember,
        typed_code(Some(Seq::empty())) is None,
        typed_code(None) is None,
        remembered(Some(code)) is Some,
        remembered(Some(code))->0.token == code,
        remembered(Some(code))->0.provider is Remember,
        !remembered(Some(code))->0.remember,
        remembered(None) is None,
{
}

/// A restore with a password signs in as the account it names, with that password
/// and the token beside it, on the servers beside it; one without stays locked.
pub proof fn restores_sign_in_with_their_password(
    email: Seq<char>,
    password: Seq<char>,
    token: Seq<char>,
    identity_url: Seq<char>,
    api_url: Seq<char>,
)
    requires
        password.len() > 0,
        token.len() > 0,
        identity_url.len() > 0,
        api_url.len() > 0,
    ensures
        restore_login(email, Some(password), Some(token), Some(identity_url), Some(api_url)) == Some(
            LoginRequestView {
                email,
                password,
                two_factor: remembered(Some(token)),
                new_device_otp: None,
                identity_url: Some(identity_url),
                api_url: Some(api_url),
            },
        ),
        restore_login(email, Some(password), None, None, None) == Some(
            LoginRequestView {
                email,
                password,
                two_factor: None,
                new_device_otp: None,
                identity_url: None,
                api_url: None,
            },
        ),
        restore_login(email, None, Some(token), Some(identity_url), Some(api_url)) is None,
        restore_login(email, Some(Seq::empty()), Some(token), Some(identity_url), Some(api_url)) is None,
{
}

/// A sign-in sends the account, the password and the servers as they are, and the
/// codes that were typed; blank codes are not sent.
pub proof fn sign_ins_send_what_was_typed(
    email: Seq<char>,
    password: Seq<char>,
    code: Seq<char>,
    otp: Seq<char>,
    identity_url: Option<Seq<char>>,
    api_url: Option<Seq<char>>,
)
    requires
        code.len() > 0,
        otp.len() > 0,
    ensures
        ({
            let sent = interactive_login(
                email,
                password,
                Some(code),
                Some(otp),
                identity_url,
                api_url,
            );
            &&& sent.email == email && sent.password == password
            &&& sent.two_factor is Some && sent.two_factor->0.token == code
            &&& sent.new_device_otp == Some(otp)
            &&& sent.identity_url == identity_url && sent.api_url == api_url
        }),
        interactive_login(
            email,
            password,
            Some(Seq::empty()),
            Some(Seq::empty()),
            identity_url,
            api_url,
        ) == interactive_login(email, password, None, None, identity_url, api_url),
        interactive_login(email, password, None, None, identity_url, api_url).two_factor is None,
        interactive_login(email, password, None, None, identity_url, api_url).new_device_otp is None,
{
}

/// The login of a sign-in and the one of a restore are made of what they are made
/// with, each part in its place.
pub proof fn logins_are_made_of_their_parts(
    email: &str,
    password: &str,
    code: &str,
    otp: &str,
    identity_url: &str,
    api_url: &str,
    typed: LoginRequest,
    silent: Option<LoginRequest>,
)
    requires
        password@.len() > 0 && code@.len() > 0 && otp@.len() > 0,
        identity_url@.len() > 0 && api_url@.len() > 0,
        call_ensures(
            login_request,
            (email, password, Some(code), Some(otp), Some(identity_url), Some(api_url)),
            typed,
        ),
        call_ensures(
            restore_request,
            (email, Some(password), Some(code), Some(identity_url), Some(api_url)),
            silent,
        ),
    ensures
        typed@.email == email@ && typed@.password == password@,
        typed@.two_factor is Some && typed@.two_factor->0.token == code@,
        typed@.two_factor->0.provider is Authenticator && typed@.two_factor->0.remember,
        typed@.new_device_otp == Some(otp@),
        typed@.identity_url == Some(identity_url@) && typed@.api_url == Some(api_url@),
        silent is Some,
        silent->0@.email == email@ && silent->0@.password == password@,
        silent->0@.two_factor is Some && silent->0@.two_factor->0.token == code@,
        silent->0@.two_factor->0.provider is Remember && !silent->0@.two_factor->0.remember,
        silent->0@.new_device_otp is None,
        silent->0@.identity_url == Some(identity_url@) && silent->0@.api_url == Some(api_url@),
{
}

/// A reply to a login is taken as it is: a pending second factor is asked for, a
/// failure is told apart where a client acts on it and keeps its words where it
/// does not, and otherwise the token that was issued is handed on.
pub proof fn replies_are_taken_as_they_are(
    reply: LoginReply,
    answered: Result<Option<String>, EngineError>,
    failure: LoginFailure,
    failed: Result<Option<String>, EngineError>,
)
    requires
        call_ensures(login_outcome, (Ok::<LoginReply, LoginFailure>(reply),), answered),
        call_ensures(login_outcome, (Err::<LoginReply, LoginFailure>(failure),), failed),
    ensures
        reply.two_factor_required ==> answered == Err::<Option<String>, EngineError>(
            EngineError::TwoFactorRequired,
        ),
        !reply.two_factor_required ==> answered == Ok::<Option<String>, EngineError>(
            reply.remember_token,
        ),
        failed is Err,
        failure is NewDeviceVerificationRequired ==> failed->Err_0@
            == EngineErrorView::NewDeviceVerificationRequired,
        failure is InvalidNewDeviceOtp ==> failed->Err_0@ == EngineErrorView::InvalidNewDeviceOtp,
        failure matches LoginFailure::Other(m) ==> failed->Err_0@ == EngineErrorView::Failure(m@),
{
}

/// A login is complete with its first vault, and hands on its client, that vault
/// and its token; without the vault it fails, and says why.
pub proof fn logins_are_complete_with_their_vault<C>(
    client: C,
    token: Option<String>,
    ciphers: Vec<Cipher>,
    done: Result<SignedIn<C>, EngineError>,
    e: EngineError,
    failed: Result<SignedIn<C>, EngineError>,
)
    requires
        call_ensures(
            complete_login::<C>,
            (client, token, Ok::<Vec<Cipher>, EngineError>(ciphers)),
            done,
        ),
        call_ensures(
            complete_login::<C>,
            (client, token, Err::<Vec<Cipher>, EngineError>(e)),
            failed,
        ),
    ensures
        done is Ok,
        done->Ok_0.client == client,
        done->Ok_0.ciphers == ciphers,
        done->Ok_0.remember_token == token,
        failed is Err,
        failed->Err_0@ == EngineErrorView::Failure(
            "Login succeeded but sync failed: "@ + e@.message(),
        ),
{
}

} // verus!
