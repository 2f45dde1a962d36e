//! The protocol server: it greets the client with a challenge, then answers
//! requests against a vault engine. Replies echo the client's `request_id`, so
//! they may complete out of order.
//!
//! ```text
//! success -> {"ok": true,  "result": { … }, "request_id": "…"}
//! failure -> {"ok": false, "error": { "message": "…", "code": "…" }, "request_id": "…"}
//! ```
//!
//! The `code` is there for the errors that a client is to act on.

use vstd::prelude::*;

use crate::command;
use crate::command::{Command, CommandView};
use crate::engine::{
    Engine, EngineError, EngineErrorView, LookupOutcome, PersistedRecordView, VaultStatus,
};
use crate::json;
use crate::json::{Json, JsonView};
use crate::reply;
use crate::session;
use crate::session::{PersistView, SessionView, TimeoutAction, TimeoutKind};
use crate::signin;
use crate::text;

verus! {

/// What an engine that returns nothing but success or failure is answered with.
pub open spec fn acknowledged(done: Result<(), EngineError>, r: Result<Json, EngineError>) -> bool {
    match done {
        Ok(_) => r matches Ok(value) && value@ == reply::nothing(),
        Err(e) => r == Err::<Json, EngineError>(e),
    }
}

/// `r` answers `command`: the engine was asked for exactly what the command
/// says, and `r` holds what it came back with, its errors unchanged.
pub open spec fn answers<E: Engine>(
    command: Command,
    engine: &E,
    r: Result<Json, EngineError>,
) -> bool {
    match command {
        Command::Status => exists|status: Result<VaultStatus, EngineError>|
            {
                &&& #[trigger] call_ensures(E::status, (engine,), status)
                &&& match status {
                    Ok(status) => exists|account: Option<String>|
                        {
                            &&& #[trigger] call_ensures(E::account, (engine,), account)
                            &&& r matches Ok(value) && value@ == reply::status_json(
                                status,
                                text::opt_view(account),
                            )
                        },
                    Err(e) => r == Err::<Json, EngineError>(e),
                }
            },
        Command::Login {
            email,
            master_password,
            two_factor,
            new_device_otp,
            identity_url,
            api_url,
            timeout,
            action,
        } => exists|done: Result<(), EngineError>|
            {
                &&& #[trigger] call_ensures(
                    E::login,
                    (
                        engine,
                        email,
                        master_password,
                        two_factor,
                        new_device_otp,
                        identity_url,
                        api_url,
                        timeout,
                        action,
                    ),
                    done,
                )
                &&& acknowledged(done, r)
            },
        Command::Restore {
            email,
            master_password,
            two_factor_token,
            identity_url,
            api_url,
            timeout,
            action,
        } => exists|status: Result<VaultStatus, EngineError>|
            {
                &&& #[trigger] call_ensures(
                    E::restore,
                    (
                        engine,
                        email,
                        master_password,
                        two_factor_token,
                        identity_url,
                        api_url,
                        timeout,
                        action,
                    ),
                    status,
                )
                &&& match status {
                    Ok(status) => r matches Ok(value) && value@ == reply::singleton(
                        "status"@,
                        JsonView::Text(status.wire_view()),
                    ),
                    Err(e) => r == Err::<Json, EngineError>(e),
                }
            },
        Command::SetTimeout { timeout, action } => {
            &&& call_ensures(E::set_timeout, (engine, timeout, action), ())
            &&& acknowledged(Ok(()), r)
        },
        Command::Unlock { master_password, two_factor, new_device_otp } => exists|
            done: Result<(), EngineError>,
        |
            {
                &&& #[trigger] call_ensures(
                    E::unlock,
                    (engine, master_password, two_factor, new_device_otp),
                    done,
                )
                &&& acknowledged(done, r)
            },
        Command::Lock => {
            &&& call_ensures(E::lock, (engine,), ())
            &&& acknowledged(Ok(()), r)
        },
        Command::Logout => exists|done: Result<(), EngineError>|
            {
                &&& #[trigger] call_ensures(E::logout, (engine,), done)
                &&& acknowledged(done, r)
            },
        Command::Lookup(query) => exists|outcome: Result<LookupOutcome, EngineError>|
            {
                &&& #[trigger] call_ensures(E::lookup, (engine, &query), outcome)
                &&& match outcome {
                    Ok(outcome) => r matches Ok(value) && value@ == reply::lookup_json(outcome@),
                    Err(e) => r == Err::<Json, EngineError>(e),
                }
            },
        Command::GetTotp(query) => exists|totp: Result<Option<String>, EngineError>|
            {
                &&& #[trigger] call_ensures(E::totp, (engine, &query), totp)
                &&& match totp {
                    Ok(totp) => r matches Ok(value) && value@ == reply::totp_json(
                        text::opt_view(totp),
                    ),
                    Err(e) => r == Err::<Json, EngineError>(e),
                }
            },
    }
}

/// What an engine that returns nothing but success or failure is answered with.
fn acknowledge(done: Result<(), EngineError>) -> (r: Result<Json, EngineError>)
    ensures
        acknowledged(done, r),
{
    match done {
        Ok(_) => Ok(reply::empty()),
        Err(e) => Err(e),
    }
}

/// Carries out a command.
pub fn execute<E: Engine>(command: Command, engine: &E) -> (r: Result<Json, EngineError>)
    ensures
        answers(command, engine, r),
{
    match command {
        Command::Status => match engine.status() {
            Ok(status) => Ok(reply::encode_status(status, engine.account())),
            Err(e) => Err(e),
        },
        Command::Login {
            email,
            master_password,
            two_factor,
            new_device_otp,
            identity_url,
            api_url,
            timeout,
            action,
        } => acknowledge(
            engine.login(
                email,
                master_password,
                two_factor,
                new_device_otp,
                identity_url,
                api_url,
                timeout,
                action,
            ),
        ),
        Command::Restore {
            email,
            master_password,
            two_factor_token,
            identity_url,
            api_url,
            timeout,
            action,
        } => match engine.restore(
            email,
            master_password,
            two_factor_token,
            identity_url,
            api_url,
            timeout,
            action,
        ) {
            Ok(status) => Ok(reply::single("status", Json::text(status.wire()))),
            Err(e) => Err(e),
        },
        Command::SetTimeout { timeout, action } => {
            engine.set_timeout(timeout, action);
            Ok(reply::empty())
        },
        Command::Unlock { master_password, two_factor, new_device_otp } => acknowledge(
            engine.unlock(master_password, two_factor, new_device_otp),
        ),
        Command::Lock => {
            engine.lock();
            Ok(reply::empty())
        },
        Command::Logout => acknowledge(engine.logout()),
        Command::Lookup(query) => match engine.lookup(&query) {
            Ok(outcome) => Ok(reply::encode_lookup(&outcome)),
            Err(e) => Err(e),
        },
        Command::GetTotp(query) => match engine.totp(&query) {
            Ok(totp) => Ok(reply::encode_totp(totp)),
            Err(e) => Err(e),
        },
    }
}

/// `r` is what a request for `method` with `params` comes to: a request that
/// cannot be read is refused without the engine, any other is answered.
pub open spec fn handled<E: Engine>(
    method: Seq<char>,
    params: JsonView,
    engine: &E,
    r: Result<Json, EngineError>,
) -> bool {
    match command::requested(method, params) {
        Ok(wanted) => exists|c: Command| #![trigger c@] c@ == wanted && answers(c, engine, r),
        Err(e) => r matches Err(f) && f@ == e,
    }
}

/// Reads a request and carries it out.
pub fn handle<E: Engine>(method: &str, params: &Json, engine: &E) -> (r: Result<Json, EngineError>)
    ensures
        handled(method@, params@, engine, r),
{
    match command::parse_command(method, params) {
        Ok(c) => {
            let ghost wanted = c;
            let r = execute(c, engine);
            assert(wanted@ == command::requested(method@, params@)->Ok_0);
            r
        },
        Err(e) => Err(e),
    }
}

/// The method of a request, empty where it names none.
pub open spec fn method_of(request: JsonView) -> Seq<char> {
    command::text_or_empty(request, "method"@)
}

/// The params of a request, null where it has none.
pub open spec fn params_of(request: JsonView) -> JsonView {
    match request.field("params"@) {
        Some(params) => params,
        None => JsonView::Null,
    }
}

/// Answers a request: the fields of the envelope around what it came to.
fn dispatch_fields<E: Engine>(request: &Json, engine: &E) -> (r: Vec<(String, Json)>)
    ensures
        exists|result: Result<Json, EngineError>|
            #[trigger] handled(method_of(request@), params_of(request@), engine, result)
                && json::fields_view(r@) == reply::envelope(reply::result_view(result)),
{
    let method: &str = match request.text_at("method") {
        Some(method) => method,
        None => "",
    };
    proof {
        reveal_strlit("");
        assert(""@ =~= Seq::<char>::empty());
    }
    let null: Json = Json::Null;
    let params: &Json = match request.get("params") {
        Some(params) => params,
        None => &null,
    };
    assert(method@ == method_of(request@));
    assert(params@ == params_of(request@));
    let result: Result<Json, EngineError> = handle(method, params, engine);
    let ghost outcome = result;
    let r = reply::encode_reply(result);
    assert(handled(method_of(request@), params_of(request@), engine, outcome));
    r
}

/// Answers a request: the envelope around what it came to.
pub fn dispatch<E: Engine>(request: &Json, engine: &E) -> (r: Json)
    ensures
        exists|result: Result<Json, EngineError>|
            #[trigger] handled(method_of(request@), params_of(request@), engine, result) && r@
                == JsonView::Object(reply::envelope(reply::result_view(result))),
{
    Json::Object(dispatch_fields(request, engine))
}

/// The reply to a request: the envelope, with the request's id where it has one.
pub open spec fn with_id(
    envelope: Map<Seq<char>, JsonView>,
    id: Option<JsonView>,
) -> JsonView {
    JsonView::Object(
        match id {
            Some(id) => envelope.insert("request_id"@, id),
            None => envelope,
        },
    )
}

/// Answers a request and echoes its `request_id`.
pub fn respond<E: Engine>(request: Json, engine: &E) -> (r: Json)
    ensures
        exists|result: Result<Json, EngineError>|
            #[trigger] handled(method_of(request@), params_of(request@), engine, result) && r@
                == with_id(
                reply::envelope(reply::result_view(result)),
                request@.field("request_id"@),
            ),
{
    let mut response: Vec<(String, Json)> = dispatch_fields(&request, engine);
    if let Some(id) = request.into_field("request_id") {
        json::put(&mut response, "request_id", id);
    }
    Json::Object(response)
}

/// A reply carries the id of its request and no other: none where the request
/// has none. The id displaces nothing of the envelope.
pub proof fn replies_echo_the_request_id(
    result: Result<JsonView, EngineErrorView>,
    id: Option<JsonView>,
)
    ensures
        with_id(reply::envelope(result), id).field("request_id"@) == id,
        with_id(reply::envelope(result), id).field("ok"@) == Some(JsonView::Bool(result is Ok)),
        with_id(reply::envelope(result), id).field("result"@) == match result {
            Ok(value) => Some(value),
            Err(_) => None,
        },
        with_id(reply::envelope(result), id).field("error"@) == match result {
            Ok(_) => None,
            Err(e) => Some(reply::error_json(e)),
        },
{
    reveal_strlit("ok");
    reveal_strlit("result");
    reveal_strlit("error");
    reveal_strlit("request_id");
    assert("ok"@.len() == 2);
    assert("result"@.len() == 6);
    assert("error"@.len() == 5);
    assert("request_id"@.len() == 10);
}

/// A failure says in its message what went wrong, and carries a code exactly
/// where the error has one.
pub proof fn failures_carry_their_code(e: EngineErrorView)
    ensures
        reply::error_json(e).text_field("message"@) == Some(e.message()),
        reply::error_json(e).text_field("code"@) == e.code(),
        reply::error_json(e).field("code"@) is Some <==> e.code() is Some,
{
    reveal_strlit("message");
    reveal_strlit("code");
    assert("message"@.len() == 7);
    assert("code"@.len() == 4);
}

/// The params of a restore: what the app was given to persist, with the policy
/// it holds beside it.
pub open spec fn restore_params(
    record: PersistedRecordView,
    timeout: Seq<char>,
    action: Seq<char>,
) -> JsonView {
    match reply::session_json(Some(record)) {
        JsonView::Object(fields) => JsonView::Object(
            fields.insert("timeout"@, JsonView::Text(timeout)).insert(
                "action"@,
                JsonView::Text(action),
            ),
        ),
        other => other,
    }
}

/// The restore of a persisted record under a policy.
pub open spec fn restore_of(
    record: PersistedRecordView,
    timeout: Seq<char>,
    action: Seq<char>,
) -> CommandView {
    CommandView::Restore {
        email: record.email,
        master_password: record.master_password,
        two_factor_token: record.two_factor_token,
        identity_url: record.identity_url,
        api_url: record.api_url,
        timeout,
        action,
    }
}

/// What the app was given to persist, sent back as the params of a restore, asks
/// for exactly the account that was persisted, under the policy sent with it.
pub proof fn persisted_records_restore(
    record: PersistedRecordView,
    timeout: Seq<char>,
    action: Seq<char>,
)
    ensures
        command::requested("restore"@, restore_params(record, timeout, action)) == Ok::<
            CommandView,
            EngineErrorView,
        >(restore_of(record, timeout, action)),
        command::requested("restore"@, reply::session_json(Some(record))) == Ok::<
            CommandView,
            EngineErrorView,
        >(restore_of(record, Seq::empty(), Seq::empty())),
{
    reveal_strlit("status");
    reveal_strlit("login");
    reveal_strlit("restore");
    assert("status"@.len() == 6);
    assert("login"@.len() == 5);
    assert("restore"@.len() == 7);
    reveal_strlit("email");
    reveal_strlit("masterPassword");
    reveal_strlit("twoFactorToken");
    reveal_strlit("server");
    reveal_strlit("timeout");
    reveal_strlit("action");
    assert("email"@.len() == 5);
    assert("masterPassword"@.len() == 14 && "masterPassword"@[0] == 'm');
    assert("twoFactorToken"@.len() == 14 && "twoFactorToken"@[0] == 't');
    assert("server"@.len() == 6 && "server"@[0] == 's');
    assert("timeout"@.len() == 7);
    assert("action"@.len() == 6 && "action"@[0] == 'a');
    reveal_strlit("identityUrl");
    reveal_strlit("apiUrl");
    assert("identityUrl"@.len() == 11);
    assert("apiUrl"@.len() == 6);
}

/// A locked session survives a restart: the record that the lock had the app
/// store, sent back as a restore under the session's policy, signs nobody in and
/// brings back that session.
pub proof fn a_locked_session_comes_back<C>(
    s: SessionView<C>,
    timeout: Seq<char>,
    action: Seq<char>,
)
    requires
        s.well_formed(),
        s.email is Some,
        s.two_factor_token == text::non_empty(s.two_factor_token),
        TimeoutKind::named(timeout) == s.timeout,
        TimeoutAction::named(action) == s.action,
    ensures
        s.seal_request() matches PersistView::Store(record) && command::requested(
            "restore"@,
            restore_params(record, timeout, action),
        ) matches Ok(
            CommandView::Restore {
                email,
                master_password,
                two_factor_token,
                identity_url,
                api_url,
                timeout: t,
                action: a,
            },
        ) && {
            &&& t == timeout && a == action
            &&& signin::restore_login(
                email,
                master_password,
                two_factor_token,
                identity_url,
                api_url,
            ) is None
            &&& SessionView::<C>::restored_locked(
                email,
                two_factor_token,
                identity_url,
                api_url,
                t,
                a,
            ) == s.sealed()
        },
{
    session::a_sealed_record_restores_the_sealed_session(s);
    persisted_records_restore(s.seal_request()->Store_0, timeout, action);
}

/// A request is read by its own method and params, whatever id it carries; one
/// without params has null ones, one without a method the empty one.
pub proof fn requests_carry_method_and_params(
    method: Seq<char>,
    params: JsonView,
    id: JsonView,
    bare: JsonView,
)
    ensures
        ({
            let named = Map::empty().insert("method"@, JsonView::Text(method));
            let whole = JsonView::Object(
                named.insert("params"@, params).insert("request_id"@, id),
            );
            &&& method_of(whole) == method
            &&& params_of(whole) == params
            &&& whole.field("request_id"@) == Some(id)
            &&& method_of(JsonView::Object(named)) == method
            &&& params_of(JsonView::Object(named)) == JsonView::Null
        }),
        bare.field("method"@) is None ==> method_of(bare).len() == 0,
{
    reveal_strlit("method");
    reveal_strlit("params");
    reveal_strlit("request_id");
    assert("method"@.len() == 6 && "method"@[0] == 'm');
    assert("params"@.len() == 6 && "params"@[0] == 'p');
    assert("request_id"@.len() == 10);
}

/// A reply echoes the id of its request, none where there is none, and says by
/// its `ok` whether the request succeeded.
pub proof fn requests_are_answered_under_their_id<E: Engine>(request: Json, engine: &E, r: Json)
    requires
        call_ensures(respond::<E>, (request, engine), r),
    ensures
        r@.field("request_id"@) == request@.field("request_id"@),
        exists|result: Result<Json, EngineError>|
            {
                &&& #[trigger] handled(method_of(request@), params_of(request@), engine, result)
                &&& r@.field("ok"@) == Some(JsonView::Bool(result is Ok))
                &&& result matches Ok(value) ==> r@.field("result"@) == Some(value@)
                &&& result matches Err(e) ==> r@.field("result"@) is None && r@.field("error"@) is Some
                    && r@.field("error"@)->0.text_field("message"@) == Some(e@.message())
                    && r@.field("error"@)->0.text_field("code"@) == e@.code()
            },
{
    let result = choose|result: Result<Json, EngineError>|
        #[trigger] handled(method_of(request@), params_of(request@), engine, result) && r@
            == with_id(
            reply::envelope(reply::result_view(result)),
            request@.field("request_id"@),
        );
    replies_echo_the_request_id(reply::result_view(result), request@.field("request_id"@));
    if result is Err {
        failures_carry_their_code(result->Err_0@);
    }
}

} // verus!
