//! Requests as a client writes them, what they ask for, and what reaches the
//! engine of them.

use vstd::prelude::*;

use crate::command;
use crate::command::{Command, CommandView};
use crate::engine::{
    Engine, EngineError, EngineErrorView, LookupOutcome, Query, QueryView, VaultStatus,
};
use crate::json;
use crate::json::{Json, JsonView};
use crate::protocol;
use crate::reply;
use crate::text;

verus! {

/// The fields of an object.
pub type Fields = Map<Seq<char>, JsonView>;

/// A text that may be left out.
pub type Optional = Option<Seq<char>>;

/// `params` with the servers to turn to, where there are any to name.
pub open spec fn with_server(params: Fields, server: Option<(Optional, Optional)>) -> Fields {
    match server {
        Some((identity_url, api_url)) => params.insert(
            "server"@,
            JsonView::Object(
                json::with_text(
                    json::with_text(Map::empty(), "identityUrl"@, identity_url),
                    "apiUrl"@,
                    api_url,
                ),
            ),
        ),
        None => params,
    }
}

/// `params` with a session-timeout policy.
pub open spec fn with_policy(params: Fields, timeout: Optional, action: Optional) -> Fields {
    json::with_text(json::with_text(params, "timeout"@, timeout), "action"@, action)
}

/// The params of a login.
pub open spec fn login_params(
    email: Optional,
    master_password: Optional,
    two_factor: Optional,
    new_device_otp: Optional,
    server: Option<(Optional, Optional)>,
    timeout: Optional,
    action: Optional,
) -> JsonView {
    let p = json::with_text(Map::empty(), "email"@, email);
    let p = json::with_text(p, "masterPassword"@, master_password);
    let p = json::with_text(p, "twoFactor"@, two_factor);
    let p = json::with_text(p, "newDeviceOtp"@, new_device_otp);
    JsonView::Object(with_policy(with_server(p, server), timeout, action))
}

/// The params of a restore.
pub open spec fn restore_params(
    email: Optional,
    master_password: Optional,
    two_factor_token: Optional,
    server: Option<(Optional, Optional)>,
    timeout: Optional,
    action: Optional,
) -> JsonView {
    let p = json::with_text(Map::empty(), "email"@, email);
    let p = json::with_text(p, "masterPassword"@, master_password);
    let p = json::with_text(p, "twoFactorToken"@, two_factor_token);
    JsonView::Object(with_policy(with_server(p, server), timeout, action))
}

/// The params of an unlock.
pub open spec fn unlock_params(
    master_password: Optional,
    two_factor: Optional,
    new_device_otp: Optional,
) -> JsonView {
    let p = json::with_text(Map::empty(), "masterPassword"@, master_password);
    let p = json::with_text(p, "twoFactor"@, two_factor);
    JsonView::Object(json::with_text(p, "newDeviceOtp"@, new_device_otp))
}

/// The params of a lookup or of a request for a two-step code.
pub open spec fn query_params(
    domain: Optional,
    username: Optional,
    id: Optional,
    search: Optional,
) -> JsonView {
    let q = json::with_text(Map::empty(), "domain"@, domain);
    let q = json::with_text(q, "username"@, username);
    let q = json::with_text(q, "id"@, id);
    let q = json::with_text(q, "search"@, search);
    JsonView::Object(Map::empty().insert("query"@, JsonView::Object(q)))
}

/// A text that counts as empty where it is left out.
pub open spec fn or_empty(s: Optional) -> Seq<char> {
    match s {
        Some(s) => s,
        None => Seq::empty(),
    }
}

/// The identity server that is named.
pub open spec fn identity_of(server: Option<(Optional, Optional)>) -> Optional {
    match server {
        Some((identity_url, _)) => identity_url,
        None => None,
    }
}

/// The api server that is named.
pub open spec fn api_of(server: Option<(Optional, Optional)>) -> Optional {
    match server {
        Some((_, api_url)) => api_url,
        None => None,
    }
}

/// The names of the params are all different.
proof fn lemma_names_differ()
    ensures
        "email"@.len() == 5,
        "masterPassword"@.len() == 14 && "masterPassword"@[0] == 'm',
        "twoFactor"@.len() == 9,
        "newDeviceOtp"@.len() == 12,
        "server"@.len() == 6 && "server"@[0] == 's',
        "timeout"@.len() == 7,
        "action"@.len() == 6 && "action"@[0] == 'a' && "action"@[1] == 'c',
        "twoFactorToken"@.len() == 14 && "twoFactorToken"@[0] == 't',
        "identityUrl"@.len() == 11,
        "apiUrl"@.len() == 6 && "apiUrl"@[0] == 'a' && "apiUrl"@[1] == 'p',
{
    reveal_strlit("email");
    reveal_strlit("masterPassword");
    reveal_strlit("twoFactor");
    reveal_strlit("newDeviceOtp");
    reveal_strlit("server");
    reveal_strlit("timeout");
    reveal_strlit("action");
    reveal_strlit("twoFactorToken");
    reveal_strlit("identityUrl");
    reveal_strlit("apiUrl");
}

/// The methods are all different.
proof fn lemma_methods_differ()
    ensures
        "status"@.len() == 6 && "status"@[0] == 's',
        "login"@.len() == 5,
        "restore"@.len() == 7 && "restore"@[0] == 'r',
        "setTimeout"@.len() == 10,
        "unlock"@.len() == 6 && "unlock"@[0] == 'u',
        "lock"@.len() == 4,
        "logout"@.len() == 6 && "logout"@[0] == 'l' && "logout"@[2] == 'g',
        "lookup"@.len() == 6 && "lookup"@[0] == 'l' && "lookup"@[2] == 'o',
        "getTotp"@.len() == 7 && "getTotp"@[0] == 'g',
{
    reveal_strlit("status");
    reveal_strlit("login");
    reveal_strlit("restore");
    reveal_strlit("setTimeout");
    reveal_strlit("unlock");
    reveal_strlit("lock");
    reveal_strlit("logout");
    reveal_strlit("lookup");
    reveal_strlit("getTotp");
}

/// The names in a query are all different.
proof fn lemma_query_names_differ()
    ensures
        "domain"@.len() == 6 && "domain"@[0] == 'd',
        "username"@.len() == 8,
        "id"@.len() == 2,
        "search"@.len() == 6 && "search"@[0] == 's',
{
    reveal_strlit("domain");
    reveal_strlit("username");
    reveal_strlit("id");
    reveal_strlit("search");
}

/// A login asks for exactly what it carries, each part under its own name; the
/// account, the password and the policy count as empty where they are left out.
pub proof fn logins_ask_for_what_they_carry(
    email: Optional,
    master_password: Optional,
    two_factor: Optional,
    new_device_otp: Optional,
    server: Option<(Optional, Optional)>,
    timeout: Optional,
    action: Optional,
)
    ensures
        command::requested(
            "login"@,
            login_params(
                email,
                master_password,
                two_factor,
                new_device_otp,
                server,
                timeout,
                action,
            ),
        ) == Ok::<CommandView, EngineErrorView>(
            CommandView::Login {
                email: or_empty(email),
                master_password: or_empty(master_password),
                two_factor,
                new_device_otp,
                identity_url: identity_of(server),
                api_url: api_of(server),
                timeout: or_empty(timeout),
                action: or_empty(action),
            },
        ),
{
    lemma_names_differ();
    lemma_methods_differ();
}

/// A restore asks for exactly what it carries, each part under its own name.
pub proof fn restores_ask_for_what_they_carry(
    email: Optional,
    master_password: Optional,
    two_factor_token: Optional,
    server: Option<(Optional, Optional)>,
    timeout: Optional,
    action: Optional,
)
    ensures
        command::requested(
            "restore"@,
            restore_params(email, master_password, two_factor_token, server, timeout, action),
        ) == Ok::<CommandView, EngineErrorView>(
            CommandView::Restore {
                email: or_empty(email),
                master_password,
                two_factor_token,
                identity_url: identity_of(server),
                api_url: api_of(server),
                timeout: or_empty(timeout),
                action: or_empty(action),
            },
        ),
{
    lemma_names_differ();
    lemma_methods_differ();
}

/// An unlock asks for exactly what it carries: the password, a typed second
/// factor and the code for a new device, each where it is there.
pub proof fn unlocks_ask_for_what_they_carry(
    master_password: Optional,
    two_factor: Optional,
    new_device_otp: Optional,
)
    ensures
        command::requested(
            "unlock"@,
            unlock_params(master_password, two_factor, new_device_otp),
        ) == Ok::<CommandView, EngineErrorView>(
            CommandView::Unlock { master_password, two_factor, new_device_otp },
        ),
{
    lemma_names_differ();
    lemma_methods_differ();
}

/// A change of policy asks for the policy it carries.
pub proof fn policies_ask_for_what_they_carry(timeout: Optional, action: Optional)
    ensures
        command::requested(
            "setTimeout"@,
            JsonView::Object(with_policy(Map::empty(), timeout, action)),
        ) == Ok::<CommandView, EngineErrorView>(
            CommandView::SetTimeout { timeout: or_empty(timeout), action: or_empty(action) },
        ),
{
    lemma_names_differ();
    lemma_methods_differ();
}

/// A status request, a lock and a logout ask for just that, whatever they carry.
pub proof fn plain_methods_need_no_params(params: JsonView)
    ensures
        command::requested("status"@, params) == Ok::<CommandView, EngineErrorView>(
            CommandView::Status,
        ),
        command::requested("lock"@, params) == Ok::<CommandView, EngineErrorView>(
            CommandView::Lock,
        ),
        command::requested("logout"@, params) == Ok::<CommandView, EngineErrorView>(
            CommandView::Logout,
        ),
{
    lemma_methods_differ();
}

/// A request is refused as unknown exactly where its method is none of the nine,
/// and the refusal names it.
pub proof fn only_unknown_methods_are_unknown(method: Seq<char>, params: JsonView)
    ensures
        ({
            &&& method != "status"@ && method != "login"@ && method != "restore"@
            &&& method != "setTimeout"@ && method != "unlock"@ && method != "lock"@
            &&& method != "logout"@ && method != "lookup"@ && method != "getTotp"@
        }) ==> command::requested(method, params) == Err::<CommandView, EngineErrorView>(
            EngineErrorView::Failure("Unknown method: "@ + method),
        ),
        method != "lookup"@ && method != "getTotp"@ && command::requested(method, params) is Err
            ==> command::requested(method, params)->Err_0 == EngineErrorView::Failure(
            "Unknown method: "@ + method,
        ),
{
}

/// The query of a request is asked of a lookup and of a request for a two-step
/// code alike, and refused alike.
pub proof fn queries_are_asked_alike(params: JsonView, query: QueryView)
    ensures
        command::asked(params) == Ok::<QueryView, EngineErrorView>(query)
            <==> command::requested("lookup"@, params) == Ok::<CommandView, EngineErrorView>(
            CommandView::Lookup(query),
        ),
        command::asked(params) == Ok::<QueryView, EngineErrorView>(query)
            <==> command::requested("getTotp"@, params) == Ok::<CommandView, EngineErrorView>(
            CommandView::GetTotp(query),
        ),
        command::asked(params) is Err ==> command::requested("lookup"@, params) is Err
            && command::requested("getTotp"@, params) is Err,
{
    lemma_methods_differ();
}

/// A domain that is not blank is what is asked for, without the white space around
/// it and with the username beside it as it is, whatever else the query names.
pub proof fn domains_are_asked_for(
    before: Seq<char>,
    domain: Seq<char>,
    after: Seq<char>,
    username: Optional,
    id: Optional,
    search: Optional,
)
    requires
        text::is_blank(before) && text::is_blank(after),
        domain.len() > 0,
        !text::is_space(domain[0]) && !text::is_space(domain.last()),
    ensures
        command::asked(query_params(Some(before + domain + after), username, id, search)) == Ok::<
            QueryView,
            EngineErrorView,
        >(QueryView::Domain { domain, username }),
{
    lemma_query_names_differ();
    text::trimming_takes_the_blanks_around(before, domain, after);
}

/// An id that is not blank is asked for where no domain is named, and a search
/// where neither is.
pub proof fn ids_and_searches_are_asked_for(
    before: Seq<char>,
    core: Seq<char>,
    after: Seq<char>,
    username: Optional,
    search: Optional,
)
    requires
        text::is_blank(before) && text::is_blank(after),
        core.len() > 0,
        !text::is_space(core[0]) && !text::is_space(core.last()),
    ensures
        command::asked(query_params(None, username, Some(before + core + after), search)) == Ok::<
            QueryView,
            EngineErrorView,
        >(QueryView::Id(core)),
        command::asked(query_params(None, username, None, Some(before + core + after))) == Ok::<
            QueryView,
            EngineErrorView,
        >(QueryView::Search(core)),
{
    lemma_query_names_differ();
    text::trimming_takes_the_blanks_around(before, core, after);
}

/// A blank text is refused, and so is a query that names nothing.
pub proof fn blank_queries_are_refused(
    blank: Seq<char>,
    username: Optional,
    id: Optional,
    search: Optional,
)
    requires
        text::is_blank(blank),
    ensures
        command::asked(query_params(Some(blank), username, id, search)) is Err,
        command::asked(query_params(None, username, Some(blank), search)) is Err,
        command::asked(query_params(None, username, None, Some(blank))) is Err,
        command::asked(query_params(None, username, None, None)) is Err,
        command::asked(JsonView::Object(Map::empty())) is Err,
        command::asked(JsonView::Null) is Err,
{
    lemma_query_names_differ();
    let none = Seq::<char>::empty();
    text::trimming_takes_the_blanks_around(blank, none, none);
    assert(blank + none + none =~= blank);
}

/// A login reaches the engine with exactly what the request carries, and is
/// answered with an empty result, or with the engine's own error.
pub proof fn logins_reach_the_engine<E: Engine>(
    email: Optional,
    master_password: Optional,
    two_factor: Optional,
    new_device_otp: Optional,
    server: Option<(Optional, Optional)>,
    timeout: Optional,
    action: Optional,
    engine: &E,
    r: Result<Json, EngineError>,
)
    requires
        protocol::handled(
            "login"@,
            login_params(
                email,
                master_password,
                two_factor,
                new_device_otp,
                server,
                timeout,
                action,
            ),
            engine,
            r,
        ),
    ensures
        exists|
            e: &str,
            p: &str,
            f: Option<&str>,
            o: Option<&str>,
            i: Option<&str>,
            a: Option<&str>,
            t: &str,
            x: &str,
            done: Result<(), EngineError>,
        |
            {
                &&& #[trigger] call_ensures(E::login, (engine, e, p, f, o, i, a, t, x), done)
                &&& e@ == or_empty(email) && p@ == or_empty(master_password)
                &&& text::opt_str_view(f) == two_factor
                &&& text::opt_str_view(o) == new_device_otp
                &&& text::opt_str_view(i) == identity_of(server)
                &&& text::opt_str_view(a) == api_of(server)
                &&& t@ == or_empty(timeout) && x@ == or_empty(action)
                &&& match done {
                    Ok(_) => r matches Ok(value) && value@ == JsonView::Object(Map::empty()),
                    Err(error) => r == Err::<Json, EngineError>(error),
                }
            },
{
    logins_ask_for_what_they_carry(
        email,
        master_password,
        two_factor,
        new_device_otp,
        server,
        timeout,
        action,
    );
}

/// A restore reaches the engine with exactly what the request carries, and is
/// answered with the status the engine comes back in, or with its error.
pub proof fn restores_reach_the_engine<E: Engine>(
    email: Optional,
    master_password: Optional,
    two_factor_token: Optional,
    server: Option<(Optional, Optional)>,
    timeout: Optional,
    action: Optional,
    engine: &E,
    r: Result<Json, EngineError>,
)
    requires
        protocol::handled(
            "restore"@,
            restore_params(email, master_password, two_factor_token, server, timeout, action),
            engine,
            r,
        ),
    ensures
        exists|
            e: &str,
            p: Option<&str>,
            k: Option<&str>,
            i: Option<&str>,
            a: Option<&str>,
            t: &str,
            x: &str,
            status: Result<VaultStatus, EngineError>,
        |
            {
                &&& #[trigger] call_ensures(E::restore, (engine, e, p, k, i, a, t, x), status)
                &&& e@ == or_empty(email)
                &&& text::opt_str_view(p) == master_password
                &&& text::opt_str_view(k) == two_factor_token
                &&& text::opt_str_view(i) == identity_of(server)
                &&& text::opt_str_view(a) == api_of(server)
                &&& t@ == or_empty(timeout) && x@ == or_empty(action)
                &&& match status {
                    Ok(status) => r matches Ok(value) && value@.text_field("status"@) == Some(
                        status.wire_view(),
                    ),
                    Err(error) => r == Err::<Json, EngineError>(error),
                }
            },
{
    restores_ask_for_what_they_carry(
        email,
        master_password,
        two_factor_token,
        server,
        timeout,
        action,
    );
}

/// An unlock reaches the engine with exactly what the request carries.
pub proof fn unlocks_reach_the_engine<E: Engine>(
    master_password: Optional,
    two_factor: Optional,
    new_device_otp: Optional,
    engine: &E,
    r: Result<Json, EngineError>,
)
    requires
        protocol::handled(
            "unlock"@,
            unlock_params(master_password, two_factor, new_device_otp),
            engine,
            r,
        ),
    ensures
        exists|
            p: Option<&str>,
            f: Option<&str>,
            o: Option<&str>,
            done: Result<(), EngineError>,
        |
            {
                &&& #[trigger] call_ensures(E::unlock, (engine, p, f, o), done)
                &&& text::opt_str_view(p) == master_password
                &&& text::opt_str_view(f) == two_factor
                &&& text::opt_str_view(o) == new_device_otp
                &&& match done {
                    Ok(_) => r matches Ok(value) && value@ == JsonView::Object(Map::empty()),
                    Err(error) => r == Err::<Json, EngineError>(error),
                }
            },
{
    unlocks_ask_for_what_they_carry(master_password, two_factor, new_device_otp);
}

/// A change of policy, a lock and a logout reach the engine. The first two are
/// always answered with an empty result.
pub proof fn plain_requests_reach_the_engine<E: Engine>(
    timeout: Optional,
    action: Optional,
    params: JsonView,
    engine: &E,
    set: Result<Json, EngineError>,
    locked: Result<Json, EngineError>,
    out: Result<Json, EngineError>,
)
    requires
        protocol::handled(
            "setTimeout"@,
            JsonView::Object(with_policy(Map::empty(), timeout, action)),
            engine,
            set,
        ),
        protocol::handled("lock"@, params, engine, locked),
        protocol::handled("logout"@, params, engine, out),
    ensures
        exists|t: &str, x: &str|
            #[trigger] call_ensures(E::set_timeout, (engine, t, x), ()) && t@ == or_empty(timeout)
                && x@ == or_empty(action),
        set matches Ok(value) && value@ == JsonView::Object(Map::empty()),
        call_ensures(E::lock, (engine,), ()),
        locked matches Ok(value) && value@ == JsonView::Object(Map::empty()),
        exists|done: Result<(), EngineError>|
            {
                &&& #[trigger] call_ensures(E::logout, (engine,), done)
                &&& match done {
                    Ok(_) => out matches Ok(value) && value@ == JsonView::Object(Map::empty()),
                    Err(error) => out == Err::<Json, EngineError>(error),
                }
            },
{
    policies_ask_for_what_they_carry(timeout, action);
    plain_methods_need_no_params(params);
}

/// A status request is answered with the engine's status and its account, where
/// it knows one.
pub proof fn statuses_come_from_the_engine<E: Engine>(
    params: JsonView,
    engine: &E,
    r: Result<Json, EngineError>,
)
    requires
        protocol::handled("status"@, params, engine, r),
    ensures
        exists|status: Result<VaultStatus, EngineError>|
            {
                &&& #[trigger] call_ensures(E::status, (engine,), status)
                &&& match status {
                    Ok(status) => exists|account: Option<String>|
                        {
                            &&& #[trigger] call_ensures(E::account, (engine,), account)
                            &&& r is Ok
                            &&& r->Ok_0@.text_field("status"@) == Some(status.wire_view())
                            &&& r->Ok_0@.text_field("account"@) == text::opt_view(account)
                        },
                    Err(error) => r == Err::<Json, EngineError>(error),
                }
            },
{
    plain_methods_need_no_params(params);
    reveal_strlit("status");
    reveal_strlit("account");
    assert("status"@.len() == 6);
    assert("account"@.len() == 7);
    let c = choose|c: Command| #![trigger c@] c@ == CommandView::Status && protocol::answers(
        c,
        engine,
        r,
    );
    assert(c is Status);
    let status = choose|status: Result<VaultStatus, EngineError>|
        {
            &&& #[trigger] call_ensures(E::status, (engine,), status)
            &&& match status {
                Ok(status) => exists|account: Option<String>|
                    {
                        &&& #[trigger] call_ensures(E::account, (engine,), account)
                        &&& r matches Ok(value) && value@ == reply::status_json(
                            status,
                            text::opt_view(account),
                        )
                    },
                Err(e) => r == Err::<Json, EngineError>(e),
            }
        };
    assert(call_ensures(E::status, (engine,), status));
}

/// A lookup asks the engine for the query of its params, and is answered with
/// what the engine found, or with its error.
pub proof fn lookups_reach_the_engine<E: Engine>(
    params: JsonView,
    query: QueryView,
    engine: &E,
    r: Result<Json, EngineError>,
)
    requires
        command::asked(params) == Ok::<QueryView, EngineErrorView>(query),
        protocol::handled("lookup"@, params, engine, r),
    ensures
        exists|q: Query, outcome: Result<LookupOutcome, EngineError>|
            {
                &&& #[trigger] call_ensures(E::lookup, (engine, &q), outcome)
                &&& q@ == query
                &&& match outcome {
                    Ok(outcome) => r matches Ok(value) && value@ == reply::lookup_json(outcome@),
                    Err(error) => r == Err::<Json, EngineError>(error),
                }
            },
{
    queries_are_asked_alike(params, query);
}

/// A request for a two-step code asks the engine for the query of its params, and
/// is answered with the code, empty where there is none, or with its error.
pub proof fn code_requests_reach_the_engine<E: Engine>(
    params: JsonView,
    query: QueryView,
    engine: &E,
    r: Result<Json, EngineError>,
)
    requires
        command::asked(params) == Ok::<QueryView, EngineErrorView>(query),
        protocol::handled("getTotp"@, params, engine, r),
    ensures
        exists|q: Query, totp: Result<Option<String>, EngineError>|
            {
                &&& #[trigger] call_ensures(E::totp, (engine, &q), totp)
                &&& q@ == query
                &&& match totp {
                    Ok(totp) => r matches Ok(value) && value@.text_field("totp"@) == Some(
                        or_empty(text::opt_view(totp)),
                    ),
                    Err(error) => r == Err::<Json, EngineError>(error),
                }
            },
{
    queries_are_asked_alike(params, query);
}

} // verus!
