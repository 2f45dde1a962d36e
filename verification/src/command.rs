//! Requests as the client writes them: the commands and the queries they carry.

use vstd::prelude::*;
use vstd::string::*;

use crate::engine::{EngineError, EngineErrorView, Query, QueryView};
use crate::json::{Json, JsonView};
use crate::text;

verus! {

/// A request that has been read. Texts borrow from the request.
pub enum Command<'a> {
    Status,
    Login {
        email: &'a str,
        master_password: &'a str,
        two_factor: Option<&'a str>,
        new_device_otp: Option<&'a str>,
        identity_url: Option<&'a str>,
        api_url: Option<&'a str>,
        timeout: &'a str,
        action: &'a str,
    },
    Restore {
        email: &'a str,
        master_password: Option<&'a str>,
        two_factor_token: Option<&'a str>,
        identity_url: Option<&'a str>,
        api_url: Option<&'a str>,
        timeout: &'a str,
        action: &'a str,
    },
    SetTimeout { timeout: &'a str, action: &'a str },
    Unlock {
        master_password: Option<&'a str>,
        two_factor: Option<&'a str>,
        new_device_otp: Option<&'a str>,
    },
    Lock,
    Logout,
    Lookup(Query),
    GetTotp(Query),
}

/// The mathematical value of a `Command`.
pub enum CommandView {
    Status,
    Login {
        email: Seq<char>,
        master_password: Seq<char>,
        two_factor: Option<Seq<char>>,
        new_device_otp: Option<Seq<char>>,
        identity_url: Option<Seq<char>>,
        api_url: Option<Seq<char>>,
        timeout: Seq<char>,
        action: Seq<char>,
    },
    Restore {
        email: Seq<char>,
        master_password: Option<Seq<char>>,
        two_factor_token: Option<Seq<char>>,
        identity_url: Option<Seq<char>>,
        api_url: Option<Seq<char>>,
        timeout: Seq<char>,
        action: Seq<char>,
    },
    SetTimeout { timeout: Seq<char>, action: Seq<char> },
    Unlock {
        master_password: Option<Seq<char>>,
        two_factor: Option<Seq<char>>,
        new_device_otp: Option<Seq<char>>,
    },
    Lock,
    Logout,
    Lookup(QueryView),
    GetTotp(QueryView),
}

impl<'a> View for Command<'a> {
    type V = CommandView;

    open spec fn view(&self) -> CommandView {
        match *self {
            Command::Status => CommandView::Status,
            Command::Login {
                email,
                master_password,
                two_factor,
                new_device_otp,
                identity_url,
                api_url,
                timeout,
                action,
            } => CommandView::Login {
                email: email@,
                master_password: master_password@,
                two_factor: text::opt_str_view(two_factor),
                new_device_otp: text::opt_str_view(new_device_otp),
                identity_url: text::opt_str_view(identity_url),
                api_url: text::opt_str_view(api_url),
                timeout: timeout@,
                action: action@,
            },
            Command::Restore {
                email,
                master_password,
                two_factor_token,
                identity_url,
                api_url,
                timeout,
                action,
            } => CommandView::Restore {
                email: email@,
                master_password: text::opt_str_view(master_password),
                two_factor_token: text::opt_str_view(two_factor_token),
                identity_url: text::opt_str_view(identity_url),
                api_url: text::opt_str_view(api_url),
                timeout: timeout@,
                action: action@,
            },
            Command::SetTimeout { timeout, action } => CommandView::SetTimeout {
                timeout: timeout@,
                action: action@,
            },
            Command::Unlock { master_password, two_factor, new_device_otp } => CommandView::Unlock {
                master_password: text::opt_str_view(master_password),
                two_factor: text::opt_str_view(two_factor),
                new_device_otp: text::opt_str_view(new_device_otp),
            },
            Command::Lock => CommandView::Lock,
            Command::Logout => CommandView::Logout,
            Command::Lookup(query) => CommandView::Lookup(query@),
            Command::GetTotp(query) => CommandView::GetTotp(query@),
        }
    }
}

/// A failure that carries only a message.
pub open spec fn failed<T>(message: Seq<char>) -> Result<T, EngineErrorView> {
    Err(EngineErrorView::Failure(message))
}

/// The query of a request's `params`. The first of `domain`, `id` and `search`
/// that is a text decides, and may not be blank.
pub open spec fn asked(params: JsonView) -> Result<QueryView, EngineErrorView> {
    match params.field("query"@) {
        None => failed("Missing query"@),
        Some(q) => if let Some(domain) = q.text_field("domain"@) {
            if text::trimmed(domain).len() == 0 {
                failed("Empty domain in query"@)
            } else {
                Ok(
                    QueryView::Domain {
                        domain: text::trimmed(domain),
                        username: q.text_field("username"@),
                    },
                )
            }
        } else if let Some(id) = q.text_field("id"@) {
            if text::trimmed(id).len() == 0 {
                failed("Empty id in query"@)
            } else {
                Ok(QueryView::Id(text::trimmed(id)))
            }
        } else if let Some(needle) = q.text_field("search"@) {
            if text::trimmed(needle).len() == 0 {
                failed("Empty search in query"@)
            } else {
                Ok(QueryView::Search(text::trimmed(needle)))
            }
        } else {
            failed("Empty query"@)
        },
    }
}

/// The view of a parsed query.
pub open spec fn query_result_view(r: Result<Query, EngineError>) -> Result<
    QueryView,
    EngineErrorView,
> {
    match r {
        Ok(query) => Ok(query@),
        Err(e) => Err(e@),
    }
}

/// Reads the query of a request's `params`. Blank query text is rejected here
/// rather than matched: an empty search needle would match every item and turn
/// a malformed request into "first credential in the vault".
pub fn parse_query(params: &Json) -> (r: Result<Query, EngineError>)
    ensures
        query_result_view(r) == asked(params@),
{
    let q: &Json = match params.get("query") {
        Some(q) => q,
        None => return Err(EngineError::Failure("Missing query".to_owned())),
    };
    if let Some(domain) = q.text_at("domain") {
        let domain: &str = text::trim(domain);
        if domain.is_empty() {
            return Err(EngineError::Failure("Empty domain in query".to_owned()));
        }
        let username: Option<String> = match q.text_at("username") {
            Some(username) => Some(username.to_owned()),
            None => None,
        };
        return Ok(Query::Domain { domain: domain.to_owned(), username });
    }
    if let Some(id) = q.text_at("id") {
        let id: &str = text::trim(id);
        if id.is_empty() {
            return Err(EngineError::Failure("Empty id in query".to_owned()));
        }
        return Ok(Query::Id(id.to_owned()));
    }
    if let Some(needle) = q.text_at("search") {
        let needle: &str = text::trim(needle);
        if needle.is_empty() {
            return Err(EngineError::Failure("Empty search in query".to_owned()));
        }
        return Ok(Query::Search(needle.to_owned()));
    }
    Err(EngineError::Failure("Empty query".to_owned()))
}

/// The text under `name`, empty where there is none.
pub open spec fn text_or_empty(params: JsonView, name: Seq<char>) -> Seq<char> {
    match params.text_field(name) {
        Some(s) => s,
        None => Seq::empty(),
    }
}

/// The text under `name` in the `server` of the `params`, where both are there.
pub open spec fn server_text(params: JsonView, name: Seq<char>) -> Option<Seq<char>> {
    match params.field("server"@) {
        Some(server) => server.text_field(name),
        None => None,
    }
}

/// The command that a method and its `params` name.
pub open spec fn requested(method: Seq<char>, params: JsonView) -> Result<
    CommandView,
    EngineErrorView,
> {
    if method == "status"@ {
        Ok(CommandView::Status)
    } else if method == "login"@ {
        Ok(
            CommandView::Login {
                email: text_or_empty(params, "email"@),
                master_password: text_or_empty(params, "masterPassword"@),
                two_factor: params.text_field("twoFactor"@),
                new_device_otp: params.text_field("newDeviceOtp"@),
                identity_url: server_text(params, "identityUrl"@),
                api_url: server_text(params, "apiUrl"@),
                timeout: text_or_empty(params, "timeout"@),
                action: text_or_empty(params, "action"@),
            },
        )
    } else if method == "restore"@ {
        Ok(
            CommandView::Restore {
                email: text_or_empty(params, "email"@),
                master_password: params.text_field("masterPassword"@),
                two_factor_token: params.text_field("twoFactorToken"@),
                identity_url: server_text(params, "identityUrl"@),
                api_url: server_text(params, "apiUrl"@),
                timeout: text_or_empty(params, "timeout"@),
                action: text_or_empty(params, "action"@),
            },
        )
    } else if method == "setTimeout"@ {
        Ok(
            CommandView::SetTimeout {
                timeout: text_or_empty(params, "timeout"@),
                action: text_or_empty(params, "action"@),
            },
        )
    } else if method == "unlock"@ {
        Ok(
            CommandView::Unlock {
                master_password: params.text_field("masterPassword"@),
                two_factor: params.text_field("twoFactor"@),
                new_device_otp: params.text_field("newDeviceOtp"@),
            },
        )
    } else if method == "lock"@ {
        Ok(CommandView::Lock)
    } else if method == "logout"@ {
        Ok(CommandView::Logout)
    } else if method == "lookup"@ {
        match asked(params) {
            Ok(query) => Ok(CommandView::Lookup(query)),
            Err(e) => Err(e),
        }
    } else if method == "getTotp"@ {
        match asked(params) {
            Ok(query) => Ok(CommandView::GetTotp(query)),
            Err(e) => Err(e),
        }
    } else {
        failed("Unknown method: "@ + method)
    }
}

/// The view of a parsed command.
pub open spec fn command_result_view(r: Result<Command, EngineError>) -> Result<
    CommandView,
    EngineErrorView,
> {
    match r {
        Ok(command) => Ok(command@),
        Err(e) => Err(e@),
    }
}

/// The text under `name`, empty where there is none.
fn text_or<'a>(params: &'a Json, name: &str) -> (r: &'a str)
    ensures
        r@ == text_or_empty(params@, name@),
{
    match params.text_at(name) {
        Some(s) => s,
        None => {
            proof {
                reveal_strlit("");
                assert(""@ =~= Seq::<char>::empty());
            }
            ""
        },
    }
}

/// The text under `name` in the `server` of the `params`. The client computes
/// the URLs of a non-default server (EU cloud / self-hosted) per region.
fn server_text_at<'a>(params: &'a Json, name: &str) -> (r: Option<&'a str>)
    ensures
        text::opt_str_view(r) == server_text(params@, name@),
{
    match params.get("server") {
        Some(server) => server.text_at(name),
        None => None,
    }
}

/// Reads the command that a method and its `params` name.
pub fn parse_command<'a>(method: &str, params: &'a Json) -> (r: Result<Command<'a>, EngineError>)
    ensures
        command_result_view(r) == requested(method@, params@),
{
    if text::same(method, "status") {
        Ok(Command::Status)
    } else if text::same(method, "login") {
        Ok(
            Command::Login {
                email: text_or(params, "email"),
                master_password: text_or(params, "masterPassword"),
                two_factor: params.text_at("twoFactor"),
                new_device_otp: params.text_at("newDeviceOtp"),
                identity_url: server_text_at(params, "identityUrl"),
                api_url: server_text_at(params, "apiUrl"),
                timeout: text_or(params, "timeout"),
                action: text_or(params, "action"),
            },
        )
    } else if text::same(method, "restore") {
        Ok(
            Command::Restore {
                email: text_or(params, "email"),
                master_password: params.text_at("masterPassword"),
                two_factor_token: params.text_at("twoFactorToken"),
                identity_url: server_text_at(params, "identityUrl"),
                api_url: server_text_at(params, "apiUrl"),
                timeout: text_or(params, "timeout"),
                action: text_or(params, "action"),
            },
        )
    } else if text::same(method, "setTimeout") {
        Ok(
            Command::SetTimeout {
                timeout: text_or(params, "timeout"),
                action: text_or(params, "action"),
            },
        )
    } else if text::same(method, "unlock") {
        Ok(
            Command::Unlock {
                master_password: params.text_at("masterPassword"),
                two_factor: params.text_at("twoFactor"),
                new_device_otp: params.text_at("newDeviceOtp"),
            },
        )
    } else if text::same(method, "lock") {
        Ok(Command::Lock)
    } else if text::same(method, "logout") {
        Ok(Command::Logout)
    } else if text::same(method, "lookup") {
        match parse_query(params) {
            Ok(query) => Ok(Command::Lookup(query)),
            Err(e) => Err(e),
        }
    } else if text::same(method, "getTotp") {
        match parse_query(params) {
            Ok(query) => Ok(Command::GetTotp(query)),
            Err(e) => Err(e),
        }
    } else {
        Err(EngineError::Failure("Unknown method: ".to_owned().concat(method)))
    }
}

/// A text with nothing around it to trim.
pub open spec fn is_trimmed(s: Seq<char>) -> bool {
    s.len() > 0 && !text::is_space(s[0]) && !text::is_space(s.last())
}

proof fn lemma_trim_start_starts_bare(s: Seq<char>)
    ensures
        text::trim_start(s).len() > 0 ==> !text::is_space(text::trim_start(s)[0]),
    decreases s.len(),
{
    if s.len() > 0 && text::is_space(s[0]) {
        lemma_trim_start_starts_bare(s.drop_first());
    }
}

proof fn lemma_trim_end_keeps_the_start(s: Seq<char>)
    ensures
        text::trim_end(s).len() <= s.len(),
        text::trim_end(s).len() > 0 ==> text::trim_end(s)[0] == s[0] && !text::is_space(
            text::trim_end(s).last(),
        ),
    decreases s.len(),
{
    if s.len() > 0 && text::is_space(s.last()) {
        lemma_trim_end_keeps_the_start(s.drop_last());
    }
}

/// A query that is accepted names a text that is neither blank nor padded.
pub proof fn accepted_queries_are_not_blank(params: JsonView)
    ensures
        asked(params) matches Ok(query) ==> is_trimmed(
            match query {
                QueryView::Domain { domain, .. } => domain,
                QueryView::Id(id) => id,
                QueryView::Search(needle) => needle,
            },
        ),
{
    assert forall|s: Seq<char>|
        #![trigger text::trimmed(s)]
        text::trimmed(s).len() > 0 implies is_trimmed(text::trimmed(s)) by {
        lemma_trim_start_starts_bare(s);
        lemma_trim_end_keeps_the_start(text::trim_start(s));
    }
}

} // verus!
