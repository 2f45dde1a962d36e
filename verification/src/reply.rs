//! What goes back to the client: results, the envelope around them, and the
//! events that ask it to persist the session.

use vstd::prelude::*;
use vstd::string::*;

use crate::cipher;
use crate::cipher::CipherView;
use crate::engine;
use crate::engine::{
    EngineError, EngineErrorView, LookupCandidate, LookupCandidateView, LookupOutcome,
    LookupOutcomeView, PersistedRecord, PersistedRecordView, QueryView, VaultItem, VaultItemView,
    VaultStatus,
};
use crate::json;
use crate::json::{Json, JsonView};
use crate::session::{Persist, PersistView};
use crate::text;

verus! {

/// The fields of an object.
pub type Fields = Map<Seq<char>, JsonView>;

/// `fields` with the text `value` under `name`, unless it is empty.
pub open spec fn with_non_empty(fields: Fields, name: Seq<char>, value: Seq<char>) -> Fields {
    if value.len() == 0 {
        fields
    } else {
        fields.insert(name, JsonView::Text(value))
    }
}

/// Sets the field `name` to a text, unless it is empty.
fn insert_non_empty(fields: &mut Vec<(String, Json)>, name: &str, value: &String)
    ensures
        json::fields_view(final(fields)@) == with_non_empty(
            json::fields_view(old(fields)@),
            name@,
            value@,
        ),
{
    if !value.as_str().is_empty() {
        json::put(fields, name, Json::Text(value.clone()));
    }
}

/// `fields` with the type-specific `pairs` set one after the other.
pub open spec fn with_pairs(fields: Fields, pairs: Seq<(Seq<char>, Seq<char>)>) -> Fields
    decreases pairs.len(),
{
    if pairs.len() == 0 {
        fields
    } else {
        with_pairs(fields, pairs.drop_last()).insert(
            pairs.last().0,
            JsonView::Text(pairs.last().1),
        )
    }
}

/// The fields that every item type shares.
pub open spec fn fixed_fields(item: VaultItemView) -> Fields {
    let m = Map::empty().insert("credentialId"@, JsonView::Text(item.id));
    let m = with_non_empty(m, "type"@, item.kind);
    let m = with_non_empty(m, "name"@, item.name);
    let m = json::with_text(m, "username"@, item.username);
    let m = json::with_text(m, "password"@, item.password);
    let m = json::with_text(m, "uri"@, item.uri);
    let m = json::with_text(m, "notes"@, item.notes);
    json::with_text(m, "domain"@, item.domain)
}

/// An item as it is sent.
pub open spec fn item_json(item: VaultItemView) -> JsonView {
    JsonView::Object(with_pairs(fixed_fields(item), item.typed))
}

/// Encodes an item. The totp field (the raw seed) is deliberately not encoded:
/// it must never cross to the app, even on an explicit ask. The type-specific
/// fields are already wire-named by the engine.
pub fn encode_item(item: &VaultItem) -> (r: Json)
    ensures
        r@ == item_json(item@),
{
    let mut m: Vec<(String, Json)> = Vec::new();
    json::put(&mut m, "credentialId", Json::Text(item.id.clone()));
    insert_non_empty(&mut m, "type", &item.kind);
    insert_non_empty(&mut m, "name", &item.name);
    json::insert_opt(&mut m, "username", &item.username);
    json::insert_opt(&mut m, "password", &item.password);
    json::insert_opt(&mut m, "uri", &item.uri);
    json::insert_opt(&mut m, "notes", &item.notes);
    json::insert_opt(&mut m, "domain", &item.domain);
    let ghost pairs = engine::pairs_view(item.typed@);
    assert(pairs.take(0) =~= Seq::empty());
    let mut i: usize = 0;
    while i < item.typed.len()
        invariant
            i <= item.typed.len(),
            pairs == engine::pairs_view(item.typed@),
            json::fields_view(m@) == with_pairs(fixed_fields(item@), pairs.take(i as int)),
        decreases item.typed.len() - i,
    {
        proof {
            assert(pairs.take(i + 1).drop_last() =~= pairs.take(i as int));
            assert(pairs.take(i + 1).last() == pairs[i as int]);
        }
        json::put(&mut m, item.typed[i].0.as_str(), Json::Text(item.typed[i].1.clone()));
        i = i + 1;
    }
    assert(pairs.take(pairs.len() as int) =~= pairs);
    Json::Object(m)
}

/// A candidate as it is sent.
pub open spec fn candidate_json(candidate: LookupCandidateView) -> JsonView {
    let m = Map::empty().insert("credentialId"@, JsonView::Text(candidate.id));
    let m = with_non_empty(m, "type"@, candidate.kind);
    let m = with_non_empty(m, "name"@, candidate.name);
    let m = json::with_text(m, "username"@, candidate.username);
    let m = json::with_text(m, "uri"@, candidate.uri);
    JsonView::Object(json::with_text(m, "domain"@, candidate.domain))
}

/// Encodes one candidate of an ambiguous lookup: identity fields only, never a
/// secret. `type` and `name` let the caller tell apart items that have no
/// username (notes, cards, keys).
pub fn encode_candidate(candidate: &LookupCandidate) -> (r: Json)
    ensures
        r@ == candidate_json(candidate@),
{
    let mut m: Vec<(String, Json)> = Vec::new();
    json::put(&mut m, "credentialId", Json::Text(candidate.id.clone()));
    insert_non_empty(&mut m, "type", &candidate.kind);
    insert_non_empty(&mut m, "name", &candidate.name);
    json::insert_opt(&mut m, "username", &candidate.username);
    json::insert_opt(&mut m, "uri", &candidate.uri);
    json::insert_opt(&mut m, "domain", &candidate.domain);
    Json::Object(m)
}

/// The most candidates that one reply lists.
pub const MAX_CANDIDATES: usize = 20;

/// The candidates that a reply lists: the first ones, up to the limit.
pub open spec fn listed(candidates: Seq<LookupCandidateView>) -> Seq<JsonView> {
    Seq::new(
        if candidates.len() < MAX_CANDIDATES {
            candidates.len()
        } else {
            MAX_CANDIDATES as nat
        },
        |i: int| candidate_json(candidates[i]),
    )
}

/// The result of a lookup.
pub open spec fn lookup_json(outcome: LookupOutcomeView) -> JsonView {
    JsonView::Object(
        match outcome {
            LookupOutcomeView::Hit(hit) => Map::empty().insert(
                "found"@,
                JsonView::Bool(true),
            ).insert("item"@, item_json(hit.item)).insert(
                "matches"@,
                JsonView::Integer(hit.matches as int),
            ),
            LookupOutcomeView::Ambiguous(candidates) => Map::empty().insert(
                "found"@,
                JsonView::Bool(false),
            ).insert("ambiguous"@, JsonView::Bool(true)).insert(
                "matches"@,
                JsonView::Integer(candidates.len() as int),
            ).insert("candidates"@, JsonView::Array(listed(candidates))),
            LookupOutcomeView::Miss => Map::empty().insert("found"@, JsonView::Bool(false)),
        },
    )
}

/// Encodes the first candidates of an ambiguous lookup.
fn encode_candidates(candidates: &Vec<LookupCandidate>) -> (r: Vec<Json>)
    ensures
        json::items_view(r@) == listed(engine::candidates_view(candidates@)),
{
    let mut r: Vec<Json> = Vec::new();
    let mut i: usize = 0;
    while i < candidates.len() && i < MAX_CANDIDATES
        invariant
            i <= candidates.len(),
            i <= MAX_CANDIDATES,
            r.len() == i,
            forall|k: int| 0 <= k < i ==> (#[trigger] r@[k])@ == candidate_json(candidates@[k]@),
        decreases candidates.len() - i,
    {
        r.push(encode_candidate(&candidates[i]));
        i = i + 1;
    }
    assert(json::items_view(r@) =~= listed(engine::candidates_view(candidates@)));
    r
}

/// Encodes the result of a lookup. Where several items match, no secret is
/// released: `found: false` keeps an older client fail-safe (it reads plain
/// not-found), while a current one reads `ambiguous` and the non-secret
/// candidates, and asks for a narrowed query.
pub fn encode_lookup(outcome: &LookupOutcome) -> (r: Json)
    ensures
        r@ == lookup_json(outcome@),
{
    let mut m: Vec<(String, Json)> = Vec::new();
    match outcome {
        LookupOutcome::Hit(hit) => {
            json::put(&mut m, "found", Json::Bool(true));
            json::put(&mut m, "item", encode_item(&hit.item));
            json::put(&mut m, "matches", Json::Count(hit.matches as u64));
        },
        LookupOutcome::Ambiguous(candidates) => {
            json::put(&mut m, "found", Json::Bool(false));
            json::put(&mut m, "ambiguous", Json::Bool(true));
            json::put(&mut m, "matches", Json::Count(candidates.len() as u64));
            json::put(&mut m, "candidates", Json::Array(encode_candidates(candidates)));
        },
        LookupOutcome::Miss => {
            json::put(&mut m, "found", Json::Bool(false));
        },
    }
    Json::Object(m)
}

/// The result of a status request.
pub open spec fn status_json(status: VaultStatus, account: Option<Seq<char>>) -> JsonView {
    JsonView::Object(
        json::with_text(
            Map::empty().insert("status"@, JsonView::Text(status.wire_view())),
            "account"@,
            account,
        ),
    )
}

/// Encodes the result of a status request, with the account where it is known.
pub fn encode_status(status: VaultStatus, account: Option<String>) -> (r: Json)
    ensures
        r@ == status_json(status, text::opt_view(account)),
{
    let mut m: Vec<(String, Json)> = Vec::new();
    json::put(&mut m, "status", Json::text(status.wire()));
    json::insert_opt(&mut m, "account", &account);
    Json::Object(m)
}

/// An object with one field.
pub open spec fn singleton(name: Seq<char>, value: JsonView) -> JsonView {
    JsonView::Object(Map::empty().insert(name, value))
}

/// An object with one field.
pub fn single(name: &str, value: Json) -> (r: Json)
    ensures
        r@ == singleton(name@, value@),
{
    let mut m: Vec<(String, Json)> = Vec::new();
    json::put(&mut m, name, value);
    Json::Object(m)
}

/// The result of a request for a two-step code: the code, empty where there is
/// none.
pub open spec fn totp_json(totp: Option<Seq<char>>) -> JsonView {
    singleton(
        "totp"@,
        JsonView::Text(
            match totp {
                Some(code) => code,
                None => Seq::empty(),
            },
        ),
    )
}

/// Encodes the result of a request for a two-step code.
pub fn encode_totp(totp: Option<String>) -> (r: Json)
    ensures
        r@ == totp_json(text::opt_view(totp)),
{
    match totp {
        Some(code) => single("totp", Json::Text(code)),
        None => single("totp", Json::Text(String::new())),
    }
}

/// The result of a request that answers nothing.
pub open spec fn nothing() -> JsonView {
    JsonView::Object(Map::empty())
}

/// The result of a request that answers nothing.
pub fn empty() -> (r: Json)
    ensures
        r@ == nothing(),
{
    Json::Object(Vec::new())
}

/// The description of an error: its message, and its code where a client is to
/// act on it.
pub open spec fn error_json(e: EngineErrorView) -> JsonView {
    JsonView::Object(
        json::with_text(
            Map::empty().insert("message"@, JsonView::Text(e.message())),
            "code"@,
            e.code(),
        ),
    )
}

/// The envelope of a reply.
pub open spec fn envelope(result: Result<JsonView, EngineErrorView>) -> Fields {
    match result {
        Ok(value) => Map::empty().insert("ok"@, JsonView::Bool(true)).insert("result"@, value),
        Err(e) => Map::empty().insert("ok"@, JsonView::Bool(false)).insert(
            "error"@,
            error_json(e),
        ),
    }
}

/// The view of what a request came to.
pub open spec fn result_view(result: Result<Json, EngineError>) -> Result<
    JsonView,
    EngineErrorView,
> {
    match result {
        Ok(value) => Ok(value@),
        Err(e) => Err(e@),
    }
}

/// Describes an error: its message, and its code beside it where a client is to
/// act on it rather than merely display it.
fn encode_error(e: &EngineError) -> (r: Json)
    ensures
        r@ == error_json(e@),
{
    let mut m: Vec<(String, Json)> = Vec::new();
    json::put(&mut m, "message", Json::Text(e.message()));
    if let Some(code) = e.code() {
        json::put(&mut m, "code", Json::text(code));
    }
    Json::Object(m)
}

/// Wraps what a request came to: `{"ok": true, "result": ..}` for a success,
/// `{"ok": false, "error": ..}` for a failure.
pub fn encode_reply(result: Result<Json, EngineError>) -> (r: Vec<(String, Json)>)
    ensures
        json::fields_view(r@) == envelope(result_view(result)),
{
    let mut m: Vec<(String, Json)> = Vec::new();
    match result {
        Ok(value) => {
            json::put(&mut m, "ok", Json::Bool(true));
            json::put(&mut m, "result", value);
        },
        Err(e) => {
            json::put(&mut m, "ok", Json::Bool(false));
            json::put(&mut m, "error", encode_error(&e));
        },
    }
    m
}

/// The servers of a record, as they are sent.
pub open spec fn server_fields(r: PersistedRecordView) -> Fields {
    json::with_text(
        json::with_text(Map::empty(), "identityUrl"@, r.identity_url),
        "apiUrl"@,
        r.api_url,
    )
}

/// A record as the app stores it, and as it sends it back to restore.
pub open spec fn session_json(record: Option<PersistedRecordView>) -> JsonView {
    match record {
        None => JsonView::Null,
        Some(r) => {
            let m = Map::empty().insert("email"@, JsonView::Text(r.email));
            let m = json::with_text(m, "masterPassword"@, r.master_password);
            let m = json::with_text(m, "twoFactorToken"@, r.two_factor_token);
            JsonView::Object(
                if r.identity_url is Some || r.api_url is Some {
                    m.insert("server"@, JsonView::Object(server_fields(r)))
                } else {
                    m
                },
            )
        },
    }
}

/// Encodes a record for the `persist` event: an object the app stores, or null
/// to clear what it has. The shape is that of the `restore` params, so the app
/// sends back what it was given.
pub fn persist_session_value(record: Option<PersistedRecord>) -> (r: Json)
    ensures
        r@ == session_json(engine::record_view(record)),
{
    let record: PersistedRecord = match record {
        Some(record) => record,
        None => return Json::Null,
    };
    let mut obj: Vec<(String, Json)> = Vec::new();
    json::put(&mut obj, "email", Json::Text(record.email));
    json::insert_opt(&mut obj, "masterPassword", &record.master_password);
    json::insert_opt(&mut obj, "twoFactorToken", &record.two_factor_token);
    if record.identity_url.is_some() || record.api_url.is_some() {
        let mut server: Vec<(String, Json)> = Vec::new();
        json::insert_opt(&mut server, "identityUrl", &record.identity_url);
        json::insert_opt(&mut server, "apiUrl", &record.api_url);
        json::put(&mut obj, "server", Json::Object(server));
    }
    Json::Object(obj)
}

/// The event that asks the app to persist or clear the session.
pub open spec fn event_json(record: Option<PersistedRecordView>) -> JsonView {
    JsonView::Object(
        Map::empty().insert("event"@, JsonView::Text("persist"@)).insert(
            "session"@,
            session_json(record),
        ),
    )
}

/// The event that a change of the session calls for, where it calls for one.
pub open spec fn event_for(persist: PersistView) -> Option<JsonView> {
    match persist {
        PersistView::Keep => None,
        PersistView::Store(record) => Some(event_json(Some(record))),
        PersistView::Forget => Some(event_json(None)),
    }
}

fn encode_event(record: Option<PersistedRecord>) -> (r: Json)
    ensures
        r@ == event_json(engine::record_view(record)),
{
    let mut m: Vec<(String, Json)> = Vec::new();
    json::put(&mut m, "event", Json::text("persist"));
    json::put(&mut m, "session", persist_session_value(record));
    Json::Object(m)
}

/// The event that a change of the session calls for: the helper owns no store,
/// so the app is asked to write its own.
pub fn persist_event(persist: Persist) -> (r: Option<Json>)
    ensures
        json::opt_json_view(r) == event_for(persist@),
{
    match persist {
        Persist::Keep => None,
        Persist::Store(record) => Some(encode_event(Some(record))),
        Persist::Forget => Some(encode_event(None)),
    }
}

/// The seed of an item's two-step codes has no part in what is sent.
pub proof fn two_step_seeds_are_never_sent(item: VaultItemView, totp: Option<Seq<char>>)
    ensures
        item_json(VaultItemView { totp, ..item }) == item_json(item),
{
}

/// The names of an item's fixed fields are all different.
proof fn lemma_fixed_names_differ()
    ensures
        "credentialId"@.len() == 12,
        "type"@.len() == 4 && "type"@[0] == 't' && "type"@[1] == 'y',
        "name"@.len() == 4 && "name"@[0] == 'n',
        "username"@.len() == 8 && "username"@[0] == 'u',
        "password"@.len() == 8 && "password"@[0] == 'p',
        "totp"@.len() == 4 && "totp"@[0] == 't' && "totp"@[1] == 'o',
        "uri"@.len() == 3,
        "notes"@.len() == 5,
        "domain"@.len() == 6,
{
    reveal_strlit("credentialId");
    reveal_strlit("type");
    reveal_strlit("name");
    reveal_strlit("username");
    reveal_strlit("password");
    reveal_strlit("totp");
    reveal_strlit("uri");
    reveal_strlit("notes");
    reveal_strlit("domain");
}

/// Pairs under other names leave a field as it is.
proof fn lemma_pairs_leave_other_fields(
    fields: Fields,
    pairs: Seq<(Seq<char>, Seq<char>)>,
    name: Seq<char>,
)
    requires
        forall|i: int| 0 <= i < pairs.len() ==> (#[trigger] pairs[i]).0 != name,
    ensures
        with_pairs(fields, pairs).contains_key(name) == fields.contains_key(name),
        fields.contains_key(name) ==> with_pairs(fields, pairs)[name] == fields[name],
    decreases pairs.len(),
{
    if pairs.len() > 0 {
        let init = pairs.drop_last();
        assert forall|i: int| 0 <= i < init.len() implies (#[trigger] init[i]).0 != name by {
            assert(init[i] == pairs[i]);
        }
        lemma_pairs_leave_other_fields(fields, init, name);
        assert(pairs[pairs.len() - 1].0 != name);
    }
}

/// The type-specific fields of a served item never replace one of its fixed
/// fields: each fixed field that is sent holds what the item has for it. The
/// two-step seed has no field.
pub proof fn served_items_keep_their_fixed_fields(c: CipherView, query: QueryView)
    ensures
        ({
            let item = c.vault_item(query);
            let sent = item_json(item);
            &&& sent.text_field("credentialId"@) == Some(item.id)
            &&& sent.text_field("type"@) == text::non_empty(Some(item.kind))
            &&& sent.text_field("name"@) == text::non_empty(Some(item.name))
            &&& sent.text_field("username"@) == item.username
            &&& sent.text_field("password"@) == item.password
            &&& sent.text_field("uri"@) == item.uri
            &&& sent.text_field("notes"@) == item.notes
            &&& sent.text_field("domain"@) == item.domain
            &&& sent.field("totp"@) is None
        }),
{
    let item = c.vault_item(query);
    let fixed = fixed_fields(item);
    assert forall|name: Seq<char>| cipher::is_fixed_key(name) implies {
        &&& with_pairs(fixed, item.typed).contains_key(name) == #[trigger] fixed.contains_key(name)
        &&& fixed.contains_key(name) ==> with_pairs(fixed, item.typed)[name] == fixed[name]
    } by {
        assert forall|i: int| 0 <= i < item.typed.len() implies (#[trigger] item.typed[i]).0
            != name by {
            cipher::typed_fields_have_their_own_keys(c, query, i);
        }
        lemma_pairs_leave_other_fields(fixed, item.typed, name);
    }
    lemma_fixed_names_differ();
    assert(fixed.contains_key("credentialId"@));
    assert(fixed.contains_key("type"@) == (item.kind.len() > 0));
    assert(fixed.contains_key("name"@) == (item.name.len() > 0));
    assert(fixed.contains_key("username"@) == (item.username is Some));
    assert(fixed.contains_key("password"@) == (item.password is Some));
    assert(fixed.contains_key("uri"@) == (item.uri is Some));
    assert(fixed.contains_key("notes"@) == (item.notes is Some));
    assert(fixed.contains_key("domain"@) == (item.domain is Some));
    assert(!fixed.contains_key("totp"@));
}

/// A candidate has the fields that identify an item, and no other.
proof fn lemma_candidates_have_identity_fields(candidate: LookupCandidateView, name: Seq<char>)
    ensures
        candidate_json(candidate).field(name) is Some ==> {
            ||| name == "credentialId"@
            ||| name == "type"@
            ||| name == "name"@
            ||| name == "username"@
            ||| name == "uri"@
            ||| name == "domain"@
        },
{
}

/// The names of the fields of a lookup's result are all different.
proof fn lemma_lookup_names_differ()
    ensures
        "found"@.len() == 5,
        "ambiguous"@.len() == 9,
        "matches"@.len() == 7,
        "candidates"@.len() == 10,
        "item"@.len() == 4,
{
    reveal_strlit("found");
    reveal_strlit("ambiguous");
    reveal_strlit("matches");
    reveal_strlit("candidates");
    reveal_strlit("item");
}

/// An ambiguous lookup is answered without an item. It reads as not found to an
/// older client, gives the number of all matches, and lists candidates that
/// have no field for a secret.
pub proof fn ambiguous_replies_release_no_item(candidates: Seq<LookupCandidateView>)
    ensures
        ({
            let sent = lookup_json(LookupOutcomeView::Ambiguous(candidates));
            &&& sent.field("found"@) == Some(JsonView::Bool(false))
            &&& sent.field("ambiguous"@) == Some(JsonView::Bool(true))
            &&& sent.field("matches"@) == Some(JsonView::Integer(candidates.len() as int))
            &&& sent.field("candidates"@) == Some(JsonView::Array(listed(candidates)))
            &&& sent.field("item"@) is None
        }),
        listed(candidates).len() <= MAX_CANDIDATES,
        listed(candidates).len() <= candidates.len(),
        forall|i: int|
            0 <= i < listed(candidates).len() ==> {
                &&& (#[trigger] listed(candidates)[i]).field("password"@) is None
                &&& listed(candidates)[i].field("notes"@) is None
                &&& listed(candidates)[i].field("totp"@) is None
            },
{
    lemma_lookup_names_differ();
    lemma_fixed_names_differ();
    assert forall|i: int| 0 <= i < listed(candidates).len() implies {
        &&& (#[trigger] listed(candidates)[i]).field("password"@) is None
        &&& listed(candidates)[i].field("notes"@) is None
        &&& listed(candidates)[i].field("totp"@) is None
    } by {
        lemma_candidates_have_identity_fields(candidates[i], "password"@);
        lemma_candidates_have_identity_fields(candidates[i], "notes"@);
        lemma_candidates_have_identity_fields(candidates[i], "totp"@);
    }
}

/// A reply says `found` exactly for a hit, and only a hit carries an item.
pub proof fn only_hits_are_found(outcome: LookupOutcomeView)
    ensures
        lookup_json(outcome).field("found"@) == Some(JsonView::Bool(outcome is Hit)),
        lookup_json(outcome).field("item"@) is Some <==> outcome is Hit,
{
    lemma_lookup_names_differ();
}

/// What is sent of an item whose secrets may not be viewed is the same whatever
/// its hidden fields hold.
pub proof fn withheld_secrets_are_never_sent(c: CipherView, d: CipherView, query: QueryView)
    requires
        !c.view_password,
        cipher::without_hidden(c) == cipher::without_hidden(d),
    ensures
        item_json(c.vault_item(query)) == item_json(d.vault_item(query)),
        item_json(c.vault_item(query)).field("password"@) is None,
{
    cipher::withheld_secrets_do_not_show(c, d, query);
    let item = c.vault_item(query);
    assert forall|i: int| 0 <= i < item.typed.len() implies (#[trigger] item.typed[i]).0
        != "password"@ by {
        cipher::typed_fields_have_their_own_keys(c, query, i);
    }
    lemma_pairs_leave_other_fields(fixed_fields(item), item.typed, "password"@);
    lemma_fixed_names_differ();
}

/// A hit goes out with its item and the number of matches.
pub proof fn hits_carry_their_item(outcome: LookupOutcomeView)
    ensures
        outcome matches LookupOutcomeView::Hit(hit) ==> lookup_json(outcome).field("item"@) == Some(
            item_json(hit.item),
        ) && lookup_json(outcome).field("matches"@) == Some(JsonView::Integer(hit.matches as int)),
        outcome is Miss ==> lookup_json(outcome) == singleton("found"@, JsonView::Bool(false)),
{
    lemma_lookup_names_differ();
}

/// A candidate goes out with its id, and with each other field that is there and,
/// for type and name, not empty, under its own name.
pub proof fn candidates_are_sent_field_by_field(candidate: LookupCandidateView)
    ensures
        ({
            let sent = candidate_json(candidate);
            &&& sent.text_field("credentialId"@) == Some(candidate.id)
            &&& sent.text_field("type"@) == text::non_empty(Some(candidate.kind))
            &&& sent.text_field("name"@) == text::non_empty(Some(candidate.name))
            &&& sent.text_field("username"@) == candidate.username
            &&& sent.text_field("uri"@) == candidate.uri
            &&& sent.text_field("domain"@) == candidate.domain
        }),
{
    lemma_fixed_names_differ();
}

/// The candidates that a reply lists are the first ones, in their order; up to
/// twenty of them, all where there are no more.
pub proof fn the_first_candidates_are_listed(candidates: Seq<LookupCandidateView>, i: int)
    ensures
        candidates.len() <= 20 ==> listed(candidates).len() == candidates.len(),
        candidates.len() > 20 ==> listed(candidates).len() == 20,
        0 <= i < candidates.len() && i < 20 ==> listed(candidates)[i] == candidate_json(
            candidates[i],
        ),
{
}

/// An event says that it is about persisting, and carries the record to store, or
/// null to clear it. A session to keep as it is calls for no event.
pub proof fn events_carry_the_session(record: PersistedRecordView)
    ensures
        event_for(PersistView::Store(record)) is Some,
        event_for(PersistView::Store(record))->0.text_field("event"@) == Some("persist"@),
        event_for(PersistView::Store(record))->0.field("session"@) == Some(
            session_json(Some(record)),
        ),
        event_for(PersistView::Forget) is Some,
        event_for(PersistView::Forget)->0.text_field("event"@) == Some("persist"@),
        event_for(PersistView::Forget)->0.field("session"@) == Some(JsonView::Null),
        event_for(PersistView::Keep) is None,
{
    reveal_strlit("event");
    reveal_strlit("session");
    assert("event"@.len() == 5);
    assert("session"@.len() == 7);
}

/// A stored record shows each of its parts under its own name, and the servers
/// only where there is one.
pub proof fn records_are_stored_field_by_field(record: PersistedRecordView)
    ensures
        ({
            let stored = session_json(Some(record));
            &&& stored.text_field("email"@) == Some(record.email)
            &&& stored.text_field("masterPassword"@) == record.master_password
            &&& stored.text_field("twoFactorToken"@) == record.two_factor_token
            &&& stored.field("server"@) is Some <==> record.identity_url is Some
                || record.api_url is Some
            &&& stored.field("server"@) is Some ==> stored.field("server"@)->0.text_field(
                "identityUrl"@,
            ) == record.identity_url && stored.field("server"@)->0.text_field("apiUrl"@)
                == record.api_url
        }),
{
    reveal_strlit("email");
    reveal_strlit("masterPassword");
    reveal_strlit("twoFactorToken");
    reveal_strlit("server");
    reveal_strlit("identityUrl");
    reveal_strlit("apiUrl");
    assert("email"@.len() == 5);
    assert("masterPassword"@.len() == 14 && "masterPassword"@[0] == 'm');
    assert("twoFactorToken"@.len() == 14 && "twoFactorToken"@[0] == 't');
    assert("server"@.len() == 6);
    assert("identityUrl"@.len() == 11);
    assert("apiUrl"@.len() == 6);
}

} // verus!
