//! What the mathematical values of the data types show: each field of a value, as
//! it is and in its own place.

use vstd::prelude::*;

use crate::cipher::{Card, Cipher, Identity, Login, SshKey};
use crate::device::Settings;
use crate::engine::{
    LookupCandidate, LookupHit, LookupOutcome, LookupOutcomeView, PersistedRecord, Query,
    QueryView, VaultItem,
};
use crate::session::{Persist, PersistView};
use crate::signin::{LoginRequest, TwoFactor};
use crate::uri::LoginUri;

verus! {

/// `shown` is the text `text`, or both are absent.
pub open spec fn same_text(text: Option<String>, shown: Option<Seq<char>>) -> bool {
    match (text, shown) {
        (Some(s), Some(v)) => s@ == v,
        (None, None) => true,
        _ => false,
    }
}

/// What a login payload shows.
pub proof fn login_shows_its_fields(login: Login)
    ensures
        same_text(login.username, login@.username),
        same_text(login.password, login@.password),
        same_text(login.totp, login@.totp),
        login.uris is None ==> login@.uris.len() == 0,
        login.uris is Some ==> login@.uris.len() == login.uris->0@.len(),
        login.uris is Some ==> forall|i: int| 0 <= i < login@.uris.len() ==> (#[trigger] login@.uris[i]) == login.uris->0@[i]@,
{
}

/// What a card shows.
pub proof fn card_shows_its_fields(card: Card)
    ensures
        same_text(card.cardholder_name, card@.cardholder_name),
        same_text(card.brand, card@.brand),
        same_text(card.number, card@.number),
        same_text(card.code, card@.code),
        same_text(card.exp_month, card@.exp_month),
        same_text(card.exp_year, card@.exp_year),
{
}

/// What an identity shows.
pub proof fn identity_shows_its_fields(identity: Identity)
    ensures
        same_text(identity.username, identity@.username),
        same_text(identity.title, identity@.title),
        same_text(identity.first_name, identity@.first_name),
        same_text(identity.middle_name, identity@.middle_name),
        same_text(identity.last_name, identity@.last_name),
        same_text(identity.address1, identity@.address1),
        same_text(identity.address2, identity@.address2),
        same_text(identity.address3, identity@.address3),
        same_text(identity.city, identity@.city),
        same_text(identity.state, identity@.state),
        same_text(identity.postal_code, identity@.postal_code),
        same_text(identity.country, identity@.country),
        same_text(identity.company, identity@.company),
        same_text(identity.email, identity@.email),
        same_text(identity.phone, identity@.phone),
        same_text(identity.ssn, identity@.ssn),
        same_text(identity.passport_number, identity@.passport_number),
        same_text(identity.license_number, identity@.license_number),
{
}

/// What an SSH key shows.
pub proof fn ssh_key_shows_its_fields(key: SshKey)
    ensures
        key@.private_key == key.private_key@,
        key@.public_key == key.public_key@,
        key@.fingerprint == key.fingerprint@,
{
}

/// What an item shows.
pub proof fn cipher_shows_its_fields(item: Cipher)
    ensures
        same_text(item.id, item@.id),
        item@.kind == item.kind,
        item@.name == item.name@,
        same_text(item.notes, item@.notes),
        item@.login is Some <==> item.login is Some,
        item.login is Some ==> item@.login->0 == item.login->0@,
        item@.card is Some <==> item.card is Some,
        item.card is Some ==> item@.card->0 == item.card->0@,
        item@.identity is Some <==> item.identity is Some,
        item.identity is Some ==> item@.identity->0 == item.identity->0@,
        item@.ssh_key is Some <==> item.ssh_key is Some,
        item.ssh_key is Some ==> item@.ssh_key->0 == item.ssh_key->0@,
        item@.view_password == item.view_password,
        item@.reprompt == item.reprompt,
        item@.deleted == item.deleted,
        item@.archived == item.archived,
{
}

/// What a stored URI shows.
pub proof fn login_uri_shows_its_fields(stored: LoginUri)
    ensures
        same_text(stored.uri, stored@.uri),
        stored@.rule == stored.rule,
{
}

/// What a served item shows.
pub proof fn vault_item_shows_its_fields(item: VaultItem)
    ensures
        item@.id == item.id@,
        item@.kind == item.kind@,
        item@.name == item.name@,
        same_text(item.username, item@.username),
        same_text(item.password, item@.password),
        same_text(item.totp, item@.totp),
        same_text(item.uri, item@.uri),
        same_text(item.notes, item@.notes),
        same_text(item.domain, item@.domain),
        item@.typed.len() == item.typed@.len(),
        forall|i: int|
            0 <= i < item@.typed.len() ==> (#[trigger] item@.typed[i]).0 == item.typed@[i].0@ && item@.typed[i].1 == item.typed@[i].1@,
{
}

/// What a candidate shows.
pub proof fn lookup_candidate_shows_its_fields(candidate: LookupCandidate)
    ensures
        candidate@.id == candidate.id@,
        candidate@.kind == candidate.kind@,
        candidate@.name == candidate.name@,
        same_text(candidate.username, candidate@.username),
        same_text(candidate.uri, candidate@.uri),
        same_text(candidate.domain, candidate@.domain),
{
}

/// What a hit shows.
pub proof fn lookup_hit_shows_its_fields(hit: LookupHit)
    ensures
        hit@.item == hit.item@,
        hit@.matches == hit.matches,
{
}

/// What a record shows.
pub proof fn persisted_record_shows_its_fields(record: PersistedRecord)
    ensures
        record@.email == record.email@,
        same_text(record.master_password, record@.master_password),
        same_text(record.two_factor_token, record@.two_factor_token),
        same_text(record.identity_url, record@.identity_url),
        same_text(record.api_url, record@.api_url),
{
}

/// What a second factor shows.
pub proof fn two_factor_shows_its_fields(factor: TwoFactor)
    ensures
        factor@.token == factor.token@,
        factor@.provider == factor.provider,
        factor@.remember == factor.remember,
{
}

/// What a login shows.
pub proof fn login_request_shows_its_fields(request: LoginRequest)
    ensures
        request@.email == request.email@,
        request@.password == request.password@,
        request@.two_factor is Some <==> request.two_factor is Some,
        request.two_factor is Some ==> request@.two_factor->0 == request.two_factor->0@,
        same_text(request.new_device_otp, request@.new_device_otp),
        same_text(request.identity_url, request@.identity_url),
        same_text(request.api_url, request@.api_url),
{
}

/// What client settings shows.
pub proof fn settings_shows_its_fields(settings: Settings)
    ensures
        settings@.identity_url == settings.identity_url@,
        settings@.api_url == settings.api_url@,
        settings@.user_agent == settings.user_agent@,
        settings@.device_type == settings.device_type,
        settings@.device_identifier == settings.device_identifier@,
        settings@.client_version == settings.client_version@,
        settings@.package_type == settings.package_type@,
{
}

/// What a query shows: the kind it is of, and its texts.
pub proof fn query_shows_what_it_asks(query: Query)
    ensures
        query matches Query::Domain { domain, username } ==> query@ is Domain && query@->domain
            == domain@ && same_text(username, query@->username),
        query matches Query::Id(id) ==> query@ == QueryView::Id(id@),
        query matches Query::Search(needle) ==> query@ == QueryView::Search(needle@),
{
}

/// What the outcome of a lookup shows: the kind it is of, its item, or its
/// candidates in their order.
pub proof fn outcome_shows_what_was_found(outcome: LookupOutcome)
    ensures
        outcome is Miss ==> outcome@ is Miss,
        outcome matches LookupOutcome::Hit(hit) ==> outcome@ == LookupOutcomeView::Hit(hit@),
        outcome matches LookupOutcome::Ambiguous(list) ==> {
            &&& outcome@ is Ambiguous
            &&& outcome@->Ambiguous_0.len() == list@.len()
            &&& forall|i: int|
                0 <= i < list@.len() ==> outcome@->Ambiguous_0[i] == (#[trigger] list@[i])@
        },
{
}

/// What is asked of the app shows: to keep, to store the record, or to forget.
pub proof fn persist_shows_what_is_asked(persist: Persist)
    ensures
        persist is Keep ==> persist@ is Keep,
        persist matches Persist::Store(record) ==> persist@ == PersistView::Store(record@),
        persist is Forget ==> persist@ is Forget,
{
}

} // verus!
