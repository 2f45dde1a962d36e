//! The type-specific fields of served items, found again by their wire keys.

use vstd::prelude::*;

use crate::cipher;
use crate::cipher::{CardView, CipherType, CipherView, IdentityView, SshKeyView};
use crate::engine::QueryView;
use crate::json::JsonView;
use crate::reply;
use crate::text;

verus! {

/// Among `fields`, the key `key` holds `value` where that is present and not
/// empty, and is absent otherwise.
pub open spec fn serves(fields: cipher::Fields, key: Seq<char>, value: Option<Seq<char>>) -> bool {
    forall|v: Seq<char>| #[trigger] fields.contains((key, v)) <==> value == Some(v) && v.len() > 0
}

/// A value of an item whose secrets may be viewed, and nothing of any other.
pub open spec fn viewable(c: CipherView, value: Option<Seq<char>>) -> Option<Seq<char>> {
    if c.view_password {
        value
    } else {
        None
    }
}

/// The wire keys of the type-specific fields are all different.
proof fn lemma_keys_differ()
    ensures
        "title"@.len() == 5 && "title"@[0] == 't',
        "firstName"@.len() == 9 && "firstName"@[0] == 'f',
        "middleName"@.len() == 10 && "middleName"@[0] == 'm',
        "lastName"@.len() == 8 && "lastName"@[0] == 'l',
        "address1"@.len() == 8 && "address1"@[0] == 'a' && "address1"@[7] == '1',
        "address2"@.len() == 8 && "address2"@[0] == 'a' && "address2"@[7] == '2',
        "address3"@.len() == 8 && "address3"@[0] == 'a' && "address3"@[7] == '3',
        "city"@.len() == 4 && "city"@[1] == 'i',
        "state"@.len() == 5 && "state"@[0] == 's',
        "postalCode"@.len() == 10 && "postalCode"@[0] == 'p' && "postalCode"@[1] == 'o',
        "country"@.len() == 7 && "country"@[0] == 'c' && "country"@[2] == 'u',
        "company"@.len() == 7 && "company"@[0] == 'c' && "company"@[2] == 'm',
        "email"@.len() == 5 && "email"@[0] == 'e',
        "phone"@.len() == 5 && "phone"@[0] == 'p',
        "ssn"@.len() == 3,
        "passportNumber"@.len() == 14 && "passportNumber"@[0] == 'p',
        "licenseNumber"@.len() == 13,
        "cardholderName"@.len() == 14 && "cardholderName"@[0] == 'c',
        "brand"@.len() == 5 && "brand"@[0] == 'b',
        "number"@.len() == 6,
        "code"@.len() == 4 && "code"@[1] == 'o',
        "expMonth"@.len() == 8 && "expMonth"@[0] == 'e',
        "expYear"@.len() == 7 && "expYear"@[0] == 'e',
        "privateKey"@.len() == 10 && "privateKey"@[0] == 'p' && "privateKey"@[1] == 'r',
        "publicKey"@.len() == 9 && "publicKey"@[0] == 'p',
        "fingerprint"@.len() == 11,
{
    reveal_strlit("title");
    reveal_strlit("firstName");
    reveal_strlit("middleName");
    reveal_strlit("lastName");
    reveal_strlit("address1");
    reveal_strlit("address2");
    reveal_strlit("address3");
    reveal_strlit("city");
    reveal_strlit("state");
    reveal_strlit("postalCode");
    reveal_strlit("country");
    reveal_strlit("company");
    reveal_strlit("email");
    reveal_strlit("phone");
    reveal_strlit("ssn");
    reveal_strlit("passportNumber");
    reveal_strlit("licenseNumber");
    reveal_strlit("cardholderName");
    reveal_strlit("brand");
    reveal_strlit("number");
    reveal_strlit("code");
    reveal_strlit("expMonth");
    reveal_strlit("expYear");
    reveal_strlit("privateKey");
    reveal_strlit("publicKey");
    reveal_strlit("fingerprint");
}

/// Appending a field serves it under its key, and leaves the others.
proof fn lemma_with_field(
    fields: cipher::Fields,
    key: Seq<char>,
    value: Option<Seq<char>>,
    other: Seq<char>,
    v: Seq<char>,
)
    ensures
        cipher::with_field(fields, key, value).contains((other, v)) <==> fields.contains((other, v))
            || (other == key && value == Some(v) && v.len() > 0),
{
    let after = cipher::with_field(fields, key, value);
    if fields.contains((other, v)) {
        let i = choose|i: int| 0 <= i < fields.len() && fields[i] == (other, v);
        assert(after[i] == (other, v));
    }
    if other == key && value == Some(v) && v.len() > 0 {
        assert(after[after.len() - 1] == (other, v));
    }
}

/// What is found among the fields of a card.
proof fn lemma_card(card: CardView, visible: bool, other: Seq<char>, v: Seq<char>)
    ensures
        cipher::card_fields(card, visible).contains((other, v)) <==> v.len() > 0 && {
            ||| other == "cardholderName"@ && card.cardholder_name == Some(v)
            ||| other == "brand"@ && card.brand == Some(v)
            ||| other == "number"@ && cipher::shown(visible, card.number) == Some(v)
            ||| other == "code"@ && cipher::shown(visible, card.code) == Some(v)
            ||| other == "expMonth"@ && card.exp_month == Some(v)
            ||| other == "expYear"@ && card.exp_year == Some(v)
        },
{
    let f: cipher::Fields = Seq::empty();
    lemma_with_field(f, "cardholderName"@, card.cardholder_name, other, v);
    let f = cipher::with_field(f, "cardholderName"@, card.cardholder_name);
    lemma_with_field(f, "brand"@, card.brand, other, v);
    let f = cipher::with_field(f, "brand"@, card.brand);
    lemma_with_field(f, "number"@, cipher::shown(visible, card.number), other, v);
    let f = cipher::with_field(f, "number"@, cipher::shown(visible, card.number));
    lemma_with_field(f, "code"@, cipher::shown(visible, card.code), other, v);
    let f = cipher::with_field(f, "code"@, cipher::shown(visible, card.code));
    lemma_with_field(f, "expMonth"@, card.exp_month, other, v);
    let f = cipher::with_field(f, "expMonth"@, card.exp_month);
    lemma_with_field(f, "expYear"@, card.exp_year, other, v);
    let f = cipher::with_field(f, "expYear"@, card.exp_year);
}

/// What is found among the fields of an identity.
proof fn lemma_identity(identity: IdentityView, other: Seq<char>, v: Seq<char>)
    ensures
        cipher::identity_fields(identity).contains((other, v)) <==> v.len() > 0 && {
            ||| other == "title"@ && identity.title == Some(v)
            ||| other == "firstName"@ && identity.first_name == Some(v)
            ||| other == "middleName"@ && identity.middle_name == Some(v)
            ||| other == "lastName"@ && identity.last_name == Some(v)
            ||| other == "address1"@ && identity.address1 == Some(v)
            ||| other == "address2"@ && identity.address2 == Some(v)
            ||| other == "address3"@ && identity.address3 == Some(v)
            ||| other == "city"@ && identity.city == Some(v)
            ||| other == "state"@ && identity.state == Some(v)
            ||| other == "postalCode"@ && identity.postal_code == Some(v)
            ||| other == "country"@ && identity.country == Some(v)
            ||| other == "company"@ && identity.company == Some(v)
            ||| other == "email"@ && identity.email == Some(v)
            ||| other == "phone"@ && identity.phone == Some(v)
            ||| other == "ssn"@ && identity.ssn == Some(v)
            ||| other == "passportNumber"@ && identity.passport_number == Some(v)
            ||| other == "licenseNumber"@ && identity.license_number == Some(v)
        },
{
    let f: cipher::Fields = Seq::empty();
    lemma_with_field(f, "title"@, identity.title, other, v);
    let f = cipher::with_field(f, "title"@, identity.title);
    lemma_with_field(f, "firstName"@, identity.first_name, other, v);
    let f = cipher::with_field(f, "firstName"@, identity.first_name);
    lemma_with_field(f, "middleName"@, identity.middle_name, other, v);
    let f = cipher::with_field(f, "middleName"@, identity.middle_name);
    lemma_with_field(f, "lastName"@, identity.last_name, other, v);
    let f = cipher::with_field(f, "lastName"@, identity.last_name);
    lemma_with_field(f, "address1"@, identity.address1, other, v);
    let f = cipher::with_field(f, "address1"@, identity.address1);
    lemma_with_field(f, "address2"@, identity.address2, other, v);
    let f = cipher::with_field(f, "address2"@, identity.address2);
    lemma_with_field(f, "address3"@, identity.address3, other, v);
    let f = cipher::with_field(f, "address3"@, identity.address3);
    lemma_with_field(f, "city"@, identity.city, other, v);
    let f = cipher::with_field(f, "city"@, identity.city);
    lemma_with_field(f, "state"@, identity.state, other, v);
    let f = cipher::with_field(f, "state"@, identity.state);
    lemma_with_field(f, "postalCode"@, identity.postal_code, other, v);
    let f = cipher::with_field(f, "postalCode"@, identity.postal_code);
    lemma_with_field(f, "country"@, identity.country, other, v);
    let f = cipher::with_field(f, "country"@, identity.country);
    lemma_with_field(f, "company"@, identity.company, other, v);
    let f = cipher::with_field(f, "company"@, identity.company);
    lemma_with_field(f, "email"@, identity.email, other, v);
    let f = cipher::with_field(f, "email"@, identity.email);
    lemma_with_field(f, "phone"@, identity.phone, other, v);
    let f = cipher::with_field(f, "phone"@, identity.phone);
    lemma_with_field(f, "ssn"@, identity.ssn, other, v);
    let f = cipher::with_field(f, "ssn"@, identity.ssn);
    lemma_with_field(f, "passportNumber"@, identity.passport_number, other, v);
    let f = cipher::with_field(f, "passportNumber"@, identity.passport_number);
    lemma_with_field(f, "licenseNumber"@, identity.license_number, other, v);
    let f = cipher::with_field(f, "licenseNumber"@, identity.license_number);
}

/// What is found among the fields of an SSH key.
proof fn lemma_ssh_key(key: SshKeyView, visible: bool, other: Seq<char>, v: Seq<char>)
    ensures
        cipher::ssh_key_fields(key, visible).contains((other, v)) <==> v.len() > 0 && {
            ||| other == "privateKey"@ && cipher::shown(visible, Some(key.private_key)) == Some(v)
            ||| other == "publicKey"@ && Some(key.public_key) == Some(v)
            ||| other == "fingerprint"@ && Some(key.fingerprint) == Some(v)
        },
{
    let f: cipher::Fields = Seq::empty();
    lemma_with_field(f, "privateKey"@, cipher::shown(visible, Some(key.private_key)), other, v);
    let f = cipher::with_field(f, "privateKey"@, cipher::shown(visible, Some(key.private_key)));
    lemma_with_field(f, "publicKey"@, Some(key.public_key), other, v);
    let f = cipher::with_field(f, "publicKey"@, Some(key.public_key));
    lemma_with_field(f, "fingerprint"@, Some(key.fingerprint), other, v);
    let f = cipher::with_field(f, "fingerprint"@, Some(key.fingerprint));
}

/// Each field of a card is served under its own key, where it is present and not
/// empty; the number and the code only where secrets may be viewed.
pub proof fn cards_are_served_field_by_field(c: CipherView, card: CardView, query: QueryView)
    requires
        c.kind == CipherType::Card,
        c.card == Some(card),
    ensures
        serves(c.vault_item(query).typed, "cardholderName"@, card.cardholder_name),
        serves(c.vault_item(query).typed, "brand"@, card.brand),
        serves(c.vault_item(query).typed, "number"@, viewable(c, card.number)),
        serves(c.vault_item(query).typed, "code"@, viewable(c, card.code)),
        serves(c.vault_item(query).typed, "expMonth"@, card.exp_month),
        serves(c.vault_item(query).typed, "expYear"@, card.exp_year),
{
    let typed = c.vault_item(query).typed;
    lemma_keys_differ();
    assert forall|k: Seq<char>, v: Seq<char>| #[trigger] typed.contains((k, v)) <==> v.len() > 0 && {
        ||| k == "cardholderName"@ && card.cardholder_name == Some(v)
        ||| k == "brand"@ && card.brand == Some(v)
        ||| k == "number"@ && viewable(c, card.number) == Some(v)
        ||| k == "code"@ && viewable(c, card.code) == Some(v)
        ||| k == "expMonth"@ && card.exp_month == Some(v)
        ||| k == "expYear"@ && card.exp_year == Some(v)
    } by {
        lemma_card(card, c.view_password, k, v);
    }
}

/// Each field of an identity is served under its own key, where it is present and
/// not empty.
pub proof fn identities_are_served_field_by_field(c: CipherView, identity: IdentityView, query: QueryView)
    requires
        c.kind == CipherType::Identity,
        c.identity == Some(identity),
    ensures
        serves(c.vault_item(query).typed, "title"@, identity.title),
        serves(c.vault_item(query).typed, "firstName"@, identity.first_name),
        serves(c.vault_item(query).typed, "middleName"@, identity.middle_name),
        serves(c.vault_item(query).typed, "lastName"@, identity.last_name),
        serves(c.vault_item(query).typed, "address1"@, identity.address1),
        serves(c.vault_item(query).typed, "address2"@, identity.address2),
        serves(c.vault_item(query).typed, "address3"@, identity.address3),
        serves(c.vault_item(query).typed, "city"@, identity.city),
        serves(c.vault_item(query).typed, "state"@, identity.state),
        serves(c.vault_item(query).typed, "postalCode"@, identity.postal_code),
        serves(c.vault_item(query).typed, "country"@, identity.country),
        serves(c.vault_item(query).typed, "company"@, identity.company),
        serves(c.vault_item(query).typed, "email"@, identity.email),
        serves(c.vault_item(query).typed, "phone"@, identity.phone),
        serves(c.vault_item(query).typed, "ssn"@, identity.ssn),
        serves(c.vault_item(query).typed, "passportNumber"@, identity.passport_number),
        serves(c.vault_item(query).typed, "licenseNumber"@, identity.license_number),
{
    let typed = c.vault_item(query).typed;
    lemma_keys_differ();
    assert forall|k: Seq<char>, v: Seq<char>| #[trigger] typed.contains((k, v)) <==> v.len() > 0 && {
        ||| k == "title"@ && identity.title == Some(v)
        ||| k == "firstName"@ && identity.first_name == Some(v)
        ||| k == "middleName"@ && identity.middle_name == Some(v)
        ||| k == "lastName"@ && identity.last_name == Some(v)
        ||| k == "address1"@ && identity.address1 == Some(v)
        ||| k == "address2"@ && identity.address2 == Some(v)
        ||| k == "address3"@ && identity.address3 == Some(v)
        ||| k == "city"@ && identity.city == Some(v)
        ||| k == "state"@ && identity.state == Some(v)
        ||| k == "postalCode"@ && identity.postal_code == Some(v)
        ||| k == "country"@ && identity.country == Some(v)
        ||| k == "company"@ && identity.company == Some(v)
        ||| k == "email"@ && identity.email == Some(v)
        ||| k == "phone"@ && identity.phone == Some(v)
        ||| k == "ssn"@ && identity.ssn == Some(v)
        ||| k == "passportNumber"@ && identity.passport_number == Some(v)
        ||| k == "licenseNumber"@ && identity.license_number == Some(v)
    } by {
        lemma_identity(identity, k, v);
    }
}

/// Each field of an SSH key is served under its own key, where it is not empty;
/// the private key only where secrets may be viewed.
pub proof fn ssh_keys_are_served_field_by_field(c: CipherView, key: SshKeyView, query: QueryView)
    requires
        c.kind == CipherType::SshKey,
        c.ssh_key == Some(key),
    ensures
        serves(c.vault_item(query).typed, "privateKey"@, viewable(c, Some(key.private_key))),
        serves(c.vault_item(query).typed, "publicKey"@, Some(key.public_key)),
        serves(c.vault_item(query).typed, "fingerprint"@, Some(key.fingerprint)),
{
    let typed = c.vault_item(query).typed;
    lemma_keys_differ();
    assert forall|k: Seq<char>, v: Seq<char>| #[trigger] typed.contains((k, v)) <==> v.len() > 0 && {
        ||| k == "privateKey"@ && viewable(c, Some(key.private_key)) == Some(v)
        ||| k == "publicKey"@ && Some(key.public_key) == Some(v)
        ||| k == "fingerprint"@ && Some(key.fingerprint) == Some(v)
    } by {
        lemma_ssh_key(key, c.view_password, k, v);
    }
}

/// An item is served with the fields of its own type alone: a login or a note has
/// no type-specific field, whatever payload it carries.
pub proof fn logins_and_notes_have_no_typed_field(c: CipherView, query: QueryView)
    requires
        !(c.kind is Card),
        !(c.kind is Identity),
        !(c.kind is SshKey),
    ensures
        c.vault_item(query).typed.len() == 0,
{
}

/// The pairs of one key, all with the same value, show as that value.
proof fn lemma_pairs_show(
    fields: reply::Fields,
    pairs: cipher::Fields,
    key: Seq<char>,
    value: Option<Seq<char>>,
)
    requires
        !fields.contains_key(key),
        serves(pairs, key, value),
    ensures
        JsonView::Object(reply::with_pairs(fields, pairs)).text_field(key) == text::non_empty(value),
{
    lemma_pairs_show_some(fields, pairs, key);
    if exists|i: int| 0 <= i < pairs.len() && (#[trigger] pairs[i]).0 == key {
        let i = choose|i: int| 0 <= i < pairs.len() && (#[trigger] pairs[i]).0 == key;
        assert(pairs[i].0 == key);
        assert(reply::with_pairs(fields, pairs).contains_key(key));
        let j = choose|j: int|
            0 <= j < pairs.len() && (#[trigger] pairs[j]).0 == key && reply::with_pairs(
                fields,
                pairs,
            )[key] == JsonView::Text(pairs[j].1);
        assert(pairs[j] == (key, pairs[j].1));
        assert(pairs.contains((key, pairs[j].1)));
        assert(value == Some(pairs[j].1) && pairs[j].1.len() > 0);
    } else if value is Some && value->0.len() > 0 {
        assert(pairs.contains((key, value->0)));
        let i = choose|i: int| 0 <= i < pairs.len() && pairs[i] == (key, value->0);
        assert(pairs[i].0 == key);
    }
}

proof fn lemma_pairs_show_some(fields: reply::Fields, pairs: cipher::Fields, key: Seq<char>)
    requires
        !fields.contains_key(key),
    ensures
        reply::with_pairs(fields, pairs).contains_key(key) <==> exists|i: int|
            0 <= i < pairs.len() && (#[trigger] pairs[i]).0 == key,
        reply::with_pairs(fields, pairs).contains_key(key) ==> exists|j: int|
            0 <= j < pairs.len() && (#[trigger] pairs[j]).0 == key && reply::with_pairs(
                fields,
                pairs,
            )[key] == JsonView::Text(pairs[j].1),
    decreases pairs.len(),
{
    if pairs.len() > 0 {
        let init = pairs.drop_last();
        lemma_pairs_show_some(fields, init, key);
        if pairs.last().0 == key {
            assert(pairs[pairs.len() - 1].0 == key);
        } else {
            if exists|i: int| 0 <= i < init.len() && (#[trigger] init[i]).0 == key {
                let j = choose|j: int|
                    0 <= j < init.len() && (#[trigger] init[j]).0 == key && reply::with_pairs(
                        fields,
                        init,
                    )[key] == JsonView::Text(init[j].1);
                assert(pairs[j] == init[j]);
            }
            if exists|i: int| 0 <= i < pairs.len() && (#[trigger] pairs[i]).0 == key {
                let i = choose|i: int| 0 <= i < pairs.len() && (#[trigger] pairs[i]).0 == key;
                assert(init[i] == pairs[i]);
            }
        }
    }
}

/// A type-specific key is none of the fixed ones.
proof fn lemma_typed_key_is_not_fixed(c: CipherView, query: QueryView, key: Seq<char>)
    requires
        cipher::is_typed_key(key),
    ensures
        !reply::fixed_fields(c.vault_item(query)).contains_key(key),
{
    cipher::lemma_keys_differ(key);
}

/// Each field of a card goes out under its own name.
pub proof fn cards_are_sent_field_by_field(c: CipherView, card: CardView, query: QueryView)
    requires
        c.kind == CipherType::Card,
        c.card == Some(card),
    ensures
        ({
            let sent = reply::item_json(c.vault_item(query));
            &&& sent.text_field("cardholderName"@) == text::non_empty(card.cardholder_name)
            &&& sent.text_field("brand"@) == text::non_empty(card.brand)
            &&& sent.text_field("number"@) == text::non_empty(viewable(c, card.number))
            &&& sent.text_field("code"@) == text::non_empty(viewable(c, card.code))
            &&& sent.text_field("expMonth"@) == text::non_empty(card.exp_month)
            &&& sent.text_field("expYear"@) == text::non_empty(card.exp_year)
        }),
{
    let typed = c.vault_item(query).typed;
    let fixed = reply::fixed_fields(c.vault_item(query));
    cards_are_served_field_by_field(c, card, query);
    reveal(cipher::is_typed_key);
    lemma_typed_key_is_not_fixed(c, query, "cardholderName"@);
    lemma_pairs_show(fixed, typed, "cardholderName"@, card.cardholder_name);
    lemma_typed_key_is_not_fixed(c, query, "brand"@);
    lemma_pairs_show(fixed, typed, "brand"@, card.brand);
    lemma_typed_key_is_not_fixed(c, query, "number"@);
    lemma_pairs_show(fixed, typed, "number"@, viewable(c, card.number));
    lemma_typed_key_is_not_fixed(c, query, "code"@);
    lemma_pairs_show(fixed, typed, "code"@, viewable(c, card.code));
    lemma_typed_key_is_not_fixed(c, query, "expMonth"@);
    lemma_pairs_show(fixed, typed, "expMonth"@, card.exp_month);
    lemma_typed_key_is_not_fixed(c, query, "expYear"@);
    lemma_pairs_show(fixed, typed, "expYear"@, card.exp_year);
}

/// Each field of an identity goes out under its own name.
pub proof fn identities_are_sent_field_by_field(c: CipherView, identity: IdentityView, query: QueryView)
    requires
        c.kind == CipherType::Identity,
        c.identity == Some(identity),
    ensures
        ({
            let sent = reply::item_json(c.vault_item(query));
            &&& sent.text_field("title"@) == text::non_empty(identity.title)
            &&& sent.text_field("firstName"@) == text::non_empty(identity.first_name)
            &&& sent.text_field("middleName"@) == text::non_empty(identity.middle_name)
            &&& sent.text_field("lastName"@) == text::non_empty(identity.last_name)
            &&& sent.text_field("address1"@) == text::non_empty(identity.address1)
            &&& sent.text_field("address2"@) == text::non_empty(identity.address2)
            &&& sent.text_field("address3"@) == text::non_empty(identity.address3)
            &&& sent.text_field("city"@) == text::non_empty(identity.city)
            &&& sent.text_field("state"@) == text::non_empty(identity.state)
            &&& sent.text_field("postalCode"@) == text::non_empty(identity.postal_code)
            &&& sent.text_field("country"@) == text::non_empty(identity.country)
            &&& sent.text_field("company"@) == text::non_empty(identity.company)
            &&& sent.text_field("email"@) == text::non_empty(identity.email)
            &&& sent.text_field("phone"@) == text::non_empty(identity.phone)
            &&& sent.text_field("ssn"@) == text::non_empty(identity.ssn)
            &&& sent.text_field("passportNumber"@) == text::non_empty(identity.passport_number)
            &&& sent.text_field("licenseNumber"@) == text::non_empty(identity.license_number)
        }),
{
    let typed = c.vault_item(query).typed;
    let fixed = reply::fixed_fields(c.vault_item(query));
    identities_are_served_field_by_field(c, identity, query);
    reveal(cipher::is_typed_key);
    lemma_typed_key_is_not_fixed(c, query, "title"@);
    lemma_pairs_show(fixed, typed, "title"@, identity.title);
    lemma_typed_key_is_not_fixed(c, query, "firstName"@);
    lemma_pairs_show(fixed, typed, "firstName"@, identity.first_name);
    lemma_typed_key_is_not_fixed(c, query, "middleName"@);
    lemma_pairs_show(fixed, typed, "middleName"@, identity.middle_name);
    lemma_typed_key_is_not_fixed(c, query, "lastName"@);
    lemma_pairs_show(fixed, typed, "lastName"@, identity.last_name);
    lemma_typed_key_is_not_fixed(c, query, "address1"@);
    lemma_pairs_show(fixed, typed, "address1"@, identity.address1);
    lemma_typed_key_is_not_fixed(c, query, "address2"@);
    lemma_pairs_show(fixed, typed, "address2"@, identity.address2);
    lemma_typed_key_is_not_fixed(c, query, "address3"@);
    lemma_pairs_show(fixed, typed, "address3"@, identity.address3);
    lemma_typed_key_is_not_fixed(c, query, "city"@);
    lemma_pairs_show(fixed, typed, "city"@, identity.city);
    lemma_typed_key_is_not_fixed(c, query, "state"@);
    lemma_pairs_show(fixed, typed, "state"@, identity.state);
    lemma_typed_key_is_not_fixed(c, query, "postalCode"@);
    lemma_pairs_show(fixed, typed, "postalCode"@, identity.postal_code);
    lemma_typed_key_is_not_fixed(c, query, "country"@);
    lemma_pairs_show(fixed, typed, "country"@, identity.country);
    lemma_typed_key_is_not_fixed(c, query, "company"@);
    lemma_pairs_show(fixed, typed, "company"@, identity.company);
    lemma_typed_key_is_not_fixed(c, query, "email"@);
    lemma_pairs_show(fixed, typed, "email"@, identity.email);
    lemma_typed_key_is_not_fixed(c, query, "phone"@);
    lemma_pairs_show(fixed, typed, "phone"@, identity.phone);
    lemma_typed_key_is_not_fixed(c, query, "ssn"@);
    lemma_pairs_show(fixed, typed, "ssn"@, identity.ssn);
    lemma_typed_key_is_not_fixed(c, query, "passportNumber"@);
    lemma_pairs_show(fixed, typed, "passportNumber"@, identity.passport_number);
    lemma_typed_key_is_not_fixed(c, query, "licenseNumber"@);
    lemma_pairs_show(fixed, typed, "licenseNumber"@, identity.license_number);
}

/// Each field of an SSH key goes out under its own name.
pub proof fn ssh_keys_are_sent_field_by_field(c: CipherView, key: SshKeyView, query: QueryView)
    requires
        c.kind == CipherType::SshKey,
        c.ssh_key == Some(key),
    ensures
        ({
            let sent = reply::item_json(c.vault_item(query));
            &&& sent.text_field("privateKey"@) == text::non_empty(viewable(c, Some(key.private_key)))
            &&& sent.text_field("publicKey"@) == text::non_empty(Some(key.public_key))
            &&& sent.text_field("fingerprint"@) == text::non_empty(Some(key.fingerprint))
        }),
{
    let typed = c.vault_item(query).typed;
    let fixed = reply::fixed_fields(c.vault_item(query));
    ssh_keys_are_served_field_by_field(c, key, query);
    reveal(cipher::is_typed_key);
    lemma_typed_key_is_not_fixed(c, query, "privateKey"@);
    lemma_pairs_show(fixed, typed, "privateKey"@, viewable(c, Some(key.private_key)));
    lemma_typed_key_is_not_fixed(c, query, "publicKey"@);
    lemma_pairs_show(fixed, typed, "publicKey"@, Some(key.public_key));
    lemma_typed_key_is_not_fixed(c, query, "fingerprint"@);
    lemma_pairs_show(fixed, typed, "fingerprint"@, Some(key.fingerprint));
}

} // verus!
