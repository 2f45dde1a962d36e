//! Decrypted vault items and their projection onto the credential surface.

use vstd::prelude::*;

use crate::engine;
use crate::engine::{
    LookupCandidate, LookupCandidateView, Query, QueryView, VaultItem, VaultItemView,
};
use crate::text;
use crate::uri;
use crate::uri::{LoginUri, LoginUriView};

verus! {

/// The type of a vault item. `Other` stands for the types that the credential
/// surface does not expose (bank account, driver's license, passport).
#[derive(Clone, Copy, Debug, PartialEq, Eq, Structural)]
pub enum CipherType {
    Login,
    SecureNote,
    Card,
    Identity,
    SshKey,
    Other,
}

/// The URIs of a login; a login without a list has none.
pub open spec fn uris_view(uris: Option<Vec<LoginUri>>) -> Seq<LoginUriView> {
    match uris {
        Some(list) => Seq::new(list@.len(), |i: int| list@[i]@),
        None => Seq::empty(),
    }
}

/// The payload of a login.
#[derive(Clone, Debug)]
pub struct Login {
    pub username: Option<String>,
    pub password: Option<String>,
    pub totp: Option<String>,
    pub uris: Option<Vec<LoginUri>>,
}

/// The mathematical value of a `Login`.
pub struct LoginView {
    pub username: Option<Seq<char>>,
    pub password: Option<Seq<char>>,
    pub totp: Option<Seq<char>>,
    pub uris: Seq<LoginUriView>,
}

impl View for Login {
    type V = LoginView;

    open spec fn view(&self) -> LoginView {
        LoginView {
            username: text::opt_view(self.username),
            password: text::opt_view(self.password),
            totp: text::opt_view(self.totp),
            uris: uris_view(self.uris),
        }
    }
}

/// The payload of a card.
#[derive(Clone, Debug)]
pub struct Card {
    pub cardholder_name: Option<String>,
    pub brand: Option<String>,
    pub number: Option<String>,
    pub code: Option<String>,
    pub exp_month: Option<String>,
    pub exp_year: Option<String>,
}

/// The mathematical value of a `Card`.
pub struct CardView {
    pub cardholder_name: Option<Seq<char>>,
    pub brand: Option<Seq<char>>,
    pub number: Option<Seq<char>>,
    pub code: Option<Seq<char>>,
    pub exp_month: Option<Seq<char>>,
    pub exp_year: Option<Seq<char>>,
}

impl View for Card {
    type V = CardView;

    open spec fn view(&self) -> CardView {
        CardView {
            cardholder_name: text::opt_view(self.cardholder_name),
            brand: text::opt_view(self.brand),
            number: text::opt_view(self.number),
            code: text::opt_view(self.code),
            exp_month: text::opt_view(self.exp_month),
            exp_year: text::opt_view(self.exp_year),
        }
    }
}

/// The payload of an identity.
#[derive(Clone, Debug)]
pub struct Identity {
    pub username: Option<String>,
    pub title: Option<String>,
    pub first_name: Option<String>,
    pub middle_name: Option<String>,
    pub last_name: Option<String>,
    pub address1: Option<String>,
    pub address2: Option<String>,
    pub address3: Option<String>,
    pub city: Option<String>,
    pub state: Option<String>,
    pub postal_code: Option<String>,
    pub country: Option<String>,
    pub company: Option<String>,
    pub email: Option<String>,
    pub phone: Option<String>,
    pub ssn: Option<String>,
    pub passport_number: Option<String>,
    pub license_number: Option<String>,
}

/// The mathematical value of an `Identity`.
pub struct IdentityView {
    pub username: Option<Seq<char>>,
    pub title: Option<Seq<char>>,
    pub first_name: Option<Seq<char>>,
    pub middle_name: Option<Seq<char>>,
    pub last_name: Option<Seq<char>>,
    pub address1: Option<Seq<char>>,
    pub address2: Option<Seq<char>>,
    pub address3: Option<Seq<char>>,
    pub city: Option<Seq<char>>,
    pub state: Option<Seq<char>>,
    pub postal_code: Option<Seq<char>>,
    pub country: Option<Seq<char>>,
    pub company: Option<Seq<char>>,
    pub email: Option<Seq<char>>,
    pub phone: Option<Seq<char>>,
    pub ssn: Option<Seq<char>>,
    pub passport_number: Option<Seq<char>>,
    pub license_number: Option<Seq<char>>,
}

impl View for Identity {
    type V = IdentityView;

    open spec fn view(&self) -> IdentityView {
        IdentityView {
            username: text::opt_view(self.username),
            title: text::opt_view(self.title),
            first_name: text::opt_view(self.first_name),
            middle_name: text::opt_view(self.middle_name),
            last_name: text::opt_view(self.last_name),
            address1: text::opt_view(self.address1),
            address2: text::opt_view(self.address2),
            address3: text::opt_view(self.address3),
            city: text::opt_view(self.city),
            state: text::opt_view(self.state),
            postal_code: text::opt_view(self.postal_code),
            country: text::opt_view(self.country),
            company: text::opt_view(self.company),
            email: text::opt_view(self.email),
            phone: text::opt_view(self.phone),
            ssn: text::opt_view(self.ssn),
            passport_number: text::opt_view(self.passport_number),
            license_number: text::opt_view(self.license_number),
        }
    }
}

/// The payload of an SSH key.
#[derive(Clone, Debug)]
pub struct SshKey {
    pub private_key: String,
    pub public_key: String,
    pub fingerprint: String,
}

/// The mathematical value of an `SshKey`.
pub struct SshKeyView {
    pub private_key: Seq<char>,
    pub public_key: Seq<char>,
    pub fingerprint: Seq<char>,
}

impl View for SshKey {
    type V = SshKeyView;

    open spec fn view(&self) -> SshKeyView {
        SshKeyView {
            private_key: self.private_key@,
            public_key: self.public_key@,
            fingerprint: self.fingerprint@,
        }
    }
}

/// A decrypted vault item. `reprompt` asks for the master password before every
/// use; `deleted` and `archived` items sit in the trash or the archive;
/// `view_password` is cleared where an organization withholds secret viewing.
#[derive(Clone, Debug)]
pub struct Cipher {
    pub id: Option<String>,
    pub kind: CipherType,
    pub name: String,
    pub notes: Option<String>,
    pub login: Option<Login>,
    pub card: Option<Card>,
    pub identity: Option<Identity>,
    pub ssh_key: Option<SshKey>,
    pub view_password: bool,
    pub reprompt: bool,
    pub deleted: bool,
    pub archived: bool,
}

/// The mathematical value of a `Cipher`.
pub struct CipherView {
    pub id: Option<Seq<char>>,
    pub kind: CipherType,
    pub name: Seq<char>,
    pub notes: Option<Seq<char>>,
    pub login: Option<LoginView>,
    pub card: Option<CardView>,
    pub identity: Option<IdentityView>,
    pub ssh_key: Option<SshKeyView>,
    pub view_password: bool,
    pub reprompt: bool,
    pub deleted: bool,
    pub archived: bool,
}

impl View for Cipher {
    type V = CipherView;

    open spec fn view(&self) -> CipherView {
        CipherView {
            id: text::opt_view(self.id),
            kind: self.kind,
            name: self.name@,
            notes: text::opt_view(self.notes),
            login: match self.login {
                Some(x) => Some(x@),
                None => None,
            },
            card: match self.card {
                Some(x) => Some(x@),
                None => None,
            },
            identity: match self.identity {
                Some(x) => Some(x@),
                None => None,
            },
            ssh_key: match self.ssh_key {
                Some(x) => Some(x@),
                None => None,
            },
            view_password: self.view_password,
            reprompt: self.reprompt,
            deleted: self.deleted,
            archived: self.archived,
        }
    }
}

/// The views of a list of items.
pub open spec fn ciphers_view(list: Seq<Cipher>) -> Seq<CipherView> {
    Seq::new(list.len(), |i: int| list[i]@)
}

/// The URI texts among stored URIs, in order.
pub open spec fn uri_texts(uris: Seq<LoginUriView>) -> Seq<Seq<char>>
    decreases uris.len(),
{
    if uris.len() == 0 {
        Seq::empty()
    } else {
        match uris.last().uri {
            Some(s) => uri_texts(uris.drop_last()).push(s),
            None => uri_texts(uris.drop_last()),
        }
    }
}

impl CipherView {
    /// The URIs saved with the item; only a login payload has any.
    pub open spec fn uris(self) -> Seq<LoginUriView> {
        match self.login {
            Some(login) => login.uris,
            None => Seq::empty(),
        }
    }

    /// The username of the login payload.
    pub open spec fn login_username(self) -> Option<Seq<char>> {
        match self.login {
            Some(login) => login.username,
            None => None,
        }
    }

    /// The wire item type, where the credential surface exposes the item. A
    /// login without a login payload is malformed and not exposed.
    pub open spec fn item_kind(self) -> Option<Seq<char>> {
        match self.kind {
            CipherType::Login => if self.login is Some {
                Some("login"@)
            } else {
                None
            },
            CipherType::SecureNote => Some("note"@),
            CipherType::Card => Some("card"@),
            CipherType::Identity => Some("identity"@),
            CipherType::SshKey => Some("sshKey"@),
            CipherType::Other => None,
        }
    }

    /// The item answers the query.
    pub open spec fn answers(self, query: QueryView) -> bool {
        match query {
            QueryView::Id(id) => self.id matches Some(own) && text::same_ignoring_ascii_case(own, id),
            QueryView::Search(s) => self.answers_search(text::lowered(s)),
            QueryView::Domain { domain, username } => {
                &&& self.answers_domain(text::lowered(text::trimmed(domain)))
                &&& username matches Some(wanted) ==> (self.login_username() matches Some(u)
                    && text::same_ignoring_ascii_case(u, text::trimmed(wanted)))
            },
        }
    }

    /// The lower-case `needle`, which is not empty, stands in the name, the
    /// username or a URI of the item.
    pub open spec fn answers_search(self, needle: Seq<char>) -> bool {
        &&& needle.len() > 0
        &&& {
            ||| text::occurs(text::lowered(self.name), needle)
            ||| self.login_username() matches Some(u) && text::occurs(text::lowered(u), needle)
            ||| exists|i: int|
                0 <= i < uri_texts(self.uris()).len() && text::occurs(
                    text::lowered(#[trigger] uri_texts(self.uris())[i]),
                    needle,
                )
        }
    }

    /// One of the URIs of the item stands for the lower-case `domain`, which is
    /// not empty.
    pub open spec fn answers_domain(self, domain: Seq<char>) -> bool {
        &&& domain.len() > 0
        &&& exists|i: int|
            0 <= i < self.uris().len() && (#[trigger] self.uris()[i]).matches_domain(domain)
    }
}

/// The views of a list of texts.
pub open spec fn texts_view(list: Seq<String>) -> Seq<Seq<char>> {
    Seq::new(list.len(), |i: int| list[i]@)
}

/// Login URIs of an item as plain strings.
pub fn login_uris(view: &Cipher) -> (r: Vec<String>)
    ensures
        texts_view(r@) == uri_texts(view@.uris()),
{
    let mut r: Vec<String> = Vec::new();
    assert(texts_view(r@) =~= Seq::empty());
    if let Some(login) = &view.login {
        if let Some(uris) = &login.uris {
            let ghost all = view@.uris();
            let mut i: usize = 0;
            assert(all.take(0) =~= Seq::empty());
            while i < uris.len()
                invariant
                    i <= uris.len(),
                    all == uris_view(Some(*uris)),
                    texts_view(r@) == uri_texts(all.take(i as int)),
                decreases uris.len() - i,
            {
                assert(all.take(i + 1).drop_last() =~= all.take(i as int));
                assert(all.take(i + 1).last() == uris@[i as int]@);
                if let Some(s) = &uris[i].uri {
                    let ghost before = r@;
                    r.push(s.clone());
                    assert(texts_view(r@) =~= texts_view(before).push(s@));
                }
                i = i + 1;
            }
            assert(all.take(all.len() as int) =~= all);
        }
    }
    r
}

/// The first of the login URIs.
fn first_uri(view: &Cipher) -> (r: Option<String>)
    ensures
        text::opt_view(r) == first_uri_of(view@),
{
    let uris: Vec<String> = login_uris(view);
    if uris.len() == 0 {
        assert(texts_view(uris@).len() == 0);
        None
    } else {
        assert(texts_view(uris@)[0] == uris@[0]@);
        Some(uris[0].clone())
    }
}

/// The wire item type an item is served as, or None for the types the
/// credential surface does not expose.
pub fn item_kind(view: &Cipher) -> (r: Option<&'static str>)
    ensures
        text::opt_str_view(r) == view@.item_kind(),
{
    match view.kind {
        CipherType::Login => if view.login.is_some() {
            Some("login")
        } else {
            None
        },
        CipherType::SecureNote => Some("note"),
        CipherType::Card => Some("card"),
        CipherType::Identity => Some("identity"),
        CipherType::SshKey => Some("sshKey"),
        CipherType::Other => None,
    }
}

/// True if `view` satisfies `query` (case-insensitive).
pub fn cipher_matches(view: &Cipher, query: &Query) -> (r: bool)
    ensures
        r == view@.answers(query@),
{
    match query {
        Query::Id(id) => match &view.id {
            Some(own) => text::equal_ignoring_ascii_case(own.as_str(), id.as_str()),
            None => false,
        },
        Query::Search(s) => search_matches(view, text::lowercase(s.as_str()).as_str()),
        Query::Domain { domain, username } => {
            let domain: String = text::lowercase(text::trim(domain.as_str()));
            domain_matches(view, domain.as_str()) && match username {
                Some(wanted) => username_is(view, text::trim(wanted.as_str())),
                None => true,
            }
        },
    }
}

/// Whether the username of the login payload is `wanted`, in whatever case.
fn username_is(view: &Cipher, wanted: &str) -> (r: bool)
    ensures
        r == (view@.login_username() matches Some(u) && text::same_ignoring_ascii_case(u, wanted@)),
{
    match &view.login {
        Some(login) => match &login.username {
            Some(u) => text::equal_ignoring_ascii_case(u.as_str(), wanted),
            None => false,
        },
        None => false,
    }
}

/// Whether the lower-case `needle` stands in the name, the username or a URI.
/// An empty needle, which would stand in every item, matches none.
fn search_matches(view: &Cipher, needle: &str) -> (r: bool)
    ensures
        r == view@.answers_search(needle@),
{
    if needle.is_empty() {
        return false;
    }
    if text::contains(text::lowercase(view.name.as_str()).as_str(), needle) {
        return true;
    }
    if let Some(login) = &view.login {
        if let Some(u) = &login.username {
            if text::contains(text::lowercase(u.as_str()).as_str(), needle) {
                return true;
            }
        }
    }
    let uris: Vec<String> = login_uris(view);
    let ghost all = uri_texts(view@.uris());
    let mut i: usize = 0;
    while i < uris.len()
        invariant
            i <= uris.len(),
            all == texts_view(uris@),
            all == uri_texts(view@.uris()),
            needle@.len() > 0,
            forall|k: int|
                0 <= k < i ==> !text::occurs(text::lowered(#[trigger] all[k]), needle@),
        decreases uris.len() - i,
    {
        assert(all[i as int] == uris@[i as int]@);
        if text::contains(text::lowercase(uris[i].as_str()).as_str(), needle) {
            return true;
        }
        i = i + 1;
    }
    false
}

/// Whether one of the URIs stands for the lower-case `domain`.
fn domain_matches(view: &Cipher, domain: &str) -> (r: bool)
    ensures
        r == view@.answers_domain(domain@),
{
    if domain.is_empty() {
        return false;
    }
    if let Some(login) = &view.login {
        if let Some(uris) = &login.uris {
            let mut i: usize = 0;
            while i < uris.len()
                invariant
                    i <= uris.len(),
                    view@.uris() == uris_view(Some(*uris)),
                    domain@.len() > 0,
                    forall|k: int|
                        0 <= k < i ==> !(#[trigger] view@.uris()[k]).matches_domain(domain@),
                decreases uris.len() - i,
            {
                assert(view@.uris()[i as int] == uris@[i as int]@);
                if uri::uri_matches_domain(&uris[i], domain) {
                    return true;
                }
                i = i + 1;
            }
        }
    }
    false
}

/// A list of type-specific fields.
pub type Fields = Seq<(Seq<char>, Seq<char>)>;

/// `fields` with `value` appended under `key`, where it is present and not
/// empty.
pub open spec fn with_field(fields: Fields, key: Seq<char>, value: Option<Seq<char>>) -> Fields {
    match text::non_empty(value) {
        Some(v) => fields.push((key, v)),
        None => fields,
    }
}

/// A value that is withheld unless `visible`.
pub open spec fn shown(visible: bool, value: Option<Seq<char>>) -> Option<Seq<char>> {
    if visible {
        value
    } else {
        None
    }
}

/// The wire fields of a card; its number and code only where `visible`.
pub open spec fn card_fields(card: CardView, visible: bool) -> Fields {
    let f = Seq::empty();
    let f = with_field(f, "cardholderName"@, card.cardholder_name);
    let f = with_field(f, "brand"@, card.brand);
    let f = with_field(f, "number"@, shown(visible, card.number));
    let f = with_field(f, "code"@, shown(visible, card.code));
    let f = with_field(f, "expMonth"@, card.exp_month);
    let f = with_field(f, "expYear"@, card.exp_year);
    f
}

/// The wire fields of an identity.
pub open spec fn identity_fields(identity: IdentityView) -> Fields {
    let f = Seq::empty();
    let f = with_field(f, "title"@, identity.title);
    let f = with_field(f, "firstName"@, identity.first_name);
    let f = with_field(f, "middleName"@, identity.middle_name);
    let f = with_field(f, "lastName"@, identity.last_name);
    let f = with_field(f, "address1"@, identity.address1);
    let f = with_field(f, "address2"@, identity.address2);
    let f = with_field(f, "address3"@, identity.address3);
    let f = with_field(f, "city"@, identity.city);
    let f = with_field(f, "state"@, identity.state);
    let f = with_field(f, "postalCode"@, identity.postal_code);
    let f = with_field(f, "country"@, identity.country);
    let f = with_field(f, "company"@, identity.company);
    let f = with_field(f, "email"@, identity.email);
    let f = with_field(f, "phone"@, identity.phone);
    let f = with_field(f, "ssn"@, identity.ssn);
    let f = with_field(f, "passportNumber"@, identity.passport_number);
    let f = with_field(f, "licenseNumber"@, identity.license_number);
    f
}

/// The wire fields of an SSH key; the private key only where `visible`.
pub open spec fn ssh_key_fields(key: SshKeyView, visible: bool) -> Fields {
    let f = Seq::empty();
    let f = with_field(f, "privateKey"@, shown(visible, Some(key.private_key)));
    let f = with_field(f, "publicKey"@, Some(key.public_key));
    let f = with_field(f, "fingerprint"@, Some(key.fingerprint));
    f
}

/// The first URI text of an item.
pub open spec fn first_uri_of(c: CipherView) -> Option<Seq<char>> {
    if uri_texts(c.uris()).len() > 0 {
        Some(uri_texts(c.uris())[0])
    } else {
        None
    }
}

/// The domain an item is reported under: the one asked for, else the host of
/// its first URI.
pub open spec fn reported_domain(c: CipherView, query: QueryView) -> Option<Seq<char>> {
    match query {
        QueryView::Domain { domain, .. } => Some(domain),
        _ => match first_uri_of(c) {
            Some(u) => uri::host(u),
            None => None,
        },
    }
}

impl CipherView {
    /// The type-specific fields.
    pub open spec fn typed_fields(self) -> Fields {
        match self.kind {
            CipherType::Card => match self.card {
                Some(card) => card_fields(card, self.view_password),
                None => Seq::empty(),
            },
            CipherType::Identity => match self.identity {
                Some(identity) => identity_fields(identity),
                None => Seq::empty(),
            },
            CipherType::SshKey => match self.ssh_key {
                Some(key) => ssh_key_fields(key, self.view_password),
                None => Seq::empty(),
            },
            _ => Seq::empty(),
        }
    }

    /// The id, empty where there is none.
    pub open spec fn id_text(self) -> Seq<char> {
        match self.id {
            Some(id) => id,
            None => Seq::empty(),
        }
    }

    /// The wire item type, `login` for an item that has none.
    pub open spec fn kind_text(self) -> Seq<char> {
        match self.item_kind() {
            Some(kind) => kind,
            None => "login"@,
        }
    }

    /// The username: the login's, else the identity's.
    pub open spec fn username(self) -> Option<Seq<char>> {
        match self.login_username() {
            Some(u) => Some(u),
            None => match self.identity {
                Some(identity) => identity.username,
                None => None,
            },
        }
    }

    /// The item as it is served for a query. The secrets of an item whose
    /// secrets may not be viewed are held back.
    pub open spec fn vault_item(self, query: QueryView) -> VaultItemView {
        VaultItemView {
            id: self.id_text(),
            kind: self.kind_text(),
            name: self.name,
            username: self.username(),
            password: match self.login {
                Some(login) => shown(self.view_password, login.password),
                None => None,
            },
            totp: match self.login {
                Some(login) => shown(self.view_password, login.totp),
                None => None,
            },
            uri: first_uri_of(self),
            notes: self.notes,
            domain: reported_domain(self, query),
            typed: self.typed_fields(),
        }
    }

    /// The non-secret identity of the item.
    pub open spec fn candidate(self, query: QueryView) -> LookupCandidateView {
        LookupCandidateView {
            id: self.id_text(),
            kind: self.kind_text(),
            name: self.name,
            username: self.login_username(),
            uri: first_uri_of(self),
            domain: reported_domain(self, query),
        }
    }
}

/// Appends a present, non-empty type-specific field under its wire key.
pub fn push_field(typed: &mut Vec<(String, String)>, key: &str, value: Option<&str>)
    ensures
        engine::pairs_view(final(typed)@) == with_field(
            engine::pairs_view(old(typed)@),
            key@,
            text::opt_str_view(value),
        ),
{
    if let Some(v) = value {
        if !v.is_empty() {
            let ghost before = typed@;
            typed.push((key.to_owned(), v.to_owned()));
            assert(engine::pairs_view(typed@) =~= engine::pairs_view(before).push((key@, v@)));
        }
    }
}

/// The wire fields of a card.
fn push_card(typed: &mut Vec<(String, String)>, card: &Card, visible: bool)
    requires
        old(typed)@.len() == 0,
    ensures
        engine::pairs_view(final(typed)@) == card_fields(card@, visible),
{
    assert(engine::pairs_view(typed@) =~= Seq::empty());
    push_field(typed, "cardholderName", text::borrowed(&card.cardholder_name));
    push_field(typed, "brand", text::borrowed(&card.brand));
    if visible {
        push_field(typed, "number", text::borrowed(&card.number));
        push_field(typed, "code", text::borrowed(&card.code));
    }
    push_field(typed, "expMonth", text::borrowed(&card.exp_month));
    push_field(typed, "expYear", text::borrowed(&card.exp_year));
}

/// The wire fields of an identity.
fn push_identity(typed: &mut Vec<(String, String)>, identity: &Identity)
    requires
        old(typed)@.len() == 0,
    ensures
        engine::pairs_view(final(typed)@) == identity_fields(identity@),
{
    assert(engine::pairs_view(typed@) =~= Seq::empty());
    push_field(typed, "title", text::borrowed(&identity.title));
    push_field(typed, "firstName", text::borrowed(&identity.first_name));
    push_field(typed, "middleName", text::borrowed(&identity.middle_name));
    push_field(typed, "lastName", text::borrowed(&identity.last_name));
    push_field(typed, "address1", text::borrowed(&identity.address1));
    push_field(typed, "address2", text::borrowed(&identity.address2));
    push_field(typed, "address3", text::borrowed(&identity.address3));
    push_field(typed, "city", text::borrowed(&identity.city));
    push_field(typed, "state", text::borrowed(&identity.state));
    push_field(typed, "postalCode", text::borrowed(&identity.postal_code));
    push_field(typed, "country", text::borrowed(&identity.country));
    push_field(typed, "company", text::borrowed(&identity.company));
    push_field(typed, "email", text::borrowed(&identity.email));
    push_field(typed, "phone", text::borrowed(&identity.phone));
    push_field(typed, "ssn", text::borrowed(&identity.ssn));
    push_field(typed, "passportNumber", text::borrowed(&identity.passport_number));
    push_field(typed, "licenseNumber", text::borrowed(&identity.license_number));
}

/// The wire fields of an SSH key.
fn push_ssh_key(typed: &mut Vec<(String, String)>, key: &SshKey, visible: bool)
    requires
        old(typed)@.len() == 0,
    ensures
        engine::pairs_view(final(typed)@) == ssh_key_fields(key@, visible),
{
    assert(engine::pairs_view(typed@) =~= Seq::empty());
    if visible {
        push_field(typed, "privateKey", Some(key.private_key.as_str()));
    }
    push_field(typed, "publicKey", Some(key.public_key.as_str()));
    push_field(typed, "fingerprint", Some(key.fingerprint.as_str()));
}

/// The domain an item is reported under.
fn domain_for(uri: &Option<String>, query: &Query) -> (r: Option<String>)
    ensures
        text::opt_view(r) == (match query@ {
            QueryView::Domain { domain, .. } => Some(domain),
            _ => match text::opt_view(*uri) {
                Some(u) => uri::host(u),
                None => None,
            },
        }),
{
    match query {
        Query::Domain { domain, .. } => Some(domain.clone()),
        _ => match uri {
            Some(u) => uri::host_of(u.as_str()),
            None => None,
        },
    }
}

/// The id of an item, empty where it has none.
fn id_of(view: &Cipher) -> (r: String)
    ensures
        r@ == view@.id_text(),
{
    match &view.id {
        Some(id) => id.clone(),
        None => String::new(),
    }
}

/// The wire item type of an item, `login` where it has none.
fn kind_of(view: &Cipher) -> (r: String)
    ensures
        r@ == view@.kind_text(),
{
    match item_kind(view) {
        Some(kind) => kind.to_owned(),
        None => "login".to_owned(),
    }
}

/// Projects a decrypted item into the wire `VaultItem`.
///
/// An organization can withhold secret viewing on a shared item
/// (`view_password == false`); handing a secret to an agent is a view, so such
/// an item serves its identity but keeps the hidden fields back: the login
/// password and TOTP seed, a card's number and code, an SSH private key.
pub fn to_vault_item(view: &Cipher, query: &Query) -> (r: VaultItem)
    ensures
        r@ == view@.vault_item(query@),
{
    let uri: Option<String> = first_uri(view);
    let domain: Option<String> = domain_for(&uri, query);
    let mut typed: Vec<(String, String)> = Vec::new();
    assert(engine::pairs_view(typed@) =~= Seq::empty());
    match view.kind {
        CipherType::Card => if let Some(card) = &view.card {
            push_card(&mut typed, card, view.view_password);
        },
        CipherType::Identity => if let Some(identity) = &view.identity {
            push_identity(&mut typed, identity);
        },
        CipherType::SshKey => if let Some(key) = &view.ssh_key {
            push_ssh_key(&mut typed, key, view.view_password);
        },
        _ => {},
    }
    // An identity carries a username of its own; it shares the login's slot
    // since an item is only ever one type.
    let mut username: Option<String> = None;
    let mut password: Option<String> = None;
    let mut totp: Option<String> = None;
    if let Some(login) = &view.login {
        username = text::copy(&login.username);
        if view.view_password {
            password = text::copy(&login.password);
            totp = text::copy(&login.totp);
        }
    }
    if username.is_none() {
        if let Some(identity) = &view.identity {
            username = text::copy(&identity.username);
        }
    }
    VaultItem {
        id: id_of(view),
        kind: kind_of(view),
        name: view.name.clone(),
        username,
        password,
        totp,
        uri,
        notes: text::copy(&view.notes),
        domain,
        typed,
    }
}

/// Projects a matching item into its non-secret identity for an ambiguous
/// lookup: enough to narrow the query (id or username), never a secret.
pub fn to_candidate(view: &Cipher, query: &Query) -> (r: LookupCandidate)
    ensures
        r@ == view@.candidate(query@),
{
    let uri: Option<String> = first_uri(view);
    let domain: Option<String> = domain_for(&uri, query);
    let username: Option<String> = match &view.login {
        Some(login) => text::copy(&login.username),
        None => None,
    };
    LookupCandidate {
        id: id_of(view),
        kind: kind_of(view),
        name: view.name.clone(),
        username,
        uri,
        domain,
    }
}

/// `c` without the fields that secret viewing covers.
pub open spec fn without_hidden(c: CipherView) -> CipherView {
    CipherView {
        login: match c.login {
            Some(login) => Some(LoginView { password: None, totp: None, ..login }),
            None => None,
        },
        card: match c.card {
            Some(card) => Some(CardView { number: None, code: None, ..card }),
            None => None,
        },
        ssh_key: match c.ssh_key {
            Some(key) => Some(SshKeyView { private_key: Seq::empty(), ..key }),
            None => None,
        },
        ..c
    }
}

/// `c` reduced to what identifies it: no password, TOTP seed, notes, card,
/// identity or key.
pub open spec fn identity_only(c: CipherView) -> CipherView {
    CipherView {
        notes: None,
        card: None,
        identity: None,
        ssh_key: None,
        ..without_hidden(c)
    }
}

/// Where secret viewing is withheld, what is served is the same whatever the
/// hidden fields hold: login password and TOTP seed, card number and code, SSH
/// private key.
pub proof fn withheld_secrets_do_not_show(c: CipherView, d: CipherView, query: QueryView)
    requires
        !c.view_password,
        without_hidden(c) == without_hidden(d),
    ensures
        c.vault_item(query) == d.vault_item(query),
        c.vault_item(query).password is None,
        c.vault_item(query).totp is None,
{
    let (e, f) = (without_hidden(c), without_hidden(d));
    assert(e.kind == f.kind && e.identity == f.identity && e.name == f.name && e.id == f.id);
    assert(e.notes == f.notes && e.view_password == f.view_password);
    assert(c.uris() == e.uris() && d.uris() == f.uris());
    assert(c.login_username() == e.login_username() && d.login_username() == f.login_username());
    if c.card is Some {
        assert(e.card->0 == f.card->0);
        assert(card_fields(c.card->0, false) == card_fields(e.card->0, false));
        assert(card_fields(d.card->0, false) == card_fields(f.card->0, false));
    }
    if c.ssh_key is Some {
        assert(e.ssh_key->0 == f.ssh_key->0);
        assert(c.ssh_key->0.public_key == d.ssh_key->0.public_key);
        assert(c.ssh_key->0.fingerprint == d.ssh_key->0.fingerprint);
    }
}

/// A candidate is the same whatever secrets the item holds: it depends on what
/// identifies the item alone.
pub proof fn candidates_show_no_secret(c: CipherView, d: CipherView, query: QueryView)
    requires
        identity_only(c) == identity_only(d),
    ensures
        c.candidate(query) == d.candidate(query),
{
    let (e, f) = (identity_only(c), identity_only(d));
    assert(e.kind == f.kind && e.name == f.name && e.id == f.id);
    assert(c.uris() == e.uris() && d.uris() == f.uris());
    assert(c.login_username() == e.login_username() && d.login_username() == f.login_username());
}

/// A domain query reaches only items with a login URI that stands for the
/// domain, so it never pulls an item without a login payload.
pub proof fn domain_queries_reach_only_logins(c: CipherView, domain: Seq<char>, username: Option<
    Seq<char>,
>)
    requires
        c.answers(QueryView::Domain { domain, username }),
    ensures
        c.login is Some,
        exists|i: int|
            0 <= i < c.login->0.uris.len() && (#[trigger] c.login->0.uris[i]).matches_domain(
                text::lowered(text::trimmed(domain)),
            ),
{
    let d = text::lowered(text::trimmed(domain));
    let i = choose|i: int| 0 <= i < c.uris().len() && (#[trigger] c.uris()[i]).matches_domain(d);
    assert(c.login->0.uris[i].matches_domain(d));
}

/// A search that is empty in lower case matches no item.
pub proof fn empty_searches_match_nothing(c: CipherView, s: Seq<char>)
    requires
        text::lowered(s).len() == 0,
    ensures
        !c.answers(QueryView::Search(s)),
{
}

/// A key that some type-specific field is served under.
#[verifier::opaque]
pub open spec fn is_typed_key(key: Seq<char>) -> bool {
    ||| key == "cardholderName"@
    ||| key == "brand"@
    ||| key == "number"@
    ||| key == "code"@
    ||| key == "expMonth"@
    ||| key == "expYear"@
    ||| key == "title"@
    ||| key == "firstName"@
    ||| key == "middleName"@
    ||| key == "lastName"@
    ||| key == "address1"@
    ||| key == "address2"@
    ||| key == "address3"@
    ||| key == "city"@
    ||| key == "state"@
    ||| key == "postalCode"@
    ||| key == "country"@
    ||| key == "company"@
    ||| key == "email"@
    ||| key == "phone"@
    ||| key == "ssn"@
    ||| key == "passportNumber"@
    ||| key == "licenseNumber"@
    ||| key == "privateKey"@
    ||| key == "publicKey"@
    ||| key == "fingerprint"@
}

/// A key that an item has a slot of its own for.
pub open spec fn is_fixed_key(key: Seq<char>) -> bool {
    ||| key == "credentialId"@
    ||| key == "type"@
    ||| key == "name"@
    ||| key == "username"@
    ||| key == "password"@
    ||| key == "totp"@
    ||| key == "uri"@
    ||| key == "notes"@
    ||| key == "domain"@
}

/// Every field is under a type-specific key and not empty.
pub open spec fn well_keyed(fields: Fields) -> bool {
    forall|i: int|
        0 <= i < fields.len() ==> is_typed_key((#[trigger] fields[i]).0) && fields[i].1.len() > 0
}

/// A type-specific key is none that an item has a slot of its own for.
pub proof fn lemma_keys_differ(key: Seq<char>)
    requires
        is_typed_key(key),
    ensures
        !is_fixed_key(key),
{
    reveal(is_typed_key);
    reveal_strlit("cardholderName");
    assert("cardholderName"@.len() == 14 && "cardholderName"@[0] == 'c');
    reveal_strlit("brand");
    assert("brand"@.len() == 5 && "brand"@[0] == 'b');
    reveal_strlit("number");
    assert("number"@.len() == 6 && "number"@[0] == 'n');
    reveal_strlit("code");
    assert("code"@.len() == 4 && "code"@[0] == 'c');
    reveal_strlit("expMonth");
    assert("expMonth"@.len() == 8 && "expMonth"@[0] == 'e');
    reveal_strlit("expYear");
    assert("expYear"@.len() == 7 && "expYear"@[0] == 'e');
    reveal_strlit("title");
    assert("title"@.len() == 5 && "title"@[0] == 't');
    reveal_strlit("firstName");
    assert("firstName"@.len() == 9 && "firstName"@[0] == 'f');
    reveal_strlit("middleName");
    assert("middleName"@.len() == 10 && "middleName"@[0] == 'm');
    reveal_strlit("lastName");
    assert("lastName"@.len() == 8 && "lastName"@[0] == 'l');
    reveal_strlit("address1");
    assert("address1"@.len() == 8 && "address1"@[0] == 'a');
    reveal_strlit("address2");
    assert("address2"@.len() == 8 && "address2"@[0] == 'a');
    reveal_strlit("address3");
    assert("address3"@.len() == 8 && "address3"@[0] == 'a');
    reveal_strlit("city");
    assert("city"@.len() == 4 && "city"@[0] == 'c');
    reveal_strlit("state");
    assert("state"@.len() == 5 && "state"@[0] == 's');
    reveal_strlit("postalCode");
    assert("postalCode"@.len() == 10 && "postalCode"@[0] == 'p');
    reveal_strlit("country");
    assert("country"@.len() == 7 && "country"@[0] == 'c');
    reveal_strlit("company");
    assert("company"@.len() == 7 && "company"@[0] == 'c');
    reveal_strlit("email");
    assert("email"@.len() == 5 && "email"@[0] == 'e');
    reveal_strlit("phone");
    assert("phone"@.len() == 5 && "phone"@[0] == 'p');
    reveal_strlit("ssn");
    assert("ssn"@.len() == 3 && "ssn"@[0] == 's');
    reveal_strlit("passportNumber");
    assert("passportNumber"@.len() == 14 && "passportNumber"@[0] == 'p');
    reveal_strlit("licenseNumber");
    assert("licenseNumber"@.len() == 13 && "licenseNumber"@[0] == 'l');
    reveal_strlit("privateKey");
    assert("privateKey"@.len() == 10 && "privateKey"@[0] == 'p');
    reveal_strlit("publicKey");
    assert("publicKey"@.len() == 9 && "publicKey"@[0] == 'p');
    reveal_strlit("fingerprint");
    assert("fingerprint"@.len() == 11 && "fingerprint"@[0] == 'f');
    reveal_strlit("credentialId");
    assert("credentialId"@.len() == 12 && "credentialId"@[0] == 'c');
    reveal_strlit("type");
    assert("type"@.len() == 4 && "type"@[0] == 't');
    reveal_strlit("name");
    assert("name"@.len() == 4 && "name"@[0] == 'n');
    reveal_strlit("username");
    assert("username"@.len() == 8 && "username"@[0] == 'u');
    reveal_strlit("password");
    assert("password"@.len() == 8 && "password"@[0] == 'p');
    reveal_strlit("totp");
    assert("totp"@.len() == 4 && "totp"@[0] == 't');
    reveal_strlit("uri");
    assert("uri"@.len() == 3 && "uri"@[0] == 'u');
    reveal_strlit("notes");
    assert("notes"@.len() == 5 && "notes"@[0] == 'n');
    reveal_strlit("domain");
    assert("domain"@.len() == 6 && "domain"@[0] == 'd');
}

proof fn lemma_field_is_keyed(fields: Fields, key: Seq<char>, value: Option<Seq<char>>)
    requires
        well_keyed(fields),
        is_typed_key(key),
    ensures
        well_keyed(with_field(fields, key, value)),
{
}

proof fn lemma_card_is_keyed(card: CardView, visible: bool)
    ensures
        well_keyed(card_fields(card, visible)),
{
    reveal(is_typed_key);
    let f: Fields = Seq::empty();
    lemma_field_is_keyed(f, "cardholderName"@, card.cardholder_name);
    let f = with_field(f, "cardholderName"@, card.cardholder_name);
    lemma_field_is_keyed(f, "brand"@, card.brand);
    let f = with_field(f, "brand"@, card.brand);
    lemma_field_is_keyed(f, "number"@, shown(visible, card.number));
    let f = with_field(f, "number"@, shown(visible, card.number));
    lemma_field_is_keyed(f, "code"@, shown(visible, card.code));
    let f = with_field(f, "code"@, shown(visible, card.code));
    lemma_field_is_keyed(f, "expMonth"@, card.exp_month);
    let f = with_field(f, "expMonth"@, card.exp_month);
    lemma_field_is_keyed(f, "expYear"@, card.exp_year);
    let f = with_field(f, "expYear"@, card.exp_year);
}

proof fn lemma_identity_is_keyed(identity: IdentityView)
    ensures
        well_keyed(identity_fields(identity)),
{
    reveal(is_typed_key);
    let f: Fields = Seq::empty();
    lemma_field_is_keyed(f, "title"@, identity.title);
    let f = with_field(f, "title"@, identity.title);
    lemma_field_is_keyed(f, "firstName"@, identity.first_name);
    let f = with_field(f, "firstName"@, identity.first_name);
    lemma_field_is_keyed(f, "middleName"@, identity.middle_name);
    let f = with_field(f, "middleName"@, identity.middle_name);
    lemma_field_is_keyed(f, "lastName"@, identity.last_name);
    let f = with_field(f, "lastName"@, identity.last_name);
    lemma_field_is_keyed(f, "address1"@, identity.address1);
    let f = with_field(f, "address1"@, identity.address1);
    lemma_field_is_keyed(f, "address2"@, identity.address2);
    let f = with_field(f, "address2"@, identity.address2);
    lemma_field_is_keyed(f, "address3"@, identity.address3);
    let f = with_field(f, "address3"@, identity.address3);
    lemma_field_is_keyed(f, "city"@, identity.city);
    let f = with_field(f, "city"@, identity.city);
    lemma_field_is_keyed(f, "state"@, identity.state);
    let f = with_field(f, "state"@, identity.state);
    lemma_field_is_keyed(f, "postalCode"@, identity.postal_code);
    let f = with_field(f, "postalCode"@, identity.postal_code);
    lemma_field_is_keyed(f, "country"@, identity.country);
    let f = with_field(f, "country"@, identity.country);
    lemma_field_is_keyed(f, "company"@, identity.company);
    let f = with_field(f, "company"@, identity.company);
    lemma_field_is_keyed(f, "email"@, identity.email);
    let f = with_field(f, "email"@, identity.email);
    lemma_field_is_keyed(f, "phone"@, identity.phone);
    let f = with_field(f, "phone"@, identity.phone);
    lemma_field_is_keyed(f, "ssn"@, identity.ssn);
    let f = with_field(f, "ssn"@, identity.ssn);
    lemma_field_is_keyed(f, "passportNumber"@, identity.passport_number);
    let f = with_field(f, "passportNumber"@, identity.passport_number);
    lemma_field_is_keyed(f, "licenseNumber"@, identity.license_number);
    let f = with_field(f, "licenseNumber"@, identity.license_number);
}

proof fn lemma_ssh_key_is_keyed(key: SshKeyView, visible: bool)
    ensures
        well_keyed(ssh_key_fields(key, visible)),
{
    reveal(is_typed_key);
    let f: Fields = Seq::empty();
    lemma_field_is_keyed(f, "privateKey"@, shown(visible, Some(key.private_key)));
    let f = with_field(f, "privateKey"@, shown(visible, Some(key.private_key)));
    lemma_field_is_keyed(f, "publicKey"@, Some(key.public_key));
    let f = with_field(f, "publicKey"@, Some(key.public_key));
    lemma_field_is_keyed(f, "fingerprint"@, Some(key.fingerprint));
    let f = with_field(f, "fingerprint"@, Some(key.fingerprint));
}

/// The type-specific fields of a served item stand under keys of their own,
/// never under one of the item's fixed keys, and none is empty.
pub proof fn typed_fields_have_their_own_keys(c: CipherView, query: QueryView, i: int)
    requires
        0 <= i < c.vault_item(query).typed.len(),
    ensures
        !is_fixed_key(c.vault_item(query).typed[i].0),
        c.vault_item(query).typed[i].1.len() > 0,
{
    if c.card is Some {
        lemma_card_is_keyed(c.card->0, c.view_password);
    }
    if c.identity is Some {
        lemma_identity_is_keyed(c.identity->0);
    }
    if c.ssh_key is Some {
        lemma_ssh_key_is_keyed(c.ssh_key->0, c.view_password);
    }
    assert(well_keyed(c.typed_fields()));
    lemma_keys_differ(c.typed_fields()[i].0);
}

/// A search finds an item by any part of its name, wherever it stands in it.
pub proof fn searches_find_names(c: CipherView, s: Seq<char>, a: Seq<char>, b: Seq<char>)
    requires
        text::lowered(s).len() > 0,
        text::lowered(c.name) == a + text::lowered(s) + b,
    ensures
        c.answers(QueryView::Search(s)),
{
    text::occurrences_have_something_around(text::lowered(c.name), text::lowered(s));
}

/// A search finds an item by any part of its login's username.
pub proof fn searches_find_usernames(
    c: CipherView,
    s: Seq<char>,
    username: Seq<char>,
    a: Seq<char>,
    b: Seq<char>,
)
    requires
        c.login is Some,
        c.login->0.username == Some(username),
        text::lowered(s).len() > 0,
        text::lowered(username) == a + text::lowered(s) + b,
    ensures
        c.answers(QueryView::Search(s)),
{
    text::occurrences_have_something_around(text::lowered(username), text::lowered(s));
}

/// A search finds an item by any part of any of its login's URIs.
pub proof fn searches_find_uris(
    c: CipherView,
    s: Seq<char>,
    k: int,
    uri: Seq<char>,
    a: Seq<char>,
    b: Seq<char>,
)
    requires
        c.login is Some,
        0 <= k < c.login->0.uris.len(),
        c.login->0.uris[k].uri == Some(uri),
        text::lowered(s).len() > 0,
        text::lowered(uri) == a + text::lowered(s) + b,
    ensures
        c.answers(QueryView::Search(s)),
{
    lemma_uri_is_among_texts(c.uris(), k);
    let i = choose|i: int| 0 <= i < uri_texts(c.uris()).len() && uri_texts(c.uris())[i] == uri;
    text::occurrences_have_something_around(text::lowered(uri), text::lowered(s));
    assert(text::occurs(text::lowered(uri_texts(c.uris())[i]), text::lowered(s)));
}

/// A search finds nothing but by the name, the username or a URI of an item.
pub proof fn searches_find_nothing_else(c: CipherView, s: Seq<char>)
    requires
        c.answers(QueryView::Search(s)),
    ensures
        text::lowered(s).len() > 0,
        exists|t: Seq<char>, a: Seq<char>, b: Seq<char>|
            #![trigger text::lowered(t), a + text::lowered(s) + b]
            {
                &&& text::lowered(t) == a + text::lowered(s) + b
                &&& {
                    ||| t == c.name
                    ||| c.login is Some && c.login->0.username == Some(t)
                    ||| c.login is Some && exists|k: int|
                        0 <= k < c.login->0.uris.len() && (#[trigger] c.login->0.uris[k]).uri
                            == Some(t)
                }
            },
{
    let needle = text::lowered(s);
    let t = if text::occurs(text::lowered(c.name), needle) {
        c.name
    } else if c.login_username() is Some && text::occurs(
        text::lowered(c.login_username()->0),
        needle,
    ) {
        c.login_username()->0
    } else {
        let i = choose|i: int|
            0 <= i < uri_texts(c.uris()).len() && text::occurs(
                text::lowered(#[trigger] uri_texts(c.uris())[i]),
                needle,
            );
        lemma_texts_are_of_uris(c.uris(), i);
        let k = choose|k: int|
            0 <= k < c.uris().len() && (#[trigger] c.uris()[k]).uri == Some(
                uri_texts(c.uris())[i],
            );
        assert(c.login->0.uris[k].uri == Some(uri_texts(c.uris())[i]));
        uri_texts(c.uris())[i]
    };
    text::occurrences_have_something_around(text::lowered(t), needle);
    let (a, b) = choose|a: Seq<char>, b: Seq<char>|
        text::lowered(t) == #[trigger] (a + needle + b);
    assert(text::lowered(t) == a + needle + b);
}

/// The text of every stored URI is among the texts.
proof fn lemma_uri_is_among_texts(uris: Seq<LoginUriView>, k: int)
    requires
        0 <= k < uris.len(),
        uris[k].uri is Some,
    ensures
        uri_texts(uris).contains(uris[k].uri->0),
    decreases uris.len(),
{
    let init = uris.drop_last();
    if k < uris.len() - 1 {
        lemma_uri_is_among_texts(init, k);
        let i = choose|i: int|
            0 <= i < uri_texts(init).len() && uri_texts(init)[i] == uris[k].uri->0;
        assert(uri_texts(uris)[i] == uris[k].uri->0);
    } else {
        assert(uri_texts(uris)[uri_texts(uris).len() - 1] == uris[k].uri->0);
    }
}

/// Every text is that of a stored URI.
proof fn lemma_texts_are_of_uris(uris: Seq<LoginUriView>, i: int)
    requires
        0 <= i < uri_texts(uris).len(),
    ensures
        exists|k: int|
            0 <= k < uris.len() && (#[trigger] uris[k]).uri == Some(uri_texts(uris)[i]),
    decreases uris.len(),
{
    let init = uris.drop_last();
    if i < uri_texts(init).len() {
        lemma_texts_are_of_uris(init, i);
        let k = choose|k: int|
            0 <= k < init.len() && (#[trigger] init[k]).uri == Some(uri_texts(init)[i]);
        assert(uris[k].uri == Some(uri_texts(uris)[i]));
    } else {
        assert(uris[uris.len() - 1].uri == Some(uri_texts(uris)[i]));
    }
}

/// The first URI that has a text is the first of the texts.
proof fn lemma_first_text(uris: Seq<LoginUriView>, k: int)
    requires
        0 <= k < uris.len(),
        uris[k].uri is Some,
        forall|j: int| 0 <= j < k ==> (#[trigger] uris[j]).uri is None,
    ensures
        uri_texts(uris).len() > 0,
        uri_texts(uris)[0] == uris[k].uri->0,
    decreases uris.len(),
{
    let init = uris.drop_last();
    if k < uris.len() - 1 {
        assert forall|j: int| 0 <= j < k implies (#[trigger] init[j]).uri is None by {
            assert(uris[j].uri is None);
        }
        lemma_first_text(init, k);
    } else {
        lemma_no_text(init);
    }
}

proof fn lemma_no_text(uris: Seq<LoginUriView>)
    requires
        forall|j: int| 0 <= j < uris.len() ==> (#[trigger] uris[j]).uri is None,
    ensures
        uri_texts(uris).len() == 0,
    decreases uris.len(),
{
    if uris.len() > 0 {
        let init = uris.drop_last();
        assert forall|j: int| 0 <= j < init.len() implies (#[trigger] init[j]).uri is None by {
            assert(uris[j].uri is None);
        }
        assert(uris[uris.len() - 1].uri is None);
        lemma_no_text(init);
    }
}

/// An id query reaches the item of that id, letter by letter whatever the case,
/// and no other.
pub proof fn ids_reach_their_item(c: CipherView, id: Seq<char>)
    ensures
        c.answers(QueryView::Id(id)) <==> c.id is Some && c.id->0.len() == id.len() && forall|i: int|
            0 <= i < id.len() ==> text::same_letter(#[trigger] c.id->0[i], id[i]),
{
    if c.id is Some {
        text::case_is_ignored_letter_by_letter(c.id->0, id);
    }
}

/// A domain query reaches every login with a URI that stands for the domain, as
/// it is asked for with white space around it and in any case. Where it names a
/// username, it reaches those of that username alone, letter by letter whatever
/// the case.
pub proof fn domain_queries_reach_their_logins(
    c: CipherView,
    before: Seq<char>,
    domain: Seq<char>,
    after: Seq<char>,
    k: int,
    left: Seq<char>,
    wanted: Seq<char>,
    right: Seq<char>,
)
    requires
        text::is_blank(before) && text::is_blank(after),
        domain.len() > 0 ==> !text::is_space(domain[0]) && !text::is_space(domain.last()),
        text::is_blank(left) && text::is_blank(right),
        wanted.len() > 0 ==> !text::is_space(wanted[0]) && !text::is_space(wanted.last()),
        text::lowered(domain).len() > 0,
        c.login is Some,
        0 <= k < c.login->0.uris.len(),
        c.login->0.uris[k].matches_domain(text::lowered(domain)),
    ensures
        c.answers(QueryView::Domain { domain: before + domain + after, username: None }),
        c.answers(
            QueryView::Domain {
                domain: before + domain + after,
                username: Some(left + wanted + right),
            },
        ) <==> c.login->0.username is Some && c.login->0.username->0.len() == wanted.len()
            && forall|i: int|
            0 <= i < wanted.len() ==> text::same_letter(
                #[trigger] c.login->0.username->0[i],
                wanted[i],
            ),
{
    text::trimming_takes_the_blanks_around(before, domain, after);
    text::trimming_takes_the_blanks_around(left, wanted, right);
    assert(c.uris()[k].matches_domain(text::lowered(domain)));
    if c.login->0.username is Some {
        text::case_is_ignored_letter_by_letter(c.login->0.username->0, wanted);
    }
}

/// Every standard item type is served, a login where it has its payload, and no
/// other type. No two types share a name on the wire.
pub proof fn standard_types_are_served(c: CipherView, d: CipherView)
    ensures
        c.item_kind() is Some <==> {
            ||| c.kind is Login && c.login is Some
            ||| c.kind is SecureNote
            ||| c.kind is Card
            ||| c.kind is Identity
            ||| c.kind is SshKey
        },
        c.item_kind() is Some && c.item_kind() == d.item_kind() ==> c.kind == d.kind,
        c.item_kind() is Some && c.kind == d.kind && d.item_kind() is Some ==> c.item_kind()
            == d.item_kind(),
{
    reveal_strlit("login");
    reveal_strlit("note");
    reveal_strlit("card");
    reveal_strlit("identity");
    reveal_strlit("sshKey");
    assert("login"@.len() == 5);
    assert("note"@.len() == 4 && "note"@[0] == 'n');
    assert("card"@.len() == 4 && "card"@[0] == 'c');
    assert("identity"@.len() == 8);
    assert("sshKey"@.len() == 6);
}

/// What identifies an item is served as it is: its id and its name, its notes,
/// and the wire name of its type.
pub proof fn items_are_served_under_their_own_identity(c: CipherView, query: QueryView)
    ensures
        c.id is Some ==> c.vault_item(query).id == c.id->0 && c.candidate(query).id == c.id->0,
        c.id is None ==> c.vault_item(query).id.len() == 0 && c.candidate(query).id.len() == 0,
        c.item_kind() is Some ==> c.vault_item(query).kind == c.item_kind()->0 && c.candidate(
            query,
        ).kind == c.item_kind()->0,
        c.item_kind() is None ==> c.vault_item(query).kind == "login"@ && c.candidate(query).kind
            == "login"@,
        c.vault_item(query).name == c.name && c.candidate(query).name == c.name,
        c.vault_item(query).notes == c.notes,
{
}

/// A login that may be viewed is served with its own username, password and
/// seed; one that may not, with its username alone. An identity is served with
/// its own username. A candidate names a login by its username.
pub proof fn logins_are_served_with_their_own_secrets(
    c: CipherView,
    login: LoginView,
    query: QueryView,
)
    requires
        c.login == Some(login),
    ensures
        login.username is Some ==> c.vault_item(query).username == login.username,
        login.username is None && c.identity is Some ==> c.vault_item(query).username
            == c.identity->0.username,
        login.username is None && c.identity is None ==> c.vault_item(query).username is None,
        c.view_password ==> c.vault_item(query).password == login.password && c.vault_item(
            query,
        ).totp == login.totp,
        !c.view_password ==> c.vault_item(query).password is None && c.vault_item(query).totp is None,
        c.candidate(query).username == login.username,
{
}

/// An item without a login has no password and no seed, and its username is that
/// of its identity; its candidate has none.
pub proof fn other_items_have_no_login_secrets(c: CipherView, query: QueryView)
    requires
        c.login is None,
    ensures
        c.vault_item(query).password is None,
        c.vault_item(query).totp is None,
        c.vault_item(query).uri is None,
        c.identity is Some ==> c.vault_item(query).username == c.identity->0.username,
        c.identity is None ==> c.vault_item(query).username is None,
        c.candidate(query).username is None,
{
}

/// An item is served under the first of its URIs that has a text. Where a domain
/// was asked for, it is reported under that domain as it was asked for; else
/// under the host of that URI.
pub proof fn items_are_served_under_their_first_uri(
    c: CipherView,
    k: int,
    query: QueryView,
    domain: Seq<char>,
    username: Option<Seq<char>>,
)
    requires
        c.login is Some,
        0 <= k < c.login->0.uris.len(),
        c.login->0.uris[k].uri is Some,
        forall|j: int| 0 <= j < k ==> (#[trigger] c.login->0.uris[j]).uri is None,
    ensures
        c.vault_item(query).uri == c.login->0.uris[k].uri,
        c.candidate(query).uri == c.login->0.uris[k].uri,
        !(query is Domain) ==> c.vault_item(query).domain == uri::host(c.login->0.uris[k].uri->0),
        c.vault_item(QueryView::Domain { domain, username }).domain == Some(domain),
        c.candidate(QueryView::Domain { domain, username }).domain == Some(domain),
        c.candidate(query).domain == c.vault_item(query).domain,
{
    lemma_first_text(c.uris(), k);
}

/// An item none of whose URIs has a text is served under none, and reported under
/// no domain but one that was asked for.
pub proof fn items_without_a_uri_are_served_without(
    c: CipherView,
    query: QueryView,
    domain: Seq<char>,
    username: Option<Seq<char>>,
)
    requires
        c.login is Some ==> forall|j: int|
            0 <= j < c.login->0.uris.len() ==> (#[trigger] c.login->0.uris[j]).uri is None,
    ensures
        c.vault_item(query).uri is None && c.candidate(query).uri is None,
        !(query is Domain) ==> c.vault_item(query).domain is None && c.candidate(query).domain is None,
        c.vault_item(QueryView::Domain { domain, username }).domain == Some(domain),
        c.candidate(QueryView::Domain { domain, username }).domain == Some(domain),
{
    lemma_no_text(c.uris());
}

} // verus!
