use phi_bitwarden_helper::cipher::{
    cipher_matches, item_kind, login_uris, push_field, to_candidate, to_vault_item, Card, Cipher,
    CipherType, Identity, Login, SshKey,
};
use phi_bitwarden_helper::engine::{Query, VaultItem};
use phi_bitwarden_helper::uri::{LoginUri, UriMatchType};

/// Minimal decrypted cipher for projection tests.
fn test_cipher(kind: CipherType) -> Cipher {
    Cipher {
        id: None,
        kind,
        name: "Item".to_string(),
        notes: None,
        login: None,
        card: None,
        identity: None,
        ssh_key: None,
        view_password: true,
        reprompt: false,
        deleted: false,
        archived: false,
    }
}

fn empty_login() -> Login {
    Login { username: None, password: None, totp: None, uris: None }
}

fn empty_card() -> Card {
    Card {
        cardholder_name: None,
        brand: None,
        number: None,
        code: None,
        exp_month: None,
        exp_year: None,
    }
}

fn empty_identity() -> Identity {
    Identity {
        username: None,
        title: None,
        first_name: None,
        middle_name: None,
        last_name: None,
        address1: None,
        address2: None,
        address3: None,
        city: None,
        state: None,
        postal_code: None,
        country: None,
        company: None,
        email: None,
        phone: None,
        ssn: None,
        passport_number: None,
        license_number: None,
    }
}

fn some(s: &str) -> Option<String> {
    Some(s.to_string())
}

fn field(item: &VaultItem, k: &str) -> Option<String> {
    item.typed.iter().find(|(key, _)| key == k).map(|(_, v)| v.clone())
}

fn site(uri: &str, username: &str) -> Cipher {
    Cipher {
        login: Some(Login {
            username: some(username),
            password: some("s3cret"),
            totp: some("SEED"),
            uris: Some(vec![
                LoginUri { uri: None, rule: None },
                LoginUri { uri: some(uri), rule: None },
            ]),
        }),
        ..test_cipher(CipherType::Login)
    }
}

#[test]
fn every_standard_item_type_is_served() {
    assert_eq!(
        item_kind(&Cipher { login: Some(empty_login()), ..test_cipher(CipherType::Login) }),
        Some("login")
    );
    assert_eq!(item_kind(&test_cipher(CipherType::SecureNote)), Some("note"));
    assert_eq!(
        item_kind(&Cipher { card: Some(empty_card()), ..test_cipher(CipherType::Card) }),
        Some("card")
    );
    assert_eq!(
        item_kind(&Cipher {
            identity: Some(empty_identity()),
            ..test_cipher(CipherType::Identity)
        }),
        Some("identity")
    );
    assert_eq!(
        item_kind(&Cipher {
            ssh_key: Some(SshKey {
                private_key: "PK".to_string(),
                public_key: "pub".to_string(),
                fingerprint: "fp".to_string(),
            }),
            ..test_cipher(CipherType::SshKey)
        }),
        Some("sshKey")
    );
    // A login with no payload, and the extra types, are not served.
    assert_eq!(item_kind(&test_cipher(CipherType::Login)), None);
    assert_eq!(item_kind(&test_cipher(CipherType::Other)), None);
}

#[test]
fn search_matches_a_note_by_name_but_domain_does_not() {
    let note = Cipher {
        name: "testnote".to_string(),
        notes: some("the body"),
        ..test_cipher(CipherType::SecureNote)
    };
    assert!(cipher_matches(&note, &Query::Search("testnote".into())));
    // A domain query matches through login URIs, which a note has none of.
    assert!(!cipher_matches(
        &note,
        &Query::Domain { domain: "testnote".into(), username: None }
    ));
    let item = to_vault_item(&note, &Query::Search("testnote".into()));
    assert_eq!(item.kind, "note");
    assert_eq!(item.name, "testnote");
    assert_eq!(item.notes.as_deref(), Some("the body"));
}

#[test]
fn card_serves_wire_named_fields_with_hidden_gating() {
    let base = Cipher {
        name: "Visa".to_string(),
        card: Some(Card {
            cardholder_name: some("A. Person"),
            brand: some("Visa"),
            number: some("4111111111111111"),
            exp_month: some("4"),
            exp_year: some("2030"),
            code: some("123"),
        }),
        ..test_cipher(CipherType::Card)
    };
    let item = to_vault_item(&base, &Query::Search("visa".into()));
    assert_eq!(item.kind, "card");
    assert_eq!(field(&item, "number").as_deref(), Some("4111111111111111"));
    assert_eq!(field(&item, "code").as_deref(), Some("123"));
    assert_eq!(field(&item, "expMonth").as_deref(), Some("4"));

    // The hide-passwords permission withholds the hidden fields (number,
    // code), not the card's identity.
    let hidden = Cipher { view_password: false, ..base };
    let item = to_vault_item(&hidden, &Query::Search("visa".into()));
    assert!(field(&item, "number").is_none());
    assert!(field(&item, "code").is_none());
    assert_eq!(field(&item, "brand").as_deref(), Some("Visa"));
}

#[test]
fn ssh_key_serves_private_key_only_when_viewable() {
    let base = Cipher {
        name: "deploy key".to_string(),
        ssh_key: Some(SshKey {
            private_key: "PRIVATE".to_string(),
            public_key: "ssh-ed25519 AAAA".to_string(),
            fingerprint: "SHA256:abc".to_string(),
        }),
        ..test_cipher(CipherType::SshKey)
    };
    let item = to_vault_item(&base, &Query::Search("deploy".into()));
    assert_eq!(item.kind, "sshKey");
    assert!(item.typed.iter().any(|(k, v)| k == "privateKey" && v == "PRIVATE"));

    let hidden = Cipher { view_password: false, ..base };
    let item = to_vault_item(&hidden, &Query::Search("deploy".into()));
    assert!(!item.typed.iter().any(|(k, _)| k == "privateKey"));
    assert!(item.typed.iter().any(|(k, _)| k == "publicKey"));
}

#[test]
fn identity_username_shares_the_login_slot() {
    let identity = Cipher {
        name: "Me".to_string(),
        identity: Some(Identity {
            first_name: some("Ada"),
            last_name: some("L"),
            username: some("ada"),
            ssn: some("123-45-6789"),
            ..empty_identity()
        }),
        ..test_cipher(CipherType::Identity)
    };
    let item = to_vault_item(&identity, &Query::Search("me".into()));
    assert_eq!(item.kind, "identity");
    assert_eq!(item.username.as_deref(), Some("ada"));
    assert!(item.typed.iter().any(|(k, v)| k == "ssn" && v == "123-45-6789"));
    // The username rides the fixed slot, never duplicated in `typed`.
    assert!(!item.typed.iter().any(|(k, _)| k == "username"));
}

#[test]
fn identities_serve_their_fields_in_order() {
    let mut identity = empty_identity();
    identity.title = some("Dr");
    identity.first_name = some("Ada");
    identity.middle_name = some("K");
    identity.last_name = some("L");
    identity.address1 = some("1 Way");
    identity.address2 = some("");
    identity.address3 = some("c/o");
    identity.city = some("London");
    identity.state = some("LDN");
    identity.postal_code = some("N1");
    identity.country = some("GB");
    identity.company = some("Engines");
    identity.email = some("ada@example.com");
    identity.phone = some("555");
    identity.ssn = some("1");
    identity.passport_number = some("2");
    identity.license_number = some("3");
    let c = Cipher { identity: Some(identity), ..test_cipher(CipherType::Identity) };
    let item = to_vault_item(&c, &Query::Id("x".into()));
    let keys: Vec<&str> = item.typed.iter().map(|(k, _)| k.as_str()).collect();
    // Empty fields are left out.
    assert_eq!(
        keys,
        vec![
            "title", "firstName", "middleName", "lastName", "address1", "address3", "city",
            "state", "postalCode", "country", "company", "email", "phone", "ssn",
            "passportNumber", "licenseNumber",
        ]
    );
}

#[test]
fn withheld_logins_keep_password_and_seed_back() {
    let c = site("https://Example.com/login", "alice");
    let item = to_vault_item(&c, &Query::Search("x".into()));
    assert_eq!(item.password.as_deref(), Some("s3cret"));
    assert_eq!(item.totp.as_deref(), Some("SEED"));
    assert_eq!(item.uri.as_deref(), Some("https://Example.com/login"));
    assert_eq!(item.domain.as_deref(), Some("example.com"));
    assert_eq!(item.id, "");
    let hidden = Cipher { view_password: false, ..c };
    let item = to_vault_item(&hidden, &Query::Search("x".into()));
    assert!(item.password.is_none());
    assert!(item.totp.is_none());
    assert_eq!(item.username.as_deref(), Some("alice"));
}

#[test]
fn candidates_name_the_item_and_the_queried_domain() {
    let c = Cipher { id: some("id-1"), ..site("https://app.example.com", "alice") };
    let query = Query::Domain { domain: "Example.com".into(), username: None };
    let candidate = to_candidate(&c, &query);
    assert_eq!(candidate.id, "id-1");
    assert_eq!(candidate.kind, "login");
    assert_eq!(candidate.name, "Item");
    assert_eq!(candidate.username.as_deref(), Some("alice"));
    assert_eq!(candidate.uri.as_deref(), Some("https://app.example.com"));
    assert_eq!(candidate.domain.as_deref(), Some("Example.com"));
}

#[test]
fn domain_queries_match_uris_then_the_username() {
    let c = site("https://example.com", "Alice@Example.com");
    let ask = |domain: &str, username: Option<&str>| Query::Domain {
        domain: domain.to_string(),
        username: username.map(str::to_string),
    };
    assert!(cipher_matches(&c, &ask(" EXAMPLE.com ", None)));
    assert!(cipher_matches(&c, &ask("example.com", Some(" alice@example.COM "))));
    assert!(!cipher_matches(&c, &ask("example.com", Some("bob"))));
    assert!(!cipher_matches(&c, &ask("example.org", None)));
    assert!(!cipher_matches(&c, &ask("  ", None)));
    let nobody = Cipher {
        login: Some(Login {
            uris: Some(vec![LoginUri {
                uri: some("https://example.com"),
                rule: Some(UriMatchType::Host),
            }]),
            ..empty_login()
        }),
        ..test_cipher(CipherType::Login)
    };
    assert!(cipher_matches(&nobody, &ask("example.com", None)));
    assert!(!cipher_matches(&nobody, &ask("example.com", Some("alice"))));
}

#[test]
fn searches_look_at_name_username_and_uris() {
    let c = Cipher { name: "\u{c4}pfel".to_string(), ..site("https://Example.com", "Alice") };
    assert!(cipher_matches(&c, &Query::Search("\u{e4}PF".into())));
    assert!(cipher_matches(&c, &Query::Search("LICE".into())));
    assert!(cipher_matches(&c, &Query::Search("example".into())));
    assert!(!cipher_matches(&c, &Query::Search("s3cret".into())));
    assert!(!cipher_matches(&c, &Query::Search("".into())));
}

#[test]
fn ids_match_whatever_their_case() {
    let c = Cipher { id: some("id-1"), ..test_cipher(CipherType::SecureNote) };
    assert!(cipher_matches(&c, &Query::Id("id-1".into())));
    assert!(cipher_matches(&c, &Query::Id("ID-1".into())));
    assert!(!cipher_matches(&c, &Query::Id("id-2".into())));
    assert!(!cipher_matches(&c, &Query::Id("id-11".into())));
    assert!(!cipher_matches(&test_cipher(CipherType::SecureNote), &Query::Id("".into())));
}

#[test]
fn uris_without_a_text_are_left_out() {
    assert_eq!(login_uris(&site("https://a", "b")), vec!["https://a".to_string()]);
    assert!(login_uris(&test_cipher(CipherType::Card)).is_empty());
}

#[test]
fn blank_fields_are_not_pushed() {
    let mut typed = Vec::new();
    push_field(&mut typed, "brand", Some("Visa"));
    push_field(&mut typed, "code", Some(""));
    push_field(&mut typed, "number", None);
    assert_eq!(typed, vec![("brand".to_string(), "Visa".to_string())]);
}
