use phi_bitwarden_helper::cipher::{Cipher, CipherType, Login};
use phi_bitwarden_helper::engine::{EngineError, LookupOutcome, Query};
use phi_bitwarden_helper::lookup::resolve;

fn login(id: &str, name: &str) -> Cipher {
    Cipher {
        id: Some(id.to_string()),
        kind: CipherType::Login,
        name: name.to_string(),
        notes: None,
        login: Some(Login {
            username: None,
            password: Some(format!("pw-{id}")),
            totp: None,
            uris: None,
        }),
        card: None,
        identity: None,
        ssh_key: None,
        view_password: true,
        reprompt: false,
        deleted: false,
        archived: false,
    }
}

fn search(needle: &str) -> Query {
    Query::Search(needle.to_string())
}

#[test]
fn a_single_match_is_a_hit() {
    let vault = vec![login("1", "alpha"), login("2", "beta")];
    match resolve(&vault, &search("beta")) {
        Ok(LookupOutcome::Hit(hit)) => {
            assert_eq!(hit.matches, 1);
            assert_eq!(hit.item.password.as_deref(), Some("pw-2"));
        }
        other => panic!("unexpected: {other:?}"),
    }
}

#[test]
fn several_matches_are_candidates_in_order() {
    let vault = vec![login("1", "alpha"), login("2", "beta"), login("3", "alphabet")];
    match resolve(&vault, &search("alpha")) {
        Ok(LookupOutcome::Ambiguous(candidates)) => {
            let ids: Vec<&str> = candidates.iter().map(|c| c.id.as_str()).collect();
            assert_eq!(ids, vec!["1", "3"]);
        }
        other => panic!("unexpected: {other:?}"),
    }
}

#[test]
fn nothing_is_a_miss() {
    assert!(matches!(resolve(&vec![login("1", "alpha")], &search("x")), Ok(LookupOutcome::Miss)));
    assert!(matches!(resolve(&Vec::new(), &search("x")), Ok(LookupOutcome::Miss)));
}

#[test]
fn trashed_archived_and_unserved_items_do_not_count() {
    let vault = vec![
        Cipher { deleted: true, ..login("1", "alpha") },
        Cipher { archived: true, ..login("2", "alpha") },
        Cipher { login: None, ..login("3", "alpha") },
        Cipher { kind: CipherType::Other, ..login("4", "alpha") },
    ];
    assert!(matches!(resolve(&vault, &search("alpha")), Ok(LookupOutcome::Miss)));
}

#[test]
fn protected_items_are_refused_loudly() {
    let protected = Cipher { reprompt: true, ..login("1", "alpha") };
    match resolve(&vec![protected.clone()], &search("alpha")) {
        Err(EngineError::Failure(message)) => assert_eq!(
            message,
            "The matching item requires Bitwarden's master password re-prompt, \
             which this credential surface does not support."
        ),
        other => panic!("unexpected: {other:?}"),
    }
    // A servable match beside it is served.
    let vault = vec![protected, login("2", "alpha")];
    assert!(matches!(
        resolve(&vault, &search("alpha")),
        Ok(LookupOutcome::Hit(hit)) if hit.item.id == "2"
    ));
}
