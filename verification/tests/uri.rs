use phi_bitwarden_helper::uri::{
    either_found, host_matches, host_of, host_port_of, root_urls, uri_matches_domain, LoginUri,
    UriMatchType,
};

fn uri(u: &str, m: Option<UriMatchType>) -> LoginUri {
    LoginUri { uri: Some(u.to_string()), rule: m }
}

#[test]
fn default_rule_is_base_domain() {
    assert!(uri_matches_domain(&uri("https://example.com/login", None), "example.com"));
    assert!(uri_matches_domain(&uri("https://app.example.com", None), "example.com"));
    // Reverse direction: stored base domain, queried subdomain.
    assert!(uri_matches_domain(&uri("https://example.com", None), "www.example.com"));
    // Label-aligned, never a substring test.
    assert!(!uri_matches_domain(&uri("https://evil-example.com", None), "example.com"));
    assert!(!uri_matches_domain(&uri("https://github.com.evil.example", None), "github.com"));
    // A bare public suffix must not match every host beneath it.
    assert!(!uri_matches_domain(&uri("https://example.com", None), "com"));
}

#[test]
fn host_rule_is_exact_host_and_port() {
    let host = Some(UriMatchType::Host);
    assert!(uri_matches_domain(&uri("https://app.example.com/x", host), "app.example.com"));
    assert!(!uri_matches_domain(&uri("https://app.example.com", host), "example.com"));
    assert!(!uri_matches_domain(&uri("https://example.com:8443", host), "example.com"));
    assert!(uri_matches_domain(&uri("https://example.com:8443", host), "example.com:8443"));
}

#[test]
fn exact_rule_matches_site_root_only() {
    let exact = Some(UriMatchType::Exact);
    assert!(uri_matches_domain(&uri("https://example.com", exact), "example.com"));
    assert!(uri_matches_domain(&uri("https://example.com/", exact), "example.com"));
    assert!(!uri_matches_domain(&uri("https://example.com/login", exact), "example.com"));
    assert!(!uri_matches_domain(&uri("https://sub.example.com", exact), "example.com"));
}

#[test]
fn starts_with_rule() {
    let sw = Some(UriMatchType::StartsWith);
    assert!(uri_matches_domain(&uri("https://exam", sw), "example.com"));
    assert!(uri_matches_domain(&uri("https://example.com", sw), "example.com"));
    // Deeper than the site root: unknowable from a domain query, no match.
    assert!(!uri_matches_domain(&uri("https://example.com/app", sw), "example.com"));
    // Real URLs carry a scheme; a schemeless prefix never matches one.
    assert!(!uri_matches_domain(&uri("exam", sw), "example.com"));
}

#[test]
fn regex_rule() {
    let re = Some(UriMatchType::RegularExpression);
    let pattern = r"^https://(www\.)?example\.com/";
    assert!(uri_matches_domain(&uri(pattern, re), "example.com"));
    assert!(uri_matches_domain(&uri(pattern, re), "www.example.com"));
    assert!(!uri_matches_domain(&uri(pattern, re), "app.example.com"));
    // An invalid pattern matches nothing rather than failing open.
    assert!(!uri_matches_domain(&uri("(", re), "example.com"));
}

#[test]
fn never_rule_never_matches() {
    assert!(!uri_matches_domain(
        &uri("https://example.com", Some(UriMatchType::Never)),
        "example.com"
    ));
}

#[test]
fn blank_uri_never_matches() {
    assert!(!uri_matches_domain(&uri("  ", None), "example.com"));
    let no_uri = LoginUri { uri: None, rule: None };
    assert!(!uri_matches_domain(&no_uri, "example.com"));
}

#[test]
fn regex_rule_ignores_case_and_searches_either_root() {
    let re = Some(UriMatchType::RegularExpression);
    assert!(uri_matches_domain(&uri("EXAMPLE", re), "example.com"));
    assert!(uri_matches_domain(&uri("^http://example", re), "example.com"));
    assert!(!uri_matches_domain(&uri("^ftp://example", re), "example.com"));
    assert!(either_found(None, Some(true)));
    assert!(either_found(Some(true), None));
    assert!(!either_found(Some(false), None));
}

#[test]
fn hosts_are_lower_case_and_bare() {
    assert_eq!(host_of(" HTTPS://App.Example.COM:8443/x?y "), Some("app.example.com".to_string()));
    assert_eq!(host_of("example.com?x"), Some("example.com".to_string()));
    assert_eq!(host_of("https://\u{c4}.example"), Some("\u{e4}.example".to_string()));
    assert_eq!(host_of("https:///x"), None);
    assert_eq!(host_of(""), None);
    assert_eq!(host_port_of("https://Example.com:8443#top"), Some("example.com:8443".to_string()));
    assert_eq!(host_port_of("/x"), None);
}

#[test]
fn hosts_end_at_a_fragment() {
    assert_eq!(host_of("https://example.com#top"), Some("example.com".to_string()));
    assert_eq!(host_of("example.com:80#a/b"), Some("example.com".to_string()));
    assert_eq!(host_of("https://#top"), None);
    assert!(uri_matches_domain(&uri("https://example.com#top", None), "example.com"));
}

#[test]
fn user_information_is_no_part_of_the_host() {
    assert_eq!(host_of("https://alice@example.com/"), Some("example.com".to_string()));
    assert_eq!(host_of("https://alice:pw@example.com:80"), Some("example.com".to_string()));
    assert_eq!(host_of("https://a.example@b.example"), Some("b.example".to_string()));
    assert_eq!(host_of("https://a@b@example.com"), Some("example.com".to_string()));
    // An `@` behind the authority belongs to the path, query or fragment.
    assert_eq!(host_of("https://example.com/@alice"), Some("example.com".to_string()));
    assert_eq!(host_port_of("https://alice@example.com:80"), Some("example.com:80".to_string()));
    assert_eq!(host_of("https://alice@"), None);
}

#[test]
fn bracketed_addresses_keep_their_colons() {
    assert_eq!(host_of("http://[::1]:8080/x"), Some("[::1]".to_string()));
    assert_eq!(host_of("http://[2001:DB8::1]"), Some("[2001:db8::1]".to_string()));
    assert_eq!(host_of("http://[::1"), Some("[".to_string()));
    assert_eq!(host_port_of("http://[::1]:8080/x"), Some("[::1]:8080".to_string()));
}

#[test]
fn nothing_but_a_port_follows_a_bracket() {
    assert_eq!(host_of("[x]y"), Some("[x]y".to_string()));
    assert!(!host_matches("[x]y", "[x]"));
    assert!(!host_matches("[x]", "[x]y"));
    assert!(host_matches("[x]", "[x]"));
    assert_eq!(host_of("https://[x]:80"), Some("[x]".to_string()));
    assert_eq!(host_of("https://[::1]evil.example"), Some("[".to_string()));
    assert!(!uri_matches_domain(&uri("https://[::1]evil.example", None), "[::1]"));
}

#[test]
fn only_an_authority_has_user_information() {
    assert_eq!(host_of("mailto:alice@example.com"), Some("mailto".to_string()));
    assert_eq!(host_of("alice@example.com"), Some("alice@example.com".to_string()));
    assert_eq!(host_port_of("alice@example.com"), Some("alice@example.com".to_string()));
    assert!(!uri_matches_domain(&uri("mailto:alice@example.com", None), "example.com"));
}

#[test]
fn a_scheme_stands_in_front_of_path_query_and_fragment() {
    for stored in [
        "example.com/?u=https://evil.com",
        "example.com?https://evil.com",
        "example.com#https://evil.com",
        "https://example.com/https://evil.com",
    ] {
        assert_eq!(host_of(stored), Some("example.com".to_string()), "{stored}");
        assert_eq!(host_port_of(stored), Some("example.com".to_string()), "{stored}");
        assert!(!uri_matches_domain(&uri(stored, None), "evil.com"), "{stored}");
    }
    assert_eq!(host_of("://example.com"), Some("example.com".to_string()));
}

#[test]
fn what_stands_around_a_host_does_not_change_it() {
    for before in ["", " ", "\t\n"] {
        for scheme in ["", "https://", "Custom://", "://"] {
            for tail in ["", ":", ":8443", "/", "/a b ", "?q=1:2", "#f", ":80/x#y?z", ":8@/ "] {
                if !scheme.is_empty() && tail == ":8@/ " {
                    continue;
                }
                for after in ["", " \u{3000}"] {
                    let whole = format!("{before}{scheme}Example.COM{tail}{after}");
                    assert_eq!(host_of(&whole), Some("example.com".to_string()), "{whole:?}");
                    let nameless = format!("{before}{scheme}{tail}{after}");
                    assert_eq!(host_of(&nameless), None, "{nameless:?}");
                }
            }
        }
    }
}

#[test]
fn domain_sharing_goes_both_ways_by_whole_labels() {
    assert!(host_matches("a.example.com", "example.com"));
    assert!(host_matches("example.com", "a.example.com"));
    assert!(!host_matches("aexample.com", "example.com"));
    // A single label matches only itself.
    assert!(host_matches("localhost", "localhost"));
    assert!(!host_matches("app.localhost", "localhost"));
    assert!(!host_matches("localhost", "app.localhost"));
}

#[test]
fn a_domain_stands_for_its_two_roots() {
    assert_eq!(root_urls("example.com"), ["https://example.com/", "http://example.com/"]);
}

#[test]
fn exact_rule_ignores_case_and_trailing_slashes() {
    let exact = Some(UriMatchType::Exact);
    assert!(uri_matches_domain(&uri("HTTP://Example.com//", exact), "example.com"));
    assert!(!uri_matches_domain(&uri("example.com", exact), "example.com"));
}
