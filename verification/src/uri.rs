//! Match rules of stored URIs: whether a URI saved with an item stands for the
//! domain a credential is asked for.

use vstd::prelude::*;
use vstd::string::*;

use crate::text;

verus! {

/// How a stored URI is compared with the page it is offered to
/// (https://bitwarden.com/help/uri-match-detection/).
#[derive(Clone, Copy, Debug, PartialEq, Eq, Structural)]
pub enum UriMatchType {
    Domain,
    Host,
    StartsWith,
    Exact,
    RegularExpression,
    Never,
}

/// A URI saved with a login. Without a rule of its own it uses the vault's
/// default, base-domain matching.
#[derive(Clone, Debug)]
pub struct LoginUri {
    pub uri: Option<String>,
    pub rule: Option<UriMatchType>,
}

/// The mathematical value of a `LoginUri`.
pub struct LoginUriView {
    pub uri: Option<Seq<char>>,
    pub rule: Option<UriMatchType>,
}

impl View for LoginUri {
    type V = LoginUriView;

    open spec fn view(&self) -> LoginUriView {
        LoginUriView { uri: text::opt_view(self.uri), rule: self.rule }
    }
}

/// The characters that end an authority: those that path, query and fragment
/// start with.
pub open spec fn delimiters() -> Set<char> {
    set!['/', '?', '#']
}

/// What follows the scheme of a URI and its `://`, where it has a scheme. A
/// `://` inside a path, query or fragment belongs to no scheme.
pub open spec fn after_scheme(s: Seq<char>) -> Option<Seq<char>> {
    let n = text::before_any(s, delimiters());
    if text::occurs_at(s, "://"@, n - 1) {
        Some(s.skip(n + 2int))
    } else {
        None
    }
}

/// What stands before path, query and fragment.
pub open spec fn up_to_path(s: Seq<char>) -> Seq<char> {
    s.take(text::before_any(s, delimiters()) as int)
}

/// An authority without the user information in front of its last `@`.
pub open spec fn without_user(authority: Seq<char>) -> Seq<char> {
    authority.skip(authority.len() - text::since_last(authority, '@'))
}

/// The host and port of a URI as they stand in it. Only a URI with a scheme has
/// an authority that could hold user information.
pub open spec fn raw_host_port(uri: Seq<char>) -> Seq<char> {
    let s = text::trimmed(uri);
    match after_scheme(s) {
        Some(rest) => without_user(up_to_path(rest)),
        None => up_to_path(s),
    }
}

/// A host and port without the port. The colons of an address in brackets are
/// part of the host; nothing but a port may follow the brackets.
pub open spec fn without_port(host_port: Seq<char>) -> Seq<char> {
    let close = text::before_any(host_port, set![']']);
    if {
        &&& host_port.len() > 0
        &&& host_port[0] == '['
        &&& close < host_port.len()
        &&& close + 1 == host_port.len() || host_port[close + 1int] == ':'
    } {
        host_port.take(close + 1int)
    } else {
        host_port.take(text::before_any(host_port, set![':']) as int)
    }
}

/// The lower-case host of a URI; `None` where it is empty.
pub open spec fn host(uri: Seq<char>) -> Option<Seq<char>> {
    text::non_empty(Some(text::lowered(without_port(raw_host_port(uri)))))
}

/// The lower-case host of a URI together with its explicit port; `None` where
/// both are empty.
pub open spec fn host_port(uri: Seq<char>) -> Option<Seq<char>> {
    text::non_empty(Some(text::lowered(raw_host_port(uri))))
}

/// `sub` is a subdomain of `parent`, which has at least two labels.
pub open spec fn is_subdomain(sub: Seq<char>, parent: Seq<char>) -> bool {
    parent.contains('.') && text::ends_with(sub, "."@ + parent)
}

/// Two domains that share a base domain: equal, or one a subdomain of the
/// other.
pub open spec fn share_base(a: Seq<char>, b: Seq<char>) -> bool {
    a == b || is_subdomain(a, b) || is_subdomain(b, a)
}

/// The `Domain` rule.
pub open spec fn domain_rule(uri: Seq<char>, domain: Seq<char>) -> bool {
    match host(uri) {
        Some(h) => share_base(h, domain),
        None => false,
    }
}

/// The root URL of a domain over https.
pub open spec fn secure_root(domain: Seq<char>) -> Seq<char> {
    "https://"@ + domain + "/"@
}

/// The root URL of a domain over http.
pub open spec fn plain_root(domain: Seq<char>) -> Seq<char> {
    "http://"@ + domain + "/"@
}

/// The `Exact` rule.
pub open spec fn exact_rule(uri: Seq<char>, domain: Seq<char>) -> bool {
    let stored = text::without_slashes(text::lowered(uri));
    ||| stored == text::without_slashes(secure_root(domain))
    ||| stored == text::without_slashes(plain_root(domain))
}

/// The `StartsWith` rule.
pub open spec fn prefix_rule(uri: Seq<char>, domain: Seq<char>) -> bool {
    ||| text::starts_with(secure_root(domain), text::lowered(uri))
    ||| text::starts_with(plain_root(domain), text::lowered(uri))
}

/// The `RegularExpression` rule.
pub open spec fn regex_rule(uri: Seq<char>, domain: Seq<char>) -> bool {
    ||| regex_search(uri, true, secure_root(domain)) == Some(true)
    ||| regex_search(uri, true, plain_root(domain)) == Some(true)
}

/// The rule `rule` lets the URI text `uri` stand for `domain`.
pub open spec fn rule_matches(rule: UriMatchType, uri: Seq<char>, domain: Seq<char>) -> bool {
    match rule {
        UriMatchType::Domain => domain_rule(uri, domain),
        UriMatchType::Host => host_port(uri) == Some(domain),
        UriMatchType::Exact => exact_rule(uri, domain),
        UriMatchType::StartsWith => prefix_rule(uri, domain),
        UriMatchType::RegularExpression => regex_rule(uri, domain),
        UriMatchType::Never => false,
    }
}

impl LoginUriView {
    /// The rule that applies: the stored one, or base-domain matching.
    pub open spec fn effective_rule(self) -> UriMatchType {
        match self.rule {
            Some(rule) => rule,
            None => UriMatchType::Domain,
        }
    }

    /// The stored URI stands for `domain`. A blank one stands for none.
    pub open spec fn matches_domain(self, domain: Seq<char>) -> bool {
        match self.uri {
            Some(uri) => {
                &&& text::trimmed(uri).len() > 0
                &&& rule_matches(self.effective_rule(), text::trimmed(uri), domain)
            },
            None => false,
        }
    }
}

/// Whether a pattern is found in a text: `None` where it is no pattern.
pub uninterp spec fn regex_search(
    pattern: Seq<char>,
    ignore_case: bool,
    haystack: Seq<char>,
) -> Option<bool>;

/// Compiles a pattern with `regex::RegexBuilder`, case-insensitively where
/// `ignore_case` is set, and asks `regex::Regex::is_match` for it. `None` is a
/// pattern that does not compile. Which patterns compile, and what they match,
/// depends on the arguments alone and stays a name.
#[verifier::external_body]
fn search(pattern: &str, ignore_case: bool, haystack: &str) -> (r: Option<bool>)
    ensures
        r == regex_search(pattern@, ignore_case, haystack@),
{
    match regex::RegexBuilder::new(pattern).case_insensitive(ignore_case).build() {
        Ok(re) => Some(re.is_match(haystack)),
        Err(_) => None,
    }
}

/// What follows the scheme of a URI, where it has one.
fn skip_scheme<'a>(s: &'a str) -> (r: Option<&'a str>)
    ensures
        text::opt_str_view(r) == after_scheme(s@),
{
    let n: usize = text::until(s, '/', '?', '#').unicode_len();
    let len: usize = s.unicode_len();
    proof {
        reveal_strlit("://");
        lemma_before_any(s@, delimiters());
    }
    if n == 0 || len - n < 2 {
        return None;
    }
    assert(s@.subrange(n - 1, n - 1 + "://"@.len()) == s@.subrange(n - 1, n + 2));
    if text::same(s.substring_char(n - 1, n + 2), "://") {
        assert(s@.subrange(n + 2, len as int) == s@.skip(n + 2));
        Some(s.substring_char(n + 2, len))
    } else {
        None
    }
}

/// The host and port of a URI as they stand in it.
fn host_port_text<'a>(uri: &'a str) -> (r: &'a str)
    ensures
        r@ == raw_host_port(uri@),
{
    let s: &str = text::trim(uri);
    match skip_scheme(s) {
        Some(rest) => text::after_last(text::until(rest, '/', '?', '#'), '@'),
        None => text::until(s, '/', '?', '#'),
    }
}

/// Cuts the port off a host and port.
fn cut_port<'a>(host_port: &'a str) -> (r: &'a str)
    ensures
        r@ == without_port(host_port@),
{
    let len: usize = host_port.unicode_len();
    if text::has_prefix(host_port, "[") {
        proof {
            reveal_strlit("[");
            assert("["@[0] == '[');
            assert(host_port@.subrange(0, 1)[0] == host_port@[0]);
        }
        let close: usize = text::until_char(host_port, ']').unicode_len();
        if close < len && (close + 1 == len || host_port.get_char(close + 1) == ':') {
            assert(host_port@.subrange(0, close + 1) == host_port@.take(close + 1));
            return host_port.substring_char(0, close + 1);
        }
    } else {
        proof {
            reveal_strlit("[");
            if host_port@.len() > 0 && host_port@[0] == '[' {
                assert(host_port@.subrange(0, 1) =~= "["@);
            }
        }
    }
    text::until_char(host_port, ':')
}

/// Extracts the lowercase host from a URI, tolerating a missing scheme. Neither
/// user information, port, path, query nor fragment is part of it.
pub fn host_of(uri: &str) -> (r: Option<String>)
    ensures
        text::opt_view(r) == host(uri@),
{
    let host: String = text::lowercase(cut_port(host_port_text(uri)));
    if host.as_str().is_empty() {
        None
    } else {
        Some(host)
    }
}

/// Extracts lowercase `host[:port]` from a URI, tolerating a missing scheme.
/// The `Host` rule matches on hostname *and* port, so unlike `host_of` this
/// keeps an explicit port: a URI stored for "example.com:8443" must not match
/// a query for plain "example.com".
pub fn host_port_of(uri: &str) -> (r: Option<String>)
    ensures
        text::opt_view(r) == host_port(uri@),
{
    let host_port: String = text::lowercase(host_port_text(uri));
    if host_port.as_str().is_empty() {
        None
    } else {
        Some(host_port)
    }
}

/// Whether `sub` is a subdomain of `parent`.
fn below(sub: &str, parent: &str) -> (r: bool)
    ensures
        r == is_subdomain(sub@, parent@),
{
    text::contains_char(parent, '.') && text::has_suffix(
        sub,
        ".".to_owned().concat(parent).as_str(),
    )
}

/// The `Domain` (default) match rule: the stored URI's host and the queried
/// domain share a base domain: equal, or one a dot-suffix of the other with
/// the parent side carrying at least two labels.
///
/// The two-label floor keeps a bare public suffix ("com", "co") from matching
/// every host beneath it and handing back an arbitrary credential. A stored URI
/// with no parseable host is not domain-matched at all.
pub fn host_matches(uri: &str, domain: &str) -> (r: bool)
    ensures
        r == domain_rule(uri@, domain@),
{
    match host_of(uri) {
        Some(host) => text::same(host.as_str(), domain) || below(host.as_str(), domain) || below(
            domain,
            host.as_str(),
        ),
        None => false,
    }
}

/// The site-root URLs a domain query stands in for when a match rule is
/// defined against the full page URL. Scheme'd forms only: real URLs always
/// carry a scheme, so a bare-domain candidate would let e.g. a `StartsWith`
/// URI of "exam" match where Bitwarden's own clients never would.
pub fn root_urls(domain: &str) -> (r: [String; 2])
    ensures
        r@[0]@ == secure_root(domain@),
        r@[1]@ == plain_root(domain@),
{
    [
        "https://".to_owned().concat(domain).concat("/"),
        "http://".to_owned().concat(domain).concat("/"),
    ]
}

/// What the two searches of a pattern in a site's root URLs say of it: a
/// pattern that does not compile matches nothing.
pub fn either_found(secure: Option<bool>, plain: Option<bool>) -> (r: bool)
    ensures
        r == (secure == Some(true) || plain == Some(true)),
{
    match secure {
        Some(true) => true,
        _ => match plain {
            Some(found) => found,
            None => false,
        },
    }
}

/// Applies a stored URI's Bitwarden match rule against the queried domain.
///
/// The query carries a domain, not the page URL, so the URL-shaped rules
/// (`Exact`, `StartsWith`, `RegularExpression`) are evaluated against the
/// site-root URLs that domain stands in for (`root_urls`). A rule that needs a
/// deeper URL to be satisfied therefore under-matches, but none of them can
/// match more broadly than the user's rule allows. `Never` is the user's
/// explicit opt-out and never matches.
pub fn uri_matches_domain(stored: &LoginUri, domain: &str) -> (r: bool)
    ensures
        r == stored@.matches_domain(domain@),
{
    let uri: &str = match &stored.uri {
        Some(uri) => text::trim(uri.as_str()),
        None => return false,
    };
    if uri.is_empty() {
        return false;
    }
    let rule: UriMatchType = match stored.rule {
        Some(rule) => rule,
        None => UriMatchType::Domain,
    };
    match rule {
        UriMatchType::Domain => host_matches(uri, domain),
        UriMatchType::Host => match host_port_of(uri) {
            Some(host_port) => text::same(host_port.as_str(), domain),
            None => false,
        },
        UriMatchType::Exact => {
            let lower: String = text::lowercase(uri);
            let lower: &str = text::trim_slashes(lower.as_str());
            let roots: [String; 2] = root_urls(domain);
            text::same(lower, text::trim_slashes(roots[0].as_str())) || text::same(
                lower,
                text::trim_slashes(roots[1].as_str()),
            )
        },
        UriMatchType::StartsWith => {
            let lower: String = text::lowercase(uri);
            let roots: [String; 2] = root_urls(domain);
            text::has_prefix(roots[0].as_str(), lower.as_str()) || text::has_prefix(
                roots[1].as_str(),
                lower.as_str(),
            )
        },
        UriMatchType::RegularExpression => {
            let roots: [String; 2] = root_urls(domain);
            either_found(
                search(uri, true, roots[0].as_str()),
                search(uri, true, roots[1].as_str()),
            )
        },
        UriMatchType::Never => false,
    }
}

/// What is taken for the host of a URI holds nothing of what stands around it: no
/// path, query or fragment, and behind a scheme no user information.
pub proof fn hosts_hold_no_delimiter(uri: Seq<char>, i: int)
    requires
        0 <= i < without_port(raw_host_port(uri)).len(),
    ensures
        !delimiters().contains(without_port(raw_host_port(uri))[i]),
        after_scheme(text::trimmed(uri)) is Some ==> without_port(raw_host_port(uri))[i] != '@',
{
    let s = text::trimmed(uri);
    let rest = match after_scheme(s) {
        Some(rest) => rest,
        None => s,
    };
    let whole = up_to_path(rest);
    let host_port = raw_host_port(uri);
    lemma_before_any(rest, delimiters());
    lemma_since_last(whole, '@');
    lemma_before_any(host_port, set![']']);
    lemma_before_any(host_port, set![':']);
    let at = whole.len() - host_port.len() + i;
    assert(without_port(host_port)[i] == host_port[i]);
    assert(host_port[i] == whole[at]);
    assert(whole[at] == rest[at]);
}

/// An authority ends at a slash, a question mark or a number sign, and at nothing
/// else.
pub proof fn three_characters_end_an_authority(c: char)
    ensures
        delimiters().contains(c) <==> c == '/' || c == '?' || c == '#',
{
}

/// A text that can stand as a host by itself: no white space, and nothing that
/// sets a host apart from what stands around it.
pub open spec fn is_bare(s: Seq<char>) -> bool {
    forall|i: int|
        0 <= i < s.len() ==> !text::is_space(#[trigger] s[i]) && !delimiters().contains(s[i])
            && s[i] != ':' && s[i] != '@'
}

/// `s` is the scheme name `word` and `://`.
pub open spec fn names_scheme(s: Seq<char>, word: Seq<char>) -> bool {
    s == word + "://"@ && is_bare(word)
}

/// What a URI may start with: nothing, or the name of a scheme and `://`.
pub open spec fn is_scheme(s: Seq<char>) -> bool {
    s.len() == 0 || exists|word: Seq<char>| names_scheme(s, word)
}

/// What may follow a host: nothing, or a port, path, query or fragment.
pub open spec fn is_tail(s: Seq<char>) -> bool {
    s.len() > 0 ==> s[0] == ':' || delimiters().contains(s[0])
}

/// Scheme, port, path, query, fragment and surrounding white space do not change
/// the host of a URI: it is the host as it stands, in lower case. Left out are a
/// port that holds a `://`, which would make a scheme of the host, one that holds
/// an `@`, which would make user information of it, and a `[` at the start of the
/// host that only its port closes.
pub proof fn hosts_stand_alone(
    before: Seq<char>,
    scheme: Seq<char>,
    bare: Seq<char>,
    tail: Seq<char>,
    after: Seq<char>,
)
    requires
        text::is_blank(before),
        is_scheme(scheme),
        is_bare(bare),
        is_tail(tail),
        text::is_blank(after),
        scheme.len() == 0 && tail.len() > 0 && tail[0] == ':' ==> !text::occurs(tail, "://"@),
        scheme.len() > 0 ==> !up_to_path(tail).contains('@'),
        bare.len() > 0 && bare[0] == '[' ==> bare.contains(']') || !up_to_path(tail).contains(']'),
    ensures
        host(before + scheme + bare + tail + after) == text::non_empty(
            Some(text::lowered(bare)),
        ),
        host(before + scheme + bare + tail + after) == host(bare),
{
    lemma_host_stands_alone(before, scheme, bare, tail, after);
    let none = Seq::<char>::empty();
    assert(up_to_path(none) =~= none);
    lemma_host_stands_alone(none, none, bare, none, none);
    assert(none + none + bare + none + none =~= bare);
}

/// Two bare hosts in lower case match where they share a base domain, whichever
/// of them is the stored one.
pub proof fn bare_hosts_match_by_base(a: Seq<char>, b: Seq<char>)
    requires
        a.len() > 0,
        b.len() > 0,
        is_bare(a),
        is_bare(b),
        text::lowered(a) == a,
        text::lowered(b) == b,
    ensures
        domain_rule(a, b) == share_base(a, b),
        domain_rule(a, b) == domain_rule(b, a),
{
    let none = Seq::<char>::empty();
    assert(up_to_path(none) =~= none);
    lemma_host_stands_alone(none, none, a, none, none);
    lemma_host_stands_alone(none, none, b, none, none);
    assert(none + none + a + none + none =~= a);
    assert(none + none + b + none + none =~= b);
}

proof fn lemma_host_stands_alone(
    before: Seq<char>,
    scheme: Seq<char>,
    bare: Seq<char>,
    tail: Seq<char>,
    after: Seq<char>,
)
    requires
        text::is_blank(before),
        is_scheme(scheme),
        is_bare(bare),
        is_tail(tail),
        text::is_blank(after),
        scheme.len() == 0 && tail.len() > 0 && tail[0] == ':' ==> !text::occurs(tail, "://"@),
        scheme.len() > 0 ==> !up_to_path(tail).contains('@'),
        bare.len() > 0 && bare[0] == '[' ==> bare.contains(']') || !up_to_path(tail).contains(']'),
    ensures
        host(before + scheme + bare + tail + after) == text::non_empty(
            Some(text::lowered(bare)),
        ),
{
    reveal_strlit("://");
    let uri = before + scheme + bare + tail + after;
    let cut = text::trim_end(tail);
    lemma_trimmed_uri(before, scheme, bare, tail, after);
    lemma_trim_end_is_prefix(tail);
    let s = text::trimmed(uri);
    assert(s == scheme + bare + cut);
    let port = up_to_path(cut);
    lemma_before_any(cut, delimiters());
    lemma_before_any(tail, delimiters());
    assert forall|i: int| 0 <= i < port.len() implies up_to_path(tail).contains(
        #[trigger] port[i],
    ) by {
        let m = text::before_any(tail, delimiters()) as int;
        if m <= i {
            assert(tail[m] == cut[m]);
        }
        assert(up_to_path(tail)[i] == port[i]);
    }
    let rest = bare + cut;
    lemma_before_any_skips(bare, cut, delimiters());
    assert(up_to_path(rest) =~= bare + port);
    if scheme.len() > 0 {
        lemma_scheme_is_skipped(scheme, rest);
        assert(s =~= scheme + rest);
        assert forall|i: int| 0 <= i < (bare + port).len() implies (bare + port)[i] != '@' by {
            if i >= bare.len() {
                assert(port[i - bare.len()] == (bare + port)[i]);
            }
        }
        lemma_nothing_since(bare + port, '@');
        assert((bare + port).skip(0) =~= bare + port);
    } else {
        assert(s =~= rest);
        let n = text::before_any(s, delimiters()) as int;
        if text::occurs_at(s, "://"@, n - 1) {
            assert(s.subrange(n - 1, n + 2)[0] == ':');
            assert(s[n - 1] == ':');
            if n - 1 < bare.len() {
                assert(s[n - 1] == bare[n - 1]);
            } else {
                let at = n - 1 - bare.len();
                assert(cut[0] == tail[0]);
                assert(tail.subrange(at, at + 3) =~= s.subrange(n - 1, n + 2));
                assert(text::occurs_at(tail, "://"@, at));
            }
        }
        assert(after_scheme(s) is None);
    }
    assert(raw_host_port(uri) == bare + port);
    lemma_port_is_cut(bare, port);
}

/// The port behind a bare host is cut off.
proof fn lemma_port_is_cut(bare: Seq<char>, port: Seq<char>)
    requires
        is_bare(bare),
        port.len() > 0 ==> port[0] == ':',
        bare.len() > 0 && bare[0] == '[' ==> bare.contains(']') || !port.contains(']'),
    ensures
        without_port(bare + port) == bare,
{
    let whole = bare + port;
    lemma_before_any_skips(bare, port, set![':']);
    assert(text::before_any(port, set![':']) == 0);
    assert(whole.take(bare.len() as int) =~= bare);
    let close = text::before_any(whole, set![']']) as int;
    lemma_before_any(whole, set![']']);
    if whole.len() > 0 && whole[0] == '[' && close < whole.len() {
        assert(bare.len() > 0 && bare[0] == '[');
        if close < bare.len() {
            if close + 1 < bare.len() {
                assert(whole[close + 1] == bare[close + 1]);
            }
        } else if bare.contains(']') {
            let k = choose|k: int| 0 <= k < bare.len() && bare[k] == ']';
            assert(whole[k] == ']');
        } else {
            assert(port[close - bare.len()] == ']');
        }
    }
}

/// White space around a URI is trimmed, and so is the end of what follows its
/// host.
proof fn lemma_trimmed_uri(
    before: Seq<char>,
    scheme: Seq<char>,
    bare: Seq<char>,
    tail: Seq<char>,
    after: Seq<char>,
)
    requires
        text::is_blank(before),
        is_scheme(scheme),
        forall|i: int| 0 <= i < bare.len() ==> !text::is_space(#[trigger] bare[i]),
        is_tail(tail),
        text::is_blank(after),
    ensures
        text::trimmed(before + scheme + bare + tail + after) == scheme + bare + text::trim_end(tail),
{
    reveal_strlit("://");
    let head = scheme + bare;
    let core = head + tail;
    assert(before + scheme + bare + tail + after =~= before + (core + after));
    text::blanks_in_front_are_trimmed(before, core + after);
    if scheme.len() > 0 {
        let word = choose|word: Seq<char>| names_scheme(scheme, word);
        assert(scheme[0] == if word.len() > 0 { word[0] } else { ':' });
        assert(scheme.last() == '/');
    }
    assert(head.len() > 0 ==> !text::is_space(head[0]) && !text::is_space(head.last())) by {
        if bare.len() > 0 {
            assert(head.last() == bare.last());
        }
    }
    assert(core.len() > 0 ==> !text::is_space(core[0]));
    if core.len() > 0 {
        assert((core + after)[0] == core[0]);
    } else {
        assert(core + after =~= after + core);
        text::blanks_in_front_are_trimmed(after, core);
        assert(text::trim_start(core + after) =~= core);
    }
    text::blanks_behind_are_trimmed(core, after);
    lemma_trim_end_keeps(head, tail);
}

/// Trimming the end stops at a text that does not end in white space.
proof fn lemma_trim_end_keeps(s: Seq<char>, tail: Seq<char>)
    requires
        s.len() > 0 ==> !text::is_space(s.last()),
    ensures
        text::trim_end(s + tail) == s + text::trim_end(tail),
    decreases tail.len(),
{
    if tail.len() == 0 {
        assert(s + tail =~= s);
        assert(s + text::trim_end(tail) =~= s);
    } else {
        assert((s + tail).last() == tail.last());
        assert((s + tail).drop_last() =~= s + tail.drop_last());
        lemma_trim_end_keeps(s, tail.drop_last());
    }
}

proof fn lemma_trim_end_is_prefix(s: Seq<char>)
    ensures
        text::trim_end(s).len() <= s.len(),
        text::trim_end(s) == s.take(text::trim_end(s).len() as int),
        s.len() > 0 && !text::is_space(s[0]) ==> text::trim_end(s).len() > 0,
    decreases s.len(),
{
    if s.len() > 0 && text::is_space(s.last()) {
        let init = s.drop_last();
        lemma_trim_end_is_prefix(init);
        assert(s.take(text::trim_end(s).len() as int) =~= init.take(
            text::trim_end(s).len() as int,
        ));
    } else {
        assert(s.take(s.len() as int) =~= s);
    }
}

/// Where `a` holds no stop, the first one is looked for behind it.
proof fn lemma_before_any_skips(a: Seq<char>, b: Seq<char>, stops: Set<char>)
    requires
        forall|i: int| 0 <= i < a.len() ==> !stops.contains(#[trigger] a[i]),
    ensures
        text::before_any(a + b, stops) == a.len() + text::before_any(b, stops),
    decreases a.len(),
{
    if a.len() == 0 {
        assert(a + b =~= b);
    } else {
        let rest = a.drop_first();
        assert((a + b)[0] == a[0]);
        assert((a + b).drop_first() =~= rest + b);
        assert forall|i: int| 0 <= i < rest.len() implies !stops.contains(#[trigger] rest[i]) by {
            assert(rest[i] == a[i + 1]);
        }
        lemma_before_any_skips(rest, b, stops);
    }
}

/// Where `c` does not occur, the whole text follows the last one.
proof fn lemma_nothing_since(s: Seq<char>, c: char)
    requires
        forall|i: int| 0 <= i < s.len() ==> (#[trigger] s[i]) != c,
    ensures
        text::since_last(s, c) == s.len(),
    decreases s.len(),
{
    if s.len() > 0 {
        let init = s.drop_last();
        assert forall|i: int| 0 <= i < init.len() implies (#[trigger] init[i]) != c by {
            assert(init[i] == s[i]);
        }
        assert(s.last() == s[s.len() - 1]);
        lemma_nothing_since(init, c);
    }
}

/// Everything below a domain of two labels or more shares its base, however many
/// labels further down it is, whichever of the two is asked for.
pub proof fn subdomains_share_their_base(prefix: Seq<char>, domain: Seq<char>)
    requires
        domain.contains('.'),
    ensures
        share_base(prefix + "."@ + domain, domain),
        share_base(domain, prefix + "."@ + domain),
{
    let sub = prefix + "."@ + domain;
    assert(sub =~= prefix + ("."@ + domain));
    text::prefixes_and_suffixes(sub, "."@ + domain);
}

/// A URI saved for a host below a domain answers for that domain, and one saved
/// for the domain answers for every host below it, whatever stands around the
/// host in the URI.
pub proof fn subdomains_match_by_default(
    before: Seq<char>,
    scheme: Seq<char>,
    prefix: Seq<char>,
    domain: Seq<char>,
    tail: Seq<char>,
    after: Seq<char>,
)
    requires
        text::is_blank(before),
        is_scheme(scheme),
        is_bare(prefix),
        is_bare(domain),
        is_tail(tail),
        text::is_blank(after),
        !prefix.contains('['),
        !domain.contains('['),
        scheme.len() == 0 && tail.len() > 0 && tail[0] == ':' ==> !text::occurs(tail, "://"@),
        scheme.len() > 0 ==> !up_to_path(tail).contains('@'),
        domain.contains('.'),
        text::lowered(domain) == domain,
        text::lowered(prefix + "."@ + domain) == prefix + "."@ + domain,
    ensures
        rule_matches(
            UriMatchType::Domain,
            before + scheme + (prefix + "."@ + domain) + tail + after,
            domain,
        ),
        rule_matches(
            UriMatchType::Domain,
            before + scheme + domain + tail + after,
            prefix + "."@ + domain,
        ),
{
    reveal_strlit(".");
    let sub = prefix + "."@ + domain;
    assert(is_bare(sub)) by {
        assert forall|i: int| 0 <= i < sub.len() implies !text::is_space(#[trigger] sub[i])
            && !delimiters().contains(sub[i]) && sub[i] != ':' && sub[i] != '@' by {
            if i < prefix.len() {
                assert(sub[i] == prefix[i]);
            } else if i == prefix.len() {
                assert(sub[i] == '.');
            } else {
                assert(sub[i] == domain[i - prefix.len() - 1]);
            }
        }
    }
    assert(sub[0] != '[') by {
        if prefix.len() > 0 {
            assert(sub[0] == prefix[0]);
            assert(prefix.contains(prefix[0]));
        }
    }
    assert(domain.len() > 0 && domain[0] != '[') by {
        let k = choose|k: int| 0 <= k < domain.len() && domain[k] == '.';
        assert(domain.contains(domain[0]));
    }
    subdomains_share_their_base(prefix, domain);
    hosts_stand_alone(before, scheme, sub, tail, after);
    hosts_stand_alone(before, scheme, domain, tail, after);
}

/// The host and port of a URI are found in it, whatever stands around them.
proof fn lemma_raw_host_port(
    before: Seq<char>,
    scheme: Seq<char>,
    host_and_port: Seq<char>,
    path: Seq<char>,
    after: Seq<char>,
)
    requires
        text::is_blank(before),
        is_scheme(scheme),
        is_authority(host_and_port),
        scheme.len() == 0 && host_and_port.len() > 0 ==> host_and_port.last() != ':',
        path.len() > 0 ==> delimiters().contains(path[0]),
        text::is_blank(after),
    ensures
        raw_host_port(before + scheme + host_and_port + path + after) == if scheme.len() > 0 {
            without_user(host_and_port)
        } else {
            host_and_port
        },
{
    reveal_strlit("://");
    let uri = before + scheme + host_and_port + path + after;
    let cut = text::trim_end(path);
    lemma_trimmed_uri(before, scheme, host_and_port, path, after);
    lemma_trim_end_is_prefix(path);
    let s = text::trimmed(uri);
    let rest = host_and_port + cut;
    lemma_before_any_skips(host_and_port, cut, delimiters());
    assert(cut.len() > 0 ==> cut[0] == path[0]);
    assert(text::before_any(cut, delimiters()) == 0);
    assert(up_to_path(rest) =~= host_and_port);
    if scheme.len() > 0 {
        lemma_scheme_is_skipped(scheme, rest);
        assert(s =~= scheme + rest);
    } else {
        assert(s =~= rest);
        let n = host_and_port.len() as int;
        if text::occurs_at(s, "://"@, n - 1) {
            assert(s.subrange(n - 1, n + 2)[0] == s[n - 1]);
            assert(s[n - 1] == host_and_port[n - 1]);
        }
    }
}

/// A text that can stand as an authority: no white space, and nothing that starts
/// a path, query or fragment.
pub open spec fn is_authority(s: Seq<char>) -> bool {
    forall|i: int|
        0 <= i < s.len() ==> !text::is_space(#[trigger] s[i]) && !delimiters().contains(s[i])
}

/// The `Host` rule holds a URI to its own host and port, in lower case: whatever
/// stands around them does not count, and a port that is there does.
pub proof fn ports_stay_with_their_hosts(
    before: Seq<char>,
    scheme: Seq<char>,
    host_and_port: Seq<char>,
    path: Seq<char>,
    after: Seq<char>,
    domain: Seq<char>,
)
    requires
        text::is_blank(before),
        is_scheme(scheme),
        is_authority(host_and_port),
        !host_and_port.contains('@'),
        scheme.len() == 0 && host_and_port.len() > 0 ==> host_and_port.last() != ':',
        path.len() > 0 ==> delimiters().contains(path[0]),
        text::is_blank(after),
        domain.len() > 0,
    ensures
        rule_matches(
            UriMatchType::Host,
            before + scheme + host_and_port + path + after,
            domain,
        ) <==> text::lowered(host_and_port) == domain,
{
    lemma_raw_host_port(before, scheme, host_and_port, path, after);
    assert forall|i: int| 0 <= i < host_and_port.len() implies (#[trigger] host_and_port[i])
        != '@' by {
        assert(host_and_port.contains(host_and_port[i]));
    }
    lemma_nothing_since(host_and_port, '@');
    assert(host_and_port.skip(0) =~= host_and_port);
}

/// User information in front of a host does not change it: with it and without
/// it, a URI has the same host, the same port, and matches the same domains.
pub proof fn user_information_does_not_count(
    before: Seq<char>,
    scheme: Seq<char>,
    user: Seq<char>,
    host_and_port: Seq<char>,
    path: Seq<char>,
    after: Seq<char>,
)
    requires
        text::is_blank(before),
        is_scheme(scheme),
        scheme.len() > 0,
        is_authority(user),
        is_authority(host_and_port),
        !host_and_port.contains('@'),
        path.len() > 0 ==> delimiters().contains(path[0]),
        text::is_blank(after),
    ensures
        host(before + scheme + (user + seq!['@'] + host_and_port) + path + after) == host(
            before + scheme + host_and_port + path + after,
        ),
        host_port(before + scheme + (user + seq!['@'] + host_and_port) + path + after)
            == host_port(before + scheme + host_and_port + path + after),
        host_port(before + scheme + host_and_port + path + after) == text::non_empty(
            Some(text::lowered(host_and_port)),
        ),
{
    let whole = user + seq!['@'] + host_and_port;
    assert forall|i: int| 0 <= i < whole.len() implies !text::is_space(#[trigger] whole[i])
        && !delimiters().contains(whole[i]) by {
        if i < user.len() {
            assert(whole[i] == user[i]);
        } else if i > user.len() {
            assert(whole[i] == host_and_port[i - user.len() - 1]);
        }
    }
    lemma_raw_host_port(before, scheme, whole, path, after);
    lemma_raw_host_port(before, scheme, host_and_port, path, after);
    text::the_last_one_is_found(user, '@', host_and_port);
    assert(whole.skip(user.len() + 1int) =~= host_and_port);
    assert forall|i: int| 0 <= i < host_and_port.len() implies (#[trigger] host_and_port[i])
        != '@' by {
        assert(host_and_port.contains(host_and_port[i]));
    }
    lemma_nothing_since(host_and_port, '@');
    assert(host_and_port.skip(0) =~= host_and_port);
}

/// An address in brackets is the host with its brackets and all its colons, with
/// or without a port behind it.
pub proof fn bracketed_addresses_are_hosts(
    before: Seq<char>,
    scheme: Seq<char>,
    address: Seq<char>,
    port: Seq<char>,
    path: Seq<char>,
    after: Seq<char>,
)
    requires
        text::is_blank(before),
        is_scheme(scheme),
        scheme.len() > 0,
        is_authority(address),
        !address.contains(']') && !address.contains('@'),
        is_authority(port),
        !port.contains('@'),
        port.len() > 0 ==> port[0] == ':',
        path.len() > 0 ==> delimiters().contains(path[0]),
        text::is_blank(after),
    ensures
        host(before + scheme + (seq!['['] + address + seq![']'] + port) + path + after)
            == text::non_empty(Some(text::lowered(seq!['['] + address + seq![']']))),
{
    let open = seq!['['] + address;
    let closed = open + seq![']'];
    let whole = closed + port;
    assert forall|i: int| 0 <= i < whole.len() implies !text::is_space(#[trigger] whole[i])
        && !delimiters().contains(whole[i]) && whole[i] != '@' by {
        if 0 < i <= address.len() {
            assert(whole[i] == address[i - 1]);
            assert(address.contains(address[i - 1]));
        } else if i > address.len() + 1 {
            assert(whole[i] == port[i - address.len() - 2]);
            assert(port.contains(port[i - address.len() - 2]));
        }
    }
    lemma_raw_host_port(before, scheme, whole, path, after);
    lemma_nothing_since(whole, '@');
    assert(whole.skip(0) =~= whole);
    let behind = seq![']'] + port;
    assert(whole =~= open + behind);
    assert forall|i: int| 0 <= i < open.len() implies !set![']'].contains(#[trigger] open[i]) by {
        if i > 0 {
            assert(open[i] == address[i - 1]);
            assert(address.contains(address[i - 1]));
        }
    }
    lemma_before_any_skips(open, behind, set![']']);
    assert(set![']'].contains(behind[0]));
    assert(text::before_any(behind, set![']']) == 0);
    assert(whole.take(open.len() + 1int) =~= closed);
}

/// A scheme in front of a text is what is skipped.
proof fn lemma_scheme_is_skipped(scheme: Seq<char>, rest: Seq<char>)
    requires
        is_scheme(scheme),
        scheme.len() > 0,
    ensures
        after_scheme(scheme + rest) == Some(rest),
{
    reveal_strlit("://");
    let word = choose|word: Seq<char>| names_scheme(scheme, word);
    let s = scheme + rest;
    let head = word + seq![':'];
    let behind = seq!['/', '/'] + rest;
    assert(s =~= head + behind);
    lemma_before_any_skips(head, behind, delimiters());
    assert(delimiters().contains(behind[0]));
    assert(text::before_any(behind, delimiters()) == 0);
    let n = text::before_any(s, delimiters()) as int;
    assert(s.subrange(n - 1, n + 2) =~= "://"@);
    assert(s.skip(n + 2) =~= rest);
}

/// The `Exact` rule takes the root of a site over https or http, with any number
/// of slashes at its end or none, and nothing else.
pub proof fn only_site_roots_are_exact(uri: Seq<char>, domain: Seq<char>)
    requires
        domain.len() > 0,
        domain.last() != '/',
    ensures
        rule_matches(UriMatchType::Exact, uri, domain) <==> exists|count: nat|
            {
                ||| text::lowered(uri) == "https://"@ + domain + #[trigger] text::slashes(count)
                ||| text::lowered(uri) == "http://"@ + domain + text::slashes(count)
            },
{
    reveal_strlit("/");
    let lower = text::lowered(uri);
    let secure = "https://"@ + domain;
    let plain = "http://"@ + domain;
    assert(secure_root(domain) =~= secure + text::slashes(1));
    assert(plain_root(domain) =~= plain + text::slashes(1));
    assert(secure.last() == domain.last());
    assert(plain.last() == domain.last());
    text::trailing_slashes_are_taken_off(secure, 1);
    text::trailing_slashes_are_taken_off(plain, 1);
    text::slashes_are_all_that_is_taken_off(lower);
    if exists|count: nat|
        {
            ||| lower == "https://"@ + domain + #[trigger] text::slashes(count)
            ||| lower == "http://"@ + domain + text::slashes(count)
        } {
        let count = choose|count: nat|
            {
                ||| lower == "https://"@ + domain + #[trigger] text::slashes(count)
                ||| lower == "http://"@ + domain + text::slashes(count)
            };
        text::trailing_slashes_are_taken_off(secure, count);
        text::trailing_slashes_are_taken_off(plain, count);
    }
}

/// The `StartsWith` rule takes every beginning of a site's root URL over https
/// or http, and nothing else.
pub proof fn beginnings_of_a_root_match(uri: Seq<char>, domain: Seq<char>)
    ensures
        rule_matches(UriMatchType::StartsWith, uri, domain) <==> exists|rest: Seq<char>|
            {
                ||| #[trigger] (text::lowered(uri) + rest) == "https://"@ + domain + "/"@
                ||| text::lowered(uri) + rest == "http://"@ + domain + "/"@
            },
{
    text::prefixes_and_suffixes(secure_root(domain), text::lowered(uri));
    text::prefixes_and_suffixes(plain_root(domain), text::lowered(uri));
}

/// The `RegularExpression` rule takes a pattern that is found, in whatever case,
/// in the root URL of the site over https or over http. A pattern that is none
/// matches no site.
pub proof fn patterns_are_searched_in_both_roots(pattern: Seq<char>, domain: Seq<char>)
    ensures
        rule_matches(UriMatchType::RegularExpression, pattern, domain) <==> (regex_search(
            pattern,
            true,
            "https://"@ + domain + "/"@,
        ) == Some(true) || regex_search(pattern, true, "http://"@ + domain + "/"@) == Some(true)),
{
}

/// A stored URI goes by its own rule, one without a rule by the `Domain` rule,
/// and white space around it does not count.
pub proof fn stored_uris_go_by_their_rule(
    before: Seq<char>,
    core: Seq<char>,
    after: Seq<char>,
    rule: UriMatchType,
    domain: Seq<char>,
)
    requires
        text::is_blank(before),
        text::is_blank(after),
        core.len() > 0,
        !text::is_space(core[0]),
        !text::is_space(core.last()),
    ensures
        (LoginUriView { uri: Some(before + core + after), rule: Some(rule) }).matches_domain(domain)
            == rule_matches(rule, core, domain),
        (LoginUriView { uri: Some(before + core + after), rule: None }).matches_domain(domain)
            == rule_matches(UriMatchType::Domain, core, domain),
{
    text::trimming_takes_the_blanks_around(before, core, after);
}

/// No stop stands in front of the first one.
proof fn lemma_before_any(s: Seq<char>, stops: Set<char>)
    ensures
        text::before_any(s, stops) <= s.len(),
        forall|i: int| 0 <= i < text::before_any(s, stops) ==> !stops.contains(#[trigger] s[i]),
        text::before_any(s, stops) < s.len() ==> stops.contains(
            s[text::before_any(s, stops) as int],
        ),
    decreases s.len(),
{
    if s.len() > 0 && !stops.contains(s[0]) {
        let rest = s.drop_first();
        lemma_before_any(rest, stops);
        assert forall|i: int| 0 <= i < text::before_any(s, stops) implies !stops.contains(
            #[trigger] s[i],
        ) by {
            if i > 0 {
                assert(rest[i - 1] == s[i]);
            }
        }
    }
}

/// No `c` stands behind the last one.
proof fn lemma_since_last(s: Seq<char>, c: char)
    ensures
        text::since_last(s, c) <= s.len(),
        forall|i: int|
            s.len() - text::since_last(s, c) <= i < s.len() ==> (#[trigger] s[i]) != c,
    decreases s.len(),
{
    if s.len() > 0 && s.last() != c {
        let init = s.drop_last();
        lemma_since_last(init, c);
        assert forall|i: int| s.len() - text::since_last(s, c) <= i < s.len() implies (
        #[trigger] s[i]) != c by {
            if i < s.len() - 1 {
                assert(init[i] == s[i]);
            }
        }
    }
}

/// The `Never` rule is an opt-out: such a URI stands for no domain.
pub proof fn never_stands_for_no_domain(stored: LoginUriView, domain: Seq<char>)
    requires
        stored.rule == Some(UriMatchType::Never),
    ensures
        !stored.matches_domain(domain),
{
}

/// A missing or blank URI stands for no domain, whatever its rule.
pub proof fn blank_stands_for_no_domain(stored: LoginUriView, domain: Seq<char>)
    requires
        stored.uri matches Some(uri) ==> text::trimmed(uri).len() == 0,
    ensures
        !stored.matches_domain(domain),
{
}

/// Sharing a base domain does not depend on which side is the stored one, and
/// every domain shares its own.
pub proof fn base_sharing_is_symmetric(a: Seq<char>, b: Seq<char>)
    ensures
        share_base(a, b) == share_base(b, a),
        share_base(a, a),
{
}

/// A dot ends in front of every proper match: two different domains that share
/// a base are one another's subdomains label by label, and the parent has at
/// least two labels.
pub proof fn base_sharing_is_label_aligned(a: Seq<char>, b: Seq<char>)
    requires
        share_base(a, b),
        a != b,
    ensures
        exists|prefix: Seq<char>|
            {
                ||| a == #[trigger] (prefix + ("."@ + b)) && b.contains('.')
                ||| b == prefix + ("."@ + a) && a.contains('.')
            },
{
    if is_subdomain(a, b) {
        let tail = "."@ + b;
        let prefix = a.take(a.len() - tail.len());
        assert(a =~= prefix + tail);
    } else {
        let tail = "."@ + a;
        let prefix = b.take(b.len() - tail.len());
        assert(b =~= prefix + tail);
        assert(prefix + ("."@ + b) == prefix + ("."@ + b));
    }
}

/// A name of a single label, such as a bare public suffix, shares its base with
/// itself alone, so asking for "com" reaches no host beneath it.
pub proof fn single_label_matches_only_itself(uri: Seq<char>, domain: Seq<char>)
    requires
        !domain.contains('.'),
        domain_rule(uri, domain),
    ensures
        host(uri) == Some(domain),
{
    let h = host(uri)->0;
    if is_subdomain(domain, h) {
        reveal_strlit(".");
        let tail = "."@ + h;
        assert(domain.subrange(domain.len() - tail.len(), domain.len() as int)[0] == '.');
        assert(domain[domain.len() - tail.len()] == '.');
    }
}

/// A `StartsWith` URI only matches from the scheme on: it is cut off within
/// the scheme, or carries it whole.
pub proof fn prefix_rule_needs_a_scheme(uri: Seq<char>, domain: Seq<char>)
    requires
        prefix_rule(uri, domain),
    ensures
        ({
            let lower = text::lowered(uri);
            ||| text::starts_with("https://"@, lower)
            ||| text::starts_with("http://"@, lower)
            ||| text::starts_with(lower, "https://"@)
            ||| text::starts_with(lower, "http://"@)
        }),
{
    let lower = text::lowered(uri);
    if text::starts_with(secure_root(domain), lower) {
        lemma_common_prefix(secure_root(domain), "https://"@, lower);
    } else {
        lemma_common_prefix(plain_root(domain), "http://"@, lower);
    }
}

proof fn lemma_common_prefix(s: Seq<char>, a: Seq<char>, b: Seq<char>)
    requires
        text::starts_with(s, b),
        a.len() <= s.len(),
        forall|i: int| 0 <= i < a.len() ==> s[i] == a[i],
    ensures
        text::starts_with(a, b) || text::starts_with(b, a),
{
    assert forall|i: int| 0 <= i < b.len() implies s[i] == b[i] by {
        assert(s.subrange(0, b.len() as int)[i] == b[i]);
    }
    if b.len() <= a.len() {
        assert(a.subrange(0, b.len() as int) =~= b);
    } else {
        assert(b.subrange(0, a.len() as int) =~= a);
    }
}

} // verus!
