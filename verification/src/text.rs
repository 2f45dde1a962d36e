//! Text primitives the helper matches and formats with, stated over
//! `Seq<char>`.

use vstd::prelude::*;
use vstd::string::*;

verus! {

/// The view of an optional owned text.
pub open spec fn opt_view(o: Option<String>) -> Option<Seq<char>> {
    match o {
        Some(s) => Some(s@),
        None => None,
    }
}

/// The view of an optional borrowed text.
pub open spec fn opt_str_view(o: Option<&str>) -> Option<Seq<char>> {
    match o {
        Some(s) => Some(s@),
        None => None,
    }
}

/// An optional text with the empty one read as absent.
pub open spec fn non_empty(o: Option<Seq<char>>) -> Option<Seq<char>> {
    match o {
        Some(s) if s.len() > 0 => Some(s),
        _ => None,
    }
}

/// A character with the Unicode `White_Space` property.
pub open spec fn is_space(c: char) -> bool {
    ||| '\u{9}' <= c <= '\u{d}'
    ||| c == ' '
    ||| c == '\u{85}'
    ||| c == '\u{a0}'
    ||| c == '\u{1680}'
    ||| '\u{2000}' <= c <= '\u{200a}'
    ||| c == '\u{2028}'
    ||| c == '\u{2029}'
    ||| c == '\u{202f}'
    ||| c == '\u{205f}'
    ||| c == '\u{3000}'
}

/// `s` without its leading white space.
pub open spec fn trim_start(s: Seq<char>) -> Seq<char>
    decreases s.len(),
{
    if s.len() > 0 && is_space(s[0]) {
        trim_start(s.drop_first())
    } else {
        s
    }
}

/// `s` without its trailing white space.
pub open spec fn trim_end(s: Seq<char>) -> Seq<char>
    decreases s.len(),
{
    if s.len() > 0 && is_space(s.last()) {
        trim_end(s.drop_last())
    } else {
        s
    }
}

/// `s` without the white space around it.
pub open spec fn trimmed(s: Seq<char>) -> Seq<char> {
    trim_end(trim_start(s))
}

/// `s` without its trailing slashes.
pub open spec fn without_slashes(s: Seq<char>) -> Seq<char>
    decreases s.len(),
{
    if s.len() > 0 && s.last() == '/' {
        without_slashes(s.drop_last())
    } else {
        s
    }
}

/// The number of characters of `s` in front of the first one in `stops`.
pub open spec fn before_any(s: Seq<char>, stops: Set<char>) -> nat
    decreases s.len(),
{
    if s.len() == 0 || stops.contains(s[0]) {
        0
    } else {
        1 + before_any(s.drop_first(), stops)
    }
}

/// How many characters follow the last `c`: all of them where there is none.
pub open spec fn since_last(s: Seq<char>, c: char) -> nat
    decreases s.len(),
{
    if s.len() == 0 || s.last() == c {
        0
    } else {
        1 + since_last(s.drop_last(), c)
    }
}

/// `needle` stands in `s` at position `at`.
pub open spec fn occurs_at(s: Seq<char>, needle: Seq<char>, at: int) -> bool {
    &&& 0 <= at
    &&& at + needle.len() <= s.len()
    &&& s.subrange(at, at + needle.len()) == needle
}

/// `needle` stands somewhere in `s`.
pub open spec fn occurs(s: Seq<char>, needle: Seq<char>) -> bool {
    exists|at: int| occurs_at(s, needle, at)
}

/// `at` is the first position at which `needle` stands in `s`.
pub open spec fn occurs_first_at(s: Seq<char>, needle: Seq<char>, at: int) -> bool {
    &&& occurs_at(s, needle, at)
    &&& forall|k: int| 0 <= k < at ==> !occurs_at(s, needle, k)
}

/// `suffix` ends `s`.
pub open spec fn ends_with(s: Seq<char>, suffix: Seq<char>) -> bool {
    &&& suffix.len() <= s.len()
    &&& s.subrange(s.len() - suffix.len(), s.len() as int) == suffix
}

/// `prefix` begins `s`.
pub open spec fn starts_with(s: Seq<char>, prefix: Seq<char>) -> bool {
    &&& prefix.len() <= s.len()
    &&& s.subrange(0, prefix.len() as int) == prefix
}

/// The ASCII lower case of a character; any other character is kept.
pub open spec fn ascii_lower(c: char) -> char {
    if 'A' <= c <= 'Z' {
        ((c as u32) + 32) as char
    } else {
        c
    }
}

/// `s` with its ASCII letters in lower case.
pub open spec fn ascii_lowered(s: Seq<char>) -> Seq<char> {
    Seq::new(s.len(), |i: int| ascii_lower(s[i]))
}

/// Two texts that differ at most in the case of ASCII letters.
pub open spec fn same_ignoring_ascii_case(a: Seq<char>, b: Seq<char>) -> bool {
    ascii_lowered(a) == ascii_lowered(b)
}

/// The Unicode lower case of a text.
pub uninterp spec fn lowered(s: Seq<char>) -> Seq<char>;

/// Calls `str::to_lowercase`. The result is a function of the text alone; for
/// an ASCII text it is the text with `A` to `Z` replaced by `a` to `z`. How
/// other letters map is Unicode's business and stays a name.
#[verifier::external_body]
pub(crate) fn lowercase(s: &str) -> (r: String)
    ensures
        r@ == lowered(s@),
        vstd::utf8::is_ascii_chars(s@) ==> r@ == ascii_lowered(s@),
{
    s.to_lowercase()
}

pub(crate) fn chars_of(s: &str) -> (r: Vec<char>)
    ensures
        r@ == s@,
{
    let mut r: Vec<char> = Vec::new();
    for c in it: s.chars()
        invariant
            it.seq() == s@,
            r@ == s@.take(it.index() as int),
    {
        r.push(c);
    }
    r
}

/// Whether two texts are equal.
pub fn same(a: &str, b: &str) -> (r: bool)
    ensures
        r == (a@ == b@),
{
    a.to_owned() == b.to_owned()
}

/// Whether `c` is white space.
pub fn is_white_space(c: char) -> (r: bool)
    ensures
        r == is_space(c),
{
    ('\u{9}' <= c && c <= '\u{d}') || c == ' ' || c == '\u{85}' || c == '\u{a0}' || c == '\u{1680}'
        || ('\u{2000}' <= c && c <= '\u{200a}') || c == '\u{2028}' || c == '\u{2029}'
        || c == '\u{202f}' || c == '\u{205f}' || c == '\u{3000}'
}

/// The text without the white space around it.
pub fn trim<'a>(s: &'a str) -> (r: &'a str)
    ensures
        r@ == trimmed(s@),
{
    let cs: Vec<char> = chars_of(s);
    let mut from: usize = 0;
    assert(s@.skip(0) == s@);
    while from < cs.len() && is_white_space(cs[from])
        invariant
            cs@ == s@,
            from <= cs.len(),
            trim_start(s@) == trim_start(s@.skip(from as int)),
        decreases cs.len() - from,
    {
        assert(s@.skip(from as int).drop_first() == s@.skip(from + 1));
        from = from + 1;
    }
    let ghost rest = trim_start(s@);
    assert(rest == s@.skip(from as int));
    let mut to: usize = cs.len();
    assert(s@.subrange(from as int, to as int) == rest);
    while from < to && is_white_space(cs[to - 1])
        invariant
            cs@ == s@,
            from <= to <= cs.len(),
            trim_end(rest) == trim_end(s@.subrange(from as int, to as int)),
        decreases to,
    {
        assert(s@.subrange(from as int, to as int).drop_last() == s@.subrange(from as int, to - 1));
        to = to - 1;
    }
    s.substring_char(from, to)
}

/// The text without its trailing slashes.
pub fn trim_slashes<'a>(s: &'a str) -> (r: &'a str)
    ensures
        r@ == without_slashes(s@),
{
    let cs: Vec<char> = chars_of(s);
    let mut to: usize = cs.len();
    assert(s@.take(to as int) == s@);
    while 0 < to && cs[to - 1] == '/'
        invariant
            cs@ == s@,
            to <= cs.len(),
            without_slashes(s@) == without_slashes(s@.take(to as int)),
        decreases to,
    {
        assert(s@.take(to as int).drop_last() == s@.take(to - 1));
        to = to - 1;
    }
    assert(s@.subrange(0, to as int) == s@.take(to as int));
    s.substring_char(0, to)
}

/// The start of the text up to the first stop character.
pub(crate) fn until_char<'a>(s: &'a str, c: char) -> (r: &'a str)
    ensures
        r@ == s@.take(before_any(s@, set![c]) as int),
        r@.len() == before_any(s@, set![c]),
{
    assert(set![c, c, c] =~= set![c]);
    until(s, c, c, c)
}

/// What follows the last `c`, or the whole text where there is none.
pub(crate) fn after_last<'a>(s: &'a str, c: char) -> (r: &'a str)
    ensures
        r@ == s@.skip(s@.len() - since_last(s@, c)),
{
    let cs: Vec<char> = chars_of(s);
    let len: usize = cs.len();
    let mut from: usize = len;
    assert(s@.take(len as int) == s@);
    while 0 < from && cs[from - 1] != c
        invariant
            cs@ == s@,
            len == cs.len(),
            from <= len,
            since_last(s@, c) == len - from + since_last(s@.take(from as int), c),
        decreases from,
    {
        assert(s@.take(from as int).drop_last() == s@.take(from - 1));
        from = from - 1;
    }
    assert(s@.subrange(from as int, len as int) == s@.skip(from as int));
    s.substring_char(from, len)
}

/// The start of the text up to the first of the three stop characters.
pub(crate) fn until<'a>(s: &'a str, a: char, b: char, c: char) -> (r: &'a str)
    ensures
        r@ == s@.take(before_any(s@, set![a, b, c]) as int),
        r@.len() == before_any(s@, set![a, b, c]),
{
    let cs: Vec<char> = chars_of(s);
    let ghost stops = set![a, b, c];
    let mut to: usize = 0;
    assert(s@.skip(0) == s@);
    while to < cs.len() && cs[to] != a && cs[to] != b && cs[to] != c
        invariant
            cs@ == s@,
            stops == set![a, b, c],
            to <= cs.len(),
            before_any(s@, stops) == to + before_any(s@.skip(to as int), stops),
        decreases cs.len() - to,
    {
        assert(s@.skip(to as int).drop_first() == s@.skip(to + 1));
        to = to + 1;
    }
    assert(before_any(s@, stops) == to);
    assert(s@.subrange(0, to as int) == s@.take(to as int));
    s.substring_char(0, to)
}

/// The first position at which `needle` stands in `s`, counted in characters.
pub fn find(s: &str, needle: &str) -> (r: Option<usize>)
    ensures
        match r {
            Some(at) => occurs_first_at(s@, needle@, at as int),
            None => !occurs(s@, needle@),
        },
{
    let hay: Vec<char> = chars_of(s);
    let pin: Vec<char> = chars_of(needle);
    if pin.len() > hay.len() {
        return None;
    }
    let last: usize = hay.len() - pin.len();
    let mut at: usize = 0;
    while at <= last
        invariant
            hay@ == s@,
            pin@ == needle@,
            last == hay.len() - pin.len(),
            at <= last + 1,
            forall|k: int| 0 <= k < at ==> !#[trigger] occurs_at(s@, needle@, k),
        decreases last + 1 - at,
    {
        let mut k: usize = 0;
        while k < pin.len() && hay[at + k] == pin[k]
            invariant
                hay@ == s@,
                pin@ == needle@,
                at + pin.len() <= hay.len(),
                k <= pin.len(),
                forall|j: int| 0 <= j < k ==> hay@[at + j] == pin@[j],
            decreases pin.len() - k,
        {
            k = k + 1;
        }
        if k == pin.len() {
            assert(s@.subrange(at as int, at + needle@.len()) =~= needle@);
            return Some(at);
        }
        assert(!occurs_at(s@, needle@, at as int)) by {
            if occurs_at(s@, needle@, at as int) {
                assert(s@.subrange(at as int, at + needle@.len())[k as int] == needle@[k as int]);
            }
        }
        if at == last {
            return None;
        }
        at = at + 1;
    }
    None
}

/// Whether `needle` stands somewhere in `s`.
pub fn contains(s: &str, needle: &str) -> (r: bool)
    ensures
        r == occurs(s@, needle@),
{
    match find(s, needle) {
        Some(at) => {
            assert(occurs_at(s@, needle@, at as int));
            true
        },
        None => false,
    }
}

/// Whether `c` stands somewhere in `s`.
pub fn contains_char(s: &str, c: char) -> (r: bool)
    ensures
        r == s@.contains(c),
{
    let cs: Vec<char> = chars_of(s);
    let mut i: usize = 0;
    while i < cs.len()
        invariant
            cs@ == s@,
            i <= cs.len(),
            forall|k: int| 0 <= k < i ==> s@[k] != c,
        decreases cs.len() - i,
    {
        if cs[i] == c {
            assert(s@[i as int] == c);
            return true;
        }
        i = i + 1;
    }
    false
}

/// Whether `s` begins with `prefix`.
pub fn has_prefix(s: &str, prefix: &str) -> (r: bool)
    ensures
        r == starts_with(s@, prefix@),
{
    let n: usize = prefix.unicode_len();
    if n > s.unicode_len() {
        return false;
    }
    same(s.substring_char(0, n), prefix)
}

/// Whether `s` ends with `suffix`.
pub fn has_suffix(s: &str, suffix: &str) -> (r: bool)
    ensures
        r == ends_with(s@, suffix@),
{
    let n: usize = suffix.unicode_len();
    let len: usize = s.unicode_len();
    if n > len {
        return false;
    }
    same(s.substring_char(len - n, len), suffix)
}

/// The ASCII lower case of a character.
pub fn to_ascii_lower(c: char) -> (r: char)
    ensures
        r == ascii_lower(c),
{
    if 'A' <= c && c <= 'Z' {
        ((c as u8) + 32) as char
    } else {
        c
    }
}

/// Whether two texts differ at most in the case of ASCII letters.
pub fn equal_ignoring_ascii_case(a: &str, b: &str) -> (r: bool)
    ensures
        r == same_ignoring_ascii_case(a@, b@),
{
    let left: Vec<char> = chars_of(a);
    let right: Vec<char> = chars_of(b);
    if left.len() != right.len() {
        assert(ascii_lowered(a@).len() != ascii_lowered(b@).len());
        return false;
    }
    let mut i: usize = 0;
    while i < left.len()
        invariant
            left@ == a@,
            right@ == b@,
            left.len() == right.len(),
            i <= left.len(),
            forall|k: int| 0 <= k < i ==> ascii_lower(a@[k]) == ascii_lower(b@[k]),
        decreases left.len() - i,
    {
        if to_ascii_lower(left[i]) != to_ascii_lower(right[i]) {
            assert(ascii_lowered(a@)[i as int] != ascii_lowered(b@)[i as int]);
            return false;
        }
        i = i + 1;
    }
    assert(ascii_lowered(a@) =~= ascii_lowered(b@));
    true
}

/// A copy of an optional text.
pub fn copy(o: &Option<String>) -> (r: Option<String>)
    ensures
        r == *o,
{
    match o {
        Some(s) => Some(s.clone()),
        None => None,
    }
}

/// An owned copy of an optional text, the empty one read as absent.
pub fn owned_non_empty(o: Option<&str>) -> (r: Option<String>)
    ensures
        opt_view(r) == non_empty(opt_str_view(o)),
{
    match o {
        Some(s) => if s.is_empty() {
            None
        } else {
            Some(s.to_owned())
        },
        None => None,
    }
}

/// A borrow of an optional text.
pub fn borrowed<'a>(o: &'a Option<String>) -> (r: Option<&'a str>)
    ensures
        opt_str_view(r) == opt_view(*o),
{
    match o {
        Some(s) => Some(s.as_str()),
        None => None,
    }
}

/// White space alone.
pub open spec fn is_blank(s: Seq<char>) -> bool {
    forall|i: int| 0 <= i < s.len() ==> is_space(#[trigger] s[i])
}

/// White space in front of a text is trimmed from its start.
pub proof fn blanks_in_front_are_trimmed(blank: Seq<char>, s: Seq<char>)
    requires
        is_blank(blank),
    ensures
        trim_start(blank + s) == trim_start(s),
    decreases blank.len(),
{
    if blank.len() == 0 {
        assert(blank + s =~= s);
    } else {
        let rest = blank.drop_first();
        assert((blank + s)[0] == blank[0]);
        assert((blank + s).drop_first() =~= rest + s);
        assert forall|i: int| 0 <= i < rest.len() implies is_space(#[trigger] rest[i]) by {
            assert(rest[i] == blank[i + 1]);
        }
        blanks_in_front_are_trimmed(rest, s);
    }
}

/// White space behind a text is trimmed from its end.
pub proof fn blanks_behind_are_trimmed(s: Seq<char>, blank: Seq<char>)
    requires
        is_blank(blank),
    ensures
        trim_end(s + blank) == trim_end(s),
    decreases blank.len(),
{
    if blank.len() == 0 {
        assert(s + blank =~= s);
    } else {
        let init = blank.drop_last();
        assert((s + blank).last() == blank[blank.len() - 1]);
        assert((s + blank).drop_last() =~= s + init);
        assert forall|i: int| 0 <= i < init.len() implies is_space(#[trigger] init[i]) by {
            assert(init[i] == blank[i]);
        }
        blanks_behind_are_trimmed(s, init);
    }
}

/// Trimming takes the white space around a text and nothing else.
pub proof fn trimming_takes_the_blanks_around(before: Seq<char>, core: Seq<char>, after: Seq<char>)
    requires
        is_blank(before),
        is_blank(after),
        core.len() > 0 ==> !is_space(core[0]) && !is_space(core.last()),
    ensures
        trimmed(before + core + after) == core,
{
    assert(before + core + after =~= before + (core + after));
    blanks_in_front_are_trimmed(before, core + after);
    if core.len() > 0 {
        assert((core + after)[0] == core[0]);
        blanks_behind_are_trimmed(core, after);
    } else {
        assert(core + after =~= after + core);
        blanks_in_front_are_trimmed(after, core);
        assert(trim_start(core + after) =~= core);
    }
}

/// A text occurs in another where that is it with something around it.
pub proof fn occurrences_have_something_around(s: Seq<char>, needle: Seq<char>)
    ensures
        occurs(s, needle) <==> exists|a: Seq<char>, b: Seq<char>| s == #[trigger] (a + needle + b),
{
    if occurs(s, needle) {
        let at = choose|at: int| #[trigger] occurs_at(s, needle, at);
        let a = s.take(at);
        let b = s.skip(at + needle.len());
        assert(s =~= a + s.subrange(at, at + needle.len()) + b);
    }
    if exists|a: Seq<char>, b: Seq<char>| s == #[trigger] (a + needle + b) {
        let (a, b) = choose|a: Seq<char>, b: Seq<char>| s == #[trigger] (a + needle + b);
        assert(s.subrange(a.len() as int, (a.len() + needle.len()) as int) =~= needle);
        assert(occurs_at(s, needle, a.len() as int));
    }
}

/// A text starts with another where that is it with something behind it, and
/// ends with it where something stands in front.
pub proof fn prefixes_and_suffixes(s: Seq<char>, part: Seq<char>)
    ensures
        starts_with(s, part) <==> exists|b: Seq<char>| s == #[trigger] (part + b),
        ends_with(s, part) <==> exists|a: Seq<char>| s == #[trigger] (a + part),
{
    if starts_with(s, part) {
        assert(s =~= s.subrange(0, part.len() as int) + s.skip(part.len() as int));
    }
    if ends_with(s, part) {
        assert(s =~= s.take(s.len() - part.len()) + s.subrange(
            s.len() - part.len(),
            s.len() as int,
        ));
    }
    if exists|b: Seq<char>| s == #[trigger] (part + b) {
        assert(s.subrange(0, part.len() as int) =~= part);
    }
    if exists|a: Seq<char>| s == #[trigger] (a + part) {
        assert(s.subrange(s.len() - part.len(), s.len() as int) =~= part);
    }
}

/// A run of slashes.
pub open spec fn slashes(count: nat) -> Seq<char> {
    Seq::new(count, |i: int| '/')
}

/// All the slashes at the end of a text are taken off it, however many, and no
/// other character.
pub proof fn trailing_slashes_are_taken_off(s: Seq<char>, count: nat)
    requires
        s.len() > 0 ==> s.last() != '/',
    ensures
        without_slashes(s + slashes(count)) == s,
    decreases count,
{
    if count == 0 {
        assert(s + slashes(count) =~= s);
    } else {
        assert((s + slashes(count)).last() == '/');
        assert((s + slashes(count)).drop_last() =~= s + slashes((count - 1) as nat));
        trailing_slashes_are_taken_off(s, (count - 1) as nat);
    }
}

/// Every text is one without slashes at its end, and slashes.
pub proof fn slashes_are_all_that_is_taken_off(s: Seq<char>)
    ensures
        without_slashes(s).len() <= s.len(),
        s == without_slashes(s) + slashes((s.len() - without_slashes(s).len()) as nat),
        without_slashes(s).len() > 0 ==> without_slashes(s).last() != '/',
    decreases s.len(),
{
    if s.len() > 0 && s.last() == '/' {
        let init = s.drop_last();
        slashes_are_all_that_is_taken_off(init);
        let stem = without_slashes(s);
        assert(s =~= init.push('/'));
        assert(s =~= stem + slashes((s.len() - stem.len()) as nat));
    } else {
        assert(s =~= s + slashes(0));
    }
}

/// Two characters that are equal but for the case of an ASCII letter: a small
/// letter stands thirty-two places behind its capital.
pub open spec fn same_letter(a: char, b: char) -> bool {
    ||| a == b
    ||| 'A' <= a <= 'Z' && b as int == a as int + 32
    ||| 'A' <= b <= 'Z' && a as int == b as int + 32
}

/// Texts that are the same whatever their ASCII case are the same letter by
/// letter, and of one length.
pub proof fn case_is_ignored_letter_by_letter(a: Seq<char>, b: Seq<char>)
    ensures
        same_ignoring_ascii_case(a, b) <==> a.len() == b.len() && forall|i: int|
            0 <= i < a.len() ==> same_letter(#[trigger] a[i], b[i]),
{
    if same_ignoring_ascii_case(a, b) {
        assert(a.len() == ascii_lowered(a).len() == ascii_lowered(b).len() == b.len());
        assert forall|i: int| 0 <= i < a.len() implies same_letter(#[trigger] a[i], b[i]) by {
            assert(ascii_lowered(a)[i] == ascii_lowered(b)[i]);
        }
    }
    if a.len() == b.len() && forall|i: int| 0 <= i < a.len() ==> same_letter(#[trigger] a[i], b[i]) {
        assert(ascii_lowered(a) =~= ascii_lowered(b)) by {
            assert forall|i: int| 0 <= i < a.len() implies ascii_lower(a[i]) == ascii_lower(b[i]) by {
                assert(same_letter(a[i], b[i]));
            }
        }
    }
}

/// What follows the last of a character is the end of the text that holds no
/// more of it.
pub proof fn the_last_one_is_found(a: Seq<char>, c: char, b: Seq<char>)
    requires
        !b.contains(c),
    ensures
        since_last(a + seq![c] + b, c) == b.len(),
    decreases b.len(),
{
    let s = a + seq![c] + b;
    if b.len() == 0 {
        assert(s.last() == c);
    } else {
        let init = b.drop_last();
        assert(b.contains(b[b.len() - 1]));
        assert(s.last() == b[b.len() - 1]);
        assert(s.drop_last() =~= a + seq![c] + init);
        assert(!init.contains(c)) by {
            if init.contains(c) {
                let i = choose|i: int| 0 <= i < init.len() && init[i] == c;
                assert(b[i] == c);
            }
        }
        the_last_one_is_found(a, c, init);
    }
}

} // verus!
