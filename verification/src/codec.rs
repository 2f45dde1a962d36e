//! The text form of JSON values: `serde_json` reads and writes it, and this
//! module carries its values to `Json` and back.

use vstd::prelude::*;

use crate::json;
use crate::json::{Json, JsonView};

verus! {

/// A number that is no integer from `i64::MIN` to `u64::MAX`, carried through
/// unread. Only the reader of JSON texts makes one.
#[derive(Debug, PartialEq)]
pub struct Decimal {
    number: serde_json::Number,
}

/// What a `serde_json::Value` holds.
pub uninterp spec fn contents(v: serde_json::Value) -> JsonView;

/// The value that a byte string is the JSON text of, if it is one that the
/// parser takes: deeper nesting than it allows counts as no JSON text.
pub uninterp spec fn parsed(bytes: Seq<u8>) -> Option<JsonView>;

/// The JSON text of a value.
pub uninterp spec fn rendered(value: JsonView) -> Seq<u8>;

/// The text of `value` tells all of it to a parser that takes `depth` containers
/// one in another: its containers nest no deeper, and all its numbers are
/// integers.
pub open spec fn exact_within(value: JsonView, depth: nat) -> bool
    decreases depth,
{
    match value {
        JsonView::Decimal(_) => false,
        JsonView::Array(items) => {
            &&& depth > 0
            &&& forall|i: int|
                0 <= i < items.len() ==> #[trigger] exact_within(items[i], (depth - 1) as nat)
        },
        JsonView::Object(fields) => {
            &&& depth > 0
            &&& forall|name: Seq<char>|
                fields.contains_key(name) ==> #[trigger] exact_within(
                    fields[name],
                    (depth - 1) as nat,
                )
        },
        _ => true,
    }
}

/// Calls `serde_json::from_slice` for a `serde_json::Value`. Whether it fails,
/// and what it reads where it does not, depends on the bytes alone and stays a
/// name. The wording of its error is left unsaid.
#[verifier::external_body]
fn parse(bytes: &[u8]) -> (r: Result<serde_json::Value, serde_json::Error>)
    ensures
        match r {
            Ok(v) => parsed(bytes@) == Some(contents(v)),
            Err(_) => parsed(bytes@) is None,
        },
{
    serde_json::from_slice(bytes)
}

/// Calls `serde_json::to_vec` on a `serde_json::Value`. It does not fail: every
/// key is a string and the writer is a vector. The text is never empty and
/// depends on what the value holds alone, object fields being written in key
/// order. Text of a value whose numbers are all integers, nested no deeper than
/// the parser's limit of 128 allows, parses back to it.
#[verifier::external_body]
fn render(v: &serde_json::Value) -> (r: Result<Vec<u8>, serde_json::Error>)
    ensures
        r is Ok,
        r->Ok_0@ == rendered(contents(*v)),
        r->Ok_0@.len() > 0,
        exact_within(contents(*v), 127) ==> parsed(r->Ok_0@) == Some(contents(*v)),
{
    serde_json::to_vec(v)
}

/// One level of a `serde_json::Value`.
enum Node {
    Null,
    Bool(bool),
    Count(u64),
    Negative(i64),
    Decimal(Decimal),
    Text(String),
    Array(Vec<serde_json::Value>),
    Object(Vec<(String, serde_json::Value)>),
}

/// The values of an array.
spec fn node_items(items: Seq<serde_json::Value>) -> Seq<JsonView> {
    Seq::new(items.len(), |i: int| contents(items[i]))
}

/// The fields of an object, set one after the other.
spec fn node_fields(fields: Seq<(String, serde_json::Value)>) -> Map<Seq<char>, JsonView>
    decreases fields.len(),
{
    if fields.len() == 0 {
        Map::empty()
    } else {
        node_fields(fields.drop_last()).insert(fields.last().0@, contents(fields.last().1))
    }
}

/// No two fields share a name.
spec fn distinct_names(fields: Seq<(String, serde_json::Value)>) -> bool {
    forall|i: int, j: int|
        #![trigger fields[i], fields[j]]
        0 <= i < j < fields.len() ==> fields[i].0@ != fields[j].0@
}

spec fn node_view(node: Node) -> JsonView {
    match node {
        Node::Null => JsonView::Null,
        Node::Bool(b) => JsonView::Bool(b),
        Node::Count(n) => JsonView::Integer(n as int),
        Node::Negative(n) => JsonView::Integer(n as int),
        Node::Decimal(d) => JsonView::Decimal(d),
        Node::Text(s) => JsonView::Text(s@),
        Node::Array(items) => JsonView::Array(node_items(items@)),
        Node::Object(fields) => JsonView::Object(node_fields(fields@)),
    }
}

/// Takes one level of a `serde_json::Value` apart, variant by variant. A number
/// that `serde_json::Number::as_u64` or `serde_json::Number::as_i64` reads is
/// that integer, and any other is a `Decimal`. The fields of a `serde_json::Map`
/// have distinct names.
#[verifier::external_body]
fn open_value(v: serde_json::Value) -> (r: Node)
    ensures
        node_view(r) == contents(v),
        r matches Node::Object(fields) ==> distinct_names(fields@),
{
    match v {
        serde_json::Value::Null => Node::Null,
        serde_json::Value::Bool(b) => Node::Bool(b),
        serde_json::Value::Number(number) => match (number.as_u64(), number.as_i64()) {
            (Some(n), _) => Node::Count(n),
            (None, Some(n)) => Node::Negative(n),
            (None, None) => Node::Decimal(Decimal { number }),
        },
        serde_json::Value::String(s) => Node::Text(s),
        serde_json::Value::Array(items) => Node::Array(items),
        serde_json::Value::Object(fields) => Node::Object(fields.into_iter().collect()),
    }
}

/// Puts one level of a `serde_json::Value` together, variant by variant. An
/// integer goes through `serde_json::Number::from`, which holds it as one of the
/// same value whatever its type; a `Decimal` gives back the number it was read
/// as; the fields of an object are collected into a `serde_json::Map`.
#[verifier::external_body]
fn close_value(node: Node) -> (r: serde_json::Value)
    requires
        node matches Node::Object(fields) ==> distinct_names(fields@),
    ensures
        contents(r) == node_view(node),
{
    match node {
        Node::Null => serde_json::Value::Null,
        Node::Bool(b) => serde_json::Value::Bool(b),
        Node::Count(n) => serde_json::Value::Number(serde_json::Number::from(n)),
        Node::Negative(n) => serde_json::Value::Number(serde_json::Number::from(n)),
        Node::Decimal(d) => serde_json::Value::Number(d.number),
        Node::Text(s) => serde_json::Value::String(s),
        Node::Array(items) => serde_json::Value::Array(items),
        Node::Object(fields) => serde_json::Value::Object(fields.into_iter().collect()),
    }
}

proof fn lemma_distinct_init(fields: Seq<(String, serde_json::Value)>)
    requires
        distinct_names(fields),
        fields.len() > 0,
    ensures
        distinct_names(fields.drop_last()),
{
    let init = fields.drop_last();
    assert forall|i: int, j: int|
        #![trigger init[i], init[j]]
        0 <= i < j < init.len() implies init[i].0@ != init[j].0@ by {
        assert(init[i] == fields[i] && init[j] == fields[j]);
    }
}

proof fn lemma_fields_finite(fields: Seq<(String, serde_json::Value)>)
    ensures
        node_fields(fields).dom().finite(),
    decreases fields.len(),
{
    if fields.len() > 0 {
        lemma_fields_finite(fields.drop_last());
    }
}

/// Among fields of distinct names, each shows under its name.
proof fn lemma_field_shows(fields: Seq<(String, serde_json::Value)>, at: int)
    requires
        distinct_names(fields),
        0 <= at < fields.len(),
    ensures
        node_fields(fields).contains_key(fields[at].0@),
        node_fields(fields)[fields[at].0@] == contents(fields[at].1),
    decreases fields.len(),
{
    if at < fields.len() - 1 {
        lemma_distinct_init(fields);
        lemma_field_shows(fields.drop_last(), at);
        assert(fields[at].0@ != fields[fields.len() - 1].0@);
    }
}

/// Among fields of distinct names, replacing the value at `at` sets the field
/// of that name.
proof fn lemma_replace_field(
    fields: Seq<(String, serde_json::Value)>,
    at: int,
    name: String,
    value: serde_json::Value,
)
    requires
        distinct_names(fields),
        0 <= at < fields.len(),
        fields[at].0@ == name@,
    ensures
        node_fields(fields.update(at, (name, value))) == node_fields(fields).insert(
            name@,
            contents(value),
        ),
        distinct_names(fields.update(at, (name, value))),
    decreases fields.len(),
{
    let next = fields.update(at, (name, value));
    let init = fields.drop_last();
    if at == fields.len() - 1 {
        assert(next.drop_last() =~= init);
        assert(node_fields(next) =~= node_fields(fields).insert(name@, contents(value)));
    } else {
        lemma_distinct_init(fields);
        lemma_replace_field(init, at, name, value);
        assert(next.drop_last() =~= init.update(at, (name, value)));
        assert(next.last() == fields.last());
        assert(fields[at].0@ != fields[fields.len() - 1].0@);
        assert(node_fields(next) =~= node_fields(fields).insert(name@, contents(value)));
    }
}

/// The `Json` with the contents of a `serde_json::Value`.
fn from_value(v: serde_json::Value) -> (r: Json)
    ensures
        r@ == contents(v),
    decreases contents(v),
{
    let ghost whole = contents(v);
    match open_value(v) {
        Node::Null => Json::Null,
        Node::Bool(b) => Json::Bool(b),
        Node::Count(n) => Json::Count(n),
        Node::Negative(n) => Json::Negative(n),
        Node::Decimal(d) => Json::Decimal(d),
        Node::Text(s) => Json::Text(s),
        Node::Array(items) => {
            let ghost all = items@;
            let mut out: Vec<Json> = Vec::new();
            for item in it: items
                invariant
                    it.seq() == all,
                    whole == contents(v),
                    whole == JsonView::Array(node_items(all)),
                    out@.len() == it.index(),
                    forall|k: int| 0 <= k < out@.len() ==> (#[trigger] out@[k])@ == contents(all[k]),
            {
                proof {
                    assert(whole->Array_0[it.index() as int] == contents(item));
                    assert(decreases_to!(whole => whole->Array_0));
                }
                out.push(from_value(item));
            }
            assert(json::items_view(out@) =~= node_items(all));
            Json::Array(out)
        },
        Node::Object(fields) => {
            let ghost all = fields@;
            let mut out: Vec<(String, Json)> = Vec::new();
            for field in it: fields
                invariant
                    it.seq() == all,
                    whole == contents(v),
                    whole == JsonView::Object(node_fields(all)),
                    distinct_names(all),
                    json::fields_view(out@) == node_fields(all.take(it.index() as int)),
            {
                proof {
                    lemma_fields_finite(all);
                    lemma_field_shows(all, it.index() as int);
                    assert(decreases_to!(whole => whole->Object_0));
                    assert(whole->Object_0[field.0@] == contents(field.1));
                }
                let (name, value) = field;
                let ghost before = out@;
                out.push((name, from_value(value)));
                proof {
                    assert(out@.drop_last() == before);
                    assert(all.take(it.index() + 1).drop_last() == all.take(it.index() as int));
                }
            }
            assert(all.take(all.len() as int) == all);
            Json::Object(out)
        },
    }
}

/// Sets the field `name` among fields of distinct names.
fn set_field(fields: &mut Vec<(String, serde_json::Value)>, name: String, value: serde_json::Value)
    requires
        distinct_names(old(fields)@),
    ensures
        distinct_names(final(fields)@),
        node_fields(final(fields)@) == node_fields(old(fields)@).insert(name@, contents(value)),
{
    let ghost before = fields@;
    let mut at: usize = 0;
    while at < fields.len()
        invariant
            fields@ == before,
            before == old(fields)@,
            at <= fields.len(),
            distinct_names(before),
            forall|k: int| 0 <= k < at ==> before[k].0@ != name@,
        decreases fields.len() - at,
    {
        if fields[at].0 == name {
            proof {
                lemma_replace_field(before, at as int, name, value);
            }
            fields.set(at, (name, value));
            return;
        }
        at = at + 1;
    }
    fields.push((name, value));
    assert(fields@.drop_last() == before);
}

/// The `serde_json::Value` with the contents of a `Json`.
fn into_value(j: Json) -> (r: serde_json::Value)
    ensures
        contents(r) == j@,
    decreases j,
{
    match j {
        Json::Null => close_value(Node::Null),
        Json::Bool(b) => close_value(Node::Bool(b)),
        Json::Count(n) => close_value(Node::Count(n)),
        Json::Negative(n) => close_value(Node::Negative(n)),
        Json::Decimal(d) => close_value(Node::Decimal(d)),
        Json::Text(s) => close_value(Node::Text(s)),
        Json::Array(items) => {
            let ghost all = items@;
            let mut out: Vec<serde_json::Value> = Vec::new();
            for item in it: items
                invariant
                    it.seq() == all,
                    j == Json::Array(items),
                    all == items@,
                    out@.len() == it.index(),
                    forall|k: int| 0 <= k < out@.len() ==> contents(#[trigger] out@[k]) == all[k]@,
            {
                proof {
                    assert(all[it.index() as int] == item);
                    assert(decreases_to!(j => j->Array_0));
                    assert(decreases_to!(j->Array_0 => j->Array_0@));
                }
                out.push(into_value(item));
            }
            assert(node_items(out@) =~= json::items_view(all));
            close_value(Node::Array(out))
        },
        Json::Object(fields) => {
            let ghost all = fields@;
            let mut out: Vec<(String, serde_json::Value)> = Vec::new();
            for field in it: fields
                invariant
                    it.seq() == all,
                    j == Json::Object(fields),
                    all == fields@,
                    distinct_names(out@),
                    node_fields(out@) == json::fields_view(all.take(it.index() as int)),
            {
                proof {
                    assert(all[it.index() as int] == field);
                    assert(decreases_to!(j => j->Object_0));
                    assert(decreases_to!(j->Object_0 => j->Object_0@));
                    assert(decreases_to!(j->Object_0@ => j->Object_0@[it.index() as int]));
                    assert(decreases_to!(field => field.1));
                    assert(all.take(it.index() + 1).drop_last() == all.take(it.index() as int));
                }
                let (name, value) = field;
                set_field(&mut out, name, into_value(value));
            }
            assert(all.take(all.len() as int) == all);
            close_value(Node::Object(out))
        },
    }
}

/// Reads a value off its JSON text. Fails exactly where the bytes are no JSON
/// text.
pub fn decode(bytes: &[u8]) -> (r: Result<Json, serde_json::Error>)
    ensures
        match r {
            Ok(j) => parsed(bytes@) == Some(j@),
            Err(_) => parsed(bytes@) is None,
        },
{
    match parse(bytes) {
        Ok(v) => Ok(from_value(v)),
        Err(e) => Err(e),
    }
}

/// Writes the JSON text of a value.
pub fn encode(j: Json) -> (r: Result<Vec<u8>, serde_json::Error>)
    ensures
        r is Ok,
        r->Ok_0@ == rendered(j@),
        r->Ok_0@.len() > 0,
        exact_within(j@, 127) ==> parsed(r->Ok_0@) == Some(j@),
{
    render(&into_value(j))
}

} // verus!
