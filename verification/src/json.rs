//! JSON values as the protocol reads and builds them.

use vstd::prelude::*;

use crate::codec::Decimal;
use crate::text;

verus! {

/// `serde_json::Value`, carried between the parser and `Json`.
#[verifier::external_type_specification]
#[verifier::external_body]
pub struct ExValue(serde_json::Value);

/// `serde_json::Number`, carried inside a `Decimal`.
#[verifier::external_type_specification]
#[verifier::external_body]
pub struct ExNumber(serde_json::Number);

/// `serde_json::Error`, handed on to whoever reports a bad frame.
#[verifier::external_type_specification]
#[verifier::external_body]
pub struct ExError(serde_json::Error);

/// A JSON value. Integers are held as a `Count` from 0 up and as a `Negative`
/// below; both show as the same integers. Every other number is a `Decimal`,
/// which the protocol only ever passes back. An object is the list of its fields
/// as they were set, a later one replacing an earlier one of the same name.
#[derive(Debug, PartialEq)]
pub enum Json {
    Null,
    Bool(bool),
    Count(u64),
    Negative(i64),
    Decimal(Decimal),
    Text(String),
    Array(Vec<Json>),
    Object(Vec<(String, Json)>),
}

/// The mathematical value of a `Json`.
pub enum JsonView {
    Null,
    Bool(bool),
    Integer(int),
    Decimal(Decimal),
    Text(Seq<char>),
    Array(Seq<JsonView>),
    Object(Map<Seq<char>, JsonView>),
}

/// The items of an array.
pub open spec fn items_view(items: Seq<Json>) -> Seq<JsonView>
    decreases items,
{
    Seq::new(
        items.len(),
        |i: int|
            if 0 <= i < items.len() {
                json_view(items[i])
            } else {
                JsonView::Null
            },
    )
}

/// The fields of an object, set one after the other.
pub open spec fn fields_view(fields: Seq<(String, Json)>) -> Map<Seq<char>, JsonView>
    decreases fields,
{
    if fields.len() == 0 {
        Map::empty()
    } else {
        fields_view(fields.drop_last()).insert(fields.last().0@, json_view(fields.last().1))
    }
}

pub open spec fn json_view(j: Json) -> JsonView
    decreases j,
{
    match j {
        Json::Null => JsonView::Null,
        Json::Bool(b) => JsonView::Bool(b),
        Json::Count(n) => JsonView::Integer(n as int),
        Json::Negative(n) => JsonView::Integer(n as int),
        Json::Decimal(d) => JsonView::Decimal(d),
        Json::Text(s) => JsonView::Text(s@),
        Json::Array(items) => JsonView::Array(items_view(items@)),
        Json::Object(fields) => JsonView::Object(fields_view(fields@)),
    }
}

impl View for Json {
    type V = JsonView;

    open spec fn view(&self) -> JsonView {
        json_view(*self)
    }
}

impl JsonView {
    /// The field `name` of an object; no other value has fields.
    pub open spec fn field(self, name: Seq<char>) -> Option<JsonView> {
        match self {
            JsonView::Object(fields) => if fields.contains_key(name) {
                Some(fields[name])
            } else {
                None
            },
            _ => None,
        }
    }

    /// The characters of a text; no other value has any.
    pub open spec fn text(self) -> Option<Seq<char>> {
        match self {
            JsonView::Text(s) => Some(s),
            _ => None,
        }
    }

    /// The characters of the field `name`, where it is a text.
    pub open spec fn text_field(self, name: Seq<char>) -> Option<Seq<char>> {
        match self.field(name) {
            Some(value) => value.text(),
            None => None,
        }
    }
}

/// The view of an optional value.
pub open spec fn opt_json_view(o: Option<Json>) -> Option<JsonView> {
    match o {
        Some(j) => Some(j@),
        None => None,
    }
}

/// The field at `at`, which none of the later ones renames, is the one the
/// object shows.
proof fn lemma_last_field(fields: Seq<(String, Json)>, at: int)
    requires
        0 <= at < fields.len(),
        forall|k: int| at < k < fields.len() ==> fields[k].0@ != fields[at].0@,
    ensures
        fields_view(fields).contains_key(fields[at].0@),
        fields_view(fields)[fields[at].0@] == fields[at].1@,
    decreases fields.len(),
{
    if at < fields.len() - 1 {
        let init = fields.drop_last();
        assert forall|k: int| at < k < init.len() implies init[k].0@ != init[at].0@ by {
            assert(init[k] == fields[k]);
        }
        lemma_last_field(init, at);
        assert(fields[fields.len() - 1].0@ != fields[at].0@);
    }
}

/// A name that no field has is not in the object.
proof fn lemma_no_field(fields: Seq<(String, Json)>, name: Seq<char>)
    requires
        forall|k: int| 0 <= k < fields.len() ==> fields[k].0@ != name,
    ensures
        !fields_view(fields).contains_key(name),
    decreases fields.len(),
{
    if fields.len() > 0 {
        let init = fields.drop_last();
        assert forall|k: int| 0 <= k < init.len() implies init[k].0@ != name by {
            assert(init[k] == fields[k]);
        }
        lemma_no_field(init, name);
        assert(fields[fields.len() - 1].0@ != name);
    }
}

/// The position of the field `name` that counts: the last one set.
fn position(fields: &Vec<(String, Json)>, name: &str) -> (r: Option<usize>)
    ensures
        match r {
            Some(at) => {
                &&& at < fields.len()
                &&& fields@[at as int].0@ == name@
                &&& fields_view(fields@).contains_key(name@)
                &&& fields_view(fields@)[name@] == fields@[at as int].1@
            },
            None => !fields_view(fields@).contains_key(name@),
        },
{
    let mut at: usize = fields.len();
    while at > 0
        invariant
            at <= fields.len(),
            forall|k: int| at <= k < fields.len() ==> fields@[k].0@ != name@,
        decreases at,
    {
        at = at - 1;
        if text::same(fields[at].0.as_str(), name) {
            proof {
                lemma_last_field(fields@, at as int);
            }
            return Some(at);
        }
    }
    proof {
        lemma_no_field(fields@, name@);
    }
    None
}

impl Json {
    /// The field `name` of an object; `None` where there is none.
    pub fn get(&self, name: &str) -> (r: Option<&Json>)
        ensures
            match r {
                Some(value) => self@.field(name@) == Some(value@),
                None => self@.field(name@) is None,
            },
    {
        match self {
            Json::Object(fields) => match position(fields, name) {
                Some(at) => Some(&fields[at].1),
                None => None,
            },
            _ => None,
        }
    }

    /// The characters of a text; `None` for any other value.
    pub fn as_str(&self) -> (r: Option<&str>)
        ensures
            text::opt_str_view(r) == self@.text(),
    {
        match self {
            Json::Text(s) => Some(s.as_str()),
            _ => None,
        }
    }

    /// The characters of the field `name`, where it is a text.
    pub fn text_at(&self, name: &str) -> (r: Option<&str>)
        ensures
            text::opt_str_view(r) == self@.text_field(name@),
    {
        match self.get(name) {
            Some(value) => value.as_str(),
            None => None,
        }
    }

    /// A text.
    pub fn text(s: &str) -> (r: Json)
        ensures
            r@ == JsonView::Text(s@),
    {
        Json::Text(s.to_owned())
    }

    /// Takes the field `name` out of an object, where it has one.
    pub fn into_field(self, name: &str) -> (r: Option<Json>)
        ensures
            opt_json_view(r) == self@.field(name@),
    {
        match self {
            Json::Object(mut fields) => match position(&fields, name) {
                Some(at) => {
                    let (_, value) = fields.swap_remove(at);
                    Some(value)
                },
                None => None,
            },
            _ => None,
        }
    }
}

/// Sets the field `name` of an object under construction.
pub fn put(fields: &mut Vec<(String, Json)>, name: &str, value: Json)
    ensures
        fields_view(final(fields)@) == fields_view(old(fields)@).insert(name@, value@),
{
    let ghost before = fields@;
    fields.push((name.to_owned(), value));
    assert(fields@.drop_last() == before);
}

/// Sets the field `name` to a text, where there is one.
pub fn insert_opt(fields: &mut Vec<(String, Json)>, name: &str, value: &Option<String>)
    ensures
        fields_view(final(fields)@) == with_text(
            fields_view(old(fields)@),
            name@,
            text::opt_view(*value),
        ),
{
    if let Some(s) = value {
        put(fields, name, Json::Text(s.clone()));
    }
}

/// `fields` with the text `value` under `name`, where there is one.
pub open spec fn with_text(
    fields: Map<Seq<char>, JsonView>,
    name: Seq<char>,
    value: Option<Seq<char>>,
) -> Map<Seq<char>, JsonView> {
    match value {
        Some(s) => fields.insert(name, JsonView::Text(s)),
        None => fields,
    }
}

/// Setting a field shows it and leaves the others; nothing is there before the
/// first is set.
pub proof fn set_fields_show(fields: Seq<(String, Json)>, name: String, value: Json, other: Seq<char>)
    ensures
        JsonView::Object(fields_view(fields.push((name, value)))).field(name@) == Some(value@),
        other != name@ ==> JsonView::Object(fields_view(fields.push((name, value)))).field(other)
            == JsonView::Object(fields_view(fields)).field(other),
        JsonView::Object(fields_view(Seq::empty())).field(other) is None,
{
    assert(fields.push((name, value)).drop_last() =~= fields);
}

/// Only a text is read as one, and only an object has fields.
pub proof fn values_are_read_as_what_they_are(
    s: Seq<char>,
    b: bool,
    n: int,
    items: Seq<JsonView>,
    fields: Map<Seq<char>, JsonView>,
    name: Seq<char>,
)
    ensures
        JsonView::Text(s).text() == Some(s),
        JsonView::Null.text() is None,
        JsonView::Bool(b).text() is None,
        JsonView::Integer(n).text() is None,
        JsonView::Array(items).text() is None,
        JsonView::Object(fields).text() is None,
        JsonView::Text(s).field(name) is None,
        JsonView::Array(items).field(name) is None,
        JsonView::Object(fields.insert(name, JsonView::Text(s))).text_field(name) == Some(s),
        JsonView::Object(fields.insert(name, JsonView::Bool(b))).text_field(name) is None,
        JsonView::Object(fields.remove(name)).text_field(name) is None,
{
}

} // verus!
