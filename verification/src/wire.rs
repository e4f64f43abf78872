//! Wire text. Messages travel as JSON text; `serde_json` reads and writes
//! it. This module states what is taken on trust about `serde_json`, and
//! converts between its values and the values of this library.
//!
//! `serde_json` is built with two of its features. With `preserve_order` an
//! object keeps its members in the order in which they were read or given.
//! With `arbitrary_precision` a number is kept as the text of its literal,
//! whatever its size; in that text an exponent is written with a lower-case
//! `e` and an explicit sign. What is trusted below holds of `serde_json` as
//! it is built so.

use crate::numeral::{is_number_literal, Number};
use crate::value::{
    distinct_keys, items_view, lemma_view_array, lemma_view_object, members_view, Json,
    JsonModel, Member,
};
use vstd::prelude::*;

verus! {

/// `serde_json::Value`, declared so that it can stand in signatures. Nothing
/// is known of what is inside but through the functions below.
#[verifier::external_type_specification]
#[verifier::external_body]
pub struct ExValue(serde_json::Value);

/// What a `serde_json::Value` holds: its kind and its content, a number as
/// the text that `Number::as_str` gives, the members of an object in the
/// order of its map.
pub uninterp spec fn value_model(v: serde_json::Value) -> JsonModel;

/// The text that `serde_json::to_vec` writes for a value.
pub uninterp spec fn json_text(j: JsonModel) -> Seq<u8>;

/// The value that `serde_json::from_slice` reads from a text, `None` where it
/// rejects the text.
pub uninterp spec fn json_parse(bytes: Seq<u8>) -> Option<JsonModel>;

/// One level of a `serde_json::Value`: what kind of value it is, its own
/// content, and its children still unopened.
pub enum Node<'a> {
    Null,
    Bool(bool),
    Number(String),
    Text(String),
    Array(&'a Vec<serde_json::Value>),
    Object(Vec<(&'a String, &'a serde_json::Value)>),
}

impl<'a> Node<'a> {
    /// What the node holds.
    pub open spec fn model(self) -> JsonModel {
        match self {
            Node::Null => JsonModel::Null,
            Node::Bool(b) => JsonModel::Bool(b),
            Node::Number(t) => JsonModel::Number(t@),
            Node::Text(t) => JsonModel::Text(t@),
            Node::Array(items) => JsonModel::Array(
                Seq::new(items@.len(), |i: int| value_model(items@[i])),
            ),
            Node::Object(members) => JsonModel::Object(
                Seq::new(
                    members@.len(),
                    |i: int| Member { key: members@[i].0@, value: value_model(*members@[i].1) },
                ),
            ),
        }
    }
}

/// The models of a list of `serde_json` values.
pub open spec fn values_model(items: Seq<serde_json::Value>) -> Seq<JsonModel> {
    Seq::new(items.len(), |i: int| value_model(items[i]))
}

/// The models of a list of keys with their `serde_json` values.
pub open spec fn entries_model(members: Seq<(String, serde_json::Value)>) -> Seq<Member> {
    Seq::new(
        members.len(),
        |i: int| Member { key: members[i].0@, value: value_model(members[i].1) },
    )
}

/// `serde_json::from_slice`, at the type `serde_json::Value`: reads one JSON
/// text. The contract only gives the outcome its name.
#[verifier::external_body]
fn read_value(bytes: &[u8]) -> (r: Option<serde_json::Value>)
    ensures
        match r {
            Some(v) => json_parse(bytes@) == Some(value_model(v)),
            None => json_parse(bytes@) is None,
        },
{
    serde_json::from_slice::<serde_json::Value>(bytes).ok()
}

/// `serde_json::to_vec`, on a `serde_json::Value`: writes the value as
/// compact JSON text. On a `Value` the call cannot fail: the keys of its
/// objects are strings, a number is written as the text it keeps, and the
/// text goes into a `Vec`. The contract says so, and gives the text its
/// name.
#[verifier::external_body]
fn write_value(v: &serde_json::Value) -> (r: Option<Vec<u8>>)
    ensures
        r is Some,
        r matches Some(bytes) ==> bytes@ == json_text(value_model(*v)),
{
    serde_json::to_vec(v).ok()
}

/// Tells the variants of `serde_json::Value` apart and hands out what each
/// holds: a number as the text that `Number::as_str` gives, the items of an
/// array as they are, the members of an object in the order in which
/// `Map::iter` walks them, which is the order of the map.
#[verifier::external_body]
fn open_value<'a>(v: &'a serde_json::Value) -> (node: Node<'a>)
    ensures
        value_model(*v) == node.model(),
{
    match v {
        serde_json::Value::Null => Node::Null,
        serde_json::Value::Bool(b) => Node::Bool(*b),
        serde_json::Value::Number(n) => Node::Number(n.as_str().to_owned()),
        serde_json::Value::String(s) => Node::Text(s.clone()),
        serde_json::Value::Array(items) => Node::Array(items),
        serde_json::Value::Object(map) => Node::Object(map.iter().collect()),
    }
}

/// `serde_json::Value::Null`.
#[verifier::external_body]
fn null_value() -> (v: serde_json::Value)
    ensures
        value_model(v) == JsonModel::Null,
{
    serde_json::Value::Null
}

/// `serde_json::Value::Bool`.
#[verifier::external_body]
fn bool_value(b: bool) -> (v: serde_json::Value)
    ensures
        value_model(v) == JsonModel::Bool(b),
{
    serde_json::Value::Bool(b)
}

/// `serde_json::Value::String`.
#[verifier::external_body]
fn text_value(s: String) -> (v: serde_json::Value)
    ensures
        value_model(v) == JsonModel::Text(s@),
{
    serde_json::Value::String(s)
}

/// `serde_json::Number::from_str`: reads a number from its text. A literal
/// in normal form is accepted, and the number keeps it letter for letter;
/// of any other text nothing is assumed.
#[verifier::external_body]
fn number_value(text: &str) -> (r: Option<serde_json::Value>)
    ensures
        is_number_literal(text@) ==> r is Some,
        is_number_literal(text@) ==> (r matches Some(v) ==> value_model(v) == JsonModel::Number(
            text@,
        )),
{
    text.parse::<serde_json::Number>().ok().map(serde_json::Value::Number)
}

/// `serde_json::Value::Array`.
#[verifier::external_body]
fn array_value(items: Vec<serde_json::Value>) -> (v: serde_json::Value)
    ensures
        value_model(v) == JsonModel::Array(values_model(items@)),
{
    serde_json::Value::Array(items)
}

/// `serde_json::Map::from_iter`: a map of the given entries. Where no key
/// occurs twice the map holds them as they are, in the order given; of
/// entries with a repeated key nothing is assumed.
#[verifier::external_body]
fn object_value(members: Vec<(String, serde_json::Value)>) -> (v: serde_json::Value)
    ensures
        distinct_keys(entries_model(members@)) ==> value_model(v) == JsonModel::Object(
            entries_model(members@),
        ),
{
    serde_json::Value::Object(members.into_iter().collect())
}

/// The value of this library that holds what a `serde_json::Value` holds.
#[verifier::loop_isolation(false)]
fn lift(v: &serde_json::Value) -> (j: Json)
    ensures
        j@ == value_model(*v),
    decreases value_model(*v),
{
    match open_value(v) {
        Node::Null => Json::Null,
        Node::Bool(b) => Json::Bool(b),
        Node::Number(t) => Json::Number(Number { text: t }),
        Node::Text(t) => Json::Text(t),
        Node::Array(items) => {
            let ghost model = value_model(*v)->Array_0;
            let mut out: Vec<Json> = Vec::new();
            let mut i: usize = 0;
            while i < items.len()
                invariant
                    0 <= i <= items@.len(),
                    out@.len() == i,
                    forall|k: int| 0 <= k < i ==> (#[trigger] out@[k])@ == model[k],
                decreases items@.len() - i,
            {
                assert(model[i as int] == value_model(items@[i as int]));
                let child = lift(&items[i]);
                out.push(child);
                i = i + 1;
            }
            proof {
                lemma_view_array(out);
                assert(items_view(out@) =~= model);
            }
            Json::Array(out)
        },
        Node::Object(members) => {
            let ghost model = value_model(*v)->Object_0;
            let mut out: Vec<(String, Json)> = Vec::new();
            let mut i: usize = 0;
            while i < members.len()
                invariant
                    0 <= i <= members@.len(),
                    out@.len() == i,
                    forall|k: int|
                        0 <= k < i ==> (#[trigger] out@[k]).0@ == model[k].key && out@[k].1@
                            == model[k].value,
                decreases members@.len() - i,
            {
                assert(model[i as int].value == value_model(*members@[i as int].1));
                let child = lift(members[i].1);
                out.push((members[i].0.clone(), child));
                i = i + 1;
            }
            proof {
                lemma_view_object(out);
                assert(members_view(out@) =~= model);
            }
            Json::Object(out)
        },
    }
}

/// The `serde_json::Value` that holds what a value of this library holds.
/// There is one exactly when the value is well formed.
#[verifier::loop_isolation(false)]
fn lower(j: &Json) -> (r: Option<serde_json::Value>)
    ensures
        r matches Some(v) ==> value_model(v) == j@,
        r is Some <==> j@.wf(),
    decreases j,
{
    match j {
        Json::Null => Some(null_value()),
        Json::Bool(b) => Some(bool_value(*b)),
        Json::Number(t) => {
            if t.is_literal() {
                number_value(t.text.as_str())
            } else {
                None
            }
        },
        Json::Text(t) => Some(text_value(t.clone())),
        Json::Array(items) => {
            proof {
                lemma_view_array(*items);
            }
            let mut out: Vec<serde_json::Value> = Vec::new();
            let mut i: usize = 0;
            while i < items.len()
                invariant
                    0 <= i <= items@.len(),
                    out@.len() == i,
                    forall|k: int|
                        0 <= k < i ==> value_model(#[trigger] out@[k]) == items@[k]@
                            && items@[k]@.wf(),
                decreases items@.len() - i,
            {
                match lower(&items[i]) {
                    Some(child) => {
                        out.push(child);
                    },
                    None => {
                        assert(j@->Array_0[i as int] == items@[i as int]@);
                        return None;
                    },
                }
                i = i + 1;
            }
            proof {
                assert(values_model(out@) =~= items_view(items@));
                assert forall|k: int| 0 <= k < j@->Array_0.len() implies (
                #[trigger] j@->Array_0[k]).wf() by {
                    assert(value_model(out@[k]) == items@[k]@);
                }
            }
            Some(array_value(out))
        },
        Json::Object(members) => {
            proof {
                lemma_view_object(*members);
            }
            if !j.is_well_formed() {
                return None;
            }
            let ghost ms = members_view(members@);
            let mut out: Vec<(String, serde_json::Value)> = Vec::new();
            let mut i: usize = 0;
            while i < members.len()
                invariant
                    0 <= i <= members@.len(),
                    out@.len() == i,
                    forall|k: int|
                        0 <= k < i ==> (#[trigger] out@[k]).0@ == ms[k].key && value_model(
                            out@[k].1,
                        ) == ms[k].value,
                decreases members@.len() - i,
            {
                assert(ms[i as int].value.wf());
                match lower(&members[i].1) {
                    Some(child) => {
                        out.push((members[i].0.clone(), child));
                    },
                    None => {
                        return None;
                    },
                }
                i = i + 1;
            }
            proof {
                assert(entries_model(out@) =~= ms);
            }
            Some(object_value(out))
        },
    }
}

/// Reads one JSON text. The result is what `serde_json` reads from it.
pub fn read_text(bytes: &[u8]) -> (r: Option<Json>)
    ensures
        match r {
            Some(j) => json_parse(bytes@) == Some(j@),
            None => json_parse(bytes@) is None,
        },
{
    match read_value(bytes) {
        Some(v) => Some(lift(&v)),
        None => None,
    }
}

/// Writes a value as JSON text. A value has a text exactly when it is well
/// formed, and the text is the one `serde_json` writes for it.
pub fn write_text(j: &Json) -> (r: Option<Vec<u8>>)
    ensures
        r is Some <==> j@.wf(),
        r matches Some(bytes) ==> bytes@ == json_text(j@),
{
    match lower(j) {
        Some(v) => write_value(&v),
        None => None,
    }
}

} // verus!
