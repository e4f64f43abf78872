//! The fields of a message body: how each kind of field is written into the
//! object that stands for the body, and how it is read back.
//!
//! A required field must be present with a value of its kind. An optional
//! field may be absent or null, and is written as null when it has no value.
//! A field that is present with a value of another kind is never coerced:
//! reading it fails, and the failure names the field. A member that a body
//! does not declare is not passed over either: it shows that the body is
//! of another kind.

use crate::numeral::{
    is_number_literal, lemma_decimal_is_decimal, lemma_decimal_is_literal,
    lemma_decimal_value_of_decimal, Number,
};
use crate::value::{
    items_view, lemma_view_array, lemma_view_object, members_view, same_text, Json, JsonModel,
    Member,
};
use vstd::prelude::*;

verus! {

/// The characters of an optional text.
pub open spec fn opt_text_view(o: Option<String>) -> Option<Seq<char>> {
    match o {
        Some(s) => Some(s@),
        None => None,
    }
}

/// The literal of an optional number.
pub open spec fn opt_number_view(o: Option<Number>) -> Option<Seq<char>> {
    match o {
        Some(n) => Some(n@),
        None => None,
    }
}

/// The number of an optional unsigned integer.
pub open spec fn opt_nat_view(o: Option<u128>) -> Option<nat> {
    match o {
        Some(n) => Some(n as nat),
        None => None,
    }
}

/// The characters of each text of a list.
pub open spec fn texts_view(list: Seq<String>) -> Seq<Seq<char>> {
    Seq::new(list.len(), |i: int| list[i]@)
}

/// The characters of each text of an optional list.
pub open spec fn opt_texts_view(o: Option<Vec<String>>) -> Option<Seq<Seq<char>>> {
    match o {
        Some(list) => Some(texts_view(list@)),
        None => None,
    }
}

/// Whether a decoding step gave what the shape's rule asks for: the same
/// value, or the same failure.
pub open spec fn agrees<T: View>(r: Result<T, String>, expected: Result<T::V, Seq<char>>) -> bool {
    match r {
        Ok(v) => expected == Ok::<T::V, Seq<char>>(v@),
        Err(e) => expected == Err::<T::V, Seq<char>>(e@),
    }
}

/// The same for a value that is its own model.
pub open spec fn agrees_plain<T>(r: Result<T, String>, expected: Result<T, Seq<char>>) -> bool {
    match r {
        Ok(v) => expected == Ok::<T, Seq<char>>(v),
        Err(e) => expected == Err::<T, Seq<char>>(e@),
    }
}

// ---------------------------------------------------------------------------
// Values of each kind
// ---------------------------------------------------------------------------
/// A flag as it is written.
pub open spec fn bool_model(b: bool) -> JsonModel {
    JsonModel::Bool(b)
}

/// A text as it is written.
pub open spec fn text_model(t: Seq<char>) -> JsonModel {
    JsonModel::Text(t)
}

/// A number as it is written.
pub open spec fn number_model(t: Seq<char>) -> JsonModel {
    JsonModel::Number(t)
}

/// An unsigned integer, in decimal notation.
pub open spec fn nat_model(n: nat) -> JsonModel {
    JsonModel::of_nat(n)
}

/// An optional unsigned integer as it is written: null where there is none.
pub open spec fn opt_nat_model(o: Option<nat>) -> JsonModel {
    match o {
        Some(n) => nat_model(n),
        None => JsonModel::Null,
    }
}

/// An optional flag as it is written: null where there is none.
pub open spec fn opt_bool_model(o: Option<bool>) -> JsonModel {
    match o {
        Some(b) => JsonModel::Bool(b),
        None => JsonModel::Null,
    }
}

/// An optional text as it is written: null where there is none.
pub open spec fn opt_text_model(o: Option<Seq<char>>) -> JsonModel {
    match o {
        Some(t) => JsonModel::Text(t),
        None => JsonModel::Null,
    }
}

/// An optional number as it is written: null where there is none.
pub open spec fn opt_number_model(o: Option<Seq<char>>) -> JsonModel {
    match o {
        Some(t) => JsonModel::Number(t),
        None => JsonModel::Null,
    }
}

/// A list of texts as it is written.
pub open spec fn texts_model(list: Seq<Seq<char>>) -> JsonModel {
    JsonModel::Array(Seq::new(list.len(), |i: int| JsonModel::Text(list[i])))
}

/// An optional list of texts as it is written: null where there is none.
pub open spec fn opt_texts_model(o: Option<Seq<Seq<char>>>) -> JsonModel {
    match o {
        Some(list) => texts_model(list),
        None => JsonModel::Null,
    }
}

/// The flag that a value holds, if it holds one.
pub open spec fn as_bool(v: JsonModel) -> Option<bool> {
    match v {
        JsonModel::Bool(b) => Some(b),
        _ => None,
    }
}

/// The text that a value holds, if it holds one.
pub open spec fn as_text(v: JsonModel) -> Option<Seq<char>> {
    match v {
        JsonModel::Text(t) => Some(t),
        _ => None,
    }
}

/// The number that a value holds, if it holds one.
pub open spec fn as_number(v: JsonModel) -> Option<Seq<char>> {
    match v {
        JsonModel::Number(t) => Some(t),
        _ => None,
    }
}

/// A list of texts: an array whose items are all texts.
pub open spec fn as_texts(v: JsonModel) -> Option<Seq<Seq<char>>> {
    match v {
        JsonModel::Array(items) => if forall|i: int|
            0 <= i < items.len() ==> (#[trigger] items[i]) is Text {
            Some(Seq::new(items.len(), |i: int| items[i]->Text_0))
        } else {
            None
        },
        _ => None,
    }
}

/// An unsigned integer of at most `max`.
pub open spec fn as_bounded(v: JsonModel, max: nat) -> Option<nat> {
    match v.as_nat() {
        Some(n) => if n <= max {
            Some(n)
        } else {
            None
        },
        None => None,
    }
}

// ---------------------------------------------------------------------------
// Fields of each kind
// ---------------------------------------------------------------------------
/// The value of an optional field: `None` where the member is absent or null.
pub open spec fn optional(j: JsonModel, key: Seq<char>) -> Option<JsonModel> {
    match j.field(key) {
        Some(JsonModel::Null) => None,
        other => other,
    }
}

/// A required field that holds a flag.
#[verifier::opaque]
pub open spec fn req_bool(j: JsonModel, key: Seq<char>) -> Result<bool, Seq<char>> {
    match j.field(key) {
        Some(v) => match as_bool(v) {
            Some(x) => Ok(x),
            None => Err(key),
        },
        None => Err(key),
    }
}

/// An optional field that holds a flag.
#[verifier::opaque]
pub open spec fn opt_bool(j: JsonModel, key: Seq<char>) -> Result<Option<bool>, Seq<char>> {
    match optional(j, key) {
        Some(v) => match as_bool(v) {
            Some(x) => Ok(Some(x)),
            None => Err(key),
        },
        None => Ok(None),
    }
}

/// A required field that holds a text.
#[verifier::opaque]
pub open spec fn req_text(j: JsonModel, key: Seq<char>) -> Result<Seq<char>, Seq<char>> {
    match j.field(key) {
        Some(v) => match as_text(v) {
            Some(x) => Ok(x),
            None => Err(key),
        },
        None => Err(key),
    }
}

/// An optional field that holds a text.
#[verifier::opaque]
pub open spec fn opt_text(j: JsonModel, key: Seq<char>) -> Result<Option<Seq<char>>, Seq<char>> {
    match optional(j, key) {
        Some(v) => match as_text(v) {
            Some(x) => Ok(Some(x)),
            None => Err(key),
        },
        None => Ok(None),
    }
}

/// A required field that holds a number.
#[verifier::opaque]
pub open spec fn req_number(j: JsonModel, key: Seq<char>) -> Result<Seq<char>, Seq<char>> {
    match j.field(key) {
        Some(v) => match as_number(v) {
            Some(x) => Ok(x),
            None => Err(key),
        },
        None => Err(key),
    }
}

/// An optional field that holds a number.
#[verifier::opaque]
pub open spec fn opt_number(j: JsonModel, key: Seq<char>) -> Result<Option<Seq<char>>, Seq<char>> {
    match optional(j, key) {
        Some(v) => match as_number(v) {
            Some(x) => Ok(Some(x)),
            None => Err(key),
        },
        None => Ok(None),
    }
}

/// A required field that holds a list of texts.
#[verifier::opaque]
pub open spec fn req_texts(j: JsonModel, key: Seq<char>) -> Result<Seq<Seq<char>>, Seq<char>> {
    match j.field(key) {
        Some(v) => match as_texts(v) {
            Some(x) => Ok(x),
            None => Err(key),
        },
        None => Err(key),
    }
}

/// An optional field that holds a list of texts.
#[verifier::opaque]
pub open spec fn opt_texts(
    j: JsonModel,
    key: Seq<char>,
) -> Result<Option<Seq<Seq<char>>>, Seq<char>> {
    match optional(j, key) {
        Some(v) => match as_texts(v) {
            Some(x) => Ok(Some(x)),
            None => Err(key),
        },
        None => Ok(None),
    }
}

/// A required field that holds an unsigned integer of at most `max`.
#[verifier::opaque]
pub open spec fn req_bounded(j: JsonModel, key: Seq<char>, max: nat) -> Result<nat, Seq<char>> {
    match j.field(key) {
        Some(v) => match as_bounded(v, max) {
            Some(x) => Ok(x),
            None => Err(key),
        },
        None => Err(key),
    }
}

/// An optional field that holds an unsigned integer of at most `max`.
#[verifier::opaque]
pub open spec fn opt_bounded(
    j: JsonModel,
    key: Seq<char>,
    max: nat,
) -> Result<Option<nat>, Seq<char>> {
    match optional(j, key) {
        Some(v) => match as_bounded(v, max) {
            Some(x) => Ok(Some(x)),
            None => Err(key),
        },
        None => Ok(None),
    }
}

/// A body must be an object; the failure on anything else names no field.
pub open spec fn object_check(j: JsonModel) -> Result<(), Seq<char>> {
    if j is Object {
        Ok(())
    } else {
        Err(Seq::empty())
    }
}

// ---------------------------------------------------------------------------
// Laws: what was written into a field is what is read from it
// ---------------------------------------------------------------------------
/// A list of texts is read back as it was written.
pub proof fn lemma_texts_round_trip(list: Seq<Seq<char>>)
    ensures
        as_texts(texts_model(list)) == Some(list),
{
    let items = texts_model(list)->Array_0;
    assert(forall|i: int| 0 <= i < items.len() ==> (#[trigger] items[i]) is Text);
    assert(Seq::new(items.len(), |i: int| items[i]->Text_0) =~= list);
}

/// An unsigned integer is read back as it was written.
pub proof fn lemma_nat_round_trip(n: nat)
    requires
        n <= u128::MAX,
    ensures
        JsonModel::of_nat(n).as_nat() == Some(n),
{
    lemma_decimal_is_decimal(n);
    lemma_decimal_value_of_decimal(n);
}

/// What was written into a required field that holds a flag is what is read
/// from it.
pub broadcast proof fn lemma_req_bool_written(j: JsonModel, key: Seq<char>, x: bool)
    requires
        j.field(key) == Some(bool_model(x)),
    ensures
        #![trigger req_bool(j, key), bool_model(x)]
        req_bool(j, key) == Ok::<bool, Seq<char>>(x),
{
    reveal(req_bool);
}

/// What was written into an optional field that holds a flag is what is read
/// from it.
pub broadcast proof fn lemma_opt_bool_written(j: JsonModel, key: Seq<char>, x: Option<bool>)
    requires
        j.field(key) == Some(opt_bool_model(x)),
    ensures
        #![trigger opt_bool(j, key), opt_bool_model(x)]
        opt_bool(j, key) == Ok::<Option<bool>, Seq<char>>(x),
{
    reveal(opt_bool);
}

/// What was written into a required field that holds a text is what is read
/// from it.
pub broadcast proof fn lemma_req_text_written(j: JsonModel, key: Seq<char>, x: Seq<char>)
    requires
        j.field(key) == Some(text_model(x)),
    ensures
        #![trigger req_text(j, key), text_model(x)]
        req_text(j, key) == Ok::<Seq<char>, Seq<char>>(x),
{
    reveal(req_text);
}

/// What was written into an optional field that holds a text is what is read
/// from it.
pub broadcast proof fn lemma_opt_text_written(j: JsonModel, key: Seq<char>, x: Option<Seq<char>>)
    requires
        j.field(key) == Some(opt_text_model(x)),
    ensures
        #![trigger opt_text(j, key), opt_text_model(x)]
        opt_text(j, key) == Ok::<Option<Seq<char>>, Seq<char>>(x),
{
    reveal(opt_text);
}

/// What was written into a required field that holds a number is what is read
/// from it.
pub broadcast proof fn lemma_req_number_written(j: JsonModel, key: Seq<char>, x: Seq<char>)
    requires
        j.field(key) == Some(number_model(x)),
    ensures
        #![trigger req_number(j, key), number_model(x)]
        req_number(j, key) == Ok::<Seq<char>, Seq<char>>(x),
{
    reveal(req_number);
}

/// What was written into an optional field that holds a number is what is read
/// from it.
pub broadcast proof fn lemma_opt_number_written(j: JsonModel, key: Seq<char>, x: Option<Seq<char>>)
    requires
        j.field(key) == Some(opt_number_model(x)),
    ensures
        #![trigger opt_number(j, key), opt_number_model(x)]
        opt_number(j, key) == Ok::<Option<Seq<char>>, Seq<char>>(x),
{
    reveal(opt_number);
}

/// What was written into a required field that holds a list of texts is what is
/// read from it.
pub broadcast proof fn lemma_req_texts_written(j: JsonModel, key: Seq<char>, x: Seq<Seq<char>>)
    requires
        j.field(key) == Some(texts_model(x)),
    ensures
        #![trigger req_texts(j, key), texts_model(x)]
        req_texts(j, key) == Ok::<Seq<Seq<char>>, Seq<char>>(x),
{
    reveal(req_texts);
    lemma_texts_round_trip(x);
}

/// What was written into an optional field that holds a list of texts is what
/// is read from it.
pub broadcast proof fn lemma_opt_texts_written(
    j: JsonModel,
    key: Seq<char>,
    x: Option<Seq<Seq<char>>>,
)
    requires
        j.field(key) == Some(opt_texts_model(x)),
    ensures
        #![trigger opt_texts(j, key), opt_texts_model(x)]
        opt_texts(j, key) == Ok::<Option<Seq<Seq<char>>>, Seq<char>>(x),
{
    reveal(opt_texts);
    if x is Some {
        lemma_texts_round_trip(x->Some_0);
    }
}

/// What was written into a required field that holds an unsigned integer of at
/// most `max` is what is read from it.
pub broadcast proof fn lemma_req_bounded_written(j: JsonModel, key: Seq<char>, x: nat, max: nat)
    requires
        j.field(key) == Some(nat_model(x)),
        x <= max <= u128::MAX,
    ensures
        #![trigger req_bounded(j, key, max), nat_model(x)]
        req_bounded(j, key, max) == Ok::<nat, Seq<char>>(x),
{
    reveal(req_bounded);
    lemma_nat_round_trip(x);
}

/// What was written into an optional field that holds an unsigned integer of at
/// most `max` is what is read from it.
pub broadcast proof fn lemma_opt_bounded_written(
    j: JsonModel,
    key: Seq<char>,
    x: Option<nat>,
    max: nat,
)
    requires
        j.field(key) == Some(opt_nat_model(x)),
        x matches Some(n) ==> n <= max,
        max <= u128::MAX,
    ensures
        #![trigger opt_bounded(j, key, max), opt_nat_model(x)]
        opt_bounded(j, key, max) == Ok::<Option<nat>, Seq<char>>(x),
{
    reveal(opt_bounded);
    if x is Some {
        lemma_nat_round_trip(x->Some_0);
    }
}

/// An optional field that is absent reads as none.
pub broadcast proof fn lemma_opt_bool_absent(j: JsonModel, key: Seq<char>)
    requires
        j.field(key) is None,
    ensures
        #[trigger] opt_bool(j, key) == Ok::<Option<bool>, Seq<char>>(None),
{
    reveal(opt_bool);
}

/// An optional field that is absent reads as none.
pub broadcast proof fn lemma_opt_text_absent(j: JsonModel, key: Seq<char>)
    requires
        j.field(key) is None,
    ensures
        #[trigger] opt_text(j, key) == Ok::<Option<Seq<char>>, Seq<char>>(None),
{
    reveal(opt_text);
}

/// An optional field that is absent reads as none.
pub broadcast proof fn lemma_opt_number_absent(j: JsonModel, key: Seq<char>)
    requires
        j.field(key) is None,
    ensures
        #[trigger] opt_number(j, key) == Ok::<Option<Seq<char>>, Seq<char>>(None),
{
    reveal(opt_number);
}

/// An optional field that is absent reads as none.
pub broadcast proof fn lemma_opt_texts_absent(j: JsonModel, key: Seq<char>)
    requires
        j.field(key) is None,
    ensures
        #[trigger] opt_texts(j, key) == Ok::<Option<Seq<Seq<char>>>, Seq<char>>(None),
{
    reveal(opt_texts);
}

/// The laws of reading what was written, for every kind of field.
pub broadcast group group_field_laws {
    lemma_req_bool_written,
    lemma_opt_bool_written,
    lemma_req_text_written,
    lemma_opt_text_written,
    lemma_req_number_written,
    lemma_opt_number_written,
    lemma_req_texts_written,
    lemma_opt_texts_written,
    lemma_req_bounded_written,
    lemma_opt_bounded_written,
    lemma_opt_bool_absent,
    lemma_opt_text_absent,
    lemma_opt_number_absent,
    lemma_opt_texts_absent,
}

/// A required field that is absent is not read.
pub broadcast proof fn lemma_req_bool_absent(j: JsonModel, key: Seq<char>)
    requires
        j.field(key) is None,
    ensures
        #[trigger] req_bool(j, key) is Err,
{
    reveal(req_bool);
}

/// A required field that is absent is not read.
pub broadcast proof fn lemma_req_text_absent(j: JsonModel, key: Seq<char>)
    requires
        j.field(key) is None,
    ensures
        #[trigger] req_text(j, key) is Err,
{
    reveal(req_text);
}

/// A required field that is absent is not read.
pub broadcast proof fn lemma_req_number_absent(j: JsonModel, key: Seq<char>)
    requires
        j.field(key) is None,
    ensures
        #[trigger] req_number(j, key) is Err,
{
    reveal(req_number);
}

/// A required field that is absent is not read.
pub broadcast proof fn lemma_req_texts_absent(j: JsonModel, key: Seq<char>)
    requires
        j.field(key) is None,
    ensures
        #[trigger] req_texts(j, key) is Err,
{
    reveal(req_texts);
}

/// A required field that is absent is not read.
pub broadcast proof fn lemma_req_bounded_absent(j: JsonModel, key: Seq<char>, max: nat)
    requires
        j.field(key) is None,
    ensures
        #[trigger] req_bounded(j, key, max) is Err,
{
    reveal(req_bounded);
}

/// The laws of required fields that are absent.
pub broadcast group group_field_refusals {
    lemma_req_bool_absent,
    lemma_req_text_absent,
    lemma_req_number_absent,
    lemma_req_texts_absent,
    lemma_req_bounded_absent,
}

// ---------------------------------------------------------------------------
// Laws: which values can be written
// ---------------------------------------------------------------------------
/// Whether an optional number can be written: it must be a number literal
/// where there is one.
pub open spec fn opt_literal(o: Option<Seq<char>>) -> bool {
    o matches Some(t) ==> is_number_literal(t)
}

/// A list of texts can always be written.
pub broadcast proof fn lemma_texts_wf(list: Seq<Seq<char>>)
    ensures
        #[trigger] texts_model(list).wf(),
{
    let items = texts_model(list)->Array_0;
    assert forall|i: int| 0 <= i < items.len() implies (#[trigger] items[i]).wf() by {}
}

/// An optional list of texts can always be written.
pub broadcast proof fn lemma_opt_texts_wf(o: Option<Seq<Seq<char>>>)
    ensures
        #[trigger] opt_texts_model(o).wf(),
{
    if o is Some {
        lemma_texts_wf(o->Some_0);
    }
}

/// An unsigned integer can always be written.
pub broadcast proof fn lemma_nat_wf(n: nat)
    ensures
        #[trigger] nat_model(n).wf(),
{
    lemma_decimal_is_literal(n);
}

/// An optional unsigned integer can always be written.
pub broadcast proof fn lemma_opt_nat_wf(o: Option<nat>)
    ensures
        #[trigger] opt_nat_model(o).wf(),
{
    if o is Some {
        lemma_nat_wf(o->Some_0);
    }
}

/// The laws of what can be written, for the kinds of field that need one.
pub broadcast group group_wf_laws {
    lemma_texts_wf,
    lemma_opt_texts_wf,
    lemma_nat_wf,
    lemma_opt_nat_wf,
}

// ---------------------------------------------------------------------------
// Lists of texts without repeats
// ---------------------------------------------------------------------------
/// No text stands in the list twice.
pub open spec fn no_repeats(list: Seq<Seq<char>>) -> bool {
    forall|i: int, j: int| 0 <= i < j < list.len() ==> list[i] != list[j]
}

/// The texts of a list, each once, at the place where it first stands.
pub open spec fn firsts(list: Seq<Seq<char>>) -> Seq<Seq<char>>
    decreases list.len(),
{
    if list.len() == 0 {
        Seq::empty()
    } else if list.drop_last().contains(list.last()) {
        firsts(list.drop_last())
    } else {
        firsts(list.drop_last()).push(list.last())
    }
}

/// The first places of a list hold every text of the list, no other, and
/// none twice.
pub proof fn lemma_firsts(list: Seq<Seq<char>>)
    ensures
        forall|x: Seq<char>| #[trigger] firsts(list).contains(x) <==> list.contains(x),
        no_repeats(firsts(list)),
        firsts(list).len() <= list.len(),
    decreases list.len(),
{
    if list.len() > 0 {
        let rest = list.drop_last();
        let last = list.last();
        lemma_firsts(rest);
        let f = firsts(rest);
        assert(list =~= rest.push(last));
        assert forall|x: Seq<char>| #[trigger] firsts(list).contains(x) <==> list.contains(
            x,
        ) by {
            if list.contains(x) {
                let i = choose|i: int| 0 <= i < list.len() && list[i] == x;
                if i < rest.len() {
                    assert(rest[i] == x);
                    assert(rest.contains(x));
                    assert(f.contains(x));
                    let k = choose|k: int| 0 <= k < f.len() && f[k] == x;
                    assert(firsts(list)[k] == x);
                } else {
                    assert(x == last);
                    if rest.contains(last) {
                        assert(f.contains(x));
                    } else {
                        assert(f.push(last)[f.len() as int] == x);
                    }
                }
            }
            if firsts(list).contains(x) {
                let k = choose|k: int| 0 <= k < firsts(list).len() && firsts(list)[k] == x;
                if !rest.contains(last) && k == f.len() {
                    assert(list[list.len() - 1] == x);
                } else {
                    assert(f[k] == x);
                    assert(f.contains(x));
                    assert(rest.contains(x));
                    let i = choose|i: int| 0 <= i < rest.len() && rest[i] == x;
                    assert(list[i] == x);
                }
            }
        }
        if !rest.contains(last) {
            let g = f.push(last);
            assert forall|i: int, j: int| 0 <= i < j < g.len() implies g[i] != g[j] by {
                if j == f.len() {
                    assert(f.contains(g[i]));
                } else {
                    assert(f[i] != f[j]);
                }
            }
        }
    }
}

/// Whether the text at a place of a list stands at an earlier place too.
/// Beyond the end of the list there is no text, and the answer is no.
pub fn stands_before(list: &Vec<String>, at: usize) -> (r: bool)
    ensures
        r == (at < list@.len() && texts_view(list@).subrange(0, at as int).contains(
            list@[at as int]@,
        )),
{
    if at >= list.len() {
        return false;
    }
    let ghost before = texts_view(list@).subrange(0, at as int);
    let mut k: usize = 0;
    while k < at
        invariant
            0 <= k <= at < list@.len(),
            before == texts_view(list@).subrange(0, at as int),
            forall|m: int| 0 <= m < k ==> before[m] != list@[at as int]@,
        decreases at - k,
    {
        if same_text(list[k].as_str(), list[at].as_str()) {
            assert(before[k as int] == list@[at as int]@);
            return true;
        }
        k = k + 1;
    }
    false
}

// ---------------------------------------------------------------------------
// Writing
// ---------------------------------------------------------------------------
/// An empty list of members.
pub fn new_members() -> (ms: Vec<(String, Json)>)
    ensures
        members_view(ms@) == Seq::<Member>::empty(),
{
    let ms: Vec<(String, Json)> = Vec::new();
    assert(members_view(ms@) =~= Seq::<Member>::empty());
    ms
}

/// Appends one member.
pub fn put(ms: &mut Vec<(String, Json)>, key: &str, value: Json)
    ensures
        members_view(final(ms)@) == members_view(old(ms)@).push(
            Member { key: key@, value: value@ },
        ),
{
    ms.push((key.to_owned(), value));
    assert(members_view(ms@) =~= members_view(old(ms)@).push(
        Member { key: key@, value: value@ },
    ));
}

/// The object with the given members.
pub fn object_of(ms: Vec<(String, Json)>) -> (j: Json)
    ensures
        j@ == JsonModel::Object(members_view(ms@)),
{
    proof {
        lemma_view_object(ms);
    }
    Json::Object(ms)
}

/// The value that stands for a flag.
pub fn bool_json(b: bool) -> (j: Json)
    ensures
        j@ == bool_model(b),
{
    Json::Bool(b)
}

/// The value that stands for an optional flag: null where there is none.
pub fn opt_bool_json(o: &Option<bool>) -> (j: Json)
    ensures
        j@ == opt_bool_model(*o),
{
    match o {
        Some(b) => Json::Bool(*b),
        None => Json::Null,
    }
}

/// The value that stands for a text.
pub fn text_json(s: &String) -> (j: Json)
    ensures
        j@ == text_model(s@),
{
    Json::Text(s.clone())
}

/// The value that stands for an optional text: null where there is none.
pub fn opt_text_json(o: &Option<String>) -> (j: Json)
    ensures
        j@ == opt_text_model(opt_text_view(*o)),
{
    match o {
        Some(s) => Json::Text(s.clone()),
        None => Json::Null,
    }
}

/// The value that stands for a number.
pub fn number_json(n: &Number) -> (j: Json)
    ensures
        j@ == number_model(n@),
{
    Json::Number(n.clone())
}

/// The value that stands for an optional number: null where there is none.
pub fn opt_number_json(o: &Option<Number>) -> (j: Json)
    ensures
        j@ == opt_number_model(opt_number_view(*o)),
{
    match o {
        Some(n) => Json::Number(n.clone()),
        None => Json::Null,
    }
}

/// The value that stands for a list of texts.
pub fn texts_json(list: &Vec<String>) -> (j: Json)
    ensures
        j@ == texts_model(texts_view(list@)),
{
    let mut out: Vec<Json> = Vec::new();
    let mut i: usize = 0;
    while i < list.len()
        invariant
            0 <= i <= list@.len(),
            out@.len() == i,
            forall|k: int| 0 <= k < i ==> (#[trigger] out@[k])@ == JsonModel::Text(list@[k]@),
        decreases list@.len() - i,
    {
        out.push(Json::Text(list[i].clone()));
        i = i + 1;
    }
    proof {
        lemma_view_array(out);
        assert(items_view(out@) =~= texts_model(texts_view(list@))->Array_0);
    }
    Json::Array(out)
}

/// The value that stands for an optional list of texts: null where there is
/// none.
pub fn opt_texts_json(o: &Option<Vec<String>>) -> (j: Json)
    ensures
        j@ == opt_texts_model(opt_texts_view(*o)),
{
    match o {
        Some(list) => texts_json(list),
        None => Json::Null,
    }
}

/// The value that stands for an unsigned integer.
pub fn nat_json(n: u128) -> (j: Json)
    ensures
        j@ == nat_model(n as nat),
{
    Json::from_u128(n)
}

/// The value that stands for an optional unsigned integer: null where there is
/// none.
pub fn opt_nat_json(o: &Option<u128>) -> (j: Json)
    ensures
        j@ == opt_nat_model(opt_nat_view(*o)),
{
    match o {
        Some(n) => Json::from_u128(*n),
        None => Json::Null,
    }
}

// ---------------------------------------------------------------------------
// Reading
// ---------------------------------------------------------------------------
/// Succeeds on an object and on nothing else.
pub fn check_object(j: &Json) -> (r: Result<(), String>)
    ensures
        agrees_plain(r, object_check(j@)),
{
    match j {
        Json::Object(_) => Ok(()),
        _ => Err(String::new()),
    }
}

/// The value of an optional field, `None` where it is absent or null.
pub fn get_optional<'a>(j: &'a Json, key: &str) -> (r: Option<&'a Json>)
    ensures
        match r {
            Some(v) => optional(j@, key@) == Some(v@),
            None => optional(j@, key@) is None,
        },
{
    match j.get(key) {
        Some(Json::Null) => None,
        other => other,
    }
}

/// The flag that a value holds, if it holds one.
pub fn read_bool(v: &Json) -> (r: Option<bool>)
    ensures
        r == as_bool(v@),
{
    match v {
        Json::Bool(b) => Some(*b),
        _ => None,
    }
}

/// The text that a value holds, if it holds one.
pub fn read_text(v: &Json) -> (r: Option<String>)
    ensures
        opt_text_view(r) == as_text(v@),
{
    match v {
        Json::Text(t) => Some(t.clone()),
        _ => None,
    }
}

/// The number that a value holds, if it holds one.
pub fn read_number(v: &Json) -> (r: Option<Number>)
    ensures
        opt_number_view(r) == as_number(v@),
{
    match v {
        Json::Number(n) => Some(n.clone()),
        _ => None,
    }
}

/// The list of texts that a value holds, if it holds one.
pub fn read_texts(v: &Json) -> (r: Option<Vec<String>>)
    ensures
        opt_texts_view(r) == as_texts(v@),
{
    match v {
        Json::Array(items) => {
            proof {
                lemma_view_array(*items);
            }
            let ghost model = items_view(items@);
            let mut out: Vec<String> = Vec::new();
            let mut i: usize = 0;
            while i < items.len()
                invariant
                    0 <= i <= items@.len(),
                    model == items_view(items@),
                    v@ == JsonModel::Array(model),
                    out@.len() == i,
                    forall|k: int|
                        0 <= k < i ==> (#[trigger] model[k]) is Text && out@[k]@
                            == model[k]->Text_0,
                decreases items@.len() - i,
            {
                match &items[i] {
                    Json::Text(t) => {
                        out.push(t.clone());
                    },
                    _ => {
                        assert(!(model[i as int] is Text));
                        return None;
                    },
                }
                i = i + 1;
            }
            assert(texts_view(out@) =~= Seq::new(model.len(), |i: int| model[i]->Text_0));
            Some(out)
        },
        _ => None,
    }
}

/// The unsigned integer of at most `max` that a value holds, if it holds one.
pub fn read_bounded(v: &Json, max: u128) -> (r: Option<u128>)
    ensures
        match r {
            Some(n) => as_bounded(v@, max as nat) == Some(n as nat),
            None => as_bounded(v@, max as nat) is None,
        },
{
    match v.as_u128() {
        Some(n) => if n <= max {
            Some(n)
        } else {
            None
        },
        None => None,
    }
}

/// Reads a required field that holds a flag.
pub fn get_bool(j: &Json, key: &str) -> (r: Result<bool, String>)
    ensures
        agrees_plain(r, req_bool(j@, key@)),
        r matches Err(e) ==> e@ == key@,
{
    proof {
        reveal(req_bool);
    }
    match j.get(key) {
        Some(v) => match read_bool(v) {
            Some(b) => Ok(b),
            None => Err(key.to_owned()),
        },
        None => Err(key.to_owned()),
    }
}

/// Reads an optional field that holds a flag.
pub fn get_opt_bool(j: &Json, key: &str) -> (r: Result<Option<bool>, String>)
    ensures
        agrees_plain(r, opt_bool(j@, key@)),
        r matches Err(e) ==> e@ == key@,
{
    proof {
        reveal(opt_bool);
    }
    match get_optional(j, key) {
        Some(v) => match read_bool(v) {
            Some(b) => Ok(Some(b)),
            None => Err(key.to_owned()),
        },
        None => Ok(None),
    }
}

/// Reads a required field that holds a text.
pub fn get_text(j: &Json, key: &str) -> (r: Result<String, String>)
    ensures
        agrees(r, req_text(j@, key@)),
        r matches Err(e) ==> e@ == key@,
{
    proof {
        reveal(req_text);
    }
    match j.get(key) {
        Some(v) => match read_text(v) {
            Some(t) => Ok(t),
            None => Err(key.to_owned()),
        },
        None => Err(key.to_owned()),
    }
}

/// Reads an optional field that holds a text.
pub fn get_opt_text(j: &Json, key: &str) -> (r: Result<Option<String>, String>)
    ensures
        match r {
            Ok(o) => opt_text(j@, key@) == Ok::<Option<Seq<char>>, Seq<char>>(opt_text_view(o)),
            Err(e) => e@ == key@ && opt_text(j@, key@) == Err::<Option<Seq<char>>, Seq<char>>(e@),
        },
{
    proof {
        reveal(opt_text);
    }
    match get_optional(j, key) {
        Some(v) => match read_text(v) {
            Some(t) => Ok(Some(t)),
            None => Err(key.to_owned()),
        },
        None => Ok(None),
    }
}

/// Reads a required field that holds a number.
pub fn get_number(j: &Json, key: &str) -> (r: Result<Number, String>)
    ensures
        agrees(r, req_number(j@, key@)),
        r matches Err(e) ==> e@ == key@,
{
    proof {
        reveal(req_number);
    }
    match j.get(key) {
        Some(v) => match read_number(v) {
            Some(n) => Ok(n),
            None => Err(key.to_owned()),
        },
        None => Err(key.to_owned()),
    }
}

/// Reads an optional field that holds a number.
pub fn get_opt_number(j: &Json, key: &str) -> (r: Result<Option<Number>, String>)
    ensures
        match r {
            Ok(o) => opt_number(j@, key@) == Ok::<Option<Seq<char>>, Seq<char>>(
                opt_number_view(o),
            ),
            Err(e) => e@ == key@ && opt_number(j@, key@) == Err::<Option<Seq<char>>, Seq<char>>(e@),
        },
{
    proof {
        reveal(opt_number);
    }
    match get_optional(j, key) {
        Some(v) => match read_number(v) {
            Some(n) => Ok(Some(n)),
            None => Err(key.to_owned()),
        },
        None => Ok(None),
    }
}

/// Reads a required field that holds a list of texts.
pub fn get_texts(j: &Json, key: &str) -> (r: Result<Vec<String>, String>)
    ensures
        match r {
            Ok(list) => req_texts(j@, key@) == Ok::<Seq<Seq<char>>, Seq<char>>(texts_view(list@)),
            Err(e) => e@ == key@ && req_texts(j@, key@) == Err::<Seq<Seq<char>>, Seq<char>>(e@),
        },
{
    proof {
        reveal(req_texts);
    }
    match j.get(key) {
        Some(v) => match read_texts(v) {
            Some(list) => Ok(list),
            None => Err(key.to_owned()),
        },
        None => Err(key.to_owned()),
    }
}

/// Reads an optional field that holds a list of texts.
pub fn get_opt_texts(j: &Json, key: &str) -> (r: Result<Option<Vec<String>>, String>)
    ensures
        match r {
            Ok(o) => opt_texts(j@, key@) == Ok::<Option<Seq<Seq<char>>>, Seq<char>>(
                opt_texts_view(o),
            ),
            Err(e) => {
                e@ == key@ && opt_texts(j@, key@) == Err::<Option<Seq<Seq<char>>>, Seq<char>>(e@)
            },
        },
{
    proof {
        reveal(opt_texts);
    }
    match get_optional(j, key) {
        Some(v) => match read_texts(v) {
            Some(list) => Ok(Some(list)),
            None => Err(key.to_owned()),
        },
        None => Ok(None),
    }
}

/// Reads a required field that holds an unsigned integer of at most `max`.
pub fn get_bounded(j: &Json, key: &str, max: u128) -> (r: Result<u128, String>)
    ensures
        match r {
            Ok(n) => {
                n <= max && req_bounded(j@, key@, max as nat) == Ok::<nat, Seq<char>>(n as nat)
            },
            Err(e) => e@ == key@ && req_bounded(j@, key@, max as nat) == Err::<nat, Seq<char>>(e@),
        },
{
    proof {
        reveal(req_bounded);
    }
    match j.get(key) {
        Some(v) => match read_bounded(v, max) {
            Some(n) => Ok(n),
            None => Err(key.to_owned()),
        },
        None => Err(key.to_owned()),
    }
}

/// Reads an optional field that holds an unsigned integer of at most `max`.
pub fn get_opt_bounded(j: &Json, key: &str, max: u128) -> (r: Result<Option<u128>, String>)
    ensures
        match r {
            Ok(o) => (o matches Some(n) ==> n <= max) && opt_bounded(j@, key@, max as nat) == Ok::<
                Option<nat>,
                Seq<char>,
            >(opt_nat_view(o)),
            Err(e) => e@ == key@ && opt_bounded(j@, key@, max as nat) == Err::<
                Option<nat>,
                Seq<char>,
            >(e@),
        },
{
    proof {
        reveal(opt_bounded);
    }
    match get_optional(j, key) {
        Some(v) => match read_bounded(v, max) {
            Some(n) => Ok(Some(n)),
            None => Err(key.to_owned()),
        },
        None => Ok(None),
    }
}

} // verus!
