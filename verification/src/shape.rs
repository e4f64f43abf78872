//! Shapes. Every kind of body, and every part of a body that is a body in
//! small, is a shape: it says how it is written into a wire value and how
//! it is read back, and shows that the one undoes the other. Lists of
//! bodies and bodies under names are written and read here once, for every
//! shape; and so are the fields that hold one of a few named values.

use crate::field::{agrees, agrees_plain, get_optional, optional};
use crate::value::{
    holds_besides, items_view, lemma_view_array, lemma_view_object, members_view, Json,
    JsonModel, Member,
};
use vstd::prelude::*;

verus! {

/// A shape: a kind of body, or a part of one that is a body in small. A
/// shape says how it is written into a wire value and how it is read back,
/// and shows that the one undoes the other. This is all that the catalog
/// asks of a kind of body.
pub trait Shape: View + Sized {
    /// The value that stands for a body on the wire.
    spec fn wire(v: Self::V) -> JsonModel;

    /// The body that a value stands for, or the field at which reading it
    /// fails (no field where the value is no object). The value must be an
    /// object, every field must read as its kind, and no member may stand
    /// under a key that the shape does not take: the failure names the
    /// first field that does not read, or else the first member that is not
    /// taken.
    spec fn parse(j: JsonModel) -> Result<Self::V, Seq<char>>;

    /// The keys that the shape takes. A shape of named fields takes the keys
    /// of its fields and no other; a shape that carries members under names
    /// of their own takes every key.
    spec fn declared() -> Set<Seq<char>>;

    /// The keys of the fields that must be there.
    spec fn required() -> Set<Seq<char>>;

    /// Whether a body is read back as it was written. Most shapes are,
    /// whatever they hold; a shape that carries members under names of
    /// their own asks that none of them takes the name of a named field.
    spec fn wf(v: Self::V) -> bool;

    /// Whether a body can be written to the wire: its numbers must be
    /// number literals, and what it carries under names of its own must
    /// stand under names that differ from each other and from the named
    /// fields.
    spec fn writable(v: Self::V) -> bool;

    /// The value that stands for the body on the wire.
    fn to_json(&self) -> (j: Json)
        ensures
            j@ == Self::wire(self@),
    ;

    /// Reads the body from the value that stands for it. Where reading
    /// fails, the failure names the field at which it failed.
    fn from_json(j: &Json) -> (r: Result<Self, String>)
        ensures
            agrees(r, Self::parse(j@)),
    ;

    /// A body is read back from its value as it was written.
    proof fn lemma_round_trip(v: Self::V)
        requires
            Self::wf(v),
        ensures
            Self::parse(Self::wire(v)) == Ok::<Self::V, Seq<char>>(v),
    ;

    /// The value that stands for a body is well formed exactly when the
    /// body can be written; and a body that can be written is read back as
    /// it was written.
    proof fn lemma_wire_wf(v: Self::V)
        ensures
            Self::wire(v).wf() == Self::writable(v),
            Self::writable(v) ==> Self::wf(v),
    ;

    /// A value that is unfit for the shape is no body of the shape: not an
    /// object that holds a member under a key that the shape does not take,
    /// and not a value that lacks a field that the shape requires.
    proof fn lemma_unfit_is_refused(j: JsonModel)
        ensures
            holds_besides(j, Self::declared()) ==> Self::parse(j) is Err,
            (exists|key: Seq<char>|
                #[trigger] Self::required().contains(key) && j.field(key) is None) ==> Self::parse(
                j,
            ) is Err,
    ;
}

/// Whether an object holds a member under a key that the shape does not
/// take.
pub open spec fn holds_undeclared<T: Shape>(j: JsonModel) -> bool {
    holds_besides(j, T::declared())
}

/// Whether a value lacks a field that the shape requires.
pub open spec fn lacks_required<T: Shape>(j: JsonModel) -> bool {
    exists|key: Seq<char>| #[trigger] T::required().contains(key) && j.field(key) is None
}

/// What keeps a value from being a body of a shape, whatever else it
/// holds: a member under a key that the shape does not take, or the lack of
/// a field that the shape requires.
pub open spec fn unfit<T: Shape>(j: JsonModel) -> bool {
    holds_undeclared::<T>(j) || lacks_required::<T>(j)
}

// ---------------------------------------------------------------------------
// Fields that hold one of a few named values
// ---------------------------------------------------------------------------
/// A word: one of a few values, each of which travels under a name of its
/// own, as a text.
pub trait Word: Sized + Copy {
    /// The name under which the value travels.
    spec fn name(self) -> Seq<char>;

    /// The value that travels under a name, if there is one.
    spec fn from_name(name: Seq<char>) -> Option<Self>;

    /// The name under which the value travels.
    fn as_str(&self) -> (s: &'static str)
        ensures
            s@ == self.name(),
    ;

    /// The value that travels under a name.
    fn from_str(name: &str) -> (r: Option<Self>)
        ensures
            r == Self::from_name(name@),
    ;

    /// A value is found again under its name.
    proof fn lemma_name_round_trip(x: Self)
        ensures
            Self::from_name(x.name()) == Some(x),
    ;
}

/// The text that stands for a word on the wire.
pub open spec fn word_wire<W: Word>(x: W) -> JsonModel {
    JsonModel::Text(x.name())
}

/// An optional word as it is written: null where there is none.
pub open spec fn opt_word_wire<W: Word>(o: Option<W>) -> JsonModel {
    match o {
        Some(x) => word_wire(x),
        None => JsonModel::Null,
    }
}

/// The word that a value stands for: the value must be a text, and the text
/// the name of a word.
pub open spec fn word_parse<W: Word>(v: JsonModel) -> Option<W> {
    match v {
        JsonModel::Text(t) => W::from_name(t),
        _ => None,
    }
}

/// A required field that holds a word.
#[verifier::opaque]
pub open spec fn req_word<W: Word>(j: JsonModel, key: Seq<char>) -> Result<W, Seq<char>> {
    match j.field(key) {
        Some(v) => match word_parse::<W>(v) {
            Some(x) => Ok(x),
            None => Err(key),
        },
        None => Err(key),
    }
}

/// An optional field that holds a word.
#[verifier::opaque]
pub open spec fn opt_word<W: Word>(j: JsonModel, key: Seq<char>) -> Result<Option<W>, Seq<char>> {
    match optional(j, key) {
        Some(v) => match word_parse::<W>(v) {
            Some(x) => Ok(Some(x)),
            None => Err(key),
        },
        None => Ok(None),
    }
}

/// The text that stands for a word on the wire.
pub fn word_json<W: Word>(x: &W) -> (j: Json)
    ensures
        j@ == word_wire(*x),
{
    Json::Text(x.as_str().to_owned())
}

/// The value that stands for an optional word.
pub fn opt_word_json<W: Word>(o: &Option<W>) -> (j: Json)
    ensures
        j@ == opt_word_wire(*o),
{
    match o {
        Some(x) => word_json(x),
        None => Json::Null,
    }
}

/// The word that a value holds, if it holds one.
pub fn read_word<W: Word>(v: &Json) -> (r: Option<W>)
    ensures
        r == word_parse::<W>(v@),
{
    match v {
        Json::Text(t) => W::from_str(t.as_str()),
        _ => None,
    }
}

/// Reads a required field that holds a word.
pub fn get_word<W: Word>(j: &Json, key: &str) -> (r: Result<W, String>)
    ensures
        agrees_plain(r, req_word::<W>(j@, key@)),
        r matches Err(e) ==> e@ == key@,
{
    proof {
        reveal(req_word);
    }
    match j.get(key) {
        Some(v) => match read_word(v) {
            Some(x) => Ok(x),
            None => Err(key.to_owned()),
        },
        None => Err(key.to_owned()),
    }
}

/// Reads an optional field that holds a word.
pub fn get_opt_word<W: Word>(j: &Json, key: &str) -> (r: Result<Option<W>, String>)
    ensures
        agrees_plain(r, opt_word::<W>(j@, key@)),
        r matches Err(e) ==> e@ == key@,
{
    proof {
        reveal(opt_word);
    }
    match get_optional(j, key) {
        Some(v) => match read_word(v) {
            Some(x) => Ok(Some(x)),
            None => Err(key.to_owned()),
        },
        None => Ok(None),
    }
}

/// What was written into a required field that holds a word is what is read
/// from it.
pub broadcast proof fn lemma_req_word_written<W: Word>(j: JsonModel, key: Seq<char>, x: W)
    requires
        j.field(key) == Some(word_wire(x)),
    ensures
        #![trigger req_word::<W>(j, key), word_wire(x)]
        req_word::<W>(j, key) == Ok::<W, Seq<char>>(x),
{
    reveal(req_word);
    W::lemma_name_round_trip(x);
}

/// What was written into an optional field that holds a word is what is
/// read from it.
pub broadcast proof fn lemma_opt_word_written<W: Word>(j: JsonModel, key: Seq<char>, x: Option<W>)
    requires
        j.field(key) == Some(opt_word_wire(x)),
    ensures
        #![trigger opt_word::<W>(j, key), opt_word_wire(x)]
        opt_word::<W>(j, key) == Ok::<Option<W>, Seq<char>>(x),
{
    reveal(opt_word);
    if x is Some {
        W::lemma_name_round_trip(x->Some_0);
    }
}

/// A required field that is absent is not read.
pub broadcast proof fn lemma_req_word_absent<W: Word>(j: JsonModel, key: Seq<char>)
    requires
        j.field(key) is None,
    ensures
        #[trigger] req_word::<W>(j, key) is Err,
{
    reveal(req_word);
}

/// A word can always be written.
pub broadcast proof fn lemma_opt_word_wf<W: Word>(o: Option<W>)
    ensures
        #[trigger] opt_word_wire(o).wf(),
{
}

// ---------------------------------------------------------------------------
// Fields that hold lists of bodies
// ---------------------------------------------------------------------------
/// The models of a list of bodies.
pub open spec fn list_view<T: Shape>(list: Seq<T>) -> Seq<T::V> {
    Seq::new(list.len(), |i: int| list[i]@)
}

/// The models of an optional list of bodies.
pub open spec fn opt_list_view<T: Shape>(o: Option<Vec<T>>) -> Option<Seq<T::V>> {
    match o {
        Some(list) => Some(list_view(list@)),
        None => None,
    }
}

/// The array that stands for a list of bodies.
pub open spec fn list_wire<T: Shape>(list: Seq<T::V>) -> JsonModel {
    JsonModel::Array(Seq::new(list.len(), |i: int| T::wire(list[i])))
}

/// An optional list as it is written: null where there is none.
pub open spec fn opt_list_wire<T: Shape>(o: Option<Seq<T::V>>) -> JsonModel {
    match o {
        Some(list) => list_wire::<T>(list),
        None => JsonModel::Null,
    }
}

/// The list that an array stands for: every item must be a body.
pub open spec fn list_parse<T: Shape>(v: JsonModel) -> Option<Seq<T::V>> {
    match v {
        JsonModel::Array(items) => if forall|i: int|
            0 <= i < items.len() ==> T::parse(#[trigger] items[i]) is Ok {
            Some(Seq::new(items.len(), |i: int| T::parse(items[i])->Ok_0))
        } else {
            None
        },
        _ => None,
    }
}

/// A required field that holds a list of bodies.
#[verifier::opaque]
pub open spec fn req_list<T: Shape>(j: JsonModel, key: Seq<char>) -> Result<Seq<T::V>, Seq<char>> {
    match j.field(key) {
        Some(v) => match list_parse::<T>(v) {
            Some(x) => Ok(x),
            None => Err(key),
        },
        None => Err(key),
    }
}

/// An optional field that holds a list of bodies.
#[verifier::opaque]
pub open spec fn opt_list<T: Shape>(j: JsonModel, key: Seq<char>) -> Result<
    Option<Seq<T::V>>,
    Seq<char>,
> {
    match optional(j, key) {
        Some(v) => match list_parse::<T>(v) {
            Some(x) => Ok(Some(x)),
            None => Err(key),
        },
        None => Ok(None),
    }
}

/// Whether every body of a list can be written.
pub open spec fn all_writable<T: Shape>(list: Seq<T::V>) -> bool {
    forall|i: int| 0 <= i < list.len() ==> T::writable(#[trigger] list[i])
}

/// Whether every body of an optional list can be written.
pub open spec fn opt_all_writable<T: Shape>(o: Option<Seq<T::V>>) -> bool {
    o matches Some(list) ==> all_writable::<T>(list)
}

/// The array that stands for a list of bodies.
pub fn list_to_json<T: Shape>(list: &Vec<T>) -> (j: Json)
    ensures
        j@ == list_wire::<T>(list_view(list@)),
{
    let mut out: Vec<Json> = Vec::new();
    let mut i: usize = 0;
    while i < list.len()
        invariant
            0 <= i <= list@.len(),
            out@.len() == i,
            forall|k: int| 0 <= k < i ==> (#[trigger] out@[k])@ == T::wire(list@[k]@),
        decreases list@.len() - i,
    {
        out.push(list[i].to_json());
        i = i + 1;
    }
    proof {
        lemma_view_array(out);
        assert(items_view(out@) =~= list_wire::<T>(list_view(list@))->Array_0);
    }
    Json::Array(out)
}

/// The value that stands for an optional list of bodies.
pub fn opt_list_to_json<T: Shape>(o: &Option<Vec<T>>) -> (j: Json)
    ensures
        j@ == opt_list_wire::<T>(opt_list_view(*o)),
{
    match o {
        Some(list) => list_to_json(list),
        None => Json::Null,
    }
}

/// Reads a list of bodies from the array that stands for it.
pub fn list_from_json<T: Shape>(v: &Json) -> (r: Option<Vec<T>>)
    ensures
        opt_list_view(r) == list_parse::<T>(v@),
{
    match v {
        Json::Array(items) => {
            proof {
                lemma_view_array(*items);
            }
            let ghost model = items_view(items@);
            let mut out: Vec<T> = Vec::new();
            let mut i: usize = 0;
            while i < items.len()
                invariant
                    0 <= i <= items@.len(),
                    model == items_view(items@),
                    v@ == JsonModel::Array(model),
                    out@.len() == i,
                    forall|k: int|
                        0 <= k < i ==> T::parse(#[trigger] model[k]) == Ok::<T::V, Seq<char>>(
                            out@[k]@,
                        ),
                decreases items@.len() - i,
            {
                match T::from_json(&items[i]) {
                    Ok(x) => {
                        out.push(x);
                    },
                    Err(_) => {
                        assert(T::parse(model[i as int]) is Err);
                        return None;
                    },
                }
                i = i + 1;
            }
            assert(list_view(out@) =~= Seq::new(model.len(), |i: int| T::parse(model[i])->Ok_0));
            Some(out)
        },
        _ => None,
    }
}

/// Reads a required field that holds a list of bodies.
pub fn get_list<T: Shape>(j: &Json, key: &str) -> (r: Result<Vec<T>, String>)
    ensures
        match r {
            Ok(list) => req_list::<T>(j@, key@) == Ok::<Seq<T::V>, Seq<char>>(list_view(list@)),
            Err(e) => e@ == key@ && req_list::<T>(j@, key@) == Err::<Seq<T::V>, Seq<char>>(e@),
        },
{
    proof {
        reveal(req_list);
    }
    match j.get(key) {
        Some(v) => match list_from_json(v) {
            Some(list) => Ok(list),
            None => Err(key.to_owned()),
        },
        None => Err(key.to_owned()),
    }
}

/// Reads an optional field that holds a list of bodies.
pub fn get_opt_list<T: Shape>(j: &Json, key: &str) -> (r: Result<Option<Vec<T>>, String>)
    ensures
        match r {
            Ok(o) => opt_list::<T>(j@, key@) == Ok::<Option<Seq<T::V>>, Seq<char>>(
                opt_list_view(o),
            ),
            Err(e) => e@ == key@ && opt_list::<T>(j@, key@) == Err::<
                Option<Seq<T::V>>,
                Seq<char>,
            >(e@),
        },
{
    proof {
        reveal(opt_list);
    }
    match get_optional(j, key) {
        Some(v) => match list_from_json(v) {
            Some(list) => Ok(Some(list)),
            None => Err(key.to_owned()),
        },
        None => Ok(None),
    }
}

/// A list of bodies is read back from its array as it was written.
pub proof fn lemma_list_round_trip<T: Shape>(list: Seq<T::V>)
    requires
        forall|i: int| 0 <= i < list.len() ==> T::wf(#[trigger] list[i]),
    ensures
        list_parse::<T>(list_wire::<T>(list)) == Some(list),
{
    let items = list_wire::<T>(list)->Array_0;
    assert forall|i: int| 0 <= i < items.len() implies T::parse(#[trigger] items[i]) == Ok::<
        T::V,
        Seq<char>,
    >(list[i]) by {
        assert(T::wf(list[i]));
        T::lemma_round_trip(list[i]);
    }
    assert(Seq::new(items.len(), |i: int| T::parse(items[i])->Ok_0) =~= list);
}

/// The array that stands for a list is well formed exactly when every body
/// of the list can be written.
pub broadcast proof fn lemma_list_wf<T: Shape>(list: Seq<T::V>)
    ensures
        #[trigger] list_wire::<T>(list).wf() == all_writable::<T>(list),
{
    let items = list_wire::<T>(list)->Array_0;
    assert forall|i: int| 0 <= i < list.len() implies (#[trigger] items[i]).wf() == T::writable(
        list[i],
    ) by {
        T::lemma_wire_wf(list[i]);
    }
    if all_writable::<T>(list) {
        assert forall|i: int| 0 <= i < items.len() implies (#[trigger] items[i]).wf() by {
            assert(T::writable(list[i]));
        }
    }
    if list_wire::<T>(list).wf() {
        assert forall|i: int| 0 <= i < list.len() implies T::writable(#[trigger] list[i]) by {
            assert(items[i].wf());
        }
    }
}

/// The same for an optional list.
pub broadcast proof fn lemma_opt_list_wf<T: Shape>(o: Option<Seq<T::V>>)
    ensures
        #[trigger] opt_list_wire::<T>(o).wf() == opt_all_writable::<T>(o),
{
    if o is Some {
        lemma_list_wf::<T>(o->Some_0);
    }
}

/// A required field that is absent is not read.
pub broadcast proof fn lemma_req_list_absent<T: Shape>(j: JsonModel, key: Seq<char>)
    requires
        j.field(key) is None,
    ensures
        #[trigger] req_list::<T>(j, key) is Err,
{
    reveal(req_list);
}

/// What was written into a required field that holds a list of bodies is
/// what is read from it.
pub broadcast proof fn lemma_req_list_written<T: Shape>(j: JsonModel, key: Seq<char>, x: Seq<T::V>)
    requires
        j.field(key) == Some(list_wire::<T>(x)),
        forall|i: int| 0 <= i < x.len() ==> T::wf(#[trigger] x[i]),
    ensures
        #![trigger req_list::<T>(j, key), list_wire::<T>(x)]
        req_list::<T>(j, key) == Ok::<Seq<T::V>, Seq<char>>(x),
{
    reveal(req_list);
    lemma_list_round_trip::<T>(x);
}

/// What was written into an optional field that holds a list of bodies is
/// what is read from it.
pub broadcast proof fn lemma_opt_list_written<T: Shape>(
    j: JsonModel,
    key: Seq<char>,
    x: Option<Seq<T::V>>,
)
    requires
        j.field(key) == Some(opt_list_wire::<T>(x)),
        x matches Some(list) ==> forall|i: int| 0 <= i < list.len() ==> T::wf(#[trigger] list[i]),
    ensures
        #![trigger opt_list::<T>(j, key), opt_list_wire::<T>(x)]
        opt_list::<T>(j, key) == Ok::<Option<Seq<T::V>>, Seq<char>>(x),
{
    reveal(opt_list);
    if x is Some {
        lemma_list_round_trip::<T>(x->Some_0);
    }
}

// ---------------------------------------------------------------------------
// Fields that hold bodies under names
// ---------------------------------------------------------------------------
/// The models of a list of named bodies.
pub open spec fn map_view<T: Shape>(entries: Seq<(String, T)>) -> Seq<(Seq<char>, T::V)> {
    Seq::new(entries.len(), |i: int| (entries[i].0@, entries[i].1@))
}

/// The object that stands for a list of named bodies: one member for each,
/// under its name.
pub open spec fn map_wire<T: Shape>(entries: Seq<(Seq<char>, T::V)>) -> JsonModel {
    JsonModel::Object(
        Seq::new(
            entries.len(),
            |i: int| Member { key: entries[i].0, value: T::wire(entries[i].1) },
        ),
    )
}

/// The named bodies that an object stands for: every member must hold a
/// body.
pub open spec fn map_parse<T: Shape>(v: JsonModel) -> Option<Seq<(Seq<char>, T::V)>> {
    match v {
        JsonModel::Object(members) => if forall|i: int|
            0 <= i < members.len() ==> T::parse((#[trigger] members[i]).value) is Ok {
            Some(
                Seq::new(
                    members.len(),
                    |i: int| (members[i].key, T::parse(members[i].value)->Ok_0),
                ),
            )
        } else {
            None
        },
        _ => None,
    }
}

/// A required field that holds named bodies.
#[verifier::opaque]
pub open spec fn req_map<T: Shape>(j: JsonModel, key: Seq<char>) -> Result<
    Seq<(Seq<char>, T::V)>,
    Seq<char>,
> {
    match j.field(key) {
        Some(v) => match map_parse::<T>(v) {
            Some(x) => Ok(x),
            None => Err(key),
        },
        None => Err(key),
    }
}

/// Whether named bodies can be written: no name may occur twice, and every
/// body must be writable.
pub open spec fn named_writable<T: Shape>(entries: Seq<(Seq<char>, T::V)>) -> bool {
    &&& forall|i: int, j: int|
        0 <= i < j < entries.len() ==> (#[trigger] entries[i]).0 != (#[trigger] entries[j]).0
    &&& forall|i: int| 0 <= i < entries.len() ==> T::writable((#[trigger] entries[i]).1)
}

/// Whether every one of the named bodies is read back as it was written.
pub open spec fn all_named_wf<T: Shape>(entries: Seq<(Seq<char>, T::V)>) -> bool {
    forall|i: int| 0 <= i < entries.len() ==> T::wf((#[trigger] entries[i]).1)
}

/// The object that stands for a list of named bodies.
pub fn map_to_json<T: Shape>(entries: &Vec<(String, T)>) -> (j: Json)
    ensures
        j@ == map_wire::<T>(map_view(entries@)),
{
    let mut out: Vec<(String, Json)> = Vec::new();
    let mut i: usize = 0;
    while i < entries.len()
        invariant
            0 <= i <= entries@.len(),
            out@.len() == i,
            forall|k: int|
                0 <= k < i ==> (#[trigger] out@[k]).0@ == entries@[k].0@ && out@[k].1@ == T::wire(
                    entries@[k].1@,
                ),
        decreases entries@.len() - i,
    {
        out.push((entries[i].0.clone(), entries[i].1.to_json()));
        i = i + 1;
    }
    proof {
        lemma_view_object(out);
        assert(members_view(out@) =~= map_wire::<T>(map_view(entries@))->Object_0);
    }
    Json::Object(out)
}

/// Reads named bodies from the object that stands for them.
pub fn map_from_json<T: Shape>(v: &Json) -> (r: Option<Vec<(String, T)>>)
    ensures
        match r {
            Some(entries) => map_parse::<T>(v@) == Some(map_view(entries@)),
            None => map_parse::<T>(v@) is None,
        },
{
    match v {
        Json::Object(members) => {
            proof {
                lemma_view_object(*members);
            }
            let ghost model = members_view(members@);
            let mut out: Vec<(String, T)> = Vec::new();
            let mut i: usize = 0;
            while i < members.len()
                invariant
                    0 <= i <= members@.len(),
                    model == members_view(members@),
                    v@ == JsonModel::Object(model),
                    out@.len() == i,
                    forall|k: int|
                        0 <= k < i ==> T::parse((#[trigger] model[k]).value) == Ok::<
                            T::V,
                            Seq<char>,
                        >(out@[k].1@) && out@[k].0@ == model[k].key,
                decreases members@.len() - i,
            {
                match T::from_json(&members[i].1) {
                    Ok(x) => {
                        out.push((members[i].0.clone(), x));
                    },
                    Err(_) => {
                        assert(T::parse(model[i as int].value) is Err);
                        return None;
                    },
                }
                i = i + 1;
            }
            assert(map_view(out@) =~= Seq::new(
                model.len(),
                |i: int| (model[i].key, T::parse(model[i].value)->Ok_0),
            ));
            Some(out)
        },
        _ => None,
    }
}

/// Reads a required field that holds named bodies.
pub fn get_map<T: Shape>(j: &Json, key: &str) -> (r: Result<Vec<(String, T)>, String>)
    ensures
        match r {
            Ok(entries) => req_map::<T>(j@, key@) == Ok::<Seq<(Seq<char>, T::V)>, Seq<char>>(
                map_view(entries@),
            ),
            Err(e) => e@ == key@ && req_map::<T>(j@, key@) == Err::<
                Seq<(Seq<char>, T::V)>,
                Seq<char>,
            >(e@),
        },
{
    proof {
        reveal(req_map);
    }
    match j.get(key) {
        Some(v) => match map_from_json(v) {
            Some(entries) => Ok(entries),
            None => Err(key.to_owned()),
        },
        None => Err(key.to_owned()),
    }
}

/// Named bodies are read back from their object as they were written.
pub proof fn lemma_map_round_trip<T: Shape>(entries: Seq<(Seq<char>, T::V)>)
    requires
        all_named_wf::<T>(entries),
    ensures
        map_parse::<T>(map_wire::<T>(entries)) == Some(entries),
{
    let members = map_wire::<T>(entries)->Object_0;
    assert forall|i: int| 0 <= i < members.len() implies T::parse((#[trigger] members[i]).value)
        == Ok::<T::V, Seq<char>>(entries[i].1) by {
        assert(T::wf(entries[i].1));
        T::lemma_round_trip(entries[i].1);
    }
    assert(Seq::new(
        members.len(),
        |i: int| (members[i].key, T::parse(members[i].value)->Ok_0),
    ) =~= entries);
}

/// The object that stands for named bodies is well formed exactly when they
/// can be written.
pub broadcast proof fn lemma_map_wf<T: Shape>(entries: Seq<(Seq<char>, T::V)>)
    ensures
        #[trigger] map_wire::<T>(entries).wf() == named_writable::<T>(entries),
{
    let members = map_wire::<T>(entries)->Object_0;
    assert forall|i: int| 0 <= i < entries.len() implies (#[trigger] members[i]).value.wf()
        == T::writable(entries[i].1) by {
        T::lemma_wire_wf(entries[i].1);
    }
    if named_writable::<T>(entries) {
        assert forall|i: int, j: int| 0 <= i < j < members.len() implies (
        #[trigger] members[i]).key != (#[trigger] members[j]).key by {
            assert(entries[i].0 != entries[j].0);
        }
        assert forall|i: int| 0 <= i < members.len() implies (#[trigger] members[i]).value.wf() by {
            assert(T::writable(entries[i].1));
        }
    }
    if map_wire::<T>(entries).wf() {
        assert forall|i: int, j: int| 0 <= i < j < entries.len() implies (
        #[trigger] entries[i]).0 != (#[trigger] entries[j]).0 by {
            assert(members[i].key != members[j].key);
        }
        assert forall|i: int| 0 <= i < entries.len() implies T::writable(
            (#[trigger] entries[i]).1,
        ) by {
            assert(members[i].value.wf());
        }
    }
}

/// A required field that is absent is not read.
pub broadcast proof fn lemma_req_map_absent<T: Shape>(j: JsonModel, key: Seq<char>)
    requires
        j.field(key) is None,
    ensures
        #[trigger] req_map::<T>(j, key) is Err,
{
    reveal(req_map);
}

/// What was written into a field that holds named bodies is what is read
/// from it.
pub broadcast proof fn lemma_req_map_written<T: Shape>(
    j: JsonModel,
    key: Seq<char>,
    x: Seq<(Seq<char>, T::V)>,
)
    requires
        j.field(key) == Some(map_wire::<T>(x)),
        all_named_wf::<T>(x),
    ensures
        #![trigger req_map::<T>(j, key), map_wire::<T>(x)]
        req_map::<T>(j, key) == Ok::<Seq<(Seq<char>, T::V)>, Seq<char>>(x),
{
    reveal(req_map);
    lemma_map_round_trip::<T>(x);
}

/// The laws of reading words, lists and named bodies that were written.
pub broadcast group group_shape_laws {
    lemma_req_word_written,
    lemma_opt_word_written,
    lemma_req_list_written,
    lemma_opt_list_written,
    lemma_req_map_written,
}

/// The laws of required words, lists and named bodies that are absent.
pub broadcast group group_shape_refusals {
    lemma_req_word_absent,
    lemma_req_list_absent,
    lemma_req_map_absent,
}

/// The laws of which words, lists and named bodies can be written.
pub broadcast group group_shape_wf_laws {
    lemma_opt_word_wf,
    lemma_list_wf,
    lemma_opt_list_wf,
    lemma_map_wf,
}

} // verus!
