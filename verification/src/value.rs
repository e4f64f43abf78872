//! The untyped structured value that every message body passes through
//! between the wire text and its typed shape.

use crate::numeral::{decimal, decimal_value, is_decimal, is_number_literal, Number};
use vstd::prelude::*;
use vstd::string::*;

verus! {

broadcast use vstd::string::group_string_axioms;

/// Mathematical model of a structured wire value. The members of an object
/// are kept in the order in which they stand on the wire.
pub enum JsonModel {
    Null,
    Bool(bool),
    /// A number, as its literal text.
    Number(Seq<char>),
    Text(Seq<char>),
    Array(Seq<JsonModel>),
    Object(Seq<Member>),
}

/// One member of an object: a key and the value that stands under it.
pub struct Member {
    pub key: Seq<char>,
    pub value: JsonModel,
}

/// A structured wire value.
#[derive(Debug, PartialEq, Eq)]
pub enum Json {
    Null,
    Bool(bool),
    Number(Number),
    Text(String),
    Array(Vec<Json>),
    Object(Vec<(String, Json)>),
}

impl View for Json {
    type V = JsonModel;

    open spec fn view(&self) -> JsonModel
        decreases self,
    {
        match self {
            Json::Null => JsonModel::Null,
            Json::Bool(b) => JsonModel::Bool(*b),
            Json::Number(t) => JsonModel::Number(t@),
            Json::Text(t) => JsonModel::Text(t@),
            Json::Array(items) => JsonModel::Array(
                Seq::new(
                    items@.len(),
                    |i: int|
                        if 0 <= i < items@.len() {
                            items@[i].view()
                        } else {
                            JsonModel::Null
                        },
                ),
            ),
            Json::Object(members) => JsonModel::Object(
                Seq::new(
                    members@.len(),
                    |i: int|
                        if 0 <= i < members@.len() {
                            Member { key: members@[i].0@, value: members@[i].1.view() }
                        } else {
                            Member { key: Seq::empty(), value: JsonModel::Null }
                        },
                ),
            ),
        }
    }
}

/// The models of a list of values.
pub open spec fn items_view(items: Seq<Json>) -> Seq<JsonModel> {
    Seq::new(items.len(), |i: int| items[i]@)
}

/// The models of a list of object members.
pub open spec fn members_view(members: Seq<(String, Json)>) -> Seq<Member> {
    Seq::new(members.len(), |i: int| Member { key: members[i].0@, value: members[i].1@ })
}

/// The model of an array is the array of the models of its items.
pub proof fn lemma_view_array(items: Vec<Json>)
    ensures
        Json::Array(items)@ == JsonModel::Array(items_view(items@)),
{
    assert(Json::Array(items)@->Array_0 =~= items_view(items@));
}

/// The model of an object is the object of the models of its members.
pub proof fn lemma_view_object(members: Vec<(String, Json)>)
    ensures
        Json::Object(members)@ == JsonModel::Object(members_view(members@)),
{
    assert(Json::Object(members)@->Object_0 =~= members_view(members@));
}

/// No key occurs twice among the members.
pub open spec fn distinct_keys(members: Seq<Member>) -> bool {
    forall|i: int, j: int|
        0 <= i < j < members.len() ==> (#[trigger] members[i]).key != (#[trigger] members[j]).key
}

/// The value of the last member with the given key.
#[verifier::opaque]
pub open spec fn lookup(members: Seq<Member>, key: Seq<char>) -> Option<JsonModel>
    decreases members.len(),
{
    if members.len() == 0 {
        None
    } else if members.last().key == key {
        Some(members.last().value)
    } else {
        lookup(members.drop_last(), key)
    }
}

/// The members whose key is not among `named`, in their order.
#[verifier::opaque]
pub open spec fn others(members: Seq<Member>, named: Set<Seq<char>>) -> Seq<Member>
    decreases members.len(),
{
    if members.len() == 0 {
        Seq::empty()
    } else if named.contains(members.last().key) {
        others(members.drop_last(), named)
    } else {
        others(members.drop_last(), named).push(members.last())
    }
}

/// The set of the given names.
pub open spec fn names_of(names: Seq<String>) -> Set<Seq<char>> {
    Set::new(|k: Seq<char>| exists|i: int| 0 <= i < names.len() && (#[trigger] names[i])@ == k)
}

/// The key of the first member of an object that stands under none of the
/// declared keys; none where every member does, or the value is no object.
pub open spec fn undeclared(j: JsonModel, declared: Set<Seq<char>>) -> Option<Seq<char>> {
    match j {
        JsonModel::Object(members) => {
            let rest = others(members, declared);
            if rest.len() > 0 {
                Some(rest[0].key)
            } else {
                None
            }
        },
        _ => None,
    }
}

/// Nothing is left of no members.
pub broadcast proof fn lemma_others_empty(named: Set<Seq<char>>)
    ensures
        #[trigger] others(Seq::<Member>::empty(), named) == Seq::<Member>::empty(),
{
    reveal(others);
}

/// A member under a key that is not named is left.
pub proof fn lemma_others_holds(members: Seq<Member>, named: Set<Seq<char>>, at: int)
    requires
        0 <= at < members.len(),
        !named.contains(members[at].key),
    ensures
        others(members, named).len() > 0,
    decreases members.len(),
{
    reveal(others);
    if at < members.len() - 1 {
        lemma_others_holds(members.drop_last(), named, at);
    }
}

/// Whether an object holds a member under a key that is not declared.
pub open spec fn holds_besides(j: JsonModel, declared: Set<Seq<char>>) -> bool {
    j is Object && exists|at: int|
        0 <= at < j->Object_0.len() && !declared.contains((#[trigger] j->Object_0[at]).key)
}

/// An object that holds a member under a key that is not declared has an
/// undeclared member.
pub proof fn lemma_undeclared(j: JsonModel, declared: Set<Seq<char>>)
    ensures
        holds_besides(j, declared) ==> undeclared(j, declared) is Some,
{
    if holds_besides(j, declared) {
        let at = choose|at: int|
            0 <= at < j->Object_0.len() && !declared.contains((#[trigger] j->Object_0[at]).key);
        lemma_others_holds(j->Object_0, declared, at);
    }
}

/// Taking the named members out after a member was appended: the new
/// member stays unless its key is named.
pub broadcast proof fn lemma_others_push(members: Seq<Member>, m: Member, named: Set<Seq<char>>)
    ensures
        #[trigger] others(members.push(m), named) == if named.contains(m.key) {
            others(members, named)
        } else {
            others(members, named).push(m)
        },
{
    reveal(others);
    assert(members.push(m).drop_last() =~= members);
}

/// Where no key is among `named`, all members stay.
pub broadcast proof fn lemma_others_all(members: Seq<Member>, named: Set<Seq<char>>)
    requires
        forall|i: int| 0 <= i < members.len() ==> !named.contains((#[trigger] members[i]).key),
    ensures
        #[trigger] others(members, named) == members,
    decreases members.len(),
{
    reveal(others);
    if members.len() > 0 {
        let rest = members.drop_last();
        assert forall|i: int| 0 <= i < rest.len() implies !named.contains(
            (#[trigger] rest[i]).key,
        ) by {
            assert(rest[i] == members[i]);
        }
        lemma_others_all(rest, named);
        assert(!named.contains(members[members.len() - 1].key));
        assert(rest.push(members.last()) =~= members);
    } else {
        assert(members =~= Seq::empty());
    }
}

impl JsonModel {
    /// A value is well formed when it can be written to the wire as it
    /// stands: every number is a number literal, and no object holds a key
    /// twice.
    pub open spec fn wf(self) -> bool
        decreases self,
    {
        match self {
            JsonModel::Number(t) => is_number_literal(t),
            JsonModel::Array(items) => forall|i: int|
                0 <= i < items.len() ==> (#[trigger] items[i]).wf(),
            JsonModel::Object(members) => {
                &&& distinct_keys(members)
                &&& forall|i: int| 0 <= i < members.len() ==> (#[trigger] members[i]).value.wf()
            },
            _ => true,
        }
    }

    /// The member of an object with the given key; `None` where there is no
    /// such member or the value is no object.
    pub open spec fn field(self, key: Seq<char>) -> Option<JsonModel> {
        match self {
            JsonModel::Object(members) => lookup(members, key),
            _ => None,
        }
    }

    /// The unsigned integer that a value denotes, where it is a number in
    /// plain decimal notation that fits 128 bits.
    pub open spec fn as_nat(self) -> Option<nat> {
        match self {
            JsonModel::Number(t) => if is_decimal(t) && decimal_value(t) <= u128::MAX {
                Some(decimal_value(t))
            } else {
                None
            },
            _ => None,
        }
    }

    /// The number value that denotes `n`.
    pub open spec fn of_nat(n: nat) -> JsonModel {
        JsonModel::Number(decimal(n))
    }
}

/// A few marks of a key: its length, its first two and its last two
/// characters. Keys with different marks are different keys.
pub open spec fn key_mark(key: Seq<char>) -> (nat, char, char, char, char) {
    (key.len(), key[0], key[1], key[key.len() - 2], key[key.len() - 1])
}

/// Looking a key up after a member was appended: the new member answers for
/// its own key, the older members for every other. The second clause says
/// nothing new; it names the marks of the two keys, by which keys that are
/// written out are told apart.
pub broadcast proof fn lemma_lookup_push(
    members: Seq<Member>,
    k: Seq<char>,
    v: JsonModel,
    key: Seq<char>,
)
    ensures
        #[trigger] lookup(members.push(Member { key: k, value: v }), key) == if k == key {
            Some(v)
        } else {
            lookup(members, key)
        },
        k == key ==> key_mark(k) == key_mark(key),
{
    reveal(lookup);
    let m = members.push(Member { key: k, value: v });
    assert(m.last() == Member { key: k, value: v });
    assert(m.drop_last() =~= members);
}

/// Nothing is found among no members.
pub broadcast proof fn lemma_lookup_empty(key: Seq<char>)
    ensures
        #[trigger] lookup(Seq::<Member>::empty(), key) is None,
{
    reveal(lookup);
}

/// Members that are appended change nothing for a key that is not among
/// their keys.
pub proof fn lemma_lookup_append(members: Seq<Member>, more: Seq<Member>, key: Seq<char>)
    requires
        forall|i: int| 0 <= i < more.len() ==> (#[trigger] more[i]).key != key,
    ensures
        lookup(members + more, key) == lookup(members, key),
    decreases more.len(),
{
    reveal(lookup);
    if more.len() == 0 {
        assert(members + more =~= members);
    } else {
        let all = members + more;
        assert(all.last() == more[more.len() - 1]);
        assert(all.drop_last() =~= members + more.drop_last());
        assert forall|i: int| 0 <= i < more.drop_last().len() implies (
        #[trigger] more.drop_last()[i]).key != key by {
            assert(more.drop_last()[i] == more[i]);
        }
        lemma_lookup_append(members, more.drop_last(), key);
    }
}

/// Taking the named members out of two runs of members, one after the
/// other, is taking them out of each.
pub proof fn lemma_others_append(members: Seq<Member>, more: Seq<Member>, named: Set<Seq<char>>)
    ensures
        others(members + more, named) == others(members, named) + others(more, named),
    decreases more.len(),
{
    reveal(others);
    if more.len() == 0 {
        assert(members + more =~= members);
        assert(others(members, named) + Seq::<Member>::empty() =~= others(members, named));
    } else {
        let all = members + more;
        assert(all.last() == more.last());
        assert(all.drop_last() =~= members + more.drop_last());
        lemma_others_append(members, more.drop_last(), named);
        let a = others(members, named);
        let b = others(more.drop_last(), named);
        assert((a + b).push(more.last()) =~= a + b.push(more.last()));
    }
}

/// The laws of looking up members that were appended one by one.
pub broadcast group group_lookup {
    lemma_lookup_push,
    lemma_lookup_empty,
    lemma_others_push,
    lemma_others_all,
    lemma_others_empty,
}

/// Whether two texts hold the same characters.
pub fn same_text(a: &str, b: &str) -> (same: bool)
    ensures
        same == (a@ == b@),
{
    let x = a.as_bytes();
    let y = b.as_bytes();
    proof {
        vstd::utf8::encode_utf8_decode_utf8(a@);
        vstd::utf8::encode_utf8_decode_utf8(b@);
    }
    if x.len() != y.len() {
        return false;
    }
    let mut i: usize = 0;
    while i < x.len()
        invariant
            0 <= i <= x@.len(),
            x@.len() == y@.len(),
            x@ == a.spec_bytes(),
            y@ == b.spec_bytes(),
            vstd::utf8::decode_utf8(a.spec_bytes()) == a@,
            vstd::utf8::decode_utf8(b.spec_bytes()) == b@,
            forall|k: int| 0 <= k < i ==> x@[k] == y@[k],
        decreases x@.len() - i,
    {
        if x[i] != y[i] {
            return false;
        }
        i = i + 1;
    }
    assert(x@ =~= y@);
    true
}

impl Json {
    /// The member of an object with the given key.
    #[verifier::loop_isolation(false)]
    pub fn get(&self, key: &str) -> (r: Option<&Json>)
        ensures
            match r {
                Some(v) => self@.field(key@) == Some(v@),
                None => self@.field(key@) is None,
            },
    {
        match self {
            Json::Object(members) => {
                proof {
                    reveal(lookup);
                    lemma_view_object(*members);
                }
                let ghost ms = members_view(members@);
                let mut i: usize = members.len();
                assert(ms.subrange(0, i as int) =~= ms);
                while i > 0
                    invariant
                        0 <= i <= members@.len(),
                        ms == members_view(members@),
                        lookup(ms, key@) == lookup(ms.subrange(0, i as int), key@),
                    decreases i,
                {
                    i = i - 1;
                    let ghost prefix = ms.subrange(0, i + 1);
                    assert(prefix.last() == ms[i as int]);
                    assert(prefix.drop_last() =~= ms.subrange(0, i as int));
                    if same_text(members[i].0.as_str(), key) {
                        return Some(&members[i].1);
                    }
                }
                assert(ms.subrange(0, 0) =~= Seq::empty());
                None
            },
            _ => None,
        }
    }

    /// The number value that denotes `n`.
    pub fn from_u128(n: u128) -> (r: Json)
        ensures
            r@ == JsonModel::of_nat(n as nat),
            r@.wf(),
    {
        Json::Number(Number::from_u128(n))
    }

    /// The unsigned integer that the value denotes.
    pub fn as_u128(&self) -> (r: Option<u128>)
        ensures
            match r {
                Some(n) => self@.as_nat() == Some(n as nat),
                None => self@.as_nat() is None,
            },
    {
        match self {
            Json::Number(t) => t.as_u128(),
            _ => None,
        }
    }

    /// Whether the value can be written to the wire as it stands.
    #[verifier::loop_isolation(false)]
    pub fn is_well_formed(&self) -> (ok: bool)
        ensures
            ok == self@.wf(),
        decreases self,
    {
        match self {
            Json::Number(t) => t.is_literal(),
            Json::Array(items) => {
                proof {
                    lemma_view_array(*items);
                }
                let mut i: usize = 0;
                while i < items.len()
                    invariant
                        0 <= i <= items@.len(),
                        forall|k: int| 0 <= k < i ==> (#[trigger] items@[k])@.wf(),
                    decreases items@.len() - i,
                {
                    if !items[i].is_well_formed() {
                        assert(self@->Array_0[i as int] == items@[i as int]@);
                        return false;
                    }
                    i = i + 1;
                }
                assert forall|k: int| 0 <= k < items_view(items@).len() implies (
                #[trigger] items_view(items@)[k]).wf() by {
                    assert(items@[k]@.wf());
                }
                true
            },
            Json::Object(members) => {
                proof {
                    lemma_view_object(*members);
                }
                let ghost ms = members_view(members@);
                let mut i: usize = 0;
                while i < members.len()
                    invariant
                        0 <= i <= members@.len(),
                        ms == members_view(members@),
                        forall|k: int| 0 <= k < i ==> (#[trigger] members@[k]).1@.wf(),
                        distinct_keys(ms.subrange(0, i as int)),
                    decreases members@.len() - i,
                {
                    if !members[i].1.is_well_formed() {
                        assert(ms[i as int].value == members@[i as int].1@);
                        return false;
                    }
                    let mut j: usize = 0;
                    while j < i
                        invariant
                            0 <= j <= i < members@.len(),
                            ms == members_view(members@),
                            forall|k: int|
                                0 <= k < j ==> (#[trigger] ms[k]).key != ms[i as int].key,
                        decreases i - j,
                    {
                        if same_text(members[j].0.as_str(), members[i].0.as_str()) {
                            assert(ms[j as int].key == ms[i as int].key);
                            return false;
                        }
                        j = j + 1;
                    }
                    proof {
                        let a = ms.subrange(0, i as int);
                        let b = ms.subrange(0, i + 1);
                        assert forall|p: int, q: int| 0 <= p < q < b.len() implies (
                        #[trigger] b[p]).key != (#[trigger] b[q]).key by {
                            if q < i {
                                assert(a[p] == b[p] && a[q] == b[q]);
                            } else {
                                assert(b[p] == ms[p]);
                            }
                        }
                    }
                    i = i + 1;
                }
                assert(ms.subrange(0, i as int) =~= ms);
                assert forall|k: int| 0 <= k < ms.len() implies (#[trigger] ms[k]).value.wf() by {
                    assert(members@[k].1@.wf());
                }
                true
            },
            _ => true,
        }
    }
}

/// Whether `key` is one of `names`.
pub fn is_one_of(key: &str, names: &Vec<String>) -> (r: bool)
    ensures
        r == names_of(names@).contains(key@),
{
    let mut i: usize = 0;
    while i < names.len()
        invariant
            0 <= i <= names@.len(),
            forall|k: int| 0 <= k < i ==> (#[trigger] names@[k])@ != key@,
        decreases names@.len() - i,
    {
        if same_text(names[i].as_str(), key) {
            return true;
        }
        i = i + 1;
    }
    false
}

impl Json {
    /// The members of an object whose key is not one of `names`, in their
    /// order; nothing where the value is no object.
    pub fn members_besides(&self, names: &Vec<String>) -> (r: Vec<(String, Json)>)
        ensures
            members_view(r@) == match self@ {
                JsonModel::Object(members) => others(members, names_of(names@)),
                _ => Seq::empty(),
            },
    {
        let mut out: Vec<(String, Json)> = Vec::new();
        match self {
            Json::Object(members) => {
                proof {
                    reveal(others);
                    lemma_view_object(*members);
                }
                let ghost ms = members_view(members@);
                let ghost named = names_of(names@);
                let mut i: usize = 0;
                assert(ms.subrange(0, 0) =~= Seq::empty());
                assert(members_view(out@) =~= Seq::empty());
                while i < members.len()
                    invariant
                        0 <= i <= members@.len(),
                        ms == members_view(members@),
                        named == names_of(names@),
                        members_view(out@) == others(ms.subrange(0, i as int), named),
                    decreases members@.len() - i,
                {
                    proof {
                        assert(ms.subrange(0, i + 1) =~= ms.subrange(0, i as int).push(
                            ms[i as int],
                        ));
                        lemma_others_push(ms.subrange(0, i as int), ms[i as int], named);
                    }
                    if !is_one_of(members[i].0.as_str(), names) {
                        let ghost before = members_view(out@);
                        out.push((members[i].0.clone(), members[i].1.clone()));
                        assert(members_view(out@) =~= before.push(ms[i as int]));
                    }
                    i = i + 1;
                }
                assert(ms.subrange(0, i as int) =~= ms);
            },
            _ => {
                assert(members_view(out@) =~= Seq::empty());
            },
        }
        out
    }
}

impl Json {
    /// The key of the first member of an object that stands under none of
    /// the given names.
    pub fn first_besides(&self, names: &Vec<String>) -> (r: Option<String>)
        ensures
            match r {
                Some(key) => undeclared(self@, names_of(names@)) == Some(key@),
                None => undeclared(self@, names_of(names@)) is None,
            },
    {
        let rest = self.members_besides(names);
        assert(members_view(rest@).len() == rest@.len());
        if rest.len() > 0 {
            assert(self@ is Object);
            assert(members_view(rest@)[0].key == rest@[0].0@);
            Some(rest[0].0.clone())
        } else {
            None
        }
    }
}

impl DeepView for Json {
    type V = JsonModel;

    open spec fn deep_view(&self) -> JsonModel {
        self@
    }
}

impl Clone for Json {
    #[verifier::loop_isolation(false)]
    fn clone(&self) -> (r: Json)
        ensures
            r@ == self@,
        decreases self,
    {
        match self {
            Json::Null => Json::Null,
            Json::Bool(b) => Json::Bool(*b),
            Json::Number(t) => Json::Number(t.clone()),
            Json::Text(t) => Json::Text(t.clone()),
            Json::Array(items) => {
                let mut out: Vec<Json> = Vec::new();
                let mut i: usize = 0;
                while i < items.len()
                    invariant
                        0 <= i <= items@.len(),
                        out@.len() == i,
                        forall|k: int| 0 <= k < i ==> (#[trigger] out@[k])@ == items@[k]@,
                    decreases items@.len() - i,
                {
                    out.push(items[i].clone());
                    i = i + 1;
                }
                proof {
                    lemma_view_array(*items);
                    lemma_view_array(out);
                    assert(items_view(out@) =~= items_view(items@));
                }
                Json::Array(out)
            },
            Json::Object(members) => {
                let mut out: Vec<(String, Json)> = Vec::new();
                let mut i: usize = 0;
                while i < members.len()
                    invariant
                        0 <= i <= members@.len(),
                        out@.len() == i,
                        forall|k: int|
                            0 <= k < i ==> (#[trigger] out@[k]).0@ == members@[k].0@ && out@[k].1@
                                == members@[k].1@,
                    decreases members@.len() - i,
                {
                    out.push((members[i].0.clone(), members[i].1.clone()));
                    i = i + 1;
                }
                proof {
                    lemma_view_object(*members);
                    lemma_view_object(out);
                    assert(members_view(out@) =~= members_view(members@));
                }
                Json::Object(out)
            },
        }
    }
}

} // verus!
