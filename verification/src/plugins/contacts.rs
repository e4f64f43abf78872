//! The contacts of a phone.

use crate::field::{
    as_bounded, as_text, check_object, firsts, get_texts, group_field_laws, group_field_refusals,
    group_wf_laws, lemma_firsts, lemma_nat_round_trip, nat_model, new_members, no_repeats,
    object_check, object_of, opt_text_view, put, read_bounded, read_text, req_texts, stands_before,
    text_json, text_model, texts_json, texts_model, texts_view,
};
use crate::shape::Shape;
use crate::value::{
    distinct_keys, group_lookup, key_mark, lemma_lookup_append, lemma_others_append,
    lemma_undeclared, members_view, names_of, others, same_text, undeclared, Json, JsonModel,
    Member,
};
use vstd::prelude::*;

verus! {

/// Asks a phone for the identifiers of its contacts, each with the time at
/// which it was last changed.
#[derive(Debug, PartialEq, Eq)]
pub struct ContactsRequestAllUuidTimestamps {}

/// Model of [`ContactsRequestAllUuidTimestamps`].
pub struct ContactsRequestAllUuidTimestampsView {}

impl View for ContactsRequestAllUuidTimestamps {
    type V = ContactsRequestAllUuidTimestampsView;

    open spec fn view(&self) -> ContactsRequestAllUuidTimestampsView {
        ContactsRequestAllUuidTimestampsView {}
    }
}

impl Shape for ContactsRequestAllUuidTimestamps {
    open spec fn wire(v: ContactsRequestAllUuidTimestampsView) -> JsonModel {
        JsonModel::Object(Seq::empty())
    }

    open spec fn parse(j: JsonModel) -> Result<ContactsRequestAllUuidTimestampsView, Seq<char>> {
        if object_check(j) is Err {
            Err(Seq::empty())
        } else if undeclared(j, Self::declared()) is Some {
            Err(undeclared(j, Self::declared())->Some_0)
        } else {
            Ok(ContactsRequestAllUuidTimestampsView {})
        }
    }

    open spec fn declared() -> Set<Seq<char>> {
        Set::empty()
    }

    open spec fn required() -> Set<Seq<char>> {
        Set::empty()
    }

    open spec fn wf(v: ContactsRequestAllUuidTimestampsView) -> bool {
        true
    }

    open spec fn writable(v: ContactsRequestAllUuidTimestampsView) -> bool {
        true
    }

    fn to_json(&self) -> (j: Json) {
        object_of(new_members())
    }

    fn from_json(j: &Json) -> (r: Result<ContactsRequestAllUuidTimestamps, String>) {
        match check_object(j) {
            Ok(_) => {},
            Err(e) => return Err(e),
        }
        let names: Vec<String> = Vec::new();
        assert(names_of(names@) =~= Self::declared());
        match j.first_besides(&names) {
            Some(key) => return Err(key),
            None => {},
        }
        Ok(ContactsRequestAllUuidTimestamps {})
    }

    proof fn lemma_round_trip(v: ContactsRequestAllUuidTimestampsView) {
        broadcast use group_lookup;
    }

    proof fn lemma_wire_wf(v: ContactsRequestAllUuidTimestampsView) {
        assert(distinct_keys(Seq::<Member>::empty()));
    }

    proof fn lemma_unfit_is_refused(j: JsonModel) {
        lemma_undeclared(j, Self::declared());
    }
}

/// Asks a phone for the cards of some of its contacts.
#[derive(Debug, PartialEq, Eq)]
pub struct ContactsRequestVcardsByUuid {
    pub uids: Vec<String>,
}

/// Model of [`ContactsRequestVcardsByUuid`].
pub struct ContactsRequestVcardsByUuidView {
    pub uids: Seq<Seq<char>>,
}

impl View for ContactsRequestVcardsByUuid {
    type V = ContactsRequestVcardsByUuidView;

    open spec fn view(&self) -> ContactsRequestVcardsByUuidView {
        ContactsRequestVcardsByUuidView {
            uids: texts_view(self.uids@),
        }
    }
}

impl Shape for ContactsRequestVcardsByUuid {
    open spec fn wire(v: ContactsRequestVcardsByUuidView) -> JsonModel {
        JsonModel::Object(
            Seq::empty()
                .push(Member { key: "uids"@, value: texts_model(v.uids) }),
        )
    }

    open spec fn parse(j: JsonModel) -> Result<ContactsRequestVcardsByUuidView, Seq<char>> {
        if object_check(j) is Err {
            Err(Seq::empty())
        } else if req_texts(j, "uids"@) is Err {
            Err("uids"@)
        } else if undeclared(j, Self::declared()) is Some {
            Err(undeclared(j, Self::declared())->Some_0)
        } else {
            Ok(
                ContactsRequestVcardsByUuidView {
                    uids: req_texts(j, "uids"@)->Ok_0,
                },
            )
        }
    }

    open spec fn declared() -> Set<Seq<char>> {
        Set::empty().insert("uids"@)
    }

    open spec fn required() -> Set<Seq<char>> {
        Set::empty().insert("uids"@)
    }

    open spec fn wf(v: ContactsRequestVcardsByUuidView) -> bool {
        true
    }

    open spec fn writable(v: ContactsRequestVcardsByUuidView) -> bool {
        true
    }

    fn to_json(&self) -> (j: Json) {
        let mut ms = new_members();
        put(&mut ms, "uids", texts_json(&self.uids));
        object_of(ms)
    }

    fn from_json(j: &Json) -> (r: Result<ContactsRequestVcardsByUuid, String>) {
        match check_object(j) {
            Ok(_) => {},
            Err(e) => return Err(e),
        }
        let uids = match get_texts(j, "uids") {
            Ok(x) => x,
            Err(e) => return Err(e),
        };
        let names: Vec<String> = vec!["uids".to_owned()];
        assert(names_of(names@) =~= Self::declared()) by {
            assert(names@[0]@ == "uids"@);
        }
        match j.first_besides(&names) {
            Some(key) => return Err(key),
            None => {},
        }
        Ok(ContactsRequestVcardsByUuid { uids })
    }

    proof fn lemma_round_trip(v: ContactsRequestVcardsByUuidView) {
        broadcast use {group_lookup, group_field_laws, vstd::string::group_string_axioms};
        reveal_strlit("uids");
    }

    proof fn lemma_wire_wf(v: ContactsRequestVcardsByUuidView) {
        broadcast use {group_wf_laws, vstd::string::group_string_axioms};
        reveal_strlit("uids");
        let ms = Self::wire(v)->Object_0;
        assert(ms.len() == 1);
        assert(ms[0].key == "uids"@ && key_mark(ms[0].key).0 == 4);
        assert(distinct_keys(ms));
        assert(ms[0].value.wf());
    }

    proof fn lemma_unfit_is_refused(j: JsonModel) {
        broadcast use group_field_refusals;
        lemma_undeclared(j, Self::declared());
    }
}

/// The contacts of a phone, each with the time at which it was last
/// changed. The times stand beside the list of identifiers, each under the
/// identifier of its contact.
#[derive(Debug, PartialEq, Eq)]
pub struct ContactsResponseUidsTimestamps {
    pub uids: Vec<String>,
    pub extras: Vec<(String, u64)>,
}

/// Model of [`ContactsResponseUidsTimestamps`].
pub struct ContactsResponseUidsTimestampsView {
    pub uids: Seq<Seq<char>>,
    pub extras: Seq<(Seq<char>, u64)>,
}

impl View for ContactsResponseUidsTimestamps {
    type V = ContactsResponseUidsTimestampsView;

    open spec fn view(&self) -> ContactsResponseUidsTimestampsView {
        ContactsResponseUidsTimestampsView {
            uids: texts_view(self.uids@),
            extras: Self::extras_view(self.extras@),
        }
    }
}

impl ContactsResponseUidsTimestamps {
    /// The models of the entries.
    pub open spec fn extras_view(extras: Seq<(String, u64)>) -> Seq<(Seq<char>, u64)> {
        Seq::new(extras.len(), |i: int| (extras[i].0@, extras[i].1))
    }

    /// The members that stand for the entries, one for each under its
    /// identifier.
    pub open spec fn extras_wire(extras: Seq<(Seq<char>, u64)>) -> Seq<Member> {
        Seq::new(
            extras.len(),
            |i: int| Member { key: extras[i].0, value: nat_model(extras[i].1 as nat) },
        )
    }

    /// What a member holds for an entry, if it holds an unsigned integer of at
    /// most 64 bits.
    pub open spec fn entry(v: JsonModel) -> Option<u64> {
        match as_bounded(v, u64::MAX as nat) {
            Some(n) => Some(n as u64),
            None => None,
        }
    }

    /// The first position at or after `from` whose member holds no entry.
    pub open spec fn first_unfit(members: Seq<Member>, from: int) -> int
        decreases members.len() - from,
    {
        if from < 0 || from >= members.len() {
            members.len() as int
        } else if Self::entry(members[from].value) is None {
            from
        } else {
            Self::first_unfit(members, from + 1)
        }
    }

    /// The keys of the fields that are no entries.
    pub open spec fn named() -> Set<Seq<char>> {
        Set::empty().insert("uids"@)
    }

    /// The entry that stands under an identifier: the last one, where there
    /// are several.
    pub open spec fn find(extras: Seq<(Seq<char>, u64)>, uid: Seq<char>) -> Option<u64>
        decreases extras.len(),
    {
        if extras.len() == 0 {
            None
        } else if extras.last().0 == uid {
            Some(extras.last().1)
        } else {
            Self::find(extras.drop_last(), uid)
        }
    }

    /// The first position at or after `from` whose identifier has no entry.
    pub open spec fn first_missing(v: ContactsResponseUidsTimestampsView, from: int) -> int
        decreases v.uids.len() - from,
    {
        if from < 0 || from >= v.uids.len() {
            v.uids.len() as int
        } else if Self::find(v.extras, v.uids[from]) is None {
            from
        } else {
            Self::first_missing(v, from + 1)
        }
    }

    /// The identifiers of a list of pairs.
    pub open spec fn keys(pairs: Seq<(String, u64)>) -> Seq<Seq<char>> {
        Seq::new(pairs.len(), |i: int| pairs[i].0@)
    }

    /// The time of each contact of the list: one pair for each identifier, at
    /// the place where the identifier first stands in the list, so that no
    /// identifier has two. Fails with the first identifier that has no time.
    pub fn into_uid_timestamps(self) -> (r: Result<Vec<(String, u64)>, String>)
        ensures
            match r {
                Ok(pairs) => {
                    &&& Self::first_missing(self@, 0) == self@.uids.len()
                    &&& Self::keys(pairs@) == firsts(self@.uids)
                    &&& no_repeats(Self::keys(pairs@))
                    &&& pairs@.len() <= self@.uids.len()
                    &&& forall|uid: Seq<char>|
                        #[trigger] Self::keys(pairs@).contains(uid) <==> self@.uids.contains(uid)
                    &&& forall|i: int|
                        0 <= i < pairs@.len() ==> Some(pairs@[i].1) == Self::find(
                            self@.extras,
                            (#[trigger] pairs@[i]).0@,
                        )
                },
                Err(uid) => {
                    &&& Self::first_missing(self@, 0) < self@.uids.len()
                    &&& uid@ == self@.uids[Self::first_missing(self@, 0)]
                },
            },
    {
        let ghost uids = self@.uids;
        let mut pairs: Vec<(String, u64)> = Vec::new();
        let mut i: usize = 0;
        proof {
            assert(Self::keys(pairs@) =~= firsts(uids.subrange(0, 0)));
        }
        while i < self.uids.len()
            invariant
                0 <= i <= self.uids@.len(),
                uids == self@.uids,
                uids == texts_view(self.uids@),
                Self::first_missing(self@, 0) == Self::first_missing(self@, i as int),
                Self::keys(pairs@) == firsts(uids.subrange(0, i as int)),
                forall|k: int|
                    0 <= k < pairs@.len() ==> Some(pairs@[k].1) == Self::find(
                        self@.extras,
                        (#[trigger] pairs@[k]).0@,
                    ),
            decreases self.uids@.len() - i,
        {
            let ghost before = Self::keys(pairs@);
            proof {
                assert(uids[i as int] == self.uids@[i as int]@);
                assert(uids.subrange(0, i + 1).drop_last() =~= uids.subrange(0, i as int));
                assert(uids.subrange(0, i + 1).last() == uids[i as int]);
            }
            match Self::find_entry(&self.extras, self.uids[i].as_str()) {
                Some(x) => {
                    if !stands_before(&self.uids, i) {
                        pairs.push((self.uids[i].clone(), x));
                        assert(Self::keys(pairs@) =~= before.push(uids[i as int]));
                    }
                },
                None => {
                    return Err(self.uids[i].clone());
                },
            }
            i = i + 1;
        }
        proof {
            assert(uids.subrange(0, i as int) =~= uids);
            lemma_firsts(uids);
            assert(Self::keys(pairs@).len() == pairs@.len());
        }
        Ok(pairs)
    }

    /// What a value holds for an entry.
    pub fn read_entry(v: &Json) -> (r: Option<u64>)
        ensures
            r == Self::entry(v@),
    {
        match read_bounded(v, 0xffff_ffff_ffff_ffff) {
            Some(n) => Some(n as u64),
            None => None,
        }
    }

    /// The entry that stands under an identifier.
    pub fn find_entry(extras: &Vec<(String, u64)>, uid: &str) -> (r: Option<u64>)
        ensures
            r == Self::find(Self::extras_view(extras@), uid@),
    {
        let ghost model = Self::extras_view(extras@);
        let mut i: usize = extras.len();
        assert(model.subrange(0, i as int) =~= model);
        while i > 0
            invariant
                0 <= i <= extras@.len(),
                model == Self::extras_view(extras@),
                Self::find(model, uid@) == Self::find(model.subrange(0, i as int), uid@),
            decreases i,
        {
            i = i - 1;
            let ghost prefix = model.subrange(0, i + 1);
            assert(prefix.last() == model[i as int]);
            assert(prefix.drop_last() =~= model.subrange(0, i as int));
            if same_text(extras[i].0.as_str(), uid) {
                return Some(extras[i].1);
            }
        }
        assert(model.subrange(0, 0) =~= Seq::empty());
        None
    }

    /// An entry is read back from its member as it was written.
    pub proof fn lemma_entry_round_trip(x: u64)
        ensures
            Self::entry(nat_model(x as nat)) == Some(x),
    {
        lemma_nat_round_trip(x as nat);
    }

    /// Every member that stands for an entry holds an entry.
    pub proof fn lemma_all_fit(extras: Seq<(Seq<char>, u64)>, from: int)
        requires
            0 <= from <= extras.len(),
        ensures
            Self::first_unfit(Self::extras_wire(extras), from) == extras.len(),
        decreases extras.len() - from,
    {
        if from < extras.len() {
            Self::lemma_entry_round_trip(extras[from].1);
            Self::lemma_all_fit(extras, from + 1);
        }
    }

}

/// The entries stand beside the list of identifiers, in one object with
/// it. A body is read back as it was written when none of its entries
/// stands under the key of the list; it can be written when, beside that,
/// no two entries stand under the same identifier.
impl Shape for ContactsResponseUidsTimestamps {
    open spec fn wire(v: ContactsResponseUidsTimestampsView) -> JsonModel {
        JsonModel::Object(
            Seq::empty().push(Member { key: "uids"@, value: texts_model(v.uids) })
                + Self::extras_wire(v.extras),
        )
    }

    open spec fn parse(j: JsonModel) -> Result<ContactsResponseUidsTimestampsView, Seq<char>> {
        if object_check(j) is Err {
            Err(Seq::empty())
        } else if req_texts(j, "uids"@) is Err {
            Err("uids"@)
        } else {
            let rest = others(j->Object_0, Self::named());
            let bad = Self::first_unfit(rest, 0);
            if bad < rest.len() {
                Err(rest[bad].key)
            } else {
                Ok(
                    ContactsResponseUidsTimestampsView {
                        uids: req_texts(j, "uids"@)->Ok_0,
                        extras: Seq::new(
                            rest.len(),
                            |i: int| (rest[i].key, Self::entry(rest[i].value)->Some_0),
                        ),
                    },
                )
            }
        }
    }

    open spec fn declared() -> Set<Seq<char>> {
        Set::full()
    }

    open spec fn required() -> Set<Seq<char>> {
        Self::named()
    }

    open spec fn wf(v: ContactsResponseUidsTimestampsView) -> bool {
        forall|i: int| 0 <= i < v.extras.len() ==> (#[trigger] v.extras[i]).0 != "uids"@
    }

    open spec fn writable(v: ContactsResponseUidsTimestampsView) -> bool {
        &&& Self::wf(v)
        &&& forall|i: int, j: int|
            0 <= i < j < v.extras.len() ==> (#[trigger] v.extras[i]).0 != (#[trigger] v.extras[j]).0
    }

    fn to_json(&self) -> (j: Json) {
        let ghost entries = Self::extras_wire(self@.extras);
        let mut ms = new_members();
        put(&mut ms, "uids", texts_json(&self.uids));
        let ghost named = members_view(ms@);
        let mut i: usize = 0;
        assert(named + entries.subrange(0, 0) =~= named);
        while i < self.extras.len()
            invariant
                0 <= i <= self.extras@.len(),
                entries == Self::extras_wire(self@.extras),
                members_view(ms@) == named + entries.subrange(0, i as int),
            decreases self.extras@.len() - i,
        {
            put(&mut ms, self.extras[i].0.as_str(), Json::from_u128(self.extras[i].1 as u128));
            assert(named + entries.subrange(0, i + 1) =~= (named + entries.subrange(
                0,
                i as int,
            )).push(entries[i as int]));
            i = i + 1;
        }
        assert(entries.subrange(0, i as int) =~= entries);
        object_of(ms)
    }

    #[verifier::loop_isolation(false)]
    fn from_json(j: &Json) -> (r: Result<ContactsResponseUidsTimestamps, String>) {
        match check_object(j) {
            Ok(_) => {},
            Err(e) => return Err(e),
        }
        let uids = match get_texts(j, "uids") {
            Ok(x) => x,
            Err(e) => return Err(e),
        };
        let names: Vec<String> = vec!["uids".to_owned()];
        assert(names_of(names@) =~= Self::named()) by {
            assert(names@[0]@ == "uids"@);
        }
        let rest = j.members_besides(&names);
        let ghost model = members_view(rest@);
        let mut extras: Vec<(String, u64)> = Vec::new();
        let mut i: usize = 0;
        while i < rest.len()
            invariant
                0 <= i <= rest@.len(),
                model == members_view(rest@),
                extras@.len() == i,
                Self::first_unfit(model, 0) == Self::first_unfit(model, i as int),
                forall|k: int|
                    0 <= k < i ==> (#[trigger] Self::extras_view(extras@)[k]) == (
                        model[k].key,
                        Self::entry(model[k].value)->Some_0,
                    ),
            decreases rest@.len() - i,
        {
            assert(model[i as int].value == rest@[i as int].1@);
            match Self::read_entry(&rest[i].1) {
                Some(x) => {
                    let ghost before = Self::extras_view(extras@);
                    extras.push((rest[i].0.clone(), x));
                    assert forall|k: int| 0 <= k < i + 1 implies (#[trigger] Self::extras_view(
                        extras@,
                    )[k]) == (model[k].key, Self::entry(model[k].value)->Some_0) by {
                        if k < i {
                            assert(Self::extras_view(extras@)[k] == before[k]);
                        }
                    }
                },
                None => {
                    return Err(rest[i].0.clone());
                },
            }
            i = i + 1;
        }
        assert(Self::extras_view(extras@) =~= Seq::new(
            model.len(),
            |i: int| (model[i].key, Self::entry(model[i].value)->Some_0),
        ));
        Ok(ContactsResponseUidsTimestamps { uids, extras })
    }

    proof fn lemma_round_trip(v: ContactsResponseUidsTimestampsView) {
        broadcast use {group_lookup, group_field_laws, vstd::string::group_string_axioms};
        reveal_strlit("uids");
        let entries = Self::extras_wire(v.extras);
        let named = Seq::empty().push(Member { key: "uids"@, value: texts_model(v.uids) });
        let j = Self::wire(v);
        assert forall|i: int| 0 <= i < entries.len() implies !Self::named().contains(
            (#[trigger] entries[i]).key,
        ) by {
            assert(v.extras[i].0 != "uids"@);
        }
        lemma_lookup_append(named, entries, "uids"@);
        assert(req_texts(j, "uids"@) == Ok::<Seq<Seq<char>>, Seq<char>>(v.uids));
        lemma_others_append(named, entries, Self::named());
        let rest = others(j->Object_0, Self::named());
        assert(others(named, Self::named()) + entries =~= entries);
        assert(rest == entries);
        Self::lemma_all_fit(v.extras, 0);
        assert(Seq::new(rest.len(), |i: int| (rest[i].key, Self::entry(rest[i].value)->Some_0))
            =~= v.extras) by {
            assert forall|i: int| 0 <= i < rest.len() implies Self::entry(
                #[trigger] rest[i].value,
            ) == Some(v.extras[i].1) by {
                Self::lemma_entry_round_trip(v.extras[i].1);
            }
        }
    }

    proof fn lemma_wire_wf(v: ContactsResponseUidsTimestampsView) {
        broadcast use {group_wf_laws, vstd::string::group_string_axioms};
        let entries = Self::extras_wire(v.extras);
        let named = Seq::empty().push(Member { key: "uids"@, value: texts_model(v.uids) });
        let ms = named + entries;
        assert(ms == Self::wire(v)->Object_0);
        assert(ms[0].value.wf());
        assert forall|i: int| 0 <= i < ms.len() implies (#[trigger] ms[i]).value.wf() by {
            if i > 0 {
                assert(ms[i] == entries[i - 1]);
            }
        }
        if Self::writable(v) {
            assert forall|i: int, j: int| 0 <= i < j < ms.len() implies (#[trigger] ms[i]).key != (
            #[trigger] ms[j]).key by {
                assert(ms[j] == entries[j - 1]);
                if i == 0 {
                    assert(v.extras[j - 1].0 != "uids"@);
                } else {
                    assert(ms[i] == entries[i - 1]);
                    assert(v.extras[i - 1].0 != v.extras[j - 1].0);
                }
            }
        }
        if distinct_keys(ms) {
            assert forall|i: int| 0 <= i < v.extras.len() implies (#[trigger] v.extras[i]).0
                != "uids"@ by {
                assert(ms[0].key != ms[i + 1].key);
            }
            assert forall|i: int, j: int| 0 <= i < j < v.extras.len() implies (
            #[trigger] v.extras[i]).0 != (#[trigger] v.extras[j]).0 by {
                assert(ms[i + 1].key != ms[j + 1].key);
            }
        }
    }

    proof fn lemma_unfit_is_refused(j: JsonModel) {
        broadcast use group_field_refusals;
    }
}

/// The contacts of a phone, each with its card. The cards stand beside the
/// list of identifiers, each under the identifier of its contact.
#[derive(Debug, PartialEq, Eq)]
pub struct ContactsResponseVcards {
    pub uids: Vec<String>,
    pub extras: Vec<(String, String)>,
}

/// Model of [`ContactsResponseVcards`].
pub struct ContactsResponseVcardsView {
    pub uids: Seq<Seq<char>>,
    pub extras: Seq<(Seq<char>, Seq<char>)>,
}

impl View for ContactsResponseVcards {
    type V = ContactsResponseVcardsView;

    open spec fn view(&self) -> ContactsResponseVcardsView {
        ContactsResponseVcardsView {
            uids: texts_view(self.uids@),
            extras: Self::extras_view(self.extras@),
        }
    }
}

impl ContactsResponseVcards {
    /// The models of the entries.
    pub open spec fn extras_view(extras: Seq<(String, String)>) -> Seq<(Seq<char>, Seq<char>)> {
        Seq::new(extras.len(), |i: int| (extras[i].0@, extras[i].1@))
    }

    /// The members that stand for the entries, one for each under its
    /// identifier.
    pub open spec fn extras_wire(extras: Seq<(Seq<char>, Seq<char>)>) -> Seq<Member> {
        Seq::new(
            extras.len(),
            |i: int| Member { key: extras[i].0, value: text_model(extras[i].1) },
        )
    }

    /// What a member holds for an entry, if it holds a text.
    pub open spec fn entry(v: JsonModel) -> Option<Seq<char>> {
        as_text(v)
    }

    /// The first position at or after `from` whose member holds no entry.
    pub open spec fn first_unfit(members: Seq<Member>, from: int) -> int
        decreases members.len() - from,
    {
        if from < 0 || from >= members.len() {
            members.len() as int
        } else if Self::entry(members[from].value) is None {
            from
        } else {
            Self::first_unfit(members, from + 1)
        }
    }

    /// The keys of the fields that are no entries.
    pub open spec fn named() -> Set<Seq<char>> {
        Set::empty().insert("uids"@)
    }

    /// The entry that stands under an identifier: the last one, where there
    /// are several.
    pub open spec fn find(extras: Seq<(Seq<char>, Seq<char>)>, uid: Seq<char>) -> Option<Seq<char>>
        decreases extras.len(),
    {
        if extras.len() == 0 {
            None
        } else if extras.last().0 == uid {
            Some(extras.last().1)
        } else {
            Self::find(extras.drop_last(), uid)
        }
    }

    /// The first position at or after `from` whose identifier has no entry.
    pub open spec fn first_missing(v: ContactsResponseVcardsView, from: int) -> int
        decreases v.uids.len() - from,
    {
        if from < 0 || from >= v.uids.len() {
            v.uids.len() as int
        } else if Self::find(v.extras, v.uids[from]) is None {
            from
        } else {
            Self::first_missing(v, from + 1)
        }
    }

    /// The identifiers of a list of pairs.
    pub open spec fn keys(pairs: Seq<(String, String)>) -> Seq<Seq<char>> {
        Seq::new(pairs.len(), |i: int| pairs[i].0@)
    }

    /// The card of each contact of the list: one pair for each identifier, at
    /// the place where the identifier first stands in the list, so that no
    /// identifier has two. Fails with the first identifier that has no card.
    pub fn into_uid_vcard(self) -> (r: Result<Vec<(String, String)>, String>)
        ensures
            match r {
                Ok(pairs) => {
                    &&& Self::first_missing(self@, 0) == self@.uids.len()
                    &&& Self::keys(pairs@) == firsts(self@.uids)
                    &&& no_repeats(Self::keys(pairs@))
                    &&& pairs@.len() <= self@.uids.len()
                    &&& forall|uid: Seq<char>|
                        #[trigger] Self::keys(pairs@).contains(uid) <==> self@.uids.contains(uid)
                    &&& forall|i: int|
                        0 <= i < pairs@.len() ==> Some(pairs@[i].1@) == Self::find(
                            self@.extras,
                            (#[trigger] pairs@[i]).0@,
                        )
                },
                Err(uid) => {
                    &&& Self::first_missing(self@, 0) < self@.uids.len()
                    &&& uid@ == self@.uids[Self::first_missing(self@, 0)]
                },
            },
    {
        let ghost uids = self@.uids;
        let mut pairs: Vec<(String, String)> = Vec::new();
        let mut i: usize = 0;
        proof {
            assert(Self::keys(pairs@) =~= firsts(uids.subrange(0, 0)));
        }
        while i < self.uids.len()
            invariant
                0 <= i <= self.uids@.len(),
                uids == self@.uids,
                uids == texts_view(self.uids@),
                Self::first_missing(self@, 0) == Self::first_missing(self@, i as int),
                Self::keys(pairs@) == firsts(uids.subrange(0, i as int)),
                forall|k: int|
                    0 <= k < pairs@.len() ==> Some(pairs@[k].1@) == Self::find(
                        self@.extras,
                        (#[trigger] pairs@[k]).0@,
                    ),
            decreases self.uids@.len() - i,
        {
            let ghost before = Self::keys(pairs@);
            proof {
                assert(uids[i as int] == self.uids@[i as int]@);
                assert(uids.subrange(0, i + 1).drop_last() =~= uids.subrange(0, i as int));
                assert(uids.subrange(0, i + 1).last() == uids[i as int]);
            }
            match Self::find_entry(&self.extras, self.uids[i].as_str()) {
                Some(x) => {
                    if !stands_before(&self.uids, i) {
                        pairs.push((self.uids[i].clone(), x));
                        assert(Self::keys(pairs@) =~= before.push(uids[i as int]));
                    }
                },
                None => {
                    return Err(self.uids[i].clone());
                },
            }
            i = i + 1;
        }
        proof {
            assert(uids.subrange(0, i as int) =~= uids);
            lemma_firsts(uids);
            assert(Self::keys(pairs@).len() == pairs@.len());
        }
        Ok(pairs)
    }

    /// The entry that stands under an identifier.
    pub fn find_entry(extras: &Vec<(String, String)>, uid: &str) -> (r: Option<String>)
        ensures
            opt_text_view(r) == Self::find(Self::extras_view(extras@), uid@),
    {
        let ghost model = Self::extras_view(extras@);
        let mut i: usize = extras.len();
        assert(model.subrange(0, i as int) =~= model);
        while i > 0
            invariant
                0 <= i <= extras@.len(),
                model == Self::extras_view(extras@),
                Self::find(model, uid@) == Self::find(model.subrange(0, i as int), uid@),
            decreases i,
        {
            i = i - 1;
            let ghost prefix = model.subrange(0, i + 1);
            assert(prefix.last() == model[i as int]);
            assert(prefix.drop_last() =~= model.subrange(0, i as int));
            if same_text(extras[i].0.as_str(), uid) {
                return Some(extras[i].1.clone());
            }
        }
        assert(model.subrange(0, 0) =~= Seq::empty());
        None
    }

    /// An entry is read back from its member as it was written.
    pub proof fn lemma_entry_round_trip(x: Seq<char>)
        ensures
            Self::entry(text_model(x)) == Some(x),
    {
        
    }

    /// Every member that stands for an entry holds an entry.
    pub proof fn lemma_all_fit(extras: Seq<(Seq<char>, Seq<char>)>, from: int)
        requires
            0 <= from <= extras.len(),
        ensures
            Self::first_unfit(Self::extras_wire(extras), from) == extras.len(),
        decreases extras.len() - from,
    {
        if from < extras.len() {
            Self::lemma_entry_round_trip(extras[from].1);
            Self::lemma_all_fit(extras, from + 1);
        }
    }

}

/// The entries stand beside the list of identifiers, in one object with
/// it. A body is read back as it was written when none of its entries
/// stands under the key of the list; it can be written when, beside that,
/// no two entries stand under the same identifier.
impl Shape for ContactsResponseVcards {
    open spec fn wire(v: ContactsResponseVcardsView) -> JsonModel {
        JsonModel::Object(
            Seq::empty().push(Member { key: "uids"@, value: texts_model(v.uids) })
                + Self::extras_wire(v.extras),
        )
    }

    open spec fn parse(j: JsonModel) -> Result<ContactsResponseVcardsView, Seq<char>> {
        if object_check(j) is Err {
            Err(Seq::empty())
        } else if req_texts(j, "uids"@) is Err {
            Err("uids"@)
        } else {
            let rest = others(j->Object_0, Self::named());
            let bad = Self::first_unfit(rest, 0);
            if bad < rest.len() {
                Err(rest[bad].key)
            } else {
                Ok(
                    ContactsResponseVcardsView {
                        uids: req_texts(j, "uids"@)->Ok_0,
                        extras: Seq::new(
                            rest.len(),
                            |i: int| (rest[i].key, Self::entry(rest[i].value)->Some_0),
                        ),
                    },
                )
            }
        }
    }

    open spec fn declared() -> Set<Seq<char>> {
        Set::full()
    }

    open spec fn required() -> Set<Seq<char>> {
        Self::named()
    }

    open spec fn wf(v: ContactsResponseVcardsView) -> bool {
        forall|i: int| 0 <= i < v.extras.len() ==> (#[trigger] v.extras[i]).0 != "uids"@
    }

    open spec fn writable(v: ContactsResponseVcardsView) -> bool {
        &&& Self::wf(v)
        &&& forall|i: int, j: int|
            0 <= i < j < v.extras.len() ==> (#[trigger] v.extras[i]).0 != (#[trigger] v.extras[j]).0
    }

    fn to_json(&self) -> (j: Json) {
        let ghost entries = Self::extras_wire(self@.extras);
        let mut ms = new_members();
        put(&mut ms, "uids", texts_json(&self.uids));
        let ghost named = members_view(ms@);
        let mut i: usize = 0;
        assert(named + entries.subrange(0, 0) =~= named);
        while i < self.extras.len()
            invariant
                0 <= i <= self.extras@.len(),
                entries == Self::extras_wire(self@.extras),
                members_view(ms@) == named + entries.subrange(0, i as int),
            decreases self.extras@.len() - i,
        {
            put(&mut ms, self.extras[i].0.as_str(), text_json(&self.extras[i].1));
            assert(named + entries.subrange(0, i + 1) =~= (named + entries.subrange(
                0,
                i as int,
            )).push(entries[i as int]));
            i = i + 1;
        }
        assert(entries.subrange(0, i as int) =~= entries);
        object_of(ms)
    }

    #[verifier::loop_isolation(false)]
    fn from_json(j: &Json) -> (r: Result<ContactsResponseVcards, String>) {
        match check_object(j) {
            Ok(_) => {},
            Err(e) => return Err(e),
        }
        let uids = match get_texts(j, "uids") {
            Ok(x) => x,
            Err(e) => return Err(e),
        };
        let names: Vec<String> = vec!["uids".to_owned()];
        assert(names_of(names@) =~= Self::named()) by {
            assert(names@[0]@ == "uids"@);
        }
        let rest = j.members_besides(&names);
        let ghost model = members_view(rest@);
        let mut extras: Vec<(String, String)> = Vec::new();
        let mut i: usize = 0;
        while i < rest.len()
            invariant
                0 <= i <= rest@.len(),
                model == members_view(rest@),
                extras@.len() == i,
                Self::first_unfit(model, 0) == Self::first_unfit(model, i as int),
                forall|k: int|
                    0 <= k < i ==> (#[trigger] Self::extras_view(extras@)[k]) == (
                        model[k].key,
                        Self::entry(model[k].value)->Some_0,
                    ),
            decreases rest@.len() - i,
        {
            assert(model[i as int].value == rest@[i as int].1@);
            match read_text(&rest[i].1) {
                Some(x) => {
                    let ghost before = Self::extras_view(extras@);
                    extras.push((rest[i].0.clone(), x));
                    assert forall|k: int| 0 <= k < i + 1 implies (#[trigger] Self::extras_view(
                        extras@,
                    )[k]) == (model[k].key, Self::entry(model[k].value)->Some_0) by {
                        if k < i {
                            assert(Self::extras_view(extras@)[k] == before[k]);
                        }
                    }
                },
                None => {
                    return Err(rest[i].0.clone());
                },
            }
            i = i + 1;
        }
        assert(Self::extras_view(extras@) =~= Seq::new(
            model.len(),
            |i: int| (model[i].key, Self::entry(model[i].value)->Some_0),
        ));
        Ok(ContactsResponseVcards { uids, extras })
    }

    proof fn lemma_round_trip(v: ContactsResponseVcardsView) {
        broadcast use {group_lookup, group_field_laws, vstd::string::group_string_axioms};
        reveal_strlit("uids");
        let entries = Self::extras_wire(v.extras);
        let named = Seq::empty().push(Member { key: "uids"@, value: texts_model(v.uids) });
        let j = Self::wire(v);
        assert forall|i: int| 0 <= i < entries.len() implies !Self::named().contains(
            (#[trigger] entries[i]).key,
        ) by {
            assert(v.extras[i].0 != "uids"@);
        }
        lemma_lookup_append(named, entries, "uids"@);
        assert(req_texts(j, "uids"@) == Ok::<Seq<Seq<char>>, Seq<char>>(v.uids));
        lemma_others_append(named, entries, Self::named());
        let rest = others(j->Object_0, Self::named());
        assert(others(named, Self::named()) + entries =~= entries);
        assert(rest == entries);
        Self::lemma_all_fit(v.extras, 0);
        assert(Seq::new(rest.len(), |i: int| (rest[i].key, Self::entry(rest[i].value)->Some_0))
            =~= v.extras) by {
            assert forall|i: int| 0 <= i < rest.len() implies Self::entry(
                #[trigger] rest[i].value,
            ) == Some(v.extras[i].1) by {
                Self::lemma_entry_round_trip(v.extras[i].1);
            }
        }
    }

    proof fn lemma_wire_wf(v: ContactsResponseVcardsView) {
        broadcast use {group_wf_laws, vstd::string::group_string_axioms};
        let entries = Self::extras_wire(v.extras);
        let named = Seq::empty().push(Member { key: "uids"@, value: texts_model(v.uids) });
        let ms = named + entries;
        assert(ms == Self::wire(v)->Object_0);
        assert(ms[0].value.wf());
        assert forall|i: int| 0 <= i < ms.len() implies (#[trigger] ms[i]).value.wf() by {
            if i > 0 {
                assert(ms[i] == entries[i - 1]);
            }
        }
        if Self::writable(v) {
            assert forall|i: int, j: int| 0 <= i < j < ms.len() implies (#[trigger] ms[i]).key != (
            #[trigger] ms[j]).key by {
                assert(ms[j] == entries[j - 1]);
                if i == 0 {
                    assert(v.extras[j - 1].0 != "uids"@);
                } else {
                    assert(ms[i] == entries[i - 1]);
                    assert(v.extras[i - 1].0 != v.extras[j - 1].0);
                }
            }
        }
        if distinct_keys(ms) {
            assert forall|i: int| 0 <= i < v.extras.len() implies (#[trigger] v.extras[i]).0
                != "uids"@ by {
                assert(ms[0].key != ms[i + 1].key);
            }
            assert forall|i: int, j: int| 0 <= i < j < v.extras.len() implies (
            #[trigger] v.extras[i]).0 != (#[trigger] v.extras[j]).0 by {
                assert(ms[i + 1].key != ms[j + 1].key);
            }
        }
    }

    proof fn lemma_unfit_is_refused(j: JsonModel) {
        broadcast use group_field_refusals;
    }
}

} // verus!
