//! Locking the screen of a device.

use crate::field::{
    bool_json, bool_model, check_object, get_bool, get_opt_bool, group_field_laws,
    group_field_refusals, group_wf_laws, new_members, object_check, object_of, opt_bool,
    opt_bool_json, opt_bool_model, put, req_bool,
};
use crate::shape::Shape;
use crate::value::{
    distinct_keys, group_lookup, key_mark, lemma_undeclared, names_of, undeclared, Json, JsonModel,
    Member,
};
use vstd::prelude::*;

verus! {

/// The lock state of a device.
#[derive(Debug, PartialEq, Eq)]
pub struct Lock {
    pub is_locked: bool,
}

/// Model of [`Lock`].
pub struct LockView {
    pub is_locked: bool,
}

impl View for Lock {
    type V = LockView;

    open spec fn view(&self) -> LockView {
        LockView {
            is_locked: self.is_locked,
        }
    }
}

impl Shape for Lock {
    open spec fn wire(v: LockView) -> JsonModel {
        JsonModel::Object(
            Seq::empty()
                .push(Member { key: "isLocked"@, value: bool_model(v.is_locked) }),
        )
    }

    open spec fn parse(j: JsonModel) -> Result<LockView, Seq<char>> {
        if object_check(j) is Err {
            Err(Seq::empty())
        } else if req_bool(j, "isLocked"@) is Err {
            Err("isLocked"@)
        } else if undeclared(j, Self::declared()) is Some {
            Err(undeclared(j, Self::declared())->Some_0)
        } else {
            Ok(
                LockView {
                    is_locked: req_bool(j, "isLocked"@)->Ok_0,
                },
            )
        }
    }

    open spec fn declared() -> Set<Seq<char>> {
        Set::empty().insert("isLocked"@)
    }

    open spec fn required() -> Set<Seq<char>> {
        Set::empty().insert("isLocked"@)
    }

    open spec fn wf(v: LockView) -> bool {
        true
    }

    open spec fn writable(v: LockView) -> bool {
        true
    }

    fn to_json(&self) -> (j: Json) {
        let mut ms = new_members();
        put(&mut ms, "isLocked", bool_json(self.is_locked));
        object_of(ms)
    }

    fn from_json(j: &Json) -> (r: Result<Lock, String>) {
        match check_object(j) {
            Ok(_) => {},
            Err(e) => return Err(e),
        }
        let is_locked = match get_bool(j, "isLocked") {
            Ok(x) => x,
            Err(e) => return Err(e),
        };
        let names: Vec<String> = vec!["isLocked".to_owned()];
        assert(names_of(names@) =~= Self::declared()) by {
            assert(names@[0]@ == "isLocked"@);
        }
        match j.first_besides(&names) {
            Some(key) => return Err(key),
            None => {},
        }
        Ok(Lock { is_locked })
    }

    proof fn lemma_round_trip(v: LockView) {
        broadcast use {group_lookup, group_field_laws, vstd::string::group_string_axioms};
        reveal_strlit("isLocked");
    }

    proof fn lemma_wire_wf(v: LockView) {
        broadcast use {group_wf_laws, vstd::string::group_string_axioms};
        reveal_strlit("isLocked");
        let ms = Self::wire(v)->Object_0;
        assert(ms.len() == 1);
        assert(ms[0].key == "isLocked"@ && key_mark(ms[0].key).0 == 8);
        assert(distinct_keys(ms));
        assert(ms[0].value.wf());
    }

    proof fn lemma_unfit_is_refused(j: JsonModel) {
        broadcast use group_field_refusals;
        lemma_undeclared(j, Self::declared());
    }
}

/// Asks a device for its lock state, or to change it.
#[derive(Debug, PartialEq, Eq)]
pub struct LockRequest {
    pub request_locked: Option<bool>,
    pub set_locked: Option<bool>,
}

/// Model of [`LockRequest`].
pub struct LockRequestView {
    pub request_locked: Option<bool>,
    pub set_locked: Option<bool>,
}

impl View for LockRequest {
    type V = LockRequestView;

    open spec fn view(&self) -> LockRequestView {
        LockRequestView {
            request_locked: self.request_locked,
            set_locked: self.set_locked,
        }
    }
}

impl Shape for LockRequest {
    open spec fn wire(v: LockRequestView) -> JsonModel {
        JsonModel::Object(
            Seq::empty()
                .push(Member { key: "requestLocked"@, value: opt_bool_model(v.request_locked) })
                .push(Member { key: "setLocked"@, value: opt_bool_model(v.set_locked) }),
        )
    }

    open spec fn parse(j: JsonModel) -> Result<LockRequestView, Seq<char>> {
        if object_check(j) is Err {
            Err(Seq::empty())
        } else if opt_bool(j, "requestLocked"@) is Err {
            Err("requestLocked"@)
        } else if opt_bool(j, "setLocked"@) is Err {
            Err("setLocked"@)
        } else if undeclared(j, Self::declared()) is Some {
            Err(undeclared(j, Self::declared())->Some_0)
        } else {
            Ok(
                LockRequestView {
                    request_locked: opt_bool(j, "requestLocked"@)->Ok_0,
                    set_locked: opt_bool(j, "setLocked"@)->Ok_0,
                },
            )
        }
    }

    open spec fn declared() -> Set<Seq<char>> {
        Set::empty().insert("requestLocked"@).insert("setLocked"@)
    }

    open spec fn required() -> Set<Seq<char>> {
        Set::empty()
    }

    open spec fn wf(v: LockRequestView) -> bool {
        true
    }

    open spec fn writable(v: LockRequestView) -> bool {
        true
    }

    fn to_json(&self) -> (j: Json) {
        let mut ms = new_members();
        put(&mut ms, "requestLocked", opt_bool_json(&self.request_locked));
        put(&mut ms, "setLocked", opt_bool_json(&self.set_locked));
        object_of(ms)
    }

    fn from_json(j: &Json) -> (r: Result<LockRequest, String>) {
        match check_object(j) {
            Ok(_) => {},
            Err(e) => return Err(e),
        }
        let request_locked = match get_opt_bool(j, "requestLocked") {
            Ok(x) => x,
            Err(e) => return Err(e),
        };
        let set_locked = match get_opt_bool(j, "setLocked") {
            Ok(x) => x,
            Err(e) => return Err(e),
        };
        let names: Vec<String> = vec!["requestLocked".to_owned(), "setLocked".to_owned()];
        assert(names_of(names@) =~= Self::declared()) by {
            assert(names@[0]@ == "requestLocked"@);
            assert(names@[1]@ == "setLocked"@);
        }
        match j.first_besides(&names) {
            Some(key) => return Err(key),
            None => {},
        }
        Ok(LockRequest { request_locked, set_locked })
    }

    proof fn lemma_round_trip(v: LockRequestView) {
        broadcast use {group_lookup, group_field_laws, vstd::string::group_string_axioms};
        reveal_strlit("requestLocked");
        reveal_strlit("setLocked");
    }

    proof fn lemma_wire_wf(v: LockRequestView) {
        broadcast use {group_wf_laws, vstd::string::group_string_axioms};
        reveal_strlit("requestLocked");
        reveal_strlit("setLocked");
        let ms = Self::wire(v)->Object_0;
        assert(ms.len() == 2);
        assert(ms[0].key == "requestLocked"@ && key_mark(ms[0].key).0 == 13);
        assert(ms[1].key == "setLocked"@ && key_mark(ms[1].key).0 == 9);
        assert(distinct_keys(ms));
        assert(ms[0].value.wf());
        assert(ms[1].value.wf());
    }

    proof fn lemma_unfit_is_refused(j: JsonModel) {
        lemma_undeclared(j, Self::declared());
    }
}

} // verus!
