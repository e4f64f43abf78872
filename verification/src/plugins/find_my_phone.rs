//! Making a lost phone ring.

use crate::field::{check_object, new_members, object_check, object_of};
use crate::shape::Shape;
use crate::value::{
    distinct_keys, group_lookup, lemma_undeclared, names_of, undeclared, Json, JsonModel, Member,
};
use vstd::prelude::*;

verus! {

/// Asks a phone to ring.
#[derive(Debug, PartialEq, Eq)]
pub struct FindMyPhoneRequest {}

/// Model of [`FindMyPhoneRequest`].
pub struct FindMyPhoneRequestView {}

impl View for FindMyPhoneRequest {
    type V = FindMyPhoneRequestView;

    open spec fn view(&self) -> FindMyPhoneRequestView {
        FindMyPhoneRequestView {}
    }
}

impl Shape for FindMyPhoneRequest {
    open spec fn wire(v: FindMyPhoneRequestView) -> JsonModel {
        JsonModel::Object(Seq::empty())
    }

    open spec fn parse(j: JsonModel) -> Result<FindMyPhoneRequestView, Seq<char>> {
        if object_check(j) is Err {
            Err(Seq::empty())
        } else if undeclared(j, Self::declared()) is Some {
            Err(undeclared(j, Self::declared())->Some_0)
        } else {
            Ok(FindMyPhoneRequestView {})
        }
    }

    open spec fn declared() -> Set<Seq<char>> {
        Set::empty()
    }

    open spec fn required() -> Set<Seq<char>> {
        Set::empty()
    }

    open spec fn wf(v: FindMyPhoneRequestView) -> bool {
        true
    }

    open spec fn writable(v: FindMyPhoneRequestView) -> bool {
        true
    }

    fn to_json(&self) -> (j: Json) {
        object_of(new_members())
    }

    fn from_json(j: &Json) -> (r: Result<FindMyPhoneRequest, String>) {
        match check_object(j) {
            Ok(_) => {},
            Err(e) => return Err(e),
        }
        let names: Vec<String> = Vec::new();
        assert(names_of(names@) =~= Self::declared());
        match j.first_besides(&names) {
            Some(key) => return Err(key),
            None => {},
        }
        Ok(FindMyPhoneRequest {})
    }

    proof fn lemma_round_trip(v: FindMyPhoneRequestView) {
        broadcast use group_lookup;
    }

    proof fn lemma_wire_wf(v: FindMyPhoneRequestView) {
        assert(distinct_keys(Seq::<Member>::empty()));
    }

    proof fn lemma_unfit_is_refused(j: JsonModel) {
        lemma_undeclared(j, Self::declared());
    }
}

} // verus!
