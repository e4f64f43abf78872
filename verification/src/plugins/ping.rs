//! A ping.

use crate::field::{
    check_object, get_opt_text, group_field_laws, group_wf_laws, new_members, object_check,
    object_of, opt_text, opt_text_json, opt_text_model, opt_text_view, put,
};
use crate::shape::Shape;
use crate::value::{
    distinct_keys, group_lookup, key_mark, lemma_undeclared, names_of, undeclared, Json, JsonModel,
    Member,
};
use vstd::prelude::*;

verus! {

/// A ping, with an optional message to show.
#[derive(Debug, PartialEq, Eq)]
pub struct Ping {
    pub message: Option<String>,
}

/// Model of [`Ping`].
pub struct PingView {
    pub message: Option<Seq<char>>,
}

impl View for Ping {
    type V = PingView;

    open spec fn view(&self) -> PingView {
        PingView {
            message: opt_text_view(self.message),
        }
    }
}

impl Shape for Ping {
    open spec fn wire(v: PingView) -> JsonModel {
        JsonModel::Object(
            Seq::empty()
                .push(Member { key: "message"@, value: opt_text_model(v.message) }),
        )
    }

    open spec fn parse(j: JsonModel) -> Result<PingView, Seq<char>> {
        if object_check(j) is Err {
            Err(Seq::empty())
        } else if opt_text(j, "message"@) is Err {
            Err("message"@)
        } else if undeclared(j, Self::declared()) is Some {
            Err(undeclared(j, Self::declared())->Some_0)
        } else {
            Ok(
                PingView {
                    message: opt_text(j, "message"@)->Ok_0,
                },
            )
        }
    }

    open spec fn declared() -> Set<Seq<char>> {
        Set::empty().insert("message"@)
    }

    open spec fn required() -> Set<Seq<char>> {
        Set::empty()
    }

    open spec fn wf(v: PingView) -> bool {
        true
    }

    open spec fn writable(v: PingView) -> bool {
        true
    }

    fn to_json(&self) -> (j: Json) {
        let mut ms = new_members();
        put(&mut ms, "message", opt_text_json(&self.message));
        object_of(ms)
    }

    fn from_json(j: &Json) -> (r: Result<Ping, String>) {
        match check_object(j) {
            Ok(_) => {},
            Err(e) => return Err(e),
        }
        let message = match get_opt_text(j, "message") {
            Ok(x) => x,
            Err(e) => return Err(e),
        };
        let names: Vec<String> = vec!["message".to_owned()];
        assert(names_of(names@) =~= Self::declared()) by {
            assert(names@[0]@ == "message"@);
        }
        match j.first_besides(&names) {
            Some(key) => return Err(key),
            None => {},
        }
        Ok(Ping { message })
    }

    proof fn lemma_round_trip(v: PingView) {
        broadcast use {group_lookup, group_field_laws, vstd::string::group_string_axioms};
        reveal_strlit("message");
    }

    proof fn lemma_wire_wf(v: PingView) {
        broadcast use {group_wf_laws, vstd::string::group_string_axioms};
        reveal_strlit("message");
        let ms = Self::wire(v)->Object_0;
        assert(ms.len() == 1);
        assert(ms[0].key == "message"@ && key_mark(ms[0].key).0 == 7);
        assert(distinct_keys(ms));
        assert(ms[0].value.wf());
    }

    proof fn lemma_unfit_is_refused(j: JsonModel) {
        lemma_undeclared(j, Self::declared());
    }
}

} // verus!
