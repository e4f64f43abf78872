//! Pointer movements of a presentation remote.

use crate::field::{
    check_object, get_opt_bool, get_opt_number, group_field_laws, group_wf_laws, new_members,
    object_check, object_of, opt_bool, opt_bool_json, opt_bool_model, opt_literal, opt_number,
    opt_number_json, opt_number_model, opt_number_view, put,
};
use crate::numeral::Number;
use crate::shape::Shape;
use crate::value::{
    distinct_keys, group_lookup, key_mark, lemma_undeclared, names_of, undeclared, Json, JsonModel,
    Member,
};
use vstd::prelude::*;

verus! {

/// A movement of the pointer, or the request to stop showing it.
#[derive(Debug, PartialEq, Eq)]
pub struct Presenter {
    pub dx: Option<Number>,
    pub dy: Option<Number>,
    pub stop: Option<bool>,
}

/// Model of [`Presenter`].
pub struct PresenterView {
    pub dx: Option<Seq<char>>,
    pub dy: Option<Seq<char>>,
    pub stop: Option<bool>,
}

impl View for Presenter {
    type V = PresenterView;

    open spec fn view(&self) -> PresenterView {
        PresenterView {
            dx: opt_number_view(self.dx),
            dy: opt_number_view(self.dy),
            stop: self.stop,
        }
    }
}

impl Shape for Presenter {
    open spec fn wire(v: PresenterView) -> JsonModel {
        JsonModel::Object(
            Seq::empty()
                .push(Member { key: "dx"@, value: opt_number_model(v.dx) })
                .push(Member { key: "dy"@, value: opt_number_model(v.dy) })
                .push(Member { key: "stop"@, value: opt_bool_model(v.stop) }),
        )
    }

    open spec fn parse(j: JsonModel) -> Result<PresenterView, Seq<char>> {
        if object_check(j) is Err {
            Err(Seq::empty())
        } else if opt_number(j, "dx"@) is Err {
            Err("dx"@)
        } else if opt_number(j, "dy"@) is Err {
            Err("dy"@)
        } else if opt_bool(j, "stop"@) is Err {
            Err("stop"@)
        } else if undeclared(j, Self::declared()) is Some {
            Err(undeclared(j, Self::declared())->Some_0)
        } else {
            Ok(
                PresenterView {
                    dx: opt_number(j, "dx"@)->Ok_0,
                    dy: opt_number(j, "dy"@)->Ok_0,
                    stop: opt_bool(j, "stop"@)->Ok_0,
                },
            )
        }
    }

    open spec fn declared() -> Set<Seq<char>> {
        Set::empty().insert("dx"@).insert("dy"@).insert("stop"@)
    }

    open spec fn required() -> Set<Seq<char>> {
        Set::empty()
    }

    open spec fn wf(v: PresenterView) -> bool {
        true
    }

    open spec fn writable(v: PresenterView) -> bool {
        &&& opt_literal(v.dx)
        &&& opt_literal(v.dy)
    }

    fn to_json(&self) -> (j: Json) {
        let mut ms = new_members();
        put(&mut ms, "dx", opt_number_json(&self.dx));
        put(&mut ms, "dy", opt_number_json(&self.dy));
        put(&mut ms, "stop", opt_bool_json(&self.stop));
        object_of(ms)
    }

    fn from_json(j: &Json) -> (r: Result<Presenter, String>) {
        match check_object(j) {
            Ok(_) => {},
            Err(e) => return Err(e),
        }
        let dx = match get_opt_number(j, "dx") {
            Ok(x) => x,
            Err(e) => return Err(e),
        };
        let dy = match get_opt_number(j, "dy") {
            Ok(x) => x,
            Err(e) => return Err(e),
        };
        let stop = match get_opt_bool(j, "stop") {
            Ok(x) => x,
            Err(e) => return Err(e),
        };
        let names: Vec<String> = vec!["dx".to_owned(), "dy".to_owned(), "stop".to_owned()];
        assert(names_of(names@) =~= Self::declared()) by {
            assert(names@[0]@ == "dx"@);
            assert(names@[1]@ == "dy"@);
            assert(names@[2]@ == "stop"@);
        }
        match j.first_besides(&names) {
            Some(key) => return Err(key),
            None => {},
        }
        Ok(Presenter { dx, dy, stop })
    }

    proof fn lemma_round_trip(v: PresenterView) {
        broadcast use {group_lookup, group_field_laws, vstd::string::group_string_axioms};
        reveal_strlit("dx");
        reveal_strlit("dy");
        reveal_strlit("stop");
    }

    proof fn lemma_wire_wf(v: PresenterView) {
        broadcast use {group_wf_laws, vstd::string::group_string_axioms};
        reveal_strlit("dx");
        reveal_strlit("dy");
        reveal_strlit("stop");
        let ms = Self::wire(v)->Object_0;
        assert(ms.len() == 3);
        assert(ms[0].key == "dx"@ && key_mark(ms[0].key).0 == 2);
        assert(ms[1].key == "dy"@ && key_mark(ms[1].key).0 == 2);
        assert(ms[2].key == "stop"@ && key_mark(ms[2].key).0 == 4);
        assert(distinct_keys(ms));
        assert(ms[0].value.wf() == opt_literal(v.dx));
        assert(ms[1].value.wf() == opt_literal(v.dy));
        assert(ms[2].value.wf());
    }

    proof fn lemma_unfit_is_refused(j: JsonModel) {
        lemma_undeclared(j, Self::declared());
    }
}

} // verus!
