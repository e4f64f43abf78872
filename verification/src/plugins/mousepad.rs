//! Remote keyboard and pointer.

use crate::field::{
    bool_json, bool_model, check_object, get_bool, get_opt_bool, get_opt_number, get_opt_text,
    group_field_laws, group_field_refusals, group_wf_laws, new_members, object_check, object_of,
    opt_bool, opt_bool_json, opt_bool_model, opt_literal, opt_number, opt_number_json,
    opt_number_model, opt_number_view, opt_text, opt_text_json, opt_text_model, opt_text_view, put,
    req_bool,
};
use crate::numeral::Number;
use crate::shape::Shape;
use crate::value::{
    distinct_keys, group_lookup, key_mark, lemma_undeclared, names_of, undeclared, Json, JsonModel,
    Member,
};
use vstd::prelude::*;

verus! {

/// The echo of a key press or pointer event that was carried out.
#[derive(Debug, PartialEq, Eq)]
pub struct MousepadEcho {
    pub key: Option<String>,
    pub special_key: Option<Number>,
    pub alt: Option<bool>,
    pub ctrl: Option<bool>,
    pub shift: Option<bool>,
    pub super_key: Option<bool>,
    pub singleclick: Option<bool>,
    pub doubleclick: Option<bool>,
    pub middleclick: Option<bool>,
    pub rightclick: Option<bool>,
    pub singlehold: Option<bool>,
    pub singlerelease: Option<bool>,
    pub dx: Option<Number>,
    pub dy: Option<Number>,
    pub scroll: Option<bool>,
    pub is_ack: bool,
}

/// Model of [`MousepadEcho`].
pub struct MousepadEchoView {
    pub key: Option<Seq<char>>,
    pub special_key: Option<Seq<char>>,
    pub alt: Option<bool>,
    pub ctrl: Option<bool>,
    pub shift: Option<bool>,
    pub super_key: Option<bool>,
    pub singleclick: Option<bool>,
    pub doubleclick: Option<bool>,
    pub middleclick: Option<bool>,
    pub rightclick: Option<bool>,
    pub singlehold: Option<bool>,
    pub singlerelease: Option<bool>,
    pub dx: Option<Seq<char>>,
    pub dy: Option<Seq<char>>,
    pub scroll: Option<bool>,
    pub is_ack: bool,
}

impl View for MousepadEcho {
    type V = MousepadEchoView;

    open spec fn view(&self) -> MousepadEchoView {
        MousepadEchoView {
            key: opt_text_view(self.key),
            special_key: opt_number_view(self.special_key),
            alt: self.alt,
            ctrl: self.ctrl,
            shift: self.shift,
            super_key: self.super_key,
            singleclick: self.singleclick,
            doubleclick: self.doubleclick,
            middleclick: self.middleclick,
            rightclick: self.rightclick,
            singlehold: self.singlehold,
            singlerelease: self.singlerelease,
            dx: opt_number_view(self.dx),
            dy: opt_number_view(self.dy),
            scroll: self.scroll,
            is_ack: self.is_ack,
        }
    }
}

impl Shape for MousepadEcho {
    open spec fn wire(v: MousepadEchoView) -> JsonModel {
        JsonModel::Object(
            Seq::empty()
                .push(Member { key: "key"@, value: opt_text_model(v.key) })
                .push(Member { key: "specialKey"@, value: opt_number_model(v.special_key) })
                .push(Member { key: "alt"@, value: opt_bool_model(v.alt) })
                .push(Member { key: "ctrl"@, value: opt_bool_model(v.ctrl) })
                .push(Member { key: "shift"@, value: opt_bool_model(v.shift) })
                .push(Member { key: "super"@, value: opt_bool_model(v.super_key) })
                .push(Member { key: "singleclick"@, value: opt_bool_model(v.singleclick) })
                .push(Member { key: "doubleclick"@, value: opt_bool_model(v.doubleclick) })
                .push(Member { key: "middleclick"@, value: opt_bool_model(v.middleclick) })
                .push(Member { key: "rightclick"@, value: opt_bool_model(v.rightclick) })
                .push(Member { key: "singlehold"@, value: opt_bool_model(v.singlehold) })
                .push(Member { key: "singlerelease"@, value: opt_bool_model(v.singlerelease) })
                .push(Member { key: "dx"@, value: opt_number_model(v.dx) })
                .push(Member { key: "dy"@, value: opt_number_model(v.dy) })
                .push(Member { key: "scroll"@, value: opt_bool_model(v.scroll) })
                .push(Member { key: "isAck"@, value: bool_model(v.is_ack) }),
        )
    }

    open spec fn parse(j: JsonModel) -> Result<MousepadEchoView, Seq<char>> {
        if object_check(j) is Err {
            Err(Seq::empty())
        } else if opt_text(j, "key"@) is Err {
            Err("key"@)
        } else if opt_number(j, "specialKey"@) is Err {
            Err("specialKey"@)
        } else if opt_bool(j, "alt"@) is Err {
            Err("alt"@)
        } else if opt_bool(j, "ctrl"@) is Err {
            Err("ctrl"@)
        } else if opt_bool(j, "shift"@) is Err {
            Err("shift"@)
        } else if opt_bool(j, "super"@) is Err {
            Err("super"@)
        } else if opt_bool(j, "singleclick"@) is Err {
            Err("singleclick"@)
        } else if opt_bool(j, "doubleclick"@) is Err {
            Err("doubleclick"@)
        } else if opt_bool(j, "middleclick"@) is Err {
            Err("middleclick"@)
        } else if opt_bool(j, "rightclick"@) is Err {
            Err("rightclick"@)
        } else if opt_bool(j, "singlehold"@) is Err {
            Err("singlehold"@)
        } else if opt_bool(j, "singlerelease"@) is Err {
            Err("singlerelease"@)
        } else if opt_number(j, "dx"@) is Err {
            Err("dx"@)
        } else if opt_number(j, "dy"@) is Err {
            Err("dy"@)
        } else if opt_bool(j, "scroll"@) is Err {
            Err("scroll"@)
        } else if req_bool(j, "isAck"@) is Err {
            Err("isAck"@)
        } else if undeclared(j, Self::declared()) is Some {
            Err(undeclared(j, Self::declared())->Some_0)
        } else {
            Ok(
                MousepadEchoView {
                    key: opt_text(j, "key"@)->Ok_0,
                    special_key: opt_number(j, "specialKey"@)->Ok_0,
                    alt: opt_bool(j, "alt"@)->Ok_0,
                    ctrl: opt_bool(j, "ctrl"@)->Ok_0,
                    shift: opt_bool(j, "shift"@)->Ok_0,
                    super_key: opt_bool(j, "super"@)->Ok_0,
                    singleclick: opt_bool(j, "singleclick"@)->Ok_0,
                    doubleclick: opt_bool(j, "doubleclick"@)->Ok_0,
                    middleclick: opt_bool(j, "middleclick"@)->Ok_0,
                    rightclick: opt_bool(j, "rightclick"@)->Ok_0,
                    singlehold: opt_bool(j, "singlehold"@)->Ok_0,
                    singlerelease: opt_bool(j, "singlerelease"@)->Ok_0,
                    dx: opt_number(j, "dx"@)->Ok_0,
                    dy: opt_number(j, "dy"@)->Ok_0,
                    scroll: opt_bool(j, "scroll"@)->Ok_0,
                    is_ack: req_bool(j, "isAck"@)->Ok_0,
                },
            )
        }
    }

    open spec fn declared() -> Set<Seq<char>> {
        Set::empty()
            .insert("key"@)
            .insert("specialKey"@)
            .insert("alt"@)
            .insert("ctrl"@)
            .insert("shift"@)
            .insert("super"@)
            .insert("singleclick"@)
            .insert("doubleclick"@)
            .insert("middleclick"@)
            .insert("rightclick"@)
            .insert("singlehold"@)
            .insert("singlerelease"@)
            .insert("dx"@)
            .insert("dy"@)
            .insert("scroll"@)
            .insert("isAck"@)
    }

    open spec fn required() -> Set<Seq<char>> {
        Set::empty().insert("isAck"@)
    }

    open spec fn wf(v: MousepadEchoView) -> bool {
        true
    }

    open spec fn writable(v: MousepadEchoView) -> bool {
        &&& opt_literal(v.special_key)
        &&& opt_literal(v.dx)
        &&& opt_literal(v.dy)
    }

    fn to_json(&self) -> (j: Json) {
        let mut ms = new_members();
        put(&mut ms, "key", opt_text_json(&self.key));
        put(&mut ms, "specialKey", opt_number_json(&self.special_key));
        put(&mut ms, "alt", opt_bool_json(&self.alt));
        put(&mut ms, "ctrl", opt_bool_json(&self.ctrl));
        put(&mut ms, "shift", opt_bool_json(&self.shift));
        put(&mut ms, "super", opt_bool_json(&self.super_key));
        put(&mut ms, "singleclick", opt_bool_json(&self.singleclick));
        put(&mut ms, "doubleclick", opt_bool_json(&self.doubleclick));
        put(&mut ms, "middleclick", opt_bool_json(&self.middleclick));
        put(&mut ms, "rightclick", opt_bool_json(&self.rightclick));
        put(&mut ms, "singlehold", opt_bool_json(&self.singlehold));
        put(&mut ms, "singlerelease", opt_bool_json(&self.singlerelease));
        put(&mut ms, "dx", opt_number_json(&self.dx));
        put(&mut ms, "dy", opt_number_json(&self.dy));
        put(&mut ms, "scroll", opt_bool_json(&self.scroll));
        put(&mut ms, "isAck", bool_json(self.is_ack));
        object_of(ms)
    }

    fn from_json(j: &Json) -> (r: Result<MousepadEcho, String>) {
        match check_object(j) {
            Ok(_) => {},
            Err(e) => return Err(e),
        }
        let key = match get_opt_text(j, "key") {
            Ok(x) => x,
            Err(e) => return Err(e),
        };
        let special_key = match get_opt_number(j, "specialKey") {
            Ok(x) => x,
            Err(e) => return Err(e),
        };
        let alt = match get_opt_bool(j, "alt") {
            Ok(x) => x,
            Err(e) => return Err(e),
        };
        let ctrl = match get_opt_bool(j, "ctrl") {
            Ok(x) => x,
            Err(e) => return Err(e),
        };
        let shift = match get_opt_bool(j, "shift") {
            Ok(x) => x,
            Err(e) => return Err(e),
        };
        let super_key = match get_opt_bool(j, "super") {
            Ok(x) => x,
            Err(e) => return Err(e),
        };
        let singleclick = match get_opt_bool(j, "singleclick") {
            Ok(x) => x,
            Err(e) => return Err(e),
        };
        let doubleclick = match get_opt_bool(j, "doubleclick") {
            Ok(x) => x,
            Err(e) => return Err(e),
        };
        let middleclick = match get_opt_bool(j, "middleclick") {
            Ok(x) => x,
            Err(e) => return Err(e),
        };
        let rightclick = match get_opt_bool(j, "rightclick") {
            Ok(x) => x,
            Err(e) => return Err(e),
        };
        let singlehold = match get_opt_bool(j, "singlehold") {
            Ok(x) => x,
            Err(e) => return Err(e),
        };
        let singlerelease = match get_opt_bool(j, "singlerelease") {
            Ok(x) => x,
            Err(e) => return Err(e),
        };
        let dx = match get_opt_number(j, "dx") {
            Ok(x) => x,
            Err(e) => return Err(e),
        };
        let dy = match get_opt_number(j, "dy") {
            Ok(x) => x,
            Err(e) => return Err(e),
        };
        let scroll = match get_opt_bool(j, "scroll") {
            Ok(x) => x,
            Err(e) => return Err(e),
        };
        let is_ack = match get_bool(j, "isAck") {
            Ok(x) => x,
            Err(e) => return Err(e),
        };
        let names: Vec<String> = vec![
            "key".to_owned(),
            "specialKey".to_owned(),
            "alt".to_owned(),
            "ctrl".to_owned(),
            "shift".to_owned(),
            "super".to_owned(),
            "singleclick".to_owned(),
            "doubleclick".to_owned(),
            "middleclick".to_owned(),
            "rightclick".to_owned(),
            "singlehold".to_owned(),
            "singlerelease".to_owned(),
            "dx".to_owned(),
            "dy".to_owned(),
            "scroll".to_owned(),
            "isAck".to_owned(),
        ];
        assert(names_of(names@) =~= Self::declared()) by {
            assert(names@[0]@ == "key"@);
            assert(names@[1]@ == "specialKey"@);
            assert(names@[2]@ == "alt"@);
            assert(names@[3]@ == "ctrl"@);
            assert(names@[4]@ == "shift"@);
            assert(names@[5]@ == "super"@);
            assert(names@[6]@ == "singleclick"@);
            assert(names@[7]@ == "doubleclick"@);
            assert(names@[8]@ == "middleclick"@);
            assert(names@[9]@ == "rightclick"@);
            assert(names@[10]@ == "singlehold"@);
            assert(names@[11]@ == "singlerelease"@);
            assert(names@[12]@ == "dx"@);
            assert(names@[13]@ == "dy"@);
            assert(names@[14]@ == "scroll"@);
            assert(names@[15]@ == "isAck"@);
        }
        match j.first_besides(&names) {
            Some(key) => return Err(key),
            None => {},
        }
        Ok(
            MousepadEcho {
                key,
                special_key,
                alt,
                ctrl,
                shift,
                super_key,
                singleclick,
                doubleclick,
                middleclick,
                rightclick,
                singlehold,
                singlerelease,
                dx,
                dy,
                scroll,
                is_ack,
            },
        )
    }

    proof fn lemma_round_trip(v: MousepadEchoView) {
        broadcast use {group_lookup, group_field_laws, vstd::string::group_string_axioms};
        reveal_strlit("key");
        reveal_strlit("specialKey");
        reveal_strlit("alt");
        reveal_strlit("ctrl");
        reveal_strlit("shift");
        reveal_strlit("super");
        reveal_strlit("singleclick");
        reveal_strlit("doubleclick");
        reveal_strlit("middleclick");
        reveal_strlit("rightclick");
        reveal_strlit("singlehold");
        reveal_strlit("singlerelease");
        reveal_strlit("dx");
        reveal_strlit("dy");
        reveal_strlit("scroll");
        reveal_strlit("isAck");
        let j = Self::wire(v);
        assert(opt_text(j, "key"@) == Ok::<Option<Seq<char>>, Seq<char>>(v.key));
        assert(opt_number(j, "specialKey"@) == Ok::<Option<Seq<char>>, Seq<char>>(v.special_key));
        assert(opt_bool(j, "alt"@) == Ok::<Option<bool>, Seq<char>>(v.alt));
        assert(opt_bool(j, "ctrl"@) == Ok::<Option<bool>, Seq<char>>(v.ctrl));
        assert(opt_bool(j, "shift"@) == Ok::<Option<bool>, Seq<char>>(v.shift));
        assert(opt_bool(j, "super"@) == Ok::<Option<bool>, Seq<char>>(v.super_key));
        assert(opt_bool(j, "singleclick"@) == Ok::<Option<bool>, Seq<char>>(v.singleclick));
        assert(opt_bool(j, "doubleclick"@) == Ok::<Option<bool>, Seq<char>>(v.doubleclick));
        assert(opt_bool(j, "middleclick"@) == Ok::<Option<bool>, Seq<char>>(v.middleclick));
        assert(opt_bool(j, "rightclick"@) == Ok::<Option<bool>, Seq<char>>(v.rightclick));
        assert(opt_bool(j, "singlehold"@) == Ok::<Option<bool>, Seq<char>>(v.singlehold));
        assert(opt_bool(j, "singlerelease"@) == Ok::<Option<bool>, Seq<char>>(v.singlerelease));
        assert(opt_number(j, "dx"@) == Ok::<Option<Seq<char>>, Seq<char>>(v.dx));
        assert(opt_number(j, "dy"@) == Ok::<Option<Seq<char>>, Seq<char>>(v.dy));
        assert(opt_bool(j, "scroll"@) == Ok::<Option<bool>, Seq<char>>(v.scroll));
        assert(req_bool(j, "isAck"@) == Ok::<bool, Seq<char>>(v.is_ack));
        assert(undeclared(j, Self::declared()) is None);
    }

    proof fn lemma_wire_wf(v: MousepadEchoView) {
        broadcast use {group_wf_laws, vstd::string::group_string_axioms};
        reveal_strlit("key");
        reveal_strlit("specialKey");
        reveal_strlit("alt");
        reveal_strlit("ctrl");
        reveal_strlit("shift");
        reveal_strlit("super");
        reveal_strlit("singleclick");
        reveal_strlit("doubleclick");
        reveal_strlit("middleclick");
        reveal_strlit("rightclick");
        reveal_strlit("singlehold");
        reveal_strlit("singlerelease");
        reveal_strlit("dx");
        reveal_strlit("dy");
        reveal_strlit("scroll");
        reveal_strlit("isAck");
        let ms = Self::wire(v)->Object_0;
        assert(ms.len() == 16);
        assert(ms[0].key == "key"@ && key_mark(ms[0].key).0 == 3);
        assert(ms[1].key == "specialKey"@ && key_mark(ms[1].key).0 == 10);
        assert(ms[2].key == "alt"@ && key_mark(ms[2].key).0 == 3);
        assert(ms[3].key == "ctrl"@ && key_mark(ms[3].key).0 == 4);
        assert(ms[4].key == "shift"@ && key_mark(ms[4].key).0 == 5);
        assert(ms[5].key == "super"@ && key_mark(ms[5].key).0 == 5);
        assert(ms[6].key == "singleclick"@ && key_mark(ms[6].key).0 == 11);
        assert(ms[7].key == "doubleclick"@ && key_mark(ms[7].key).0 == 11);
        assert(ms[8].key == "middleclick"@ && key_mark(ms[8].key).0 == 11);
        assert(ms[9].key == "rightclick"@ && key_mark(ms[9].key).0 == 10);
        assert(ms[10].key == "singlehold"@ && key_mark(ms[10].key).0 == 10);
        assert(ms[11].key == "singlerelease"@ && key_mark(ms[11].key).0 == 13);
        assert(ms[12].key == "dx"@ && key_mark(ms[12].key).0 == 2);
        assert(ms[13].key == "dy"@ && key_mark(ms[13].key).0 == 2);
        assert(ms[14].key == "scroll"@ && key_mark(ms[14].key).0 == 6);
        assert(ms[15].key == "isAck"@ && key_mark(ms[15].key).0 == 5);
        assert(distinct_keys(ms));
        assert(ms[0].value.wf());
        assert(ms[1].value.wf() == opt_literal(v.special_key));
        assert(ms[2].value.wf());
        assert(ms[3].value.wf());
        assert(ms[4].value.wf());
        assert(ms[5].value.wf());
        assert(ms[6].value.wf());
        assert(ms[7].value.wf());
        assert(ms[8].value.wf());
        assert(ms[9].value.wf());
        assert(ms[10].value.wf());
        assert(ms[11].value.wf());
        assert(ms[12].value.wf() == opt_literal(v.dx));
        assert(ms[13].value.wf() == opt_literal(v.dy));
        assert(ms[14].value.wf());
        assert(ms[15].value.wf());
    }

    proof fn lemma_unfit_is_refused(j: JsonModel) {
        broadcast use group_field_refusals;
        lemma_undeclared(j, Self::declared());
    }
}

/// Whether a device takes key presses.
#[derive(Debug, PartialEq, Eq)]
pub struct MousepadKeyboardState {
    pub state: bool,
}

/// Model of [`MousepadKeyboardState`].
pub struct MousepadKeyboardStateView {
    pub state: bool,
}

impl View for MousepadKeyboardState {
    type V = MousepadKeyboardStateView;

    open spec fn view(&self) -> MousepadKeyboardStateView {
        MousepadKeyboardStateView {
            state: self.state,
        }
    }
}

impl Shape for MousepadKeyboardState {
    open spec fn wire(v: MousepadKeyboardStateView) -> JsonModel {
        JsonModel::Object(
            Seq::empty()
                .push(Member { key: "state"@, value: bool_model(v.state) }),
        )
    }

    open spec fn parse(j: JsonModel) -> Result<MousepadKeyboardStateView, Seq<char>> {
        if object_check(j) is Err {
            Err(Seq::empty())
        } else if req_bool(j, "state"@) is Err {
            Err("state"@)
        } else if undeclared(j, Self::declared()) is Some {
            Err(undeclared(j, Self::declared())->Some_0)
        } else {
            Ok(
                MousepadKeyboardStateView {
                    state: req_bool(j, "state"@)->Ok_0,
                },
            )
        }
    }

    open spec fn declared() -> Set<Seq<char>> {
        Set::empty().insert("state"@)
    }

    open spec fn required() -> Set<Seq<char>> {
        Set::empty().insert("state"@)
    }

    open spec fn wf(v: MousepadKeyboardStateView) -> bool {
        true
    }

    open spec fn writable(v: MousepadKeyboardStateView) -> bool {
        true
    }

    fn to_json(&self) -> (j: Json) {
        let mut ms = new_members();
        put(&mut ms, "state", bool_json(self.state));
        object_of(ms)
    }

    fn from_json(j: &Json) -> (r: Result<MousepadKeyboardState, String>) {
        match check_object(j) {
            Ok(_) => {},
            Err(e) => return Err(e),
        }
        let state = match get_bool(j, "state") {
            Ok(x) => x,
            Err(e) => return Err(e),
        };
        let names: Vec<String> = vec!["state".to_owned()];
        assert(names_of(names@) =~= Self::declared()) by {
            assert(names@[0]@ == "state"@);
        }
        match j.first_besides(&names) {
            Some(key) => return Err(key),
            None => {},
        }
        Ok(MousepadKeyboardState { state })
    }

    proof fn lemma_round_trip(v: MousepadKeyboardStateView) {
        broadcast use {group_lookup, group_field_laws, vstd::string::group_string_axioms};
        reveal_strlit("state");
    }

    proof fn lemma_wire_wf(v: MousepadKeyboardStateView) {
        broadcast use {group_wf_laws, vstd::string::group_string_axioms};
        reveal_strlit("state");
        let ms = Self::wire(v)->Object_0;
        assert(ms.len() == 1);
        assert(ms[0].key == "state"@ && key_mark(ms[0].key).0 == 5);
        assert(distinct_keys(ms));
        assert(ms[0].value.wf());
    }

    proof fn lemma_unfit_is_refused(j: JsonModel) {
        broadcast use group_field_refusals;
        lemma_undeclared(j, Self::declared());
    }
}

/// A key press or a pointer event to carry out.
#[derive(Debug, PartialEq, Eq)]
pub struct MousepadRequest {
    pub key: Option<String>,
    pub special_key: Option<Number>,
    pub alt: Option<bool>,
    pub ctrl: Option<bool>,
    pub shift: Option<bool>,
    pub super_key: Option<bool>,
    pub singleclick: Option<bool>,
    pub doubleclick: Option<bool>,
    pub middleclick: Option<bool>,
    pub rightclick: Option<bool>,
    pub singlehold: Option<bool>,
    pub singlerelease: Option<bool>,
    pub dx: Option<Number>,
    pub dy: Option<Number>,
    pub scroll: Option<bool>,
    pub send_ack: Option<bool>,
}

/// Model of [`MousepadRequest`].
pub struct MousepadRequestView {
    pub key: Option<Seq<char>>,
    pub special_key: Option<Seq<char>>,
    pub alt: Option<bool>,
    pub ctrl: Option<bool>,
    pub shift: Option<bool>,
    pub super_key: Option<bool>,
    pub singleclick: Option<bool>,
    pub doubleclick: Option<bool>,
    pub middleclick: Option<bool>,
    pub rightclick: Option<bool>,
    pub singlehold: Option<bool>,
    pub singlerelease: Option<bool>,
    pub dx: Option<Seq<char>>,
    pub dy: Option<Seq<char>>,
    pub scroll: Option<bool>,
    pub send_ack: Option<bool>,
}

impl View for MousepadRequest {
    type V = MousepadRequestView;

    open spec fn view(&self) -> MousepadRequestView {
        MousepadRequestView {
            key: opt_text_view(self.key),
            special_key: opt_number_view(self.special_key),
            alt: self.alt,
            ctrl: self.ctrl,
            shift: self.shift,
            super_key: self.super_key,
            singleclick: self.singleclick,
            doubleclick: self.doubleclick,
            middleclick: self.middleclick,
            rightclick: self.rightclick,
            singlehold: self.singlehold,
            singlerelease: self.singlerelease,
            dx: opt_number_view(self.dx),
            dy: opt_number_view(self.dy),
            scroll: self.scroll,
            send_ack: self.send_ack,
        }
    }
}

impl Shape for MousepadRequest {
    open spec fn wire(v: MousepadRequestView) -> JsonModel {
        JsonModel::Object(
            Seq::empty()
                .push(Member { key: "key"@, value: opt_text_model(v.key) })
                .push(Member { key: "specialKey"@, value: opt_number_model(v.special_key) })
                .push(Member { key: "alt"@, value: opt_bool_model(v.alt) })
                .push(Member { key: "ctrl"@, value: opt_bool_model(v.ctrl) })
                .push(Member { key: "shift"@, value: opt_bool_model(v.shift) })
                .push(Member { key: "super"@, value: opt_bool_model(v.super_key) })
                .push(Member { key: "singleclick"@, value: opt_bool_model(v.singleclick) })
                .push(Member { key: "doubleclick"@, value: opt_bool_model(v.doubleclick) })
                .push(Member { key: "middleclick"@, value: opt_bool_model(v.middleclick) })
                .push(Member { key: "rightclick"@, value: opt_bool_model(v.rightclick) })
                .push(Member { key: "singlehold"@, value: opt_bool_model(v.singlehold) })
                .push(Member { key: "singlerelease"@, value: opt_bool_model(v.singlerelease) })
                .push(Member { key: "dx"@, value: opt_number_model(v.dx) })
                .push(Member { key: "dy"@, value: opt_number_model(v.dy) })
                .push(Member { key: "scroll"@, value: opt_bool_model(v.scroll) })
                .push(Member { key: "sendAck"@, value: opt_bool_model(v.send_ack) }),
        )
    }

    open spec fn parse(j: JsonModel) -> Result<MousepadRequestView, Seq<char>> {
        if object_check(j) is Err {
            Err(Seq::empty())
        } else if opt_text(j, "key"@) is Err {
            Err("key"@)
        } else if opt_number(j, "specialKey"@) is Err {
            Err("specialKey"@)
        } else if opt_bool(j, "alt"@) is Err {
            Err("alt"@)
        } else if opt_bool(j, "ctrl"@) is Err {
            Err("ctrl"@)
        } else if opt_bool(j, "shift"@) is Err {
            Err("shift"@)
        } else if opt_bool(j, "super"@) is Err {
            Err("super"@)
        } else if opt_bool(j, "singleclick"@) is Err {
            Err("singleclick"@)
        } else if opt_bool(j, "doubleclick"@) is Err {
            Err("doubleclick"@)
        } else if opt_bool(j, "middleclick"@) is Err {
            Err("middleclick"@)
        } else if opt_bool(j, "rightclick"@) is Err {
            Err("rightclick"@)
        } else if opt_bool(j, "singlehold"@) is Err {
            Err("singlehold"@)
        } else if opt_bool(j, "singlerelease"@) is Err {
            Err("singlerelease"@)
        } else if opt_number(j, "dx"@) is Err {
            Err("dx"@)
        } else if opt_number(j, "dy"@) is Err {
            Err("dy"@)
        } else if opt_bool(j, "scroll"@) is Err {
            Err("scroll"@)
        } else if opt_bool(j, "sendAck"@) is Err {
            Err("sendAck"@)
        } else if undeclared(j, Self::declared()) is Some {
            Err(undeclared(j, Self::declared())->Some_0)
        } else {
            Ok(
                MousepadRequestView {
                    key: opt_text(j, "key"@)->Ok_0,
                    special_key: opt_number(j, "specialKey"@)->Ok_0,
                    alt: opt_bool(j, "alt"@)->Ok_0,
                    ctrl: opt_bool(j, "ctrl"@)->Ok_0,
                    shift: opt_bool(j, "shift"@)->Ok_0,
                    super_key: opt_bool(j, "super"@)->Ok_0,
                    singleclick: opt_bool(j, "singleclick"@)->Ok_0,
                    doubleclick: opt_bool(j, "doubleclick"@)->Ok_0,
                    middleclick: opt_bool(j, "middleclick"@)->Ok_0,
                    rightclick: opt_bool(j, "rightclick"@)->Ok_0,
                    singlehold: opt_bool(j, "singlehold"@)->Ok_0,
                    singlerelease: opt_bool(j, "singlerelease"@)->Ok_0,
                    dx: opt_number(j, "dx"@)->Ok_0,
                    dy: opt_number(j, "dy"@)->Ok_0,
                    scroll: opt_bool(j, "scroll"@)->Ok_0,
                    send_ack: opt_bool(j, "sendAck"@)->Ok_0,
                },
            )
        }
    }

    open spec fn declared() -> Set<Seq<char>> {
        Set::empty()
            .insert("key"@)
            .insert("specialKey"@)
            .insert("alt"@)
            .insert("ctrl"@)
            .insert("shift"@)
            .insert("super"@)
            .insert("singleclick"@)
            .insert("doubleclick"@)
            .insert("middleclick"@)
            .insert("rightclick"@)
            .insert("singlehold"@)
            .insert("singlerelease"@)
            .insert("dx"@)
            .insert("dy"@)
            .insert("scroll"@)
            .insert("sendAck"@)
    }

    open spec fn required() -> Set<Seq<char>> {
        Set::empty()
    }

    open spec fn wf(v: MousepadRequestView) -> bool {
        true
    }

    open spec fn writable(v: MousepadRequestView) -> bool {
        &&& opt_literal(v.special_key)
        &&& opt_literal(v.dx)
        &&& opt_literal(v.dy)
    }

    fn to_json(&self) -> (j: Json) {
        let mut ms = new_members();
        put(&mut ms, "key", opt_text_json(&self.key));
        put(&mut ms, "specialKey", opt_number_json(&self.special_key));
        put(&mut ms, "alt", opt_bool_json(&self.alt));
        put(&mut ms, "ctrl", opt_bool_json(&self.ctrl));
        put(&mut ms, "shift", opt_bool_json(&self.shift));
        put(&mut ms, "super", opt_bool_json(&self.super_key));
        put(&mut ms, "singleclick", opt_bool_json(&self.singleclick));
        put(&mut ms, "doubleclick", opt_bool_json(&self.doubleclick));
        put(&mut ms, "middleclick", opt_bool_json(&self.middleclick));
        put(&mut ms, "rightclick", opt_bool_json(&self.rightclick));
        put(&mut ms, "singlehold", opt_bool_json(&self.singlehold));
        put(&mut ms, "singlerelease", opt_bool_json(&self.singlerelease));
        put(&mut ms, "dx", opt_number_json(&self.dx));
        put(&mut ms, "dy", opt_number_json(&self.dy));
        put(&mut ms, "scroll", opt_bool_json(&self.scroll));
        put(&mut ms, "sendAck", opt_bool_json(&self.send_ack));
        object_of(ms)
    }

    fn from_json(j: &Json) -> (r: Result<MousepadRequest, String>) {
        match check_object(j) {
            Ok(_) => {},
            Err(e) => return Err(e),
        }
        let key = match get_opt_text(j, "key") {
            Ok(x) => x,
            Err(e) => return Err(e),
        };
        let special_key = match get_opt_number(j, "specialKey") {
            Ok(x) => x,
            Err(e) => return Err(e),
        };
        let alt = match get_opt_bool(j, "alt") {
            Ok(x) => x,
            Err(e) => return Err(e),
        };
        let ctrl = match get_opt_bool(j, "ctrl") {
            Ok(x) => x,
            Err(e) => return Err(e),
        };
        let shift = match get_opt_bool(j, "shift") {
            Ok(x) => x,
            Err(e) => return Err(e),
        };
        let super_key = match get_opt_bool(j, "super") {
            Ok(x) => x,
            Err(e) => return Err(e),
        };
        let singleclick = match get_opt_bool(j, "singleclick") {
            Ok(x) => x,
            Err(e) => return Err(e),
        };
        let doubleclick = match get_opt_bool(j, "doubleclick") {
            Ok(x) => x,
            Err(e) => return Err(e),
        };
        let middleclick = match get_opt_bool(j, "middleclick") {
            Ok(x) => x,
            Err(e) => return Err(e),
        };
        let rightclick = match get_opt_bool(j, "rightclick") {
            Ok(x) => x,
            Err(e) => return Err(e),
        };
        let singlehold = match get_opt_bool(j, "singlehold") {
            Ok(x) => x,
            Err(e) => return Err(e),
        };
        let singlerelease = match get_opt_bool(j, "singlerelease") {
            Ok(x) => x,
            Err(e) => return Err(e),
        };
        let dx = match get_opt_number(j, "dx") {
            Ok(x) => x,
            Err(e) => return Err(e),
        };
        let dy = match get_opt_number(j, "dy") {
            Ok(x) => x,
            Err(e) => return Err(e),
        };
        let scroll = match get_opt_bool(j, "scroll") {
            Ok(x) => x,
            Err(e) => return Err(e),
        };
        let send_ack = match get_opt_bool(j, "sendAck") {
            Ok(x) => x,
            Err(e) => return Err(e),
        };
        let names: Vec<String> = vec![
            "key".to_owned(),
            "specialKey".to_owned(),
            "alt".to_owned(),
            "ctrl".to_owned(),
            "shift".to_owned(),
            "super".to_owned(),
            "singleclick".to_owned(),
            "doubleclick".to_owned(),
            "middleclick".to_owned(),
            "rightclick".to_owned(),
            "singlehold".to_owned(),
            "singlerelease".to_owned(),
            "dx".to_owned(),
            "dy".to_owned(),
            "scroll".to_owned(),
            "sendAck".to_owned(),
        ];
        assert(names_of(names@) =~= Self::declared()) by {
            assert(names@[0]@ == "key"@);
            assert(names@[1]@ == "specialKey"@);
            assert(names@[2]@ == "alt"@);
            assert(names@[3]@ == "ctrl"@);
            assert(names@[4]@ == "shift"@);
            assert(names@[5]@ == "super"@);
            assert(names@[6]@ == "singleclick"@);
            assert(names@[7]@ == "doubleclick"@);
            assert(names@[8]@ == "middleclick"@);
            assert(names@[9]@ == "rightclick"@);
            assert(names@[10]@ == "singlehold"@);
            assert(names@[11]@ == "singlerelease"@);
            assert(names@[12]@ == "dx"@);
            assert(names@[13]@ == "dy"@);
            assert(names@[14]@ == "scroll"@);
            assert(names@[15]@ == "sendAck"@);
        }
        match j.first_besides(&names) {
            Some(key) => return Err(key),
            None => {},
        }
        Ok(
            MousepadRequest {
                key,
                special_key,
                alt,
                ctrl,
                shift,
                super_key,
                singleclick,
                doubleclick,
                middleclick,
                rightclick,
                singlehold,
                singlerelease,
                dx,
                dy,
                scroll,
                send_ack,
            },
        )
    }

    proof fn lemma_round_trip(v: MousepadRequestView) {
        broadcast use {group_lookup, group_field_laws, vstd::string::group_string_axioms};
        reveal_strlit("key");
        reveal_strlit("specialKey");
        reveal_strlit("alt");
        reveal_strlit("ctrl");
        reveal_strlit("shift");
        reveal_strlit("super");
        reveal_strlit("singleclick");
        reveal_strlit("doubleclick");
        reveal_strlit("middleclick");
        reveal_strlit("rightclick");
        reveal_strlit("singlehold");
        reveal_strlit("singlerelease");
        reveal_strlit("dx");
        reveal_strlit("dy");
        reveal_strlit("scroll");
        reveal_strlit("sendAck");
        let j = Self::wire(v);
        assert(opt_text(j, "key"@) == Ok::<Option<Seq<char>>, Seq<char>>(v.key));
        assert(opt_number(j, "specialKey"@) == Ok::<Option<Seq<char>>, Seq<char>>(v.special_key));
        assert(opt_bool(j, "alt"@) == Ok::<Option<bool>, Seq<char>>(v.alt));
        assert(opt_bool(j, "ctrl"@) == Ok::<Option<bool>, Seq<char>>(v.ctrl));
        assert(opt_bool(j, "shift"@) == Ok::<Option<bool>, Seq<char>>(v.shift));
        assert(opt_bool(j, "super"@) == Ok::<Option<bool>, Seq<char>>(v.super_key));
        assert(opt_bool(j, "singleclick"@) == Ok::<Option<bool>, Seq<char>>(v.singleclick));
        assert(opt_bool(j, "doubleclick"@) == Ok::<Option<bool>, Seq<char>>(v.doubleclick));
        assert(opt_bool(j, "middleclick"@) == Ok::<Option<bool>, Seq<char>>(v.middleclick));
        assert(opt_bool(j, "rightclick"@) == Ok::<Option<bool>, Seq<char>>(v.rightclick));
        assert(opt_bool(j, "singlehold"@) == Ok::<Option<bool>, Seq<char>>(v.singlehold));
        assert(opt_bool(j, "singlerelease"@) == Ok::<Option<bool>, Seq<char>>(v.singlerelease));
        assert(opt_number(j, "dx"@) == Ok::<Option<Seq<char>>, Seq<char>>(v.dx));
        assert(opt_number(j, "dy"@) == Ok::<Option<Seq<char>>, Seq<char>>(v.dy));
        assert(opt_bool(j, "scroll"@) == Ok::<Option<bool>, Seq<char>>(v.scroll));
        assert(opt_bool(j, "sendAck"@) == Ok::<Option<bool>, Seq<char>>(v.send_ack));
        assert(undeclared(j, Self::declared()) is None);
    }

    proof fn lemma_wire_wf(v: MousepadRequestView) {
        broadcast use {group_wf_laws, vstd::string::group_string_axioms};
        reveal_strlit("key");
        reveal_strlit("specialKey");
        reveal_strlit("alt");
        reveal_strlit("ctrl");
        reveal_strlit("shift");
        reveal_strlit("super");
        reveal_strlit("singleclick");
        reveal_strlit("doubleclick");
        reveal_strlit("middleclick");
        reveal_strlit("rightclick");
        reveal_strlit("singlehold");
        reveal_strlit("singlerelease");
        reveal_strlit("dx");
        reveal_strlit("dy");
        reveal_strlit("scroll");
        reveal_strlit("sendAck");
        let ms = Self::wire(v)->Object_0;
        assert(ms.len() == 16);
        assert(ms[0].key == "key"@ && key_mark(ms[0].key).0 == 3);
        assert(ms[1].key == "specialKey"@ && key_mark(ms[1].key).0 == 10);
        assert(ms[2].key == "alt"@ && key_mark(ms[2].key).0 == 3);
        assert(ms[3].key == "ctrl"@ && key_mark(ms[3].key).0 == 4);
        assert(ms[4].key == "shift"@ && key_mark(ms[4].key).0 == 5);
        assert(ms[5].key == "super"@ && key_mark(ms[5].key).0 == 5);
        assert(ms[6].key == "singleclick"@ && key_mark(ms[6].key).0 == 11);
        assert(ms[7].key == "doubleclick"@ && key_mark(ms[7].key).0 == 11);
        assert(ms[8].key == "middleclick"@ && key_mark(ms[8].key).0 == 11);
        assert(ms[9].key == "rightclick"@ && key_mark(ms[9].key).0 == 10);
        assert(ms[10].key == "singlehold"@ && key_mark(ms[10].key).0 == 10);
        assert(ms[11].key == "singlerelease"@ && key_mark(ms[11].key).0 == 13);
        assert(ms[12].key == "dx"@ && key_mark(ms[12].key).0 == 2);
        assert(ms[13].key == "dy"@ && key_mark(ms[13].key).0 == 2);
        assert(ms[14].key == "scroll"@ && key_mark(ms[14].key).0 == 6);
        assert(ms[15].key == "sendAck"@ && key_mark(ms[15].key).0 == 7);
        assert(distinct_keys(ms));
        assert(ms[0].value.wf());
        assert(ms[1].value.wf() == opt_literal(v.special_key));
        assert(ms[2].value.wf());
        assert(ms[3].value.wf());
        assert(ms[4].value.wf());
        assert(ms[5].value.wf());
        assert(ms[6].value.wf());
        assert(ms[7].value.wf());
        assert(ms[8].value.wf());
        assert(ms[9].value.wf());
        assert(ms[10].value.wf());
        assert(ms[11].value.wf());
        assert(ms[12].value.wf() == opt_literal(v.dx));
        assert(ms[13].value.wf() == opt_literal(v.dy));
        assert(ms[14].value.wf());
        assert(ms[15].value.wf());
    }

    proof fn lemma_unfit_is_refused(j: JsonModel) {
        lemma_undeclared(j, Self::declared());
    }
}

} // verus!
