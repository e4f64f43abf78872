//! Sharing the clipboard.

use crate::field::{
    check_object, get_number, get_text, group_field_laws, group_field_refusals, group_wf_laws,
    new_members, number_json, number_model, object_check, object_of, put, req_number, req_text,
    text_json, text_model,
};
use crate::numeral::{is_number_literal, Number};
use crate::shape::Shape;
use crate::value::{
    distinct_keys, group_lookup, key_mark, lemma_undeclared, names_of, undeclared, Json, JsonModel,
    Member,
};
use vstd::prelude::*;

verus! {

/// The content of the clipboard after it changed.
#[derive(Debug, PartialEq, Eq)]
pub struct Clipboard {
    pub content: String,
}

/// Model of [`Clipboard`].
pub struct ClipboardView {
    pub content: Seq<char>,
}

impl View for Clipboard {
    type V = ClipboardView;

    open spec fn view(&self) -> ClipboardView {
        ClipboardView {
            content: self.content@,
        }
    }
}

impl Shape for Clipboard {
    open spec fn wire(v: ClipboardView) -> JsonModel {
        JsonModel::Object(
            Seq::empty()
                .push(Member { key: "content"@, value: text_model(v.content) }),
        )
    }

    open spec fn parse(j: JsonModel) -> Result<ClipboardView, Seq<char>> {
        if object_check(j) is Err {
            Err(Seq::empty())
        } else if req_text(j, "content"@) is Err {
            Err("content"@)
        } else if undeclared(j, Self::declared()) is Some {
            Err(undeclared(j, Self::declared())->Some_0)
        } else {
            Ok(
                ClipboardView {
                    content: req_text(j, "content"@)->Ok_0,
                },
            )
        }
    }

    open spec fn declared() -> Set<Seq<char>> {
        Set::empty().insert("content"@)
    }

    open spec fn required() -> Set<Seq<char>> {
        Set::empty().insert("content"@)
    }

    open spec fn wf(v: ClipboardView) -> bool {
        true
    }

    open spec fn writable(v: ClipboardView) -> bool {
        true
    }

    fn to_json(&self) -> (j: Json) {
        let mut ms = new_members();
        put(&mut ms, "content", text_json(&self.content));
        object_of(ms)
    }

    fn from_json(j: &Json) -> (r: Result<Clipboard, String>) {
        match check_object(j) {
            Ok(_) => {},
            Err(e) => return Err(e),
        }
        let content = match get_text(j, "content") {
            Ok(x) => x,
            Err(e) => return Err(e),
        };
        let names: Vec<String> = vec!["content".to_owned()];
        assert(names_of(names@) =~= Self::declared()) by {
            assert(names@[0]@ == "content"@);
        }
        match j.first_besides(&names) {
            Some(key) => return Err(key),
            None => {},
        }
        Ok(Clipboard { content })
    }

    proof fn lemma_round_trip(v: ClipboardView) {
        broadcast use {group_lookup, group_field_laws, vstd::string::group_string_axioms};
        reveal_strlit("content");
    }

    proof fn lemma_wire_wf(v: ClipboardView) {
        broadcast use {group_wf_laws, vstd::string::group_string_axioms};
        reveal_strlit("content");
        let ms = Self::wire(v)->Object_0;
        assert(ms.len() == 1);
        assert(ms[0].key == "content"@ && key_mark(ms[0].key).0 == 7);
        assert(distinct_keys(ms));
        assert(ms[0].value.wf());
    }

    proof fn lemma_unfit_is_refused(j: JsonModel) {
        broadcast use group_field_refusals;
        lemma_undeclared(j, Self::declared());
    }
}

/// The content of the clipboard when a device connects, with the time at which
/// it was last changed.
#[derive(Debug, PartialEq, Eq)]
pub struct ClipboardConnect {
    pub content: String,
    pub timestamp: Number,
}

/// Model of [`ClipboardConnect`].
pub struct ClipboardConnectView {
    pub content: Seq<char>,
    pub timestamp: Seq<char>,
}

impl View for ClipboardConnect {
    type V = ClipboardConnectView;

    open spec fn view(&self) -> ClipboardConnectView {
        ClipboardConnectView {
            content: self.content@,
            timestamp: self.timestamp@,
        }
    }
}

impl Shape for ClipboardConnect {
    open spec fn wire(v: ClipboardConnectView) -> JsonModel {
        JsonModel::Object(
            Seq::empty()
                .push(Member { key: "content"@, value: text_model(v.content) })
                .push(Member { key: "timestamp"@, value: number_model(v.timestamp) }),
        )
    }

    open spec fn parse(j: JsonModel) -> Result<ClipboardConnectView, Seq<char>> {
        if object_check(j) is Err {
            Err(Seq::empty())
        } else if req_text(j, "content"@) is Err {
            Err("content"@)
        } else if req_number(j, "timestamp"@) is Err {
            Err("timestamp"@)
        } else if undeclared(j, Self::declared()) is Some {
            Err(undeclared(j, Self::declared())->Some_0)
        } else {
            Ok(
                ClipboardConnectView {
                    content: req_text(j, "content"@)->Ok_0,
                    timestamp: req_number(j, "timestamp"@)->Ok_0,
                },
            )
        }
    }

    open spec fn declared() -> Set<Seq<char>> {
        Set::empty().insert("content"@).insert("timestamp"@)
    }

    open spec fn required() -> Set<Seq<char>> {
        Set::empty().insert("content"@).insert("timestamp"@)
    }

    open spec fn wf(v: ClipboardConnectView) -> bool {
        true
    }

    open spec fn writable(v: ClipboardConnectView) -> bool {
        &&& is_number_literal(v.timestamp)
    }

    fn to_json(&self) -> (j: Json) {
        let mut ms = new_members();
        put(&mut ms, "content", text_json(&self.content));
        put(&mut ms, "timestamp", number_json(&self.timestamp));
        object_of(ms)
    }

    fn from_json(j: &Json) -> (r: Result<ClipboardConnect, String>) {
        match check_object(j) {
            Ok(_) => {},
            Err(e) => return Err(e),
        }
        let content = match get_text(j, "content") {
            Ok(x) => x,
            Err(e) => return Err(e),
        };
        let timestamp = match get_number(j, "timestamp") {
            Ok(x) => x,
            Err(e) => return Err(e),
        };
        let names: Vec<String> = vec!["content".to_owned(), "timestamp".to_owned()];
        assert(names_of(names@) =~= Self::declared()) by {
            assert(names@[0]@ == "content"@);
            assert(names@[1]@ == "timestamp"@);
        }
        match j.first_besides(&names) {
            Some(key) => return Err(key),
            None => {},
        }
        Ok(ClipboardConnect { content, timestamp })
    }

    proof fn lemma_round_trip(v: ClipboardConnectView) {
        broadcast use {group_lookup, group_field_laws, vstd::string::group_string_axioms};
        reveal_strlit("content");
        reveal_strlit("timestamp");
    }

    proof fn lemma_wire_wf(v: ClipboardConnectView) {
        broadcast use {group_wf_laws, vstd::string::group_string_axioms};
        reveal_strlit("content");
        reveal_strlit("timestamp");
        let ms = Self::wire(v)->Object_0;
        assert(ms.len() == 2);
        assert(ms[0].key == "content"@ && key_mark(ms[0].key).0 == 7);
        assert(ms[1].key == "timestamp"@ && key_mark(ms[1].key).0 == 9);
        assert(distinct_keys(ms));
        assert(ms[0].value.wf());
        assert(ms[1].value.wf() == is_number_literal(v.timestamp));
    }

    proof fn lemma_unfit_is_refused(j: JsonModel) {
        broadcast use group_field_refusals;
        lemma_undeclared(j, Self::declared());
    }
}

} // verus!
