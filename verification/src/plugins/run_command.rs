//! Running commands that a device offers.

use crate::field::{
    check_object, get_opt_text, get_text, group_field_laws, group_field_refusals, group_wf_laws,
    new_members, object_check, object_of, opt_text, opt_text_json, opt_text_model, opt_text_view,
    put, req_text, text_json, text_model,
};
use crate::shape::Shape;
use crate::value::{
    distinct_keys, group_lookup, key_mark, lemma_undeclared, names_of, undeclared, Json, JsonModel,
    Member,
};
use vstd::prelude::*;

verus! {

/// The commands that a device offers, as a text that lists them.
#[derive(Debug, PartialEq, Eq)]
pub struct RunCommand {
    pub command_list: String,
}

/// Model of [`RunCommand`].
pub struct RunCommandView {
    pub command_list: Seq<char>,
}

impl View for RunCommand {
    type V = RunCommandView;

    open spec fn view(&self) -> RunCommandView {
        RunCommandView {
            command_list: self.command_list@,
        }
    }
}

impl Shape for RunCommand {
    open spec fn wire(v: RunCommandView) -> JsonModel {
        JsonModel::Object(
            Seq::empty()
                .push(Member { key: "commandList"@, value: text_model(v.command_list) }),
        )
    }

    open spec fn parse(j: JsonModel) -> Result<RunCommandView, Seq<char>> {
        if object_check(j) is Err {
            Err(Seq::empty())
        } else if req_text(j, "commandList"@) is Err {
            Err("commandList"@)
        } else if undeclared(j, Self::declared()) is Some {
            Err(undeclared(j, Self::declared())->Some_0)
        } else {
            Ok(
                RunCommandView {
                    command_list: req_text(j, "commandList"@)->Ok_0,
                },
            )
        }
    }

    open spec fn declared() -> Set<Seq<char>> {
        Set::empty().insert("commandList"@)
    }

    open spec fn required() -> Set<Seq<char>> {
        Set::empty().insert("commandList"@)
    }

    open spec fn wf(v: RunCommandView) -> bool {
        true
    }

    open spec fn writable(v: RunCommandView) -> bool {
        true
    }

    fn to_json(&self) -> (j: Json) {
        let mut ms = new_members();
        put(&mut ms, "commandList", text_json(&self.command_list));
        object_of(ms)
    }

    fn from_json(j: &Json) -> (r: Result<RunCommand, String>) {
        match check_object(j) {
            Ok(_) => {},
            Err(e) => return Err(e),
        }
        let command_list = match get_text(j, "commandList") {
            Ok(x) => x,
            Err(e) => return Err(e),
        };
        let names: Vec<String> = vec!["commandList".to_owned()];
        assert(names_of(names@) =~= Self::declared()) by {
            assert(names@[0]@ == "commandList"@);
        }
        match j.first_besides(&names) {
            Some(key) => return Err(key),
            None => {},
        }
        Ok(RunCommand { command_list })
    }

    proof fn lemma_round_trip(v: RunCommandView) {
        broadcast use {group_lookup, group_field_laws, vstd::string::group_string_axioms};
        reveal_strlit("commandList");
    }

    proof fn lemma_wire_wf(v: RunCommandView) {
        broadcast use {group_wf_laws, vstd::string::group_string_axioms};
        reveal_strlit("commandList");
        let ms = Self::wire(v)->Object_0;
        assert(ms.len() == 1);
        assert(ms[0].key == "commandList"@ && key_mark(ms[0].key).0 == 11);
        assert(distinct_keys(ms));
        assert(ms[0].value.wf());
    }

    proof fn lemma_unfit_is_refused(j: JsonModel) {
        broadcast use group_field_refusals;
        lemma_undeclared(j, Self::declared());
    }
}

/// Asks a device to run a command, or for its list of commands.
#[derive(Debug, PartialEq, Eq)]
pub struct RunCommandRequest {
    pub key: Option<String>,
    pub request_command_list: Option<String>,
}

/// Model of [`RunCommandRequest`].
pub struct RunCommandRequestView {
    pub key: Option<Seq<char>>,
    pub request_command_list: Option<Seq<char>>,
}

impl View for RunCommandRequest {
    type V = RunCommandRequestView;

    open spec fn view(&self) -> RunCommandRequestView {
        RunCommandRequestView {
            key: opt_text_view(self.key),
            request_command_list: opt_text_view(self.request_command_list),
        }
    }
}

impl Shape for RunCommandRequest {
    open spec fn wire(v: RunCommandRequestView) -> JsonModel {
        JsonModel::Object(
            Seq::empty()
                .push(Member { key: "key"@, value: opt_text_model(v.key) })
                .push(
                    Member {
                        key: "requestCommandList"@,
                        value: opt_text_model(v.request_command_list),
                    },
                ),
        )
    }

    open spec fn parse(j: JsonModel) -> Result<RunCommandRequestView, Seq<char>> {
        if object_check(j) is Err {
            Err(Seq::empty())
        } else if opt_text(j, "key"@) is Err {
            Err("key"@)
        } else if opt_text(j, "requestCommandList"@) is Err {
            Err("requestCommandList"@)
        } else if undeclared(j, Self::declared()) is Some {
            Err(undeclared(j, Self::declared())->Some_0)
        } else {
            Ok(
                RunCommandRequestView {
                    key: opt_text(j, "key"@)->Ok_0,
                    request_command_list: opt_text(j, "requestCommandList"@)->Ok_0,
                },
            )
        }
    }

    open spec fn declared() -> Set<Seq<char>> {
        Set::empty().insert("key"@).insert("requestCommandList"@)
    }

    open spec fn required() -> Set<Seq<char>> {
        Set::empty()
    }

    open spec fn wf(v: RunCommandRequestView) -> bool {
        true
    }

    open spec fn writable(v: RunCommandRequestView) -> bool {
        true
    }

    fn to_json(&self) -> (j: Json) {
        let mut ms = new_members();
        put(&mut ms, "key", opt_text_json(&self.key));
        put(&mut ms, "requestCommandList", opt_text_json(&self.request_command_list));
        object_of(ms)
    }

    fn from_json(j: &Json) -> (r: Result<RunCommandRequest, String>) {
        match check_object(j) {
            Ok(_) => {},
            Err(e) => return Err(e),
        }
        let key = match get_opt_text(j, "key") {
            Ok(x) => x,
            Err(e) => return Err(e),
        };
        let request_command_list = match get_opt_text(j, "requestCommandList") {
            Ok(x) => x,
            Err(e) => return Err(e),
        };
        let names: Vec<String> = vec!["key".to_owned(), "requestCommandList".to_owned()];
        assert(names_of(names@) =~= Self::declared()) by {
            assert(names@[0]@ == "key"@);
            assert(names@[1]@ == "requestCommandList"@);
        }
        match j.first_besides(&names) {
            Some(key) => return Err(key),
            None => {},
        }
        Ok(RunCommandRequest { key, request_command_list })
    }

    proof fn lemma_round_trip(v: RunCommandRequestView) {
        broadcast use {group_lookup, group_field_laws, vstd::string::group_string_axioms};
        reveal_strlit("key");
        reveal_strlit("requestCommandList");
    }

    proof fn lemma_wire_wf(v: RunCommandRequestView) {
        broadcast use {group_wf_laws, vstd::string::group_string_axioms};
        reveal_strlit("key");
        reveal_strlit("requestCommandList");
        let ms = Self::wire(v)->Object_0;
        assert(ms.len() == 2);
        assert(ms[0].key == "key"@ && key_mark(ms[0].key).0 == 3);
        assert(ms[1].key == "requestCommandList"@ && key_mark(ms[1].key).0 == 18);
        assert(distinct_keys(ms));
        assert(ms[0].value.wf());
        assert(ms[1].value.wf());
    }

    proof fn lemma_unfit_is_refused(j: JsonModel) {
        lemma_undeclared(j, Self::declared());
    }
}

} // verus!
