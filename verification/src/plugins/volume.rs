//! The volume of the audio outputs of a device.

use crate::field::{
    bool_json, bool_model, check_object, get_bool, get_number, get_opt_bool, get_opt_number,
    get_opt_text, get_text, group_field_laws, group_field_refusals, group_wf_laws, new_members,
    number_json, number_model, object_check, object_of, opt_bool, opt_bool_json, opt_bool_model,
    opt_literal, opt_number, opt_number_json, opt_number_model, opt_number_view, opt_text,
    opt_text_json, opt_text_model, opt_text_view, put, req_bool, req_number, req_text, text_json,
    text_model,
};
use crate::numeral::{is_number_literal, Number};
use crate::shape::{
    get_opt_list, group_shape_laws, group_shape_wf_laws, opt_all_writable, opt_list,
    opt_list_to_json, opt_list_view, opt_list_wire, Shape,
};
use crate::value::{
    distinct_keys, group_lookup, key_mark, lemma_undeclared, names_of, undeclared, Json, JsonModel,
    Member,
};
use vstd::prelude::*;

verus! {

/// One audio output.
#[derive(Debug, PartialEq, Eq)]
pub struct Stream {
    pub name: String,
    pub description: String,
    pub enabled: Option<bool>,
    pub muted: bool,
    pub max_volume: Option<Number>,
    pub volume: Number,
}

/// Model of [`Stream`].
pub struct StreamView {
    pub name: Seq<char>,
    pub description: Seq<char>,
    pub enabled: Option<bool>,
    pub muted: bool,
    pub max_volume: Option<Seq<char>>,
    pub volume: Seq<char>,
}

impl View for Stream {
    type V = StreamView;

    open spec fn view(&self) -> StreamView {
        StreamView {
            name: self.name@,
            description: self.description@,
            enabled: self.enabled,
            muted: self.muted,
            max_volume: opt_number_view(self.max_volume),
            volume: self.volume@,
        }
    }
}

impl Shape for Stream {
    open spec fn wire(v: StreamView) -> JsonModel {
        JsonModel::Object(
            Seq::empty()
                .push(Member { key: "name"@, value: text_model(v.name) })
                .push(Member { key: "description"@, value: text_model(v.description) })
                .push(Member { key: "enabled"@, value: opt_bool_model(v.enabled) })
                .push(Member { key: "muted"@, value: bool_model(v.muted) })
                .push(Member { key: "maxVolume"@, value: opt_number_model(v.max_volume) })
                .push(Member { key: "volume"@, value: number_model(v.volume) }),
        )
    }

    open spec fn parse(j: JsonModel) -> Result<StreamView, Seq<char>> {
        if object_check(j) is Err {
            Err(Seq::empty())
        } else if req_text(j, "name"@) is Err {
            Err("name"@)
        } else if req_text(j, "description"@) is Err {
            Err("description"@)
        } else if opt_bool(j, "enabled"@) is Err {
            Err("enabled"@)
        } else if req_bool(j, "muted"@) is Err {
            Err("muted"@)
        } else if opt_number(j, "maxVolume"@) is Err {
            Err("maxVolume"@)
        } else if req_number(j, "volume"@) is Err {
            Err("volume"@)
        } else if undeclared(j, Self::declared()) is Some {
            Err(undeclared(j, Self::declared())->Some_0)
        } else {
            Ok(
                StreamView {
                    name: req_text(j, "name"@)->Ok_0,
                    description: req_text(j, "description"@)->Ok_0,
                    enabled: opt_bool(j, "enabled"@)->Ok_0,
                    muted: req_bool(j, "muted"@)->Ok_0,
                    max_volume: opt_number(j, "maxVolume"@)->Ok_0,
                    volume: req_number(j, "volume"@)->Ok_0,
                },
            )
        }
    }

    open spec fn declared() -> Set<Seq<char>> {
        Set::empty()
            .insert("name"@)
            .insert("description"@)
            .insert("enabled"@)
            .insert("muted"@)
            .insert("maxVolume"@)
            .insert("volume"@)
    }

    open spec fn required() -> Set<Seq<char>> {
        Set::empty().insert("name"@).insert("description"@).insert("muted"@).insert("volume"@)
    }

    open spec fn wf(v: StreamView) -> bool {
        true
    }

    open spec fn writable(v: StreamView) -> bool {
        &&& opt_literal(v.max_volume)
        &&& is_number_literal(v.volume)
    }

    fn to_json(&self) -> (j: Json) {
        let mut ms = new_members();
        put(&mut ms, "name", text_json(&self.name));
        put(&mut ms, "description", text_json(&self.description));
        put(&mut ms, "enabled", opt_bool_json(&self.enabled));
        put(&mut ms, "muted", bool_json(self.muted));
        put(&mut ms, "maxVolume", opt_number_json(&self.max_volume));
        put(&mut ms, "volume", number_json(&self.volume));
        object_of(ms)
    }

    fn from_json(j: &Json) -> (r: Result<Stream, String>) {
        match check_object(j) {
            Ok(_) => {},
            Err(e) => return Err(e),
        }
        let name = match get_text(j, "name") {
            Ok(x) => x,
            Err(e) => return Err(e),
        };
        let description = match get_text(j, "description") {
            Ok(x) => x,
            Err(e) => return Err(e),
        };
        let enabled = match get_opt_bool(j, "enabled") {
            Ok(x) => x,
            Err(e) => return Err(e),
        };
        let muted = match get_bool(j, "muted") {
            Ok(x) => x,
            Err(e) => return Err(e),
        };
        let max_volume = match get_opt_number(j, "maxVolume") {
            Ok(x) => x,
            Err(e) => return Err(e),
        };
        let volume = match get_number(j, "volume") {
            Ok(x) => x,
            Err(e) => return Err(e),
        };
        let names: Vec<String> = vec![
            "name".to_owned(),
            "description".to_owned(),
            "enabled".to_owned(),
            "muted".to_owned(),
            "maxVolume".to_owned(),
            "volume".to_owned(),
        ];
        assert(names_of(names@) =~= Self::declared()) by {
            assert(names@[0]@ == "name"@);
            assert(names@[1]@ == "description"@);
            assert(names@[2]@ == "enabled"@);
            assert(names@[3]@ == "muted"@);
            assert(names@[4]@ == "maxVolume"@);
            assert(names@[5]@ == "volume"@);
        }
        match j.first_besides(&names) {
            Some(key) => return Err(key),
            None => {},
        }
        Ok(Stream { name, description, enabled, muted, max_volume, volume })
    }

    proof fn lemma_round_trip(v: StreamView) {
        broadcast use {group_lookup, group_field_laws, vstd::string::group_string_axioms};
        reveal_strlit("name");
        reveal_strlit("description");
        reveal_strlit("enabled");
        reveal_strlit("muted");
        reveal_strlit("maxVolume");
        reveal_strlit("volume");
        let j = Self::wire(v);
        assert(req_text(j, "name"@) == Ok::<Seq<char>, Seq<char>>(v.name));
        assert(req_text(j, "description"@) == Ok::<Seq<char>, Seq<char>>(v.description));
        assert(opt_bool(j, "enabled"@) == Ok::<Option<bool>, Seq<char>>(v.enabled));
        assert(req_bool(j, "muted"@) == Ok::<bool, Seq<char>>(v.muted));
        assert(opt_number(j, "maxVolume"@) == Ok::<Option<Seq<char>>, Seq<char>>(v.max_volume));
        assert(req_number(j, "volume"@) == Ok::<Seq<char>, Seq<char>>(v.volume));
        assert(undeclared(j, Self::declared()) is None);
    }

    proof fn lemma_wire_wf(v: StreamView) {
        broadcast use {group_wf_laws, vstd::string::group_string_axioms};
        reveal_strlit("name");
        reveal_strlit("description");
        reveal_strlit("enabled");
        reveal_strlit("muted");
        reveal_strlit("maxVolume");
        reveal_strlit("volume");
        let ms = Self::wire(v)->Object_0;
        assert(ms.len() == 6);
        assert(ms[0].key == "name"@ && key_mark(ms[0].key).0 == 4);
        assert(ms[1].key == "description"@ && key_mark(ms[1].key).0 == 11);
        assert(ms[2].key == "enabled"@ && key_mark(ms[2].key).0 == 7);
        assert(ms[3].key == "muted"@ && key_mark(ms[3].key).0 == 5);
        assert(ms[4].key == "maxVolume"@ && key_mark(ms[4].key).0 == 9);
        assert(ms[5].key == "volume"@ && key_mark(ms[5].key).0 == 6);
        assert(distinct_keys(ms));
        assert(ms[0].value.wf());
        assert(ms[1].value.wf());
        assert(ms[2].value.wf());
        assert(ms[3].value.wf());
        assert(ms[4].value.wf() == opt_literal(v.max_volume));
        assert(ms[5].value.wf() == is_number_literal(v.volume));
    }

    proof fn lemma_unfit_is_refused(j: JsonModel) {
        broadcast use group_field_refusals;
        lemma_undeclared(j, Self::declared());
    }
}

/// The audio outputs of a device, or the new state of one of them.
#[derive(Debug, PartialEq, Eq)]
pub struct SystemVolume {
    pub sink_list: Option<Vec<Stream>>,
    pub name: Option<String>,
    pub enabled: Option<bool>,
    pub muted: Option<bool>,
    pub volume: Number,
}

/// Model of [`SystemVolume`].
pub struct SystemVolumeView {
    pub sink_list: Option<Seq<StreamView>>,
    pub name: Option<Seq<char>>,
    pub enabled: Option<bool>,
    pub muted: Option<bool>,
    pub volume: Seq<char>,
}

impl View for SystemVolume {
    type V = SystemVolumeView;

    open spec fn view(&self) -> SystemVolumeView {
        SystemVolumeView {
            sink_list: opt_list_view(self.sink_list),
            name: opt_text_view(self.name),
            enabled: self.enabled,
            muted: self.muted,
            volume: self.volume@,
        }
    }
}

impl Shape for SystemVolume {
    open spec fn wire(v: SystemVolumeView) -> JsonModel {
        JsonModel::Object(
            Seq::empty()
                .push(Member { key: "sinkList"@, value: opt_list_wire::<Stream>(v.sink_list) })
                .push(Member { key: "name"@, value: opt_text_model(v.name) })
                .push(Member { key: "enabled"@, value: opt_bool_model(v.enabled) })
                .push(Member { key: "muted"@, value: opt_bool_model(v.muted) })
                .push(Member { key: "volume"@, value: number_model(v.volume) }),
        )
    }

    open spec fn parse(j: JsonModel) -> Result<SystemVolumeView, Seq<char>> {
        if object_check(j) is Err {
            Err(Seq::empty())
        } else if opt_list::<Stream>(j, "sinkList"@) is Err {
            Err("sinkList"@)
        } else if opt_text(j, "name"@) is Err {
            Err("name"@)
        } else if opt_bool(j, "enabled"@) is Err {
            Err("enabled"@)
        } else if opt_bool(j, "muted"@) is Err {
            Err("muted"@)
        } else if req_number(j, "volume"@) is Err {
            Err("volume"@)
        } else if undeclared(j, Self::declared()) is Some {
            Err(undeclared(j, Self::declared())->Some_0)
        } else {
            Ok(
                SystemVolumeView {
                    sink_list: opt_list::<Stream>(j, "sinkList"@)->Ok_0,
                    name: opt_text(j, "name"@)->Ok_0,
                    enabled: opt_bool(j, "enabled"@)->Ok_0,
                    muted: opt_bool(j, "muted"@)->Ok_0,
                    volume: req_number(j, "volume"@)->Ok_0,
                },
            )
        }
    }

    open spec fn declared() -> Set<Seq<char>> {
        Set::empty()
            .insert("sinkList"@)
            .insert("name"@)
            .insert("enabled"@)
            .insert("muted"@)
            .insert("volume"@)
    }

    open spec fn required() -> Set<Seq<char>> {
        Set::empty().insert("volume"@)
    }

    open spec fn wf(v: SystemVolumeView) -> bool {
        true
    }

    open spec fn writable(v: SystemVolumeView) -> bool {
        &&& opt_all_writable::<Stream>(v.sink_list)
        &&& is_number_literal(v.volume)
    }

    fn to_json(&self) -> (j: Json) {
        let mut ms = new_members();
        put(&mut ms, "sinkList", opt_list_to_json(&self.sink_list));
        put(&mut ms, "name", opt_text_json(&self.name));
        put(&mut ms, "enabled", opt_bool_json(&self.enabled));
        put(&mut ms, "muted", opt_bool_json(&self.muted));
        put(&mut ms, "volume", number_json(&self.volume));
        object_of(ms)
    }

    fn from_json(j: &Json) -> (r: Result<SystemVolume, String>) {
        match check_object(j) {
            Ok(_) => {},
            Err(e) => return Err(e),
        }
        let sink_list = match get_opt_list::<Stream>(j, "sinkList") {
            Ok(x) => x,
            Err(e) => return Err(e),
        };
        let name = match get_opt_text(j, "name") {
            Ok(x) => x,
            Err(e) => return Err(e),
        };
        let enabled = match get_opt_bool(j, "enabled") {
            Ok(x) => x,
            Err(e) => return Err(e),
        };
        let muted = match get_opt_bool(j, "muted") {
            Ok(x) => x,
            Err(e) => return Err(e),
        };
        let volume = match get_number(j, "volume") {
            Ok(x) => x,
            Err(e) => return Err(e),
        };
        let names: Vec<String> = vec![
            "sinkList".to_owned(),
            "name".to_owned(),
            "enabled".to_owned(),
            "muted".to_owned(),
            "volume".to_owned(),
        ];
        assert(names_of(names@) =~= Self::declared()) by {
            assert(names@[0]@ == "sinkList"@);
            assert(names@[1]@ == "name"@);
            assert(names@[2]@ == "enabled"@);
            assert(names@[3]@ == "muted"@);
            assert(names@[4]@ == "volume"@);
        }
        match j.first_besides(&names) {
            Some(key) => return Err(key),
            None => {},
        }
        Ok(SystemVolume { sink_list, name, enabled, muted, volume })
    }

    proof fn lemma_round_trip(v: SystemVolumeView) {
        broadcast use {
            group_lookup,
            group_field_laws,
            group_shape_laws,
            vstd::string::group_string_axioms,
        };
        reveal_strlit("sinkList");
        reveal_strlit("name");
        reveal_strlit("enabled");
        reveal_strlit("muted");
        reveal_strlit("volume");
        let j = Self::wire(v);
        assert(opt_list::<Stream>(j, "sinkList"@) == Ok::<Option<Seq<StreamView>>, Seq<char>>(
            v.sink_list,
        ));
        assert(opt_text(j, "name"@) == Ok::<Option<Seq<char>>, Seq<char>>(v.name));
        assert(opt_bool(j, "enabled"@) == Ok::<Option<bool>, Seq<char>>(v.enabled));
        assert(opt_bool(j, "muted"@) == Ok::<Option<bool>, Seq<char>>(v.muted));
        assert(req_number(j, "volume"@) == Ok::<Seq<char>, Seq<char>>(v.volume));
        assert(undeclared(j, Self::declared()) is None);
    }

    proof fn lemma_wire_wf(v: SystemVolumeView) {
        broadcast use {group_wf_laws, group_shape_wf_laws, vstd::string::group_string_axioms};
        reveal_strlit("sinkList");
        reveal_strlit("name");
        reveal_strlit("enabled");
        reveal_strlit("muted");
        reveal_strlit("volume");
        let ms = Self::wire(v)->Object_0;
        assert(ms.len() == 5);
        assert(ms[0].key == "sinkList"@ && key_mark(ms[0].key).0 == 8);
        assert(ms[1].key == "name"@ && key_mark(ms[1].key).0 == 4);
        assert(ms[2].key == "enabled"@ && key_mark(ms[2].key).0 == 7);
        assert(ms[3].key == "muted"@ && key_mark(ms[3].key).0 == 5);
        assert(ms[4].key == "volume"@ && key_mark(ms[4].key).0 == 6);
        assert(distinct_keys(ms));
        assert(ms[0].value.wf() == opt_all_writable::<Stream>(v.sink_list));
        assert(ms[1].value.wf());
        assert(ms[2].value.wf());
        assert(ms[3].value.wf());
        assert(ms[4].value.wf() == is_number_literal(v.volume));
    }

    proof fn lemma_unfit_is_refused(j: JsonModel) {
        broadcast use group_field_refusals;
        lemma_undeclared(j, Self::declared());
    }
}

/// Asks a device for its audio outputs, or to change one of them.
#[derive(Debug, PartialEq, Eq)]
pub struct SystemVolumeRequest {
    pub request_sinks: Option<bool>,
    pub name: Option<String>,
    pub enabled: Option<bool>,
    pub muted: Option<bool>,
    pub volume: Option<Number>,
}

/// Model of [`SystemVolumeRequest`].
pub struct SystemVolumeRequestView {
    pub request_sinks: Option<bool>,
    pub name: Option<Seq<char>>,
    pub enabled: Option<bool>,
    pub muted: Option<bool>,
    pub volume: Option<Seq<char>>,
}

impl View for SystemVolumeRequest {
    type V = SystemVolumeRequestView;

    open spec fn view(&self) -> SystemVolumeRequestView {
        SystemVolumeRequestView {
            request_sinks: self.request_sinks,
            name: opt_text_view(self.name),
            enabled: self.enabled,
            muted: self.muted,
            volume: opt_number_view(self.volume),
        }
    }
}

impl Shape for SystemVolumeRequest {
    open spec fn wire(v: SystemVolumeRequestView) -> JsonModel {
        JsonModel::Object(
            Seq::empty()
                .push(Member { key: "requestSinks"@, value: opt_bool_model(v.request_sinks) })
                .push(Member { key: "name"@, value: opt_text_model(v.name) })
                .push(Member { key: "enabled"@, value: opt_bool_model(v.enabled) })
                .push(Member { key: "muted"@, value: opt_bool_model(v.muted) })
                .push(Member { key: "volume"@, value: opt_number_model(v.volume) }),
        )
    }

    open spec fn parse(j: JsonModel) -> Result<SystemVolumeRequestView, Seq<char>> {
        if object_check(j) is Err {
            Err(Seq::empty())
        } else if opt_bool(j, "requestSinks"@) is Err {
            Err("requestSinks"@)
        } else if opt_text(j, "name"@) is Err {
            Err("name"@)
        } else if opt_bool(j, "enabled"@) is Err {
            Err("enabled"@)
        } else if opt_bool(j, "muted"@) is Err {
            Err("muted"@)
        } else if opt_number(j, "volume"@) is Err {
            Err("volume"@)
        } else if undeclared(j, Self::declared()) is Some {
            Err(undeclared(j, Self::declared())->Some_0)
        } else {
            Ok(
                SystemVolumeRequestView {
                    request_sinks: opt_bool(j, "requestSinks"@)->Ok_0,
                    name: opt_text(j, "name"@)->Ok_0,
                    enabled: opt_bool(j, "enabled"@)->Ok_0,
                    muted: opt_bool(j, "muted"@)->Ok_0,
                    volume: opt_number(j, "volume"@)->Ok_0,
                },
            )
        }
    }

    open spec fn declared() -> Set<Seq<char>> {
        Set::empty()
            .insert("requestSinks"@)
            .insert("name"@)
            .insert("enabled"@)
            .insert("muted"@)
            .insert("volume"@)
    }

    open spec fn required() -> Set<Seq<char>> {
        Set::empty()
    }

    open spec fn wf(v: SystemVolumeRequestView) -> bool {
        true
    }

    open spec fn writable(v: SystemVolumeRequestView) -> bool {
        &&& opt_literal(v.volume)
    }

    fn to_json(&self) -> (j: Json) {
        let mut ms = new_members();
        put(&mut ms, "requestSinks", opt_bool_json(&self.request_sinks));
        put(&mut ms, "name", opt_text_json(&self.name));
        put(&mut ms, "enabled", opt_bool_json(&self.enabled));
        put(&mut ms, "muted", opt_bool_json(&self.muted));
        put(&mut ms, "volume", opt_number_json(&self.volume));
        object_of(ms)
    }

    fn from_json(j: &Json) -> (r: Result<SystemVolumeRequest, String>) {
        match check_object(j) {
            Ok(_) => {},
            Err(e) => return Err(e),
        }
        let request_sinks = match get_opt_bool(j, "requestSinks") {
            Ok(x) => x,
            Err(e) => return Err(e),
        };
        let name = match get_opt_text(j, "name") {
            Ok(x) => x,
            Err(e) => return Err(e),
        };
        let enabled = match get_opt_bool(j, "enabled") {
            Ok(x) => x,
            Err(e) => return Err(e),
        };
        let muted = match get_opt_bool(j, "muted") {
            Ok(x) => x,
            Err(e) => return Err(e),
        };
        let volume = match get_opt_number(j, "volume") {
            Ok(x) => x,
            Err(e) => return Err(e),
        };
        let names: Vec<String> = vec![
            "requestSinks".to_owned(),
            "name".to_owned(),
            "enabled".to_owned(),
            "muted".to_owned(),
            "volume".to_owned(),
        ];
        assert(names_of(names@) =~= Self::declared()) by {
            assert(names@[0]@ == "requestSinks"@);
            assert(names@[1]@ == "name"@);
            assert(names@[2]@ == "enabled"@);
            assert(names@[3]@ == "muted"@);
            assert(names@[4]@ == "volume"@);
        }
        match j.first_besides(&names) {
            Some(key) => return Err(key),
            None => {},
        }
        Ok(SystemVolumeRequest { request_sinks, name, enabled, muted, volume })
    }

    proof fn lemma_round_trip(v: SystemVolumeRequestView) {
        broadcast use {group_lookup, group_field_laws, vstd::string::group_string_axioms};
        reveal_strlit("requestSinks");
        reveal_strlit("name");
        reveal_strlit("enabled");
        reveal_strlit("muted");
        reveal_strlit("volume");
    }

    proof fn lemma_wire_wf(v: SystemVolumeRequestView) {
        broadcast use {group_wf_laws, vstd::string::group_string_axioms};
        reveal_strlit("requestSinks");
        reveal_strlit("name");
        reveal_strlit("enabled");
        reveal_strlit("muted");
        reveal_strlit("volume");
        let ms = Self::wire(v)->Object_0;
        assert(ms.len() == 5);
        assert(ms[0].key == "requestSinks"@ && key_mark(ms[0].key).0 == 12);
        assert(ms[1].key == "name"@ && key_mark(ms[1].key).0 == 4);
        assert(ms[2].key == "enabled"@ && key_mark(ms[2].key).0 == 7);
        assert(ms[3].key == "muted"@ && key_mark(ms[3].key).0 == 5);
        assert(ms[4].key == "volume"@ && key_mark(ms[4].key).0 == 6);
        assert(distinct_keys(ms));
        assert(ms[0].value.wf());
        assert(ms[1].value.wf());
        assert(ms[2].value.wf());
        assert(ms[3].value.wf());
        assert(ms[4].value.wf() == opt_literal(v.volume));
    }

    proof fn lemma_unfit_is_refused(j: JsonModel) {
        lemma_undeclared(j, Self::declared());
    }
}

} // verus!
