//! Browsing the files of a device.

use crate::field::{
    bool_json, bool_model, check_object, get_bool, get_number, get_opt_text, get_text, get_texts,
    group_field_laws, group_field_refusals, group_wf_laws, new_members, number_json, number_model,
    object_check, object_of, opt_text, opt_text_json, opt_text_model, opt_text_view, put, req_bool,
    req_number, req_text, req_texts, text_json, text_model, texts_json, texts_model, texts_view,
};
use crate::numeral::{is_number_literal, Number};
use crate::shape::Shape;
use crate::value::{
    distinct_keys, group_lookup, key_mark, lemma_undeclared, names_of, undeclared, Json, JsonModel,
    Member,
};
use vstd::prelude::*;

verus! {

/// What is needed to reach the files of a device.
#[derive(Debug, PartialEq, Eq)]
pub struct Sftp {
    pub error_message: Option<String>,
    pub ip: String,
    pub port: Number,
    pub user: String,
    pub password: String,
    pub path: String,
    pub multi_paths: Vec<String>,
    pub path_names: Vec<String>,
}

/// Model of [`Sftp`].
pub struct SftpView {
    pub error_message: Option<Seq<char>>,
    pub ip: Seq<char>,
    pub port: Seq<char>,
    pub user: Seq<char>,
    pub password: Seq<char>,
    pub path: Seq<char>,
    pub multi_paths: Seq<Seq<char>>,
    pub path_names: Seq<Seq<char>>,
}

impl View for Sftp {
    type V = SftpView;

    open spec fn view(&self) -> SftpView {
        SftpView {
            error_message: opt_text_view(self.error_message),
            ip: self.ip@,
            port: self.port@,
            user: self.user@,
            password: self.password@,
            path: self.path@,
            multi_paths: texts_view(self.multi_paths@),
            path_names: texts_view(self.path_names@),
        }
    }
}

impl Shape for Sftp {
    open spec fn wire(v: SftpView) -> JsonModel {
        JsonModel::Object(
            Seq::empty()
                .push(Member { key: "errorMessage"@, value: opt_text_model(v.error_message) })
                .push(Member { key: "ip"@, value: text_model(v.ip) })
                .push(Member { key: "port"@, value: number_model(v.port) })
                .push(Member { key: "user"@, value: text_model(v.user) })
                .push(Member { key: "password"@, value: text_model(v.password) })
                .push(Member { key: "path"@, value: text_model(v.path) })
                .push(Member { key: "multi_paths"@, value: texts_model(v.multi_paths) })
                .push(Member { key: "pathNames"@, value: texts_model(v.path_names) }),
        )
    }

    open spec fn parse(j: JsonModel) -> Result<SftpView, Seq<char>> {
        if object_check(j) is Err {
            Err(Seq::empty())
        } else if opt_text(j, "errorMessage"@) is Err {
            Err("errorMessage"@)
        } else if req_text(j, "ip"@) is Err {
            Err("ip"@)
        } else if req_number(j, "port"@) is Err {
            Err("port"@)
        } else if req_text(j, "user"@) is Err {
            Err("user"@)
        } else if req_text(j, "password"@) is Err {
            Err("password"@)
        } else if req_text(j, "path"@) is Err {
            Err("path"@)
        } else if req_texts(j, "multi_paths"@) is Err {
            Err("multi_paths"@)
        } else if req_texts(j, "pathNames"@) is Err {
            Err("pathNames"@)
        } else if undeclared(j, Self::declared()) is Some {
            Err(undeclared(j, Self::declared())->Some_0)
        } else {
            Ok(
                SftpView {
                    error_message: opt_text(j, "errorMessage"@)->Ok_0,
                    ip: req_text(j, "ip"@)->Ok_0,
                    port: req_number(j, "port"@)->Ok_0,
                    user: req_text(j, "user"@)->Ok_0,
                    password: req_text(j, "password"@)->Ok_0,
                    path: req_text(j, "path"@)->Ok_0,
                    multi_paths: req_texts(j, "multi_paths"@)->Ok_0,
                    path_names: req_texts(j, "pathNames"@)->Ok_0,
                },
            )
        }
    }

    open spec fn declared() -> Set<Seq<char>> {
        Set::empty()
            .insert("errorMessage"@)
            .insert("ip"@)
            .insert("port"@)
            .insert("user"@)
            .insert("password"@)
            .insert("path"@)
            .insert("multi_paths"@)
            .insert("pathNames"@)
    }

    open spec fn required() -> Set<Seq<char>> {
        Set::empty()
            .insert("ip"@)
            .insert("port"@)
            .insert("user"@)
            .insert("password"@)
            .insert("path"@)
            .insert("multi_paths"@)
            .insert("pathNames"@)
    }

    open spec fn wf(v: SftpView) -> bool {
        true
    }

    open spec fn writable(v: SftpView) -> bool {
        &&& is_number_literal(v.port)
    }

    fn to_json(&self) -> (j: Json) {
        let mut ms = new_members();
        put(&mut ms, "errorMessage", opt_text_json(&self.error_message));
        put(&mut ms, "ip", text_json(&self.ip));
        put(&mut ms, "port", number_json(&self.port));
        put(&mut ms, "user", text_json(&self.user));
        put(&mut ms, "password", text_json(&self.password));
        put(&mut ms, "path", text_json(&self.path));
        put(&mut ms, "multi_paths", texts_json(&self.multi_paths));
        put(&mut ms, "pathNames", texts_json(&self.path_names));
        object_of(ms)
    }

    fn from_json(j: &Json) -> (r: Result<Sftp, String>) {
        match check_object(j) {
            Ok(_) => {},
            Err(e) => return Err(e),
        }
        let error_message = match get_opt_text(j, "errorMessage") {
            Ok(x) => x,
            Err(e) => return Err(e),
        };
        let ip = match get_text(j, "ip") {
            Ok(x) => x,
            Err(e) => return Err(e),
        };
        let port = match get_number(j, "port") {
            Ok(x) => x,
            Err(e) => return Err(e),
        };
        let user = match get_text(j, "user") {
            Ok(x) => x,
            Err(e) => return Err(e),
        };
        let password = match get_text(j, "password") {
            Ok(x) => x,
            Err(e) => return Err(e),
        };
        let path = match get_text(j, "path") {
            Ok(x) => x,
            Err(e) => return Err(e),
        };
        let multi_paths = match get_texts(j, "multi_paths") {
            Ok(x) => x,
            Err(e) => return Err(e),
        };
        let path_names = match get_texts(j, "pathNames") {
            Ok(x) => x,
            Err(e) => return Err(e),
        };
        let names: Vec<String> = vec![
            "errorMessage".to_owned(),
            "ip".to_owned(),
            "port".to_owned(),
            "user".to_owned(),
            "password".to_owned(),
            "path".to_owned(),
            "multi_paths".to_owned(),
            "pathNames".to_owned(),
        ];
        assert(names_of(names@) =~= Self::declared()) by {
            assert(names@[0]@ == "errorMessage"@);
            assert(names@[1]@ == "ip"@);
            assert(names@[2]@ == "port"@);
            assert(names@[3]@ == "user"@);
            assert(names@[4]@ == "password"@);
            assert(names@[5]@ == "path"@);
            assert(names@[6]@ == "multi_paths"@);
            assert(names@[7]@ == "pathNames"@);
        }
        match j.first_besides(&names) {
            Some(key) => return Err(key),
            None => {},
        }
        Ok(Sftp { error_message, ip, port, user, password, path, multi_paths, path_names })
    }

    proof fn lemma_round_trip(v: SftpView) {
        broadcast use {group_lookup, group_field_laws, vstd::string::group_string_axioms};
        reveal_strlit("errorMessage");
        reveal_strlit("ip");
        reveal_strlit("port");
        reveal_strlit("user");
        reveal_strlit("password");
        reveal_strlit("path");
        reveal_strlit("multi_paths");
        reveal_strlit("pathNames");
        let j = Self::wire(v);
        assert(opt_text(j, "errorMessage"@) == Ok::<Option<Seq<char>>, Seq<char>>(v.error_message));
        assert(req_text(j, "ip"@) == Ok::<Seq<char>, Seq<char>>(v.ip));
        assert(req_number(j, "port"@) == Ok::<Seq<char>, Seq<char>>(v.port));
        assert(req_text(j, "user"@) == Ok::<Seq<char>, Seq<char>>(v.user));
        assert(req_text(j, "password"@) == Ok::<Seq<char>, Seq<char>>(v.password));
        assert(req_text(j, "path"@) == Ok::<Seq<char>, Seq<char>>(v.path));
        assert(req_texts(j, "multi_paths"@) == Ok::<Seq<Seq<char>>, Seq<char>>(v.multi_paths));
        assert(req_texts(j, "pathNames"@) == Ok::<Seq<Seq<char>>, Seq<char>>(v.path_names));
        assert(undeclared(j, Self::declared()) is None);
    }

    proof fn lemma_wire_wf(v: SftpView) {
        broadcast use {group_wf_laws, vstd::string::group_string_axioms};
        reveal_strlit("errorMessage");
        reveal_strlit("ip");
        reveal_strlit("port");
        reveal_strlit("user");
        reveal_strlit("password");
        reveal_strlit("path");
        reveal_strlit("multi_paths");
        reveal_strlit("pathNames");
        let ms = Self::wire(v)->Object_0;
        assert(ms.len() == 8);
        assert(ms[0].key == "errorMessage"@ && key_mark(ms[0].key).0 == 12);
        assert(ms[1].key == "ip"@ && key_mark(ms[1].key).0 == 2);
        assert(ms[2].key == "port"@ && key_mark(ms[2].key).0 == 4);
        assert(ms[3].key == "user"@ && key_mark(ms[3].key).0 == 4);
        assert(ms[4].key == "password"@ && key_mark(ms[4].key).0 == 8);
        assert(ms[5].key == "path"@ && key_mark(ms[5].key).0 == 4);
        assert(ms[6].key == "multi_paths"@ && key_mark(ms[6].key).0 == 11);
        assert(ms[7].key == "pathNames"@ && key_mark(ms[7].key).0 == 9);
        assert(distinct_keys(ms));
        assert(ms[0].value.wf());
        assert(ms[1].value.wf());
        assert(ms[2].value.wf() == is_number_literal(v.port));
        assert(ms[3].value.wf());
        assert(ms[4].value.wf());
        assert(ms[5].value.wf());
        assert(ms[6].value.wf());
        assert(ms[7].value.wf());
    }

    proof fn lemma_unfit_is_refused(j: JsonModel) {
        broadcast use group_field_refusals;
        lemma_undeclared(j, Self::declared());
    }
}

/// Asks a device to offer its files.
#[derive(Debug, PartialEq, Eq)]
pub struct SftpRequest {
    pub start_browsing: bool,
}

/// Model of [`SftpRequest`].
pub struct SftpRequestView {
    pub start_browsing: bool,
}

impl View for SftpRequest {
    type V = SftpRequestView;

    open spec fn view(&self) -> SftpRequestView {
        SftpRequestView {
            start_browsing: self.start_browsing,
        }
    }
}

impl Shape for SftpRequest {
    open spec fn wire(v: SftpRequestView) -> JsonModel {
        JsonModel::Object(
            Seq::empty()
                .push(Member { key: "start_browsing"@, value: bool_model(v.start_browsing) }),
        )
    }

    open spec fn parse(j: JsonModel) -> Result<SftpRequestView, Seq<char>> {
        if object_check(j) is Err {
            Err(Seq::empty())
        } else if req_bool(j, "start_browsing"@) is Err {
            Err("start_browsing"@)
        } else if undeclared(j, Self::declared()) is Some {
            Err(undeclared(j, Self::declared())->Some_0)
        } else {
            Ok(
                SftpRequestView {
                    start_browsing: req_bool(j, "start_browsing"@)->Ok_0,
                },
            )
        }
    }

    open spec fn declared() -> Set<Seq<char>> {
        Set::empty().insert("start_browsing"@)
    }

    open spec fn required() -> Set<Seq<char>> {
        Set::empty().insert("start_browsing"@)
    }

    open spec fn wf(v: SftpRequestView) -> bool {
        true
    }

    open spec fn writable(v: SftpRequestView) -> bool {
        true
    }

    fn to_json(&self) -> (j: Json) {
        let mut ms = new_members();
        put(&mut ms, "start_browsing", bool_json(self.start_browsing));
        object_of(ms)
    }

    fn from_json(j: &Json) -> (r: Result<SftpRequest, String>) {
        match check_object(j) {
            Ok(_) => {},
            Err(e) => return Err(e),
        }
        let start_browsing = match get_bool(j, "start_browsing") {
            Ok(x) => x,
            Err(e) => return Err(e),
        };
        let names: Vec<String> = vec!["start_browsing".to_owned()];
        assert(names_of(names@) =~= Self::declared()) by {
            assert(names@[0]@ == "start_browsing"@);
        }
        match j.first_besides(&names) {
            Some(key) => return Err(key),
            None => {},
        }
        Ok(SftpRequest { start_browsing })
    }

    proof fn lemma_round_trip(v: SftpRequestView) {
        broadcast use {group_lookup, group_field_laws, vstd::string::group_string_axioms};
        reveal_strlit("start_browsing");
    }

    proof fn lemma_wire_wf(v: SftpRequestView) {
        broadcast use {group_wf_laws, vstd::string::group_string_axioms};
        reveal_strlit("start_browsing");
        let ms = Self::wire(v)->Object_0;
        assert(ms.len() == 1);
        assert(ms[0].key == "start_browsing"@ && key_mark(ms[0].key).0 == 14);
        assert(distinct_keys(ms));
        assert(ms[0].value.wf());
    }

    proof fn lemma_unfit_is_refused(j: JsonModel) {
        broadcast use group_field_refusals;
        lemma_undeclared(j, Self::declared());
    }
}

} // verus!
