//! Sharing files, texts and links.

use crate::field::{
    check_object, get_opt_bool, get_opt_number, get_opt_text, group_field_laws, group_wf_laws,
    new_members, object_check, object_of, opt_bool, opt_bool_json, opt_bool_model, opt_literal,
    opt_number, opt_number_json, opt_number_model, opt_number_view, opt_text, opt_text_json,
    opt_text_model, opt_text_view, put,
};
use crate::numeral::Number;
use crate::shape::Shape;
use crate::value::{
    distinct_keys, group_lookup, key_mark, lemma_undeclared, names_of, undeclared, Json, JsonModel,
    Member,
};
use vstd::prelude::*;

verus! {

/// A file, a text or a link that is shared.
#[derive(Debug, PartialEq, Eq)]
pub struct ShareRequest {
    pub filename: Option<String>,
    pub creation_time: Option<Number>,
    pub last_modified: Option<Number>,
    pub open: Option<bool>,
    pub number_of_files: Option<Number>,
    pub total_payload_size: Option<Number>,
    pub text: Option<String>,
    pub url: Option<String>,
}

/// Model of [`ShareRequest`].
pub struct ShareRequestView {
    pub filename: Option<Seq<char>>,
    pub creation_time: Option<Seq<char>>,
    pub last_modified: Option<Seq<char>>,
    pub open: Option<bool>,
    pub number_of_files: Option<Seq<char>>,
    pub total_payload_size: Option<Seq<char>>,
    pub text: Option<Seq<char>>,
    pub url: Option<Seq<char>>,
}

impl View for ShareRequest {
    type V = ShareRequestView;

    open spec fn view(&self) -> ShareRequestView {
        ShareRequestView {
            filename: opt_text_view(self.filename),
            creation_time: opt_number_view(self.creation_time),
            last_modified: opt_number_view(self.last_modified),
            open: self.open,
            number_of_files: opt_number_view(self.number_of_files),
            total_payload_size: opt_number_view(self.total_payload_size),
            text: opt_text_view(self.text),
            url: opt_text_view(self.url),
        }
    }
}

impl Shape for ShareRequest {
    open spec fn wire(v: ShareRequestView) -> JsonModel {
        JsonModel::Object(
            Seq::empty()
                .push(Member { key: "filename"@, value: opt_text_model(v.filename) })
                .push(Member { key: "creationTime"@, value: opt_number_model(v.creation_time) })
                .push(Member { key: "lastModified"@, value: opt_number_model(v.last_modified) })
                .push(Member { key: "open"@, value: opt_bool_model(v.open) })
                .push(Member { key: "numberOfFiles"@, value: opt_number_model(v.number_of_files) })
                .push(
                    Member {
                        key: "totalPayloadSize"@,
                        value: opt_number_model(v.total_payload_size),
                    },
                )
                .push(Member { key: "text"@, value: opt_text_model(v.text) })
                .push(Member { key: "url"@, value: opt_text_model(v.url) }),
        )
    }

    open spec fn parse(j: JsonModel) -> Result<ShareRequestView, Seq<char>> {
        if object_check(j) is Err {
            Err(Seq::empty())
        } else if opt_text(j, "filename"@) is Err {
            Err("filename"@)
        } else if opt_number(j, "creationTime"@) is Err {
            Err("creationTime"@)
        } else if opt_number(j, "lastModified"@) is Err {
            Err("lastModified"@)
        } else if opt_bool(j, "open"@) is Err {
            Err("open"@)
        } else if opt_number(j, "numberOfFiles"@) is Err {
            Err("numberOfFiles"@)
        } else if opt_number(j, "totalPayloadSize"@) is Err {
            Err("totalPayloadSize"@)
        } else if opt_text(j, "text"@) is Err {
            Err("text"@)
        } else if opt_text(j, "url"@) is Err {
            Err("url"@)
        } else if undeclared(j, Self::declared()) is Some {
            Err(undeclared(j, Self::declared())->Some_0)
        } else {
            Ok(
                ShareRequestView {
                    filename: opt_text(j, "filename"@)->Ok_0,
                    creation_time: opt_number(j, "creationTime"@)->Ok_0,
                    last_modified: opt_number(j, "lastModified"@)->Ok_0,
                    open: opt_bool(j, "open"@)->Ok_0,
                    number_of_files: opt_number(j, "numberOfFiles"@)->Ok_0,
                    total_payload_size: opt_number(j, "totalPayloadSize"@)->Ok_0,
                    text: opt_text(j, "text"@)->Ok_0,
                    url: opt_text(j, "url"@)->Ok_0,
                },
            )
        }
    }

    open spec fn declared() -> Set<Seq<char>> {
        Set::empty()
            .insert("filename"@)
            .insert("creationTime"@)
            .insert("lastModified"@)
            .insert("open"@)
            .insert("numberOfFiles"@)
            .insert("totalPayloadSize"@)
            .insert("text"@)
            .insert("url"@)
    }

    open spec fn required() -> Set<Seq<char>> {
        Set::empty()
    }

    open spec fn wf(v: ShareRequestView) -> bool {
        true
    }

    open spec fn writable(v: ShareRequestView) -> bool {
        &&& opt_literal(v.creation_time)
        &&& opt_literal(v.last_modified)
        &&& opt_literal(v.number_of_files)
        &&& opt_literal(v.total_payload_size)
    }

    fn to_json(&self) -> (j: Json) {
        let mut ms = new_members();
        put(&mut ms, "filename", opt_text_json(&self.filename));
        put(&mut ms, "creationTime", opt_number_json(&self.creation_time));
        put(&mut ms, "lastModified", opt_number_json(&self.last_modified));
        put(&mut ms, "open", opt_bool_json(&self.open));
        put(&mut ms, "numberOfFiles", opt_number_json(&self.number_of_files));
        put(&mut ms, "totalPayloadSize", opt_number_json(&self.total_payload_size));
        put(&mut ms, "text", opt_text_json(&self.text));
        put(&mut ms, "url", opt_text_json(&self.url));
        object_of(ms)
    }

    fn from_json(j: &Json) -> (r: Result<ShareRequest, String>) {
        match check_object(j) {
            Ok(_) => {},
            Err(e) => return Err(e),
        }
        let filename = match get_opt_text(j, "filename") {
            Ok(x) => x,
            Err(e) => return Err(e),
        };
        let creation_time = match get_opt_number(j, "creationTime") {
            Ok(x) => x,
            Err(e) => return Err(e),
        };
        let last_modified = match get_opt_number(j, "lastModified") {
            Ok(x) => x,
            Err(e) => return Err(e),
        };
        let open = match get_opt_bool(j, "open") {
            Ok(x) => x,
            Err(e) => return Err(e),
        };
        let number_of_files = match get_opt_number(j, "numberOfFiles") {
            Ok(x) => x,
            Err(e) => return Err(e),
        };
        let total_payload_size = match get_opt_number(j, "totalPayloadSize") {
            Ok(x) => x,
            Err(e) => return Err(e),
        };
        let text = match get_opt_text(j, "text") {
            Ok(x) => x,
            Err(e) => return Err(e),
        };
        let url = match get_opt_text(j, "url") {
            Ok(x) => x,
            Err(e) => return Err(e),
        };
        let names: Vec<String> = vec![
            "filename".to_owned(),
            "creationTime".to_owned(),
            "lastModified".to_owned(),
            "open".to_owned(),
            "numberOfFiles".to_owned(),
            "totalPayloadSize".to_owned(),
            "text".to_owned(),
            "url".to_owned(),
        ];
        assert(names_of(names@) =~= Self::declared()) by {
            assert(names@[0]@ == "filename"@);
            assert(names@[1]@ == "creationTime"@);
            assert(names@[2]@ == "lastModified"@);
            assert(names@[3]@ == "open"@);
            assert(names@[4]@ == "numberOfFiles"@);
            assert(names@[5]@ == "totalPayloadSize"@);
            assert(names@[6]@ == "text"@);
            assert(names@[7]@ == "url"@);
        }
        match j.first_besides(&names) {
            Some(key) => return Err(key),
            None => {},
        }
        Ok(
            ShareRequest {
                filename,
                creation_time,
                last_modified,
                open,
                number_of_files,
                total_payload_size,
                text,
                url,
            },
        )
    }

    proof fn lemma_round_trip(v: ShareRequestView) {
        broadcast use {group_lookup, group_field_laws, vstd::string::group_string_axioms};
        reveal_strlit("filename");
        reveal_strlit("creationTime");
        reveal_strlit("lastModified");
        reveal_strlit("open");
        reveal_strlit("numberOfFiles");
        reveal_strlit("totalPayloadSize");
        reveal_strlit("text");
        reveal_strlit("url");
        let j = Self::wire(v);
        assert(opt_text(j, "filename"@) == Ok::<Option<Seq<char>>, Seq<char>>(v.filename));
        assert(opt_number(j, "creationTime"@) == Ok::<Option<Seq<char>>, Seq<char>>(
            v.creation_time,
        ));
        assert(opt_number(j, "lastModified"@) == Ok::<Option<Seq<char>>, Seq<char>>(
            v.last_modified,
        ));
        assert(opt_bool(j, "open"@) == Ok::<Option<bool>, Seq<char>>(v.open));
        assert(opt_number(j, "numberOfFiles"@) == Ok::<Option<Seq<char>>, Seq<char>>(
            v.number_of_files,
        ));
        assert(opt_number(j, "totalPayloadSize"@) == Ok::<Option<Seq<char>>, Seq<char>>(
            v.total_payload_size,
        ));
        assert(opt_text(j, "text"@) == Ok::<Option<Seq<char>>, Seq<char>>(v.text));
        assert(opt_text(j, "url"@) == Ok::<Option<Seq<char>>, Seq<char>>(v.url));
        assert(undeclared(j, Self::declared()) is None);
    }

    proof fn lemma_wire_wf(v: ShareRequestView) {
        broadcast use {group_wf_laws, vstd::string::group_string_axioms};
        reveal_strlit("filename");
        reveal_strlit("creationTime");
        reveal_strlit("lastModified");
        reveal_strlit("open");
        reveal_strlit("numberOfFiles");
        reveal_strlit("totalPayloadSize");
        reveal_strlit("text");
        reveal_strlit("url");
        let ms = Self::wire(v)->Object_0;
        assert(ms.len() == 8);
        assert(ms[0].key == "filename"@ && key_mark(ms[0].key).0 == 8);
        assert(ms[1].key == "creationTime"@ && key_mark(ms[1].key).0 == 12);
        assert(ms[2].key == "lastModified"@ && key_mark(ms[2].key).0 == 12);
        assert(ms[3].key == "open"@ && key_mark(ms[3].key).0 == 4);
        assert(ms[4].key == "numberOfFiles"@ && key_mark(ms[4].key).0 == 13);
        assert(ms[5].key == "totalPayloadSize"@ && key_mark(ms[5].key).0 == 16);
        assert(ms[6].key == "text"@ && key_mark(ms[6].key).0 == 4);
        assert(ms[7].key == "url"@ && key_mark(ms[7].key).0 == 3);
        assert(distinct_keys(ms));
        assert(ms[0].value.wf());
        assert(ms[1].value.wf() == opt_literal(v.creation_time));
        assert(ms[2].value.wf() == opt_literal(v.last_modified));
        assert(ms[3].value.wf());
        assert(ms[4].value.wf() == opt_literal(v.number_of_files));
        assert(ms[5].value.wf() == opt_literal(v.total_payload_size));
        assert(ms[6].value.wf());
        assert(ms[7].value.wf());
    }

    proof fn lemma_unfit_is_refused(j: JsonModel) {
        lemma_undeclared(j, Self::declared());
    }
}

/// How many files a running transfer holds, and their size.
#[derive(Debug, PartialEq, Eq)]
pub struct ShareRequestUpdate {
    pub number_of_files: Option<Number>,
    pub total_payload_size: Option<Number>,
}

/// Model of [`ShareRequestUpdate`].
pub struct ShareRequestUpdateView {
    pub number_of_files: Option<Seq<char>>,
    pub total_payload_size: Option<Seq<char>>,
}

impl View for ShareRequestUpdate {
    type V = ShareRequestUpdateView;

    open spec fn view(&self) -> ShareRequestUpdateView {
        ShareRequestUpdateView {
            number_of_files: opt_number_view(self.number_of_files),
            total_payload_size: opt_number_view(self.total_payload_size),
        }
    }
}

impl Shape for ShareRequestUpdate {
    open spec fn wire(v: ShareRequestUpdateView) -> JsonModel {
        JsonModel::Object(
            Seq::empty()
                .push(Member { key: "numberOfFiles"@, value: opt_number_model(v.number_of_files) })
                .push(
                    Member {
                        key: "totalPayloadSize"@,
                        value: opt_number_model(v.total_payload_size),
                    },
                ),
        )
    }

    open spec fn parse(j: JsonModel) -> Result<ShareRequestUpdateView, Seq<char>> {
        if object_check(j) is Err {
            Err(Seq::empty())
        } else if opt_number(j, "numberOfFiles"@) is Err {
            Err("numberOfFiles"@)
        } else if opt_number(j, "totalPayloadSize"@) is Err {
            Err("totalPayloadSize"@)
        } else if undeclared(j, Self::declared()) is Some {
            Err(undeclared(j, Self::declared())->Some_0)
        } else {
            Ok(
                ShareRequestUpdateView {
                    number_of_files: opt_number(j, "numberOfFiles"@)->Ok_0,
                    total_payload_size: opt_number(j, "totalPayloadSize"@)->Ok_0,
                },
            )
        }
    }

    open spec fn declared() -> Set<Seq<char>> {
        Set::empty().insert("numberOfFiles"@).insert("totalPayloadSize"@)
    }

    open spec fn required() -> Set<Seq<char>> {
        Set::empty()
    }

    open spec fn wf(v: ShareRequestUpdateView) -> bool {
        true
    }

    open spec fn writable(v: ShareRequestUpdateView) -> bool {
        &&& opt_literal(v.number_of_files)
        &&& opt_literal(v.total_payload_size)
    }

    fn to_json(&self) -> (j: Json) {
        let mut ms = new_members();
        put(&mut ms, "numberOfFiles", opt_number_json(&self.number_of_files));
        put(&mut ms, "totalPayloadSize", opt_number_json(&self.total_payload_size));
        object_of(ms)
    }

    fn from_json(j: &Json) -> (r: Result<ShareRequestUpdate, String>) {
        match check_object(j) {
            Ok(_) => {},
            Err(e) => return Err(e),
        }
        let number_of_files = match get_opt_number(j, "numberOfFiles") {
            Ok(x) => x,
            Err(e) => return Err(e),
        };
        let total_payload_size = match get_opt_number(j, "totalPayloadSize") {
            Ok(x) => x,
            Err(e) => return Err(e),
        };
        let names: Vec<String> = vec!["numberOfFiles".to_owned(), "totalPayloadSize".to_owned()];
        assert(names_of(names@) =~= Self::declared()) by {
            assert(names@[0]@ == "numberOfFiles"@);
            assert(names@[1]@ == "totalPayloadSize"@);
        }
        match j.first_besides(&names) {
            Some(key) => return Err(key),
            None => {},
        }
        Ok(ShareRequestUpdate { number_of_files, total_payload_size })
    }

    proof fn lemma_round_trip(v: ShareRequestUpdateView) {
        broadcast use {group_lookup, group_field_laws, vstd::string::group_string_axioms};
        reveal_strlit("numberOfFiles");
        reveal_strlit("totalPayloadSize");
    }

    proof fn lemma_wire_wf(v: ShareRequestUpdateView) {
        broadcast use {group_wf_laws, vstd::string::group_string_axioms};
        reveal_strlit("numberOfFiles");
        reveal_strlit("totalPayloadSize");
        let ms = Self::wire(v)->Object_0;
        assert(ms.len() == 2);
        assert(ms[0].key == "numberOfFiles"@ && key_mark(ms[0].key).0 == 13);
        assert(ms[1].key == "totalPayloadSize"@ && key_mark(ms[1].key).0 == 16);
        assert(distinct_keys(ms));
        assert(ms[0].value.wf() == opt_literal(v.number_of_files));
        assert(ms[1].value.wf() == opt_literal(v.total_payload_size));
    }

    proof fn lemma_unfit_is_refused(j: JsonModel) {
        lemma_undeclared(j, Self::declared());
    }
}

} // verus!
