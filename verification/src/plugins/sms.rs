//! Text messages of a phone.

use crate::field::{
    check_object, get_number, get_opt_number, get_opt_text, get_text, group_field_laws,
    group_field_refusals, group_wf_laws, new_members, number_json, number_model, object_check,
    object_of, opt_literal, opt_number, opt_number_json, opt_number_model, opt_number_view,
    opt_text, opt_text_json, opt_text_model, opt_text_view, put, req_number, req_text, text_json,
    text_model,
};
use crate::numeral::{is_number_literal, Number};
use crate::shape::{
    all_writable, get_list, group_shape_laws, group_shape_refusals, group_shape_wf_laws,
    list_to_json, list_view, list_wire, req_list, Shape,
};
use crate::value::{
    distinct_keys, group_lookup, key_mark, lemma_undeclared, names_of, undeclared, Json, JsonModel,
    Member,
};
use vstd::prelude::*;

verus! {

/// One party of a conversation.
#[derive(Debug, PartialEq, Eq)]
pub struct SmsAddress {
    pub address: String,
}

/// Model of [`SmsAddress`].
pub struct SmsAddressView {
    pub address: Seq<char>,
}

impl View for SmsAddress {
    type V = SmsAddressView;

    open spec fn view(&self) -> SmsAddressView {
        SmsAddressView {
            address: self.address@,
        }
    }
}

impl Shape for SmsAddress {
    open spec fn wire(v: SmsAddressView) -> JsonModel {
        JsonModel::Object(
            Seq::empty()
                .push(Member { key: "address"@, value: text_model(v.address) }),
        )
    }

    open spec fn parse(j: JsonModel) -> Result<SmsAddressView, Seq<char>> {
        if object_check(j) is Err {
            Err(Seq::empty())
        } else if req_text(j, "address"@) is Err {
            Err("address"@)
        } else if undeclared(j, Self::declared()) is Some {
            Err(undeclared(j, Self::declared())->Some_0)
        } else {
            Ok(
                SmsAddressView {
                    address: req_text(j, "address"@)->Ok_0,
                },
            )
        }
    }

    open spec fn declared() -> Set<Seq<char>> {
        Set::empty().insert("address"@)
    }

    open spec fn required() -> Set<Seq<char>> {
        Set::empty().insert("address"@)
    }

    open spec fn wf(v: SmsAddressView) -> bool {
        true
    }

    open spec fn writable(v: SmsAddressView) -> bool {
        true
    }

    fn to_json(&self) -> (j: Json) {
        let mut ms = new_members();
        put(&mut ms, "address", text_json(&self.address));
        object_of(ms)
    }

    fn from_json(j: &Json) -> (r: Result<SmsAddress, String>) {
        match check_object(j) {
            Ok(_) => {},
            Err(e) => return Err(e),
        }
        let address = match get_text(j, "address") {
            Ok(x) => x,
            Err(e) => return Err(e),
        };
        let names: Vec<String> = vec!["address".to_owned()];
        assert(names_of(names@) =~= Self::declared()) by {
            assert(names@[0]@ == "address"@);
        }
        match j.first_besides(&names) {
            Some(key) => return Err(key),
            None => {},
        }
        Ok(SmsAddress { address })
    }

    proof fn lemma_round_trip(v: SmsAddressView) {
        broadcast use {group_lookup, group_field_laws, vstd::string::group_string_axioms};
        reveal_strlit("address");
    }

    proof fn lemma_wire_wf(v: SmsAddressView) {
        broadcast use {group_wf_laws, vstd::string::group_string_axioms};
        reveal_strlit("address");
        let ms = Self::wire(v)->Object_0;
        assert(ms.len() == 1);
        assert(ms[0].key == "address"@ && key_mark(ms[0].key).0 == 7);
        assert(distinct_keys(ms));
        assert(ms[0].value.wf());
    }

    proof fn lemma_unfit_is_refused(j: JsonModel) {
        broadcast use group_field_refusals;
        lemma_undeclared(j, Self::declared());
    }
}

/// One message of a conversation.
#[derive(Debug, PartialEq, Eq)]
pub struct SmsMessage {
    pub id: Number,
    pub addresses: Vec<SmsAddress>,
    pub body: Option<String>,
    pub date: Number,
    pub read: Number,
    pub thread_id: Number,
    pub message_type: Number,
    pub event: Option<Number>,
    pub sub_id: Option<Number>,
}

/// Model of [`SmsMessage`].
pub struct SmsMessageView {
    pub id: Seq<char>,
    pub addresses: Seq<SmsAddressView>,
    pub body: Option<Seq<char>>,
    pub date: Seq<char>,
    pub read: Seq<char>,
    pub thread_id: Seq<char>,
    pub message_type: Seq<char>,
    pub event: Option<Seq<char>>,
    pub sub_id: Option<Seq<char>>,
}

impl View for SmsMessage {
    type V = SmsMessageView;

    open spec fn view(&self) -> SmsMessageView {
        SmsMessageView {
            id: self.id@,
            addresses: list_view(self.addresses@),
            body: opt_text_view(self.body),
            date: self.date@,
            read: self.read@,
            thread_id: self.thread_id@,
            message_type: self.message_type@,
            event: opt_number_view(self.event),
            sub_id: opt_number_view(self.sub_id),
        }
    }
}

impl Shape for SmsMessage {
    open spec fn wire(v: SmsMessageView) -> JsonModel {
        JsonModel::Object(
            Seq::empty()
                .push(Member { key: "_id"@, value: number_model(v.id) })
                .push(Member { key: "addresses"@, value: list_wire::<SmsAddress>(v.addresses) })
                .push(Member { key: "body"@, value: opt_text_model(v.body) })
                .push(Member { key: "date"@, value: number_model(v.date) })
                .push(Member { key: "read"@, value: number_model(v.read) })
                .push(Member { key: "thread_id"@, value: number_model(v.thread_id) })
                .push(Member { key: "type"@, value: number_model(v.message_type) })
                .push(Member { key: "event"@, value: opt_number_model(v.event) })
                .push(Member { key: "sub_id"@, value: opt_number_model(v.sub_id) }),
        )
    }

    open spec fn parse(j: JsonModel) -> Result<SmsMessageView, Seq<char>> {
        if object_check(j) is Err {
            Err(Seq::empty())
        } else if req_number(j, "_id"@) is Err {
            Err("_id"@)
        } else if req_list::<SmsAddress>(j, "addresses"@) is Err {
            Err("addresses"@)
        } else if opt_text(j, "body"@) is Err {
            Err("body"@)
        } else if req_number(j, "date"@) is Err {
            Err("date"@)
        } else if req_number(j, "read"@) is Err {
            Err("read"@)
        } else if req_number(j, "thread_id"@) is Err {
            Err("thread_id"@)
        } else if req_number(j, "type"@) is Err {
            Err("type"@)
        } else if opt_number(j, "event"@) is Err {
            Err("event"@)
        } else if opt_number(j, "sub_id"@) is Err {
            Err("sub_id"@)
        } else if undeclared(j, Self::declared()) is Some {
            Err(undeclared(j, Self::declared())->Some_0)
        } else {
            Ok(
                SmsMessageView {
                    id: req_number(j, "_id"@)->Ok_0,
                    addresses: req_list::<SmsAddress>(j, "addresses"@)->Ok_0,
                    body: opt_text(j, "body"@)->Ok_0,
                    date: req_number(j, "date"@)->Ok_0,
                    read: req_number(j, "read"@)->Ok_0,
                    thread_id: req_number(j, "thread_id"@)->Ok_0,
                    message_type: req_number(j, "type"@)->Ok_0,
                    event: opt_number(j, "event"@)->Ok_0,
                    sub_id: opt_number(j, "sub_id"@)->Ok_0,
                },
            )
        }
    }

    open spec fn declared() -> Set<Seq<char>> {
        Set::empty()
            .insert("_id"@)
            .insert("addresses"@)
            .insert("body"@)
            .insert("date"@)
            .insert("read"@)
            .insert("thread_id"@)
            .insert("type"@)
            .insert("event"@)
            .insert("sub_id"@)
    }

    open spec fn required() -> Set<Seq<char>> {
        Set::empty()
            .insert("_id"@)
            .insert("addresses"@)
            .insert("date"@)
            .insert("read"@)
            .insert("thread_id"@)
            .insert("type"@)
    }

    open spec fn wf(v: SmsMessageView) -> bool {
        true
    }

    open spec fn writable(v: SmsMessageView) -> bool {
        &&& is_number_literal(v.id)
        &&& all_writable::<SmsAddress>(v.addresses)
        &&& is_number_literal(v.date)
        &&& is_number_literal(v.read)
        &&& is_number_literal(v.thread_id)
        &&& is_number_literal(v.message_type)
        &&& opt_literal(v.event)
        &&& opt_literal(v.sub_id)
    }

    fn to_json(&self) -> (j: Json) {
        let mut ms = new_members();
        put(&mut ms, "_id", number_json(&self.id));
        put(&mut ms, "addresses", list_to_json(&self.addresses));
        put(&mut ms, "body", opt_text_json(&self.body));
        put(&mut ms, "date", number_json(&self.date));
        put(&mut ms, "read", number_json(&self.read));
        put(&mut ms, "thread_id", number_json(&self.thread_id));
        put(&mut ms, "type", number_json(&self.message_type));
        put(&mut ms, "event", opt_number_json(&self.event));
        put(&mut ms, "sub_id", opt_number_json(&self.sub_id));
        object_of(ms)
    }

    fn from_json(j: &Json) -> (r: Result<SmsMessage, String>) {
        match check_object(j) {
            Ok(_) => {},
            Err(e) => return Err(e),
        }
        let id = match get_number(j, "_id") {
            Ok(x) => x,
            Err(e) => return Err(e),
        };
        let addresses = match get_list::<SmsAddress>(j, "addresses") {
            Ok(x) => x,
            Err(e) => return Err(e),
        };
        let body = match get_opt_text(j, "body") {
            Ok(x) => x,
            Err(e) => return Err(e),
        };
        let date = match get_number(j, "date") {
            Ok(x) => x,
            Err(e) => return Err(e),
        };
        let read = match get_number(j, "read") {
            Ok(x) => x,
            Err(e) => return Err(e),
        };
        let thread_id = match get_number(j, "thread_id") {
            Ok(x) => x,
            Err(e) => return Err(e),
        };
        let message_type = match get_number(j, "type") {
            Ok(x) => x,
            Err(e) => return Err(e),
        };
        let event = match get_opt_number(j, "event") {
            Ok(x) => x,
            Err(e) => return Err(e),
        };
        let sub_id = match get_opt_number(j, "sub_id") {
            Ok(x) => x,
            Err(e) => return Err(e),
        };
        let names: Vec<String> = vec![
            "_id".to_owned(),
            "addresses".to_owned(),
            "body".to_owned(),
            "date".to_owned(),
            "read".to_owned(),
            "thread_id".to_owned(),
            "type".to_owned(),
            "event".to_owned(),
            "sub_id".to_owned(),
        ];
        assert(names_of(names@) =~= Self::declared()) by {
            assert(names@[0]@ == "_id"@);
            assert(names@[1]@ == "addresses"@);
            assert(names@[2]@ == "body"@);
            assert(names@[3]@ == "date"@);
            assert(names@[4]@ == "read"@);
            assert(names@[5]@ == "thread_id"@);
            assert(names@[6]@ == "type"@);
            assert(names@[7]@ == "event"@);
            assert(names@[8]@ == "sub_id"@);
        }
        match j.first_besides(&names) {
            Some(key) => return Err(key),
            None => {},
        }
        Ok(SmsMessage { id, addresses, body, date, read, thread_id, message_type, event, sub_id })
    }

    proof fn lemma_round_trip(v: SmsMessageView) {
        broadcast use {
            group_lookup,
            group_field_laws,
            group_shape_laws,
            vstd::string::group_string_axioms,
        };
        reveal_strlit("_id");
        reveal_strlit("addresses");
        reveal_strlit("body");
        reveal_strlit("date");
        reveal_strlit("read");
        reveal_strlit("thread_id");
        reveal_strlit("type");
        reveal_strlit("event");
        reveal_strlit("sub_id");
        let j = Self::wire(v);
        assert(req_number(j, "_id"@) == Ok::<Seq<char>, Seq<char>>(v.id));
        assert(req_list::<SmsAddress>(j, "addresses"@) == Ok::<Seq<SmsAddressView>, Seq<char>>(
            v.addresses,
        ));
        assert(opt_text(j, "body"@) == Ok::<Option<Seq<char>>, Seq<char>>(v.body));
        assert(req_number(j, "date"@) == Ok::<Seq<char>, Seq<char>>(v.date));
        assert(req_number(j, "read"@) == Ok::<Seq<char>, Seq<char>>(v.read));
        assert(req_number(j, "thread_id"@) == Ok::<Seq<char>, Seq<char>>(v.thread_id));
        assert(req_number(j, "type"@) == Ok::<Seq<char>, Seq<char>>(v.message_type));
        assert(opt_number(j, "event"@) == Ok::<Option<Seq<char>>, Seq<char>>(v.event));
        assert(opt_number(j, "sub_id"@) == Ok::<Option<Seq<char>>, Seq<char>>(v.sub_id));
        assert(undeclared(j, Self::declared()) is None);
    }

    proof fn lemma_wire_wf(v: SmsMessageView) {
        broadcast use {group_wf_laws, group_shape_wf_laws, vstd::string::group_string_axioms};
        reveal_strlit("_id");
        reveal_strlit("addresses");
        reveal_strlit("body");
        reveal_strlit("date");
        reveal_strlit("read");
        reveal_strlit("thread_id");
        reveal_strlit("type");
        reveal_strlit("event");
        reveal_strlit("sub_id");
        let ms = Self::wire(v)->Object_0;
        assert(ms.len() == 9);
        assert(ms[0].key == "_id"@ && key_mark(ms[0].key).0 == 3);
        assert(ms[1].key == "addresses"@ && key_mark(ms[1].key).0 == 9);
        assert(ms[2].key == "body"@ && key_mark(ms[2].key).0 == 4);
        assert(ms[3].key == "date"@ && key_mark(ms[3].key).0 == 4);
        assert(ms[4].key == "read"@ && key_mark(ms[4].key).0 == 4);
        assert(ms[5].key == "thread_id"@ && key_mark(ms[5].key).0 == 9);
        assert(ms[6].key == "type"@ && key_mark(ms[6].key).0 == 4);
        assert(ms[7].key == "event"@ && key_mark(ms[7].key).0 == 5);
        assert(ms[8].key == "sub_id"@ && key_mark(ms[8].key).0 == 6);
        assert(distinct_keys(ms));
        assert(ms[0].value.wf() == is_number_literal(v.id));
        assert(ms[1].value.wf() == all_writable::<SmsAddress>(v.addresses));
        assert(ms[2].value.wf());
        assert(ms[3].value.wf() == is_number_literal(v.date));
        assert(ms[4].value.wf() == is_number_literal(v.read));
        assert(ms[5].value.wf() == is_number_literal(v.thread_id));
        assert(ms[6].value.wf() == is_number_literal(v.message_type));
        assert(ms[7].value.wf() == opt_literal(v.event));
        assert(ms[8].value.wf() == opt_literal(v.sub_id));
    }

    proof fn lemma_unfit_is_refused(j: JsonModel) {
        broadcast use {group_field_refusals, group_shape_refusals};
        lemma_undeclared(j, Self::declared());
    }
}

/// Announces the file of an attachment that was asked for.
#[derive(Debug, PartialEq, Eq)]
pub struct SmsAttachmentFile {
    pub filename: String,
}

/// Model of [`SmsAttachmentFile`].
pub struct SmsAttachmentFileView {
    pub filename: Seq<char>,
}

impl View for SmsAttachmentFile {
    type V = SmsAttachmentFileView;

    open spec fn view(&self) -> SmsAttachmentFileView {
        SmsAttachmentFileView {
            filename: self.filename@,
        }
    }
}

impl Shape for SmsAttachmentFile {
    open spec fn wire(v: SmsAttachmentFileView) -> JsonModel {
        JsonModel::Object(
            Seq::empty()
                .push(Member { key: "filename"@, value: text_model(v.filename) }),
        )
    }

    open spec fn parse(j: JsonModel) -> Result<SmsAttachmentFileView, Seq<char>> {
        if object_check(j) is Err {
            Err(Seq::empty())
        } else if req_text(j, "filename"@) is Err {
            Err("filename"@)
        } else if undeclared(j, Self::declared()) is Some {
            Err(undeclared(j, Self::declared())->Some_0)
        } else {
            Ok(
                SmsAttachmentFileView {
                    filename: req_text(j, "filename"@)->Ok_0,
                },
            )
        }
    }

    open spec fn declared() -> Set<Seq<char>> {
        Set::empty().insert("filename"@)
    }

    open spec fn required() -> Set<Seq<char>> {
        Set::empty().insert("filename"@)
    }

    open spec fn wf(v: SmsAttachmentFileView) -> bool {
        true
    }

    open spec fn writable(v: SmsAttachmentFileView) -> bool {
        true
    }

    fn to_json(&self) -> (j: Json) {
        let mut ms = new_members();
        put(&mut ms, "filename", text_json(&self.filename));
        object_of(ms)
    }

    fn from_json(j: &Json) -> (r: Result<SmsAttachmentFile, String>) {
        match check_object(j) {
            Ok(_) => {},
            Err(e) => return Err(e),
        }
        let filename = match get_text(j, "filename") {
            Ok(x) => x,
            Err(e) => return Err(e),
        };
        let names: Vec<String> = vec!["filename".to_owned()];
        assert(names_of(names@) =~= Self::declared()) by {
            assert(names@[0]@ == "filename"@);
        }
        match j.first_besides(&names) {
            Some(key) => return Err(key),
            None => {},
        }
        Ok(SmsAttachmentFile { filename })
    }

    proof fn lemma_round_trip(v: SmsAttachmentFileView) {
        broadcast use {group_lookup, group_field_laws, vstd::string::group_string_axioms};
        reveal_strlit("filename");
    }

    proof fn lemma_wire_wf(v: SmsAttachmentFileView) {
        broadcast use {group_wf_laws, vstd::string::group_string_axioms};
        reveal_strlit("filename");
        let ms = Self::wire(v)->Object_0;
        assert(ms.len() == 1);
        assert(ms[0].key == "filename"@ && key_mark(ms[0].key).0 == 8);
        assert(distinct_keys(ms));
        assert(ms[0].value.wf());
    }

    proof fn lemma_unfit_is_refused(j: JsonModel) {
        broadcast use group_field_refusals;
        lemma_undeclared(j, Self::declared());
    }
}

/// Messages of one or more conversations.
#[derive(Debug, PartialEq, Eq)]
pub struct SmsMessages {
    pub messages: Vec<SmsMessage>,
    pub version: Option<Number>,
}

/// Model of [`SmsMessages`].
pub struct SmsMessagesView {
    pub messages: Seq<SmsMessageView>,
    pub version: Option<Seq<char>>,
}

impl View for SmsMessages {
    type V = SmsMessagesView;

    open spec fn view(&self) -> SmsMessagesView {
        SmsMessagesView {
            messages: list_view(self.messages@),
            version: opt_number_view(self.version),
        }
    }
}

impl Shape for SmsMessages {
    open spec fn wire(v: SmsMessagesView) -> JsonModel {
        JsonModel::Object(
            Seq::empty()
                .push(Member { key: "messages"@, value: list_wire::<SmsMessage>(v.messages) })
                .push(Member { key: "version"@, value: opt_number_model(v.version) }),
        )
    }

    open spec fn parse(j: JsonModel) -> Result<SmsMessagesView, Seq<char>> {
        if object_check(j) is Err {
            Err(Seq::empty())
        } else if req_list::<SmsMessage>(j, "messages"@) is Err {
            Err("messages"@)
        } else if opt_number(j, "version"@) is Err {
            Err("version"@)
        } else if undeclared(j, Self::declared()) is Some {
            Err(undeclared(j, Self::declared())->Some_0)
        } else {
            Ok(
                SmsMessagesView {
                    messages: req_list::<SmsMessage>(j, "messages"@)->Ok_0,
                    version: opt_number(j, "version"@)->Ok_0,
                },
            )
        }
    }

    open spec fn declared() -> Set<Seq<char>> {
        Set::empty().insert("messages"@).insert("version"@)
    }

    open spec fn required() -> Set<Seq<char>> {
        Set::empty().insert("messages"@)
    }

    open spec fn wf(v: SmsMessagesView) -> bool {
        true
    }

    open spec fn writable(v: SmsMessagesView) -> bool {
        &&& all_writable::<SmsMessage>(v.messages)
        &&& opt_literal(v.version)
    }

    fn to_json(&self) -> (j: Json) {
        let mut ms = new_members();
        put(&mut ms, "messages", list_to_json(&self.messages));
        put(&mut ms, "version", opt_number_json(&self.version));
        object_of(ms)
    }

    fn from_json(j: &Json) -> (r: Result<SmsMessages, String>) {
        match check_object(j) {
            Ok(_) => {},
            Err(e) => return Err(e),
        }
        let messages = match get_list::<SmsMessage>(j, "messages") {
            Ok(x) => x,
            Err(e) => return Err(e),
        };
        let version = match get_opt_number(j, "version") {
            Ok(x) => x,
            Err(e) => return Err(e),
        };
        let names: Vec<String> = vec!["messages".to_owned(), "version".to_owned()];
        assert(names_of(names@) =~= Self::declared()) by {
            assert(names@[0]@ == "messages"@);
            assert(names@[1]@ == "version"@);
        }
        match j.first_besides(&names) {
            Some(key) => return Err(key),
            None => {},
        }
        Ok(SmsMessages { messages, version })
    }

    proof fn lemma_round_trip(v: SmsMessagesView) {
        broadcast use {
            group_lookup,
            group_field_laws,
            group_shape_laws,
            vstd::string::group_string_axioms,
        };
        reveal_strlit("messages");
        reveal_strlit("version");
        let j = Self::wire(v);
        assert(req_list::<SmsMessage>(j, "messages"@) == Ok::<Seq<SmsMessageView>, Seq<char>>(
            v.messages,
        ));
        assert(opt_number(j, "version"@) == Ok::<Option<Seq<char>>, Seq<char>>(v.version));
        assert(undeclared(j, Self::declared()) is None);
    }

    proof fn lemma_wire_wf(v: SmsMessagesView) {
        broadcast use {group_wf_laws, group_shape_wf_laws, vstd::string::group_string_axioms};
        reveal_strlit("messages");
        reveal_strlit("version");
        let ms = Self::wire(v)->Object_0;
        assert(ms.len() == 2);
        assert(ms[0].key == "messages"@ && key_mark(ms[0].key).0 == 8);
        assert(ms[1].key == "version"@ && key_mark(ms[1].key).0 == 7);
        assert(distinct_keys(ms));
        assert(ms[0].value.wf() == all_writable::<SmsMessage>(v.messages));
        assert(ms[1].value.wf() == opt_literal(v.version));
    }

    proof fn lemma_unfit_is_refused(j: JsonModel) {
        broadcast use group_shape_refusals;
        lemma_undeclared(j, Self::declared());
    }
}

/// Asks a phone to send a message.
#[derive(Debug, PartialEq, Eq)]
pub struct SmsRequest {
    pub addresses: Vec<SmsAddress>,
    pub message_body: String,
    pub sub_id: Option<Number>,
    pub version: Option<Number>,
}

/// Model of [`SmsRequest`].
pub struct SmsRequestView {
    pub addresses: Seq<SmsAddressView>,
    pub message_body: Seq<char>,
    pub sub_id: Option<Seq<char>>,
    pub version: Option<Seq<char>>,
}

impl View for SmsRequest {
    type V = SmsRequestView;

    open spec fn view(&self) -> SmsRequestView {
        SmsRequestView {
            addresses: list_view(self.addresses@),
            message_body: self.message_body@,
            sub_id: opt_number_view(self.sub_id),
            version: opt_number_view(self.version),
        }
    }
}

impl Shape for SmsRequest {
    open spec fn wire(v: SmsRequestView) -> JsonModel {
        JsonModel::Object(
            Seq::empty()
                .push(Member { key: "addresses"@, value: list_wire::<SmsAddress>(v.addresses) })
                .push(Member { key: "messageBody"@, value: text_model(v.message_body) })
                .push(Member { key: "subID"@, value: opt_number_model(v.sub_id) })
                .push(Member { key: "version"@, value: opt_number_model(v.version) }),
        )
    }

    open spec fn parse(j: JsonModel) -> Result<SmsRequestView, Seq<char>> {
        if object_check(j) is Err {
            Err(Seq::empty())
        } else if req_list::<SmsAddress>(j, "addresses"@) is Err {
            Err("addresses"@)
        } else if req_text(j, "messageBody"@) is Err {
            Err("messageBody"@)
        } else if opt_number(j, "subID"@) is Err {
            Err("subID"@)
        } else if opt_number(j, "version"@) is Err {
            Err("version"@)
        } else if undeclared(j, Self::declared()) is Some {
            Err(undeclared(j, Self::declared())->Some_0)
        } else {
            Ok(
                SmsRequestView {
                    addresses: req_list::<SmsAddress>(j, "addresses"@)->Ok_0,
                    message_body: req_text(j, "messageBody"@)->Ok_0,
                    sub_id: opt_number(j, "subID"@)->Ok_0,
                    version: opt_number(j, "version"@)->Ok_0,
                },
            )
        }
    }

    open spec fn declared() -> Set<Seq<char>> {
        Set::empty().insert("addresses"@).insert("messageBody"@).insert("subID"@).insert("version"@)
    }

    open spec fn required() -> Set<Seq<char>> {
        Set::empty().insert("addresses"@).insert("messageBody"@)
    }

    open spec fn wf(v: SmsRequestView) -> bool {
        true
    }

    open spec fn writable(v: SmsRequestView) -> bool {
        &&& all_writable::<SmsAddress>(v.addresses)
        &&& opt_literal(v.sub_id)
        &&& opt_literal(v.version)
    }

    fn to_json(&self) -> (j: Json) {
        let mut ms = new_members();
        put(&mut ms, "addresses", list_to_json(&self.addresses));
        put(&mut ms, "messageBody", text_json(&self.message_body));
        put(&mut ms, "subID", opt_number_json(&self.sub_id));
        put(&mut ms, "version", opt_number_json(&self.version));
        object_of(ms)
    }

    fn from_json(j: &Json) -> (r: Result<SmsRequest, String>) {
        match check_object(j) {
            Ok(_) => {},
            Err(e) => return Err(e),
        }
        let addresses = match get_list::<SmsAddress>(j, "addresses") {
            Ok(x) => x,
            Err(e) => return Err(e),
        };
        let message_body = match get_text(j, "messageBody") {
            Ok(x) => x,
            Err(e) => return Err(e),
        };
        let sub_id = match get_opt_number(j, "subID") {
            Ok(x) => x,
            Err(e) => return Err(e),
        };
        let version = match get_opt_number(j, "version") {
            Ok(x) => x,
            Err(e) => return Err(e),
        };
        let names: Vec<String> = vec![
            "addresses".to_owned(),
            "messageBody".to_owned(),
            "subID".to_owned(),
            "version".to_owned(),
        ];
        assert(names_of(names@) =~= Self::declared()) by {
            assert(names@[0]@ == "addresses"@);
            assert(names@[1]@ == "messageBody"@);
            assert(names@[2]@ == "subID"@);
            assert(names@[3]@ == "version"@);
        }
        match j.first_besides(&names) {
            Some(key) => return Err(key),
            None => {},
        }
        Ok(SmsRequest { addresses, message_body, sub_id, version })
    }

    proof fn lemma_round_trip(v: SmsRequestView) {
        broadcast use {
            group_lookup,
            group_field_laws,
            group_shape_laws,
            vstd::string::group_string_axioms,
        };
        reveal_strlit("addresses");
        reveal_strlit("messageBody");
        reveal_strlit("subID");
        reveal_strlit("version");
        let j = Self::wire(v);
        assert(req_list::<SmsAddress>(j, "addresses"@) == Ok::<Seq<SmsAddressView>, Seq<char>>(
            v.addresses,
        ));
        assert(req_text(j, "messageBody"@) == Ok::<Seq<char>, Seq<char>>(v.message_body));
        assert(opt_number(j, "subID"@) == Ok::<Option<Seq<char>>, Seq<char>>(v.sub_id));
        assert(opt_number(j, "version"@) == Ok::<Option<Seq<char>>, Seq<char>>(v.version));
        assert(undeclared(j, Self::declared()) is None);
    }

    proof fn lemma_wire_wf(v: SmsRequestView) {
        broadcast use {group_wf_laws, group_shape_wf_laws, vstd::string::group_string_axioms};
        reveal_strlit("addresses");
        reveal_strlit("messageBody");
        reveal_strlit("subID");
        reveal_strlit("version");
        let ms = Self::wire(v)->Object_0;
        assert(ms.len() == 4);
        assert(ms[0].key == "addresses"@ && key_mark(ms[0].key).0 == 9);
        assert(ms[1].key == "messageBody"@ && key_mark(ms[1].key).0 == 11);
        assert(ms[2].key == "subID"@ && key_mark(ms[2].key).0 == 5);
        assert(ms[3].key == "version"@ && key_mark(ms[3].key).0 == 7);
        assert(distinct_keys(ms));
        assert(ms[0].value.wf() == all_writable::<SmsAddress>(v.addresses));
        assert(ms[1].value.wf());
        assert(ms[2].value.wf() == opt_literal(v.sub_id));
        assert(ms[3].value.wf() == opt_literal(v.version));
    }

    proof fn lemma_unfit_is_refused(j: JsonModel) {
        broadcast use {group_field_refusals, group_shape_refusals};
        lemma_undeclared(j, Self::declared());
    }
}

/// Asks a phone for the attachment of a message.
#[derive(Debug, PartialEq, Eq)]
pub struct SmsRequestAttachment {
    pub part_id: Number,
    pub unique_identifier: String,
}

/// Model of [`SmsRequestAttachment`].
pub struct SmsRequestAttachmentView {
    pub part_id: Seq<char>,
    pub unique_identifier: Seq<char>,
}

impl View for SmsRequestAttachment {
    type V = SmsRequestAttachmentView;

    open spec fn view(&self) -> SmsRequestAttachmentView {
        SmsRequestAttachmentView {
            part_id: self.part_id@,
            unique_identifier: self.unique_identifier@,
        }
    }
}

impl Shape for SmsRequestAttachment {
    open spec fn wire(v: SmsRequestAttachmentView) -> JsonModel {
        JsonModel::Object(
            Seq::empty()
                .push(Member { key: "part_id"@, value: number_model(v.part_id) })
                .push(Member { key: "unique_identifier"@, value: text_model(v.unique_identifier) }),
        )
    }

    open spec fn parse(j: JsonModel) -> Result<SmsRequestAttachmentView, Seq<char>> {
        if object_check(j) is Err {
            Err(Seq::empty())
        } else if req_number(j, "part_id"@) is Err {
            Err("part_id"@)
        } else if req_text(j, "unique_identifier"@) is Err {
            Err("unique_identifier"@)
        } else if undeclared(j, Self::declared()) is Some {
            Err(undeclared(j, Self::declared())->Some_0)
        } else {
            Ok(
                SmsRequestAttachmentView {
                    part_id: req_number(j, "part_id"@)->Ok_0,
                    unique_identifier: req_text(j, "unique_identifier"@)->Ok_0,
                },
            )
        }
    }

    open spec fn declared() -> Set<Seq<char>> {
        Set::empty().insert("part_id"@).insert("unique_identifier"@)
    }

    open spec fn required() -> Set<Seq<char>> {
        Set::empty().insert("part_id"@).insert("unique_identifier"@)
    }

    open spec fn wf(v: SmsRequestAttachmentView) -> bool {
        true
    }

    open spec fn writable(v: SmsRequestAttachmentView) -> bool {
        &&& is_number_literal(v.part_id)
    }

    fn to_json(&self) -> (j: Json) {
        let mut ms = new_members();
        put(&mut ms, "part_id", number_json(&self.part_id));
        put(&mut ms, "unique_identifier", text_json(&self.unique_identifier));
        object_of(ms)
    }

    fn from_json(j: &Json) -> (r: Result<SmsRequestAttachment, String>) {
        match check_object(j) {
            Ok(_) => {},
            Err(e) => return Err(e),
        }
        let part_id = match get_number(j, "part_id") {
            Ok(x) => x,
            Err(e) => return Err(e),
        };
        let unique_identifier = match get_text(j, "unique_identifier") {
            Ok(x) => x,
            Err(e) => return Err(e),
        };
        let names: Vec<String> = vec!["part_id".to_owned(), "unique_identifier".to_owned()];
        assert(names_of(names@) =~= Self::declared()) by {
            assert(names@[0]@ == "part_id"@);
            assert(names@[1]@ == "unique_identifier"@);
        }
        match j.first_besides(&names) {
            Some(key) => return Err(key),
            None => {},
        }
        Ok(SmsRequestAttachment { part_id, unique_identifier })
    }

    proof fn lemma_round_trip(v: SmsRequestAttachmentView) {
        broadcast use {group_lookup, group_field_laws, vstd::string::group_string_axioms};
        reveal_strlit("part_id");
        reveal_strlit("unique_identifier");
    }

    proof fn lemma_wire_wf(v: SmsRequestAttachmentView) {
        broadcast use {group_wf_laws, vstd::string::group_string_axioms};
        reveal_strlit("part_id");
        reveal_strlit("unique_identifier");
        let ms = Self::wire(v)->Object_0;
        assert(ms.len() == 2);
        assert(ms[0].key == "part_id"@ && key_mark(ms[0].key).0 == 7);
        assert(ms[1].key == "unique_identifier"@ && key_mark(ms[1].key).0 == 17);
        assert(distinct_keys(ms));
        assert(ms[0].value.wf() == is_number_literal(v.part_id));
        assert(ms[1].value.wf());
    }

    proof fn lemma_unfit_is_refused(j: JsonModel) {
        broadcast use group_field_refusals;
        lemma_undeclared(j, Self::declared());
    }
}

/// Asks a phone for the messages of one conversation.
#[derive(Debug, PartialEq, Eq)]
pub struct SmsRequestConversation {
    pub thread_id: Number,
    pub range_start_timestamp: Option<Number>,
    pub number_to_request: Option<Number>,
}

/// Model of [`SmsRequestConversation`].
pub struct SmsRequestConversationView {
    pub thread_id: Seq<char>,
    pub range_start_timestamp: Option<Seq<char>>,
    pub number_to_request: Option<Seq<char>>,
}

impl View for SmsRequestConversation {
    type V = SmsRequestConversationView;

    open spec fn view(&self) -> SmsRequestConversationView {
        SmsRequestConversationView {
            thread_id: self.thread_id@,
            range_start_timestamp: opt_number_view(self.range_start_timestamp),
            number_to_request: opt_number_view(self.number_to_request),
        }
    }
}

impl Shape for SmsRequestConversation {
    open spec fn wire(v: SmsRequestConversationView) -> JsonModel {
        JsonModel::Object(
            Seq::empty()
                .push(Member { key: "threadID"@, value: number_model(v.thread_id) })
                .push(
                    Member {
                        key: "rangeStartTimestamp"@,
                        value: opt_number_model(v.range_start_timestamp),
                    },
                )
                .push(
                    Member {
                        key: "numberToRequest"@,
                        value: opt_number_model(v.number_to_request),
                    },
                ),
        )
    }

    open spec fn parse(j: JsonModel) -> Result<SmsRequestConversationView, Seq<char>> {
        if object_check(j) is Err {
            Err(Seq::empty())
        } else if req_number(j, "threadID"@) is Err {
            Err("threadID"@)
        } else if opt_number(j, "rangeStartTimestamp"@) is Err {
            Err("rangeStartTimestamp"@)
        } else if opt_number(j, "numberToRequest"@) is Err {
            Err("numberToRequest"@)
        } else if undeclared(j, Self::declared()) is Some {
            Err(undeclared(j, Self::declared())->Some_0)
        } else {
            Ok(
                SmsRequestConversationView {
                    thread_id: req_number(j, "threadID"@)->Ok_0,
                    range_start_timestamp: opt_number(j, "rangeStartTimestamp"@)->Ok_0,
                    number_to_request: opt_number(j, "numberToRequest"@)->Ok_0,
                },
            )
        }
    }

    open spec fn declared() -> Set<Seq<char>> {
        Set::empty().insert("threadID"@).insert("rangeStartTimestamp"@).insert("numberToRequest"@)
    }

    open spec fn required() -> Set<Seq<char>> {
        Set::empty().insert("threadID"@)
    }

    open spec fn wf(v: SmsRequestConversationView) -> bool {
        true
    }

    open spec fn writable(v: SmsRequestConversationView) -> bool {
        &&& is_number_literal(v.thread_id)
        &&& opt_literal(v.range_start_timestamp)
        &&& opt_literal(v.number_to_request)
    }

    fn to_json(&self) -> (j: Json) {
        let mut ms = new_members();
        put(&mut ms, "threadID", number_json(&self.thread_id));
        put(&mut ms, "rangeStartTimestamp", opt_number_json(&self.range_start_timestamp));
        put(&mut ms, "numberToRequest", opt_number_json(&self.number_to_request));
        object_of(ms)
    }

    fn from_json(j: &Json) -> (r: Result<SmsRequestConversation, String>) {
        match check_object(j) {
            Ok(_) => {},
            Err(e) => return Err(e),
        }
        let thread_id = match get_number(j, "threadID") {
            Ok(x) => x,
            Err(e) => return Err(e),
        };
        let range_start_timestamp = match get_opt_number(j, "rangeStartTimestamp") {
            Ok(x) => x,
            Err(e) => return Err(e),
        };
        let number_to_request = match get_opt_number(j, "numberToRequest") {
            Ok(x) => x,
            Err(e) => return Err(e),
        };
        let names: Vec<String> = vec![
            "threadID".to_owned(),
            "rangeStartTimestamp".to_owned(),
            "numberToRequest".to_owned(),
        ];
        assert(names_of(names@) =~= Self::declared()) by {
            assert(names@[0]@ == "threadID"@);
            assert(names@[1]@ == "rangeStartTimestamp"@);
            assert(names@[2]@ == "numberToRequest"@);
        }
        match j.first_besides(&names) {
            Some(key) => return Err(key),
            None => {},
        }
        Ok(SmsRequestConversation { thread_id, range_start_timestamp, number_to_request })
    }

    proof fn lemma_round_trip(v: SmsRequestConversationView) {
        broadcast use {group_lookup, group_field_laws, vstd::string::group_string_axioms};
        reveal_strlit("threadID");
        reveal_strlit("rangeStartTimestamp");
        reveal_strlit("numberToRequest");
    }

    proof fn lemma_wire_wf(v: SmsRequestConversationView) {
        broadcast use {group_wf_laws, vstd::string::group_string_axioms};
        reveal_strlit("threadID");
        reveal_strlit("rangeStartTimestamp");
        reveal_strlit("numberToRequest");
        let ms = Self::wire(v)->Object_0;
        assert(ms.len() == 3);
        assert(ms[0].key == "threadID"@ && key_mark(ms[0].key).0 == 8);
        assert(ms[1].key == "rangeStartTimestamp"@ && key_mark(ms[1].key).0 == 19);
        assert(ms[2].key == "numberToRequest"@ && key_mark(ms[2].key).0 == 15);
        assert(distinct_keys(ms));
        assert(ms[0].value.wf() == is_number_literal(v.thread_id));
        assert(ms[1].value.wf() == opt_literal(v.range_start_timestamp));
        assert(ms[2].value.wf() == opt_literal(v.number_to_request));
    }

    proof fn lemma_unfit_is_refused(j: JsonModel) {
        broadcast use group_field_refusals;
        lemma_undeclared(j, Self::declared());
    }
}

/// Asks a phone for the latest message of each conversation.
#[derive(Debug, PartialEq, Eq)]
pub struct SmsRequestConversations {}

/// Model of [`SmsRequestConversations`].
pub struct SmsRequestConversationsView {}

impl View for SmsRequestConversations {
    type V = SmsRequestConversationsView;

    open spec fn view(&self) -> SmsRequestConversationsView {
        SmsRequestConversationsView {}
    }
}

impl Shape for SmsRequestConversations {
    open spec fn wire(v: SmsRequestConversationsView) -> JsonModel {
        JsonModel::Object(Seq::empty())
    }

    open spec fn parse(j: JsonModel) -> Result<SmsRequestConversationsView, Seq<char>> {
        if object_check(j) is Err {
            Err(Seq::empty())
        } else if undeclared(j, Self::declared()) is Some {
            Err(undeclared(j, Self::declared())->Some_0)
        } else {
            Ok(SmsRequestConversationsView {})
        }
    }

    open spec fn declared() -> Set<Seq<char>> {
        Set::empty()
    }

    open spec fn required() -> Set<Seq<char>> {
        Set::empty()
    }

    open spec fn wf(v: SmsRequestConversationsView) -> bool {
        true
    }

    open spec fn writable(v: SmsRequestConversationsView) -> bool {
        true
    }

    fn to_json(&self) -> (j: Json) {
        object_of(new_members())
    }

    fn from_json(j: &Json) -> (r: Result<SmsRequestConversations, String>) {
        match check_object(j) {
            Ok(_) => {},
            Err(e) => return Err(e),
        }
        let names: Vec<String> = Vec::new();
        assert(names_of(names@) =~= Self::declared());
        match j.first_besides(&names) {
            Some(key) => return Err(key),
            None => {},
        }
        Ok(SmsRequestConversations {})
    }

    proof fn lemma_round_trip(v: SmsRequestConversationsView) {
        broadcast use group_lookup;
    }

    proof fn lemma_wire_wf(v: SmsRequestConversationsView) {
        assert(distinct_keys(Seq::<Member>::empty()));
    }

    proof fn lemma_unfit_is_refused(j: JsonModel) {
        lemma_undeclared(j, Self::declared());
    }
}

} // verus!
