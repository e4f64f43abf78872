//! Notifications of a device.

use crate::field::{
    check_object, get_opt_bool, get_opt_text, get_opt_texts, get_text, group_field_laws,
    group_field_refusals, group_wf_laws, new_members, object_check, object_of, opt_bool,
    opt_bool_json, opt_bool_model, opt_text, opt_text_json, opt_text_model, opt_text_view,
    opt_texts, opt_texts_json, opt_texts_model, opt_texts_view, put, req_text, text_json,
    text_model,
};
use crate::shape::Shape;
use crate::value::{
    distinct_keys, group_lookup, key_mark, lemma_undeclared, names_of, undeclared, Json, JsonModel,
    Member,
};
use vstd::prelude::*;

verus! {

/// A notification that a device shows, or the news that one is gone.
#[derive(Debug, PartialEq, Eq)]
pub struct Notification {
    pub id: String,
    pub is_cancel: Option<bool>,
    pub is_clearable: Option<bool>,
    pub only_once: Option<bool>,
    pub silent: Option<bool>,
    pub time: Option<String>,
    pub app_name: String,
    pub ticker: String,
    pub title: String,
    pub text: String,
    pub payload_hash: Option<String>,
    pub actions: Option<Vec<String>>,
    pub request_reply_id: Option<String>,
}

/// Model of [`Notification`].
pub struct NotificationView {
    pub id: Seq<char>,
    pub is_cancel: Option<bool>,
    pub is_clearable: Option<bool>,
    pub only_once: Option<bool>,
    pub silent: Option<bool>,
    pub time: Option<Seq<char>>,
    pub app_name: Seq<char>,
    pub ticker: Seq<char>,
    pub title: Seq<char>,
    pub text: Seq<char>,
    pub payload_hash: Option<Seq<char>>,
    pub actions: Option<Seq<Seq<char>>>,
    pub request_reply_id: Option<Seq<char>>,
}

impl View for Notification {
    type V = NotificationView;

    open spec fn view(&self) -> NotificationView {
        NotificationView {
            id: self.id@,
            is_cancel: self.is_cancel,
            is_clearable: self.is_clearable,
            only_once: self.only_once,
            silent: self.silent,
            time: opt_text_view(self.time),
            app_name: self.app_name@,
            ticker: self.ticker@,
            title: self.title@,
            text: self.text@,
            payload_hash: opt_text_view(self.payload_hash),
            actions: opt_texts_view(self.actions),
            request_reply_id: opt_text_view(self.request_reply_id),
        }
    }
}

impl Shape for Notification {
    open spec fn wire(v: NotificationView) -> JsonModel {
        JsonModel::Object(
            Seq::empty()
                .push(Member { key: "id"@, value: text_model(v.id) })
                .push(Member { key: "isCancel"@, value: opt_bool_model(v.is_cancel) })
                .push(Member { key: "isClearable"@, value: opt_bool_model(v.is_clearable) })
                .push(Member { key: "onlyOnce"@, value: opt_bool_model(v.only_once) })
                .push(Member { key: "silent"@, value: opt_bool_model(v.silent) })
                .push(Member { key: "time"@, value: opt_text_model(v.time) })
                .push(Member { key: "appName"@, value: text_model(v.app_name) })
                .push(Member { key: "ticker"@, value: text_model(v.ticker) })
                .push(Member { key: "title"@, value: text_model(v.title) })
                .push(Member { key: "text"@, value: text_model(v.text) })
                .push(Member { key: "payloadHash"@, value: opt_text_model(v.payload_hash) })
                .push(Member { key: "actions"@, value: opt_texts_model(v.actions) })
                .push(Member { key: "requestReplyId"@, value: opt_text_model(v.request_reply_id) }),
        )
    }

    open spec fn parse(j: JsonModel) -> Result<NotificationView, Seq<char>> {
        if object_check(j) is Err {
            Err(Seq::empty())
        } else if req_text(j, "id"@) is Err {
            Err("id"@)
        } else if opt_bool(j, "isCancel"@) is Err {
            Err("isCancel"@)
        } else if opt_bool(j, "isClearable"@) is Err {
            Err("isClearable"@)
        } else if opt_bool(j, "onlyOnce"@) is Err {
            Err("onlyOnce"@)
        } else if opt_bool(j, "silent"@) is Err {
            Err("silent"@)
        } else if opt_text(j, "time"@) is Err {
            Err("time"@)
        } else if req_text(j, "appName"@) is Err {
            Err("appName"@)
        } else if req_text(j, "ticker"@) is Err {
            Err("ticker"@)
        } else if req_text(j, "title"@) is Err {
            Err("title"@)
        } else if req_text(j, "text"@) is Err {
            Err("text"@)
        } else if opt_text(j, "payloadHash"@) is Err {
            Err("payloadHash"@)
        } else if opt_texts(j, "actions"@) is Err {
            Err("actions"@)
        } else if opt_text(j, "requestReplyId"@) is Err {
            Err("requestReplyId"@)
        } else if undeclared(j, Self::declared()) is Some {
            Err(undeclared(j, Self::declared())->Some_0)
        } else {
            Ok(
                NotificationView {
                    id: req_text(j, "id"@)->Ok_0,
                    is_cancel: opt_bool(j, "isCancel"@)->Ok_0,
                    is_clearable: opt_bool(j, "isClearable"@)->Ok_0,
                    only_once: opt_bool(j, "onlyOnce"@)->Ok_0,
                    silent: opt_bool(j, "silent"@)->Ok_0,
                    time: opt_text(j, "time"@)->Ok_0,
                    app_name: req_text(j, "appName"@)->Ok_0,
                    ticker: req_text(j, "ticker"@)->Ok_0,
                    title: req_text(j, "title"@)->Ok_0,
                    text: req_text(j, "text"@)->Ok_0,
                    payload_hash: opt_text(j, "payloadHash"@)->Ok_0,
                    actions: opt_texts(j, "actions"@)->Ok_0,
                    request_reply_id: opt_text(j, "requestReplyId"@)->Ok_0,
                },
            )
        }
    }

    open spec fn declared() -> Set<Seq<char>> {
        Set::empty()
            .insert("id"@)
            .insert("isCancel"@)
            .insert("isClearable"@)
            .insert("onlyOnce"@)
            .insert("silent"@)
            .insert("time"@)
            .insert("appName"@)
            .insert("ticker"@)
            .insert("title"@)
            .insert("text"@)
            .insert("payloadHash"@)
            .insert("actions"@)
            .insert("requestReplyId"@)
    }

    open spec fn required() -> Set<Seq<char>> {
        Set::empty()
            .insert("id"@)
            .insert("appName"@)
            .insert("ticker"@)
            .insert("title"@)
            .insert("text"@)
    }

    open spec fn wf(v: NotificationView) -> bool {
        true
    }

    open spec fn writable(v: NotificationView) -> bool {
        true
    }

    fn to_json(&self) -> (j: Json) {
        let mut ms = new_members();
        put(&mut ms, "id", text_json(&self.id));
        put(&mut ms, "isCancel", opt_bool_json(&self.is_cancel));
        put(&mut ms, "isClearable", opt_bool_json(&self.is_clearable));
        put(&mut ms, "onlyOnce", opt_bool_json(&self.only_once));
        put(&mut ms, "silent", opt_bool_json(&self.silent));
        put(&mut ms, "time", opt_text_json(&self.time));
        put(&mut ms, "appName", text_json(&self.app_name));
        put(&mut ms, "ticker", text_json(&self.ticker));
        put(&mut ms, "title", text_json(&self.title));
        put(&mut ms, "text", text_json(&self.text));
        put(&mut ms, "payloadHash", opt_text_json(&self.payload_hash));
        put(&mut ms, "actions", opt_texts_json(&self.actions));
        put(&mut ms, "requestReplyId", opt_text_json(&self.request_reply_id));
        object_of(ms)
    }

    fn from_json(j: &Json) -> (r: Result<Notification, String>) {
        match check_object(j) {
            Ok(_) => {},
            Err(e) => return Err(e),
        }
        let id = match get_text(j, "id") {
            Ok(x) => x,
            Err(e) => return Err(e),
        };
        let is_cancel = match get_opt_bool(j, "isCancel") {
            Ok(x) => x,
            Err(e) => return Err(e),
        };
        let is_clearable = match get_opt_bool(j, "isClearable") {
            Ok(x) => x,
            Err(e) => return Err(e),
        };
        let only_once = match get_opt_bool(j, "onlyOnce") {
            Ok(x) => x,
            Err(e) => return Err(e),
        };
        let silent = match get_opt_bool(j, "silent") {
            Ok(x) => x,
            Err(e) => return Err(e),
        };
        let time = match get_opt_text(j, "time") {
            Ok(x) => x,
            Err(e) => return Err(e),
        };
        let app_name = match get_text(j, "appName") {
            Ok(x) => x,
            Err(e) => return Err(e),
        };
        let ticker = match get_text(j, "ticker") {
            Ok(x) => x,
            Err(e) => return Err(e),
        };
        let title = match get_text(j, "title") {
            Ok(x) => x,
            Err(e) => return Err(e),
        };
        let text = match get_text(j, "text") {
            Ok(x) => x,
            Err(e) => return Err(e),
        };
        let payload_hash = match get_opt_text(j, "payloadHash") {
            Ok(x) => x,
            Err(e) => return Err(e),
        };
        let actions = match get_opt_texts(j, "actions") {
            Ok(x) => x,
            Err(e) => return Err(e),
        };
        let request_reply_id = match get_opt_text(j, "requestReplyId") {
            Ok(x) => x,
            Err(e) => return Err(e),
        };
        let names: Vec<String> = vec![
            "id".to_owned(),
            "isCancel".to_owned(),
            "isClearable".to_owned(),
            "onlyOnce".to_owned(),
            "silent".to_owned(),
            "time".to_owned(),
            "appName".to_owned(),
            "ticker".to_owned(),
            "title".to_owned(),
            "text".to_owned(),
            "payloadHash".to_owned(),
            "actions".to_owned(),
            "requestReplyId".to_owned(),
        ];
        assert(names_of(names@) =~= Self::declared()) by {
            assert(names@[0]@ == "id"@);
            assert(names@[1]@ == "isCancel"@);
            assert(names@[2]@ == "isClearable"@);
            assert(names@[3]@ == "onlyOnce"@);
            assert(names@[4]@ == "silent"@);
            assert(names@[5]@ == "time"@);
            assert(names@[6]@ == "appName"@);
            assert(names@[7]@ == "ticker"@);
            assert(names@[8]@ == "title"@);
            assert(names@[9]@ == "text"@);
            assert(names@[10]@ == "payloadHash"@);
            assert(names@[11]@ == "actions"@);
            assert(names@[12]@ == "requestReplyId"@);
        }
        match j.first_besides(&names) {
            Some(key) => return Err(key),
            None => {},
        }
        Ok(
            Notification {
                id,
                is_cancel,
                is_clearable,
                only_once,
                silent,
                time,
                app_name,
                ticker,
                title,
                text,
                payload_hash,
                actions,
                request_reply_id,
            },
        )
    }

    proof fn lemma_round_trip(v: NotificationView) {
        broadcast use {group_lookup, group_field_laws, vstd::string::group_string_axioms};
        reveal_strlit("id");
        reveal_strlit("isCancel");
        reveal_strlit("isClearable");
        reveal_strlit("onlyOnce");
        reveal_strlit("silent");
        reveal_strlit("time");
        reveal_strlit("appName");
        reveal_strlit("ticker");
        reveal_strlit("title");
        reveal_strlit("text");
        reveal_strlit("payloadHash");
        reveal_strlit("actions");
        reveal_strlit("requestReplyId");
        let j = Self::wire(v);
        assert(req_text(j, "id"@) == Ok::<Seq<char>, Seq<char>>(v.id));
        assert(opt_bool(j, "isCancel"@) == Ok::<Option<bool>, Seq<char>>(v.is_cancel));
        assert(opt_bool(j, "isClearable"@) == Ok::<Option<bool>, Seq<char>>(v.is_clearable));
        assert(opt_bool(j, "onlyOnce"@) == Ok::<Option<bool>, Seq<char>>(v.only_once));
        assert(opt_bool(j, "silent"@) == Ok::<Option<bool>, Seq<char>>(v.silent));
        assert(opt_text(j, "time"@) == Ok::<Option<Seq<char>>, Seq<char>>(v.time));
        assert(req_text(j, "appName"@) == Ok::<Seq<char>, Seq<char>>(v.app_name));
        assert(req_text(j, "ticker"@) == Ok::<Seq<char>, Seq<char>>(v.ticker));
        assert(req_text(j, "title"@) == Ok::<Seq<char>, Seq<char>>(v.title));
        assert(req_text(j, "text"@) == Ok::<Seq<char>, Seq<char>>(v.text));
        assert(opt_text(j, "payloadHash"@) == Ok::<Option<Seq<char>>, Seq<char>>(v.payload_hash));
        assert(opt_texts(j, "actions"@) == Ok::<Option<Seq<Seq<char>>>, Seq<char>>(v.actions));
        assert(opt_text(j, "requestReplyId"@) == Ok::<Option<Seq<char>>, Seq<char>>(
            v.request_reply_id,
        ));
        assert(undeclared(j, Self::declared()) is None);
    }

    proof fn lemma_wire_wf(v: NotificationView) {
        broadcast use {group_wf_laws, vstd::string::group_string_axioms};
        reveal_strlit("id");
        reveal_strlit("isCancel");
        reveal_strlit("isClearable");
        reveal_strlit("onlyOnce");
        reveal_strlit("silent");
        reveal_strlit("time");
        reveal_strlit("appName");
        reveal_strlit("ticker");
        reveal_strlit("title");
        reveal_strlit("text");
        reveal_strlit("payloadHash");
        reveal_strlit("actions");
        reveal_strlit("requestReplyId");
        let ms = Self::wire(v)->Object_0;
        assert(ms.len() == 13);
        assert(ms[0].key == "id"@ && key_mark(ms[0].key).0 == 2);
        assert(ms[1].key == "isCancel"@ && key_mark(ms[1].key).0 == 8);
        assert(ms[2].key == "isClearable"@ && key_mark(ms[2].key).0 == 11);
        assert(ms[3].key == "onlyOnce"@ && key_mark(ms[3].key).0 == 8);
        assert(ms[4].key == "silent"@ && key_mark(ms[4].key).0 == 6);
        assert(ms[5].key == "time"@ && key_mark(ms[5].key).0 == 4);
        assert(ms[6].key == "appName"@ && key_mark(ms[6].key).0 == 7);
        assert(ms[7].key == "ticker"@ && key_mark(ms[7].key).0 == 6);
        assert(ms[8].key == "title"@ && key_mark(ms[8].key).0 == 5);
        assert(ms[9].key == "text"@ && key_mark(ms[9].key).0 == 4);
        assert(ms[10].key == "payloadHash"@ && key_mark(ms[10].key).0 == 11);
        assert(ms[11].key == "actions"@ && key_mark(ms[11].key).0 == 7);
        assert(ms[12].key == "requestReplyId"@ && key_mark(ms[12].key).0 == 14);
        assert(distinct_keys(ms));
        assert(ms[0].value.wf());
        assert(ms[1].value.wf());
        assert(ms[2].value.wf());
        assert(ms[3].value.wf());
        assert(ms[4].value.wf());
        assert(ms[5].value.wf());
        assert(ms[6].value.wf());
        assert(ms[7].value.wf());
        assert(ms[8].value.wf());
        assert(ms[9].value.wf());
        assert(ms[10].value.wf());
        assert(ms[11].value.wf());
        assert(ms[12].value.wf());
    }

    proof fn lemma_unfit_is_refused(j: JsonModel) {
        broadcast use group_field_refusals;
        lemma_undeclared(j, Self::declared());
    }
}

/// Triggers one of the actions of a notification.
#[derive(Debug, PartialEq, Eq)]
pub struct NotificationAction {
    pub key: String,
    pub action: String,
}

/// Model of [`NotificationAction`].
pub struct NotificationActionView {
    pub key: Seq<char>,
    pub action: Seq<char>,
}

impl View for NotificationAction {
    type V = NotificationActionView;

    open spec fn view(&self) -> NotificationActionView {
        NotificationActionView {
            key: self.key@,
            action: self.action@,
        }
    }
}

impl Shape for NotificationAction {
    open spec fn wire(v: NotificationActionView) -> JsonModel {
        JsonModel::Object(
            Seq::empty()
                .push(Member { key: "key"@, value: text_model(v.key) })
                .push(Member { key: "action"@, value: text_model(v.action) }),
        )
    }

    open spec fn parse(j: JsonModel) -> Result<NotificationActionView, Seq<char>> {
        if object_check(j) is Err {
            Err(Seq::empty())
        } else if req_text(j, "key"@) is Err {
            Err("key"@)
        } else if req_text(j, "action"@) is Err {
            Err("action"@)
        } else if undeclared(j, Self::declared()) is Some {
            Err(undeclared(j, Self::declared())->Some_0)
        } else {
            Ok(
                NotificationActionView {
                    key: req_text(j, "key"@)->Ok_0,
                    action: req_text(j, "action"@)->Ok_0,
                },
            )
        }
    }

    open spec fn declared() -> Set<Seq<char>> {
        Set::empty().insert("key"@).insert("action"@)
    }

    open spec fn required() -> Set<Seq<char>> {
        Set::empty().insert("key"@).insert("action"@)
    }

    open spec fn wf(v: NotificationActionView) -> bool {
        true
    }

    open spec fn writable(v: NotificationActionView) -> bool {
        true
    }

    fn to_json(&self) -> (j: Json) {
        let mut ms = new_members();
        put(&mut ms, "key", text_json(&self.key));
        put(&mut ms, "action", text_json(&self.action));
        object_of(ms)
    }

    fn from_json(j: &Json) -> (r: Result<NotificationAction, String>) {
        match check_object(j) {
            Ok(_) => {},
            Err(e) => return Err(e),
        }
        let key = match get_text(j, "key") {
            Ok(x) => x,
            Err(e) => return Err(e),
        };
        let action = match get_text(j, "action") {
            Ok(x) => x,
            Err(e) => return Err(e),
        };
        let names: Vec<String> = vec!["key".to_owned(), "action".to_owned()];
        assert(names_of(names@) =~= Self::declared()) by {
            assert(names@[0]@ == "key"@);
            assert(names@[1]@ == "action"@);
        }
        match j.first_besides(&names) {
            Some(key) => return Err(key),
            None => {},
        }
        Ok(NotificationAction { key, action })
    }

    proof fn lemma_round_trip(v: NotificationActionView) {
        broadcast use {group_lookup, group_field_laws, vstd::string::group_string_axioms};
        reveal_strlit("key");
        reveal_strlit("action");
    }

    proof fn lemma_wire_wf(v: NotificationActionView) {
        broadcast use {group_wf_laws, vstd::string::group_string_axioms};
        reveal_strlit("key");
        reveal_strlit("action");
        let ms = Self::wire(v)->Object_0;
        assert(ms.len() == 2);
        assert(ms[0].key == "key"@ && key_mark(ms[0].key).0 == 3);
        assert(ms[1].key == "action"@ && key_mark(ms[1].key).0 == 6);
        assert(distinct_keys(ms));
        assert(ms[0].value.wf());
        assert(ms[1].value.wf());
    }

    proof fn lemma_unfit_is_refused(j: JsonModel) {
        broadcast use group_field_refusals;
        lemma_undeclared(j, Self::declared());
    }
}

/// A reply to a notification that takes one.
#[derive(Debug, PartialEq, Eq)]
pub struct NotificationReply {
    pub message: String,
    pub request_reply_id: String,
}

/// Model of [`NotificationReply`].
pub struct NotificationReplyView {
    pub message: Seq<char>,
    pub request_reply_id: Seq<char>,
}

impl View for NotificationReply {
    type V = NotificationReplyView;

    open spec fn view(&self) -> NotificationReplyView {
        NotificationReplyView {
            message: self.message@,
            request_reply_id: self.request_reply_id@,
        }
    }
}

impl Shape for NotificationReply {
    open spec fn wire(v: NotificationReplyView) -> JsonModel {
        JsonModel::Object(
            Seq::empty()
                .push(Member { key: "message"@, value: text_model(v.message) })
                .push(Member { key: "requestReplyId"@, value: text_model(v.request_reply_id) }),
        )
    }

    open spec fn parse(j: JsonModel) -> Result<NotificationReplyView, Seq<char>> {
        if object_check(j) is Err {
            Err(Seq::empty())
        } else if req_text(j, "message"@) is Err {
            Err("message"@)
        } else if req_text(j, "requestReplyId"@) is Err {
            Err("requestReplyId"@)
        } else if undeclared(j, Self::declared()) is Some {
            Err(undeclared(j, Self::declared())->Some_0)
        } else {
            Ok(
                NotificationReplyView {
                    message: req_text(j, "message"@)->Ok_0,
                    request_reply_id: req_text(j, "requestReplyId"@)->Ok_0,
                },
            )
        }
    }

    open spec fn declared() -> Set<Seq<char>> {
        Set::empty().insert("message"@).insert("requestReplyId"@)
    }

    open spec fn required() -> Set<Seq<char>> {
        Set::empty().insert("message"@).insert("requestReplyId"@)
    }

    open spec fn wf(v: NotificationReplyView) -> bool {
        true
    }

    open spec fn writable(v: NotificationReplyView) -> bool {
        true
    }

    fn to_json(&self) -> (j: Json) {
        let mut ms = new_members();
        put(&mut ms, "message", text_json(&self.message));
        put(&mut ms, "requestReplyId", text_json(&self.request_reply_id));
        object_of(ms)
    }

    fn from_json(j: &Json) -> (r: Result<NotificationReply, String>) {
        match check_object(j) {
            Ok(_) => {},
            Err(e) => return Err(e),
        }
        let message = match get_text(j, "message") {
            Ok(x) => x,
            Err(e) => return Err(e),
        };
        let request_reply_id = match get_text(j, "requestReplyId") {
            Ok(x) => x,
            Err(e) => return Err(e),
        };
        let names: Vec<String> = vec!["message".to_owned(), "requestReplyId".to_owned()];
        assert(names_of(names@) =~= Self::declared()) by {
            assert(names@[0]@ == "message"@);
            assert(names@[1]@ == "requestReplyId"@);
        }
        match j.first_besides(&names) {
            Some(key) => return Err(key),
            None => {},
        }
        Ok(NotificationReply { message, request_reply_id })
    }

    proof fn lemma_round_trip(v: NotificationReplyView) {
        broadcast use {group_lookup, group_field_laws, vstd::string::group_string_axioms};
        reveal_strlit("message");
        reveal_strlit("requestReplyId");
    }

    proof fn lemma_wire_wf(v: NotificationReplyView) {
        broadcast use {group_wf_laws, vstd::string::group_string_axioms};
        reveal_strlit("message");
        reveal_strlit("requestReplyId");
        let ms = Self::wire(v)->Object_0;
        assert(ms.len() == 2);
        assert(ms[0].key == "message"@ && key_mark(ms[0].key).0 == 7);
        assert(ms[1].key == "requestReplyId"@ && key_mark(ms[1].key).0 == 14);
        assert(distinct_keys(ms));
        assert(ms[0].value.wf());
        assert(ms[1].value.wf());
    }

    proof fn lemma_unfit_is_refused(j: JsonModel) {
        broadcast use group_field_refusals;
        lemma_undeclared(j, Self::declared());
    }
}

/// Asks a device for its notifications, or to dismiss one.
#[derive(Debug, PartialEq, Eq)]
pub struct NotificationRequest {
    pub cancel: Option<String>,
    pub request: Option<bool>,
}

/// Model of [`NotificationRequest`].
pub struct NotificationRequestView {
    pub cancel: Option<Seq<char>>,
    pub request: Option<bool>,
}

impl View for NotificationRequest {
    type V = NotificationRequestView;

    open spec fn view(&self) -> NotificationRequestView {
        NotificationRequestView {
            cancel: opt_text_view(self.cancel),
            request: self.request,
        }
    }
}

impl Shape for NotificationRequest {
    open spec fn wire(v: NotificationRequestView) -> JsonModel {
        JsonModel::Object(
            Seq::empty()
                .push(Member { key: "cancel"@, value: opt_text_model(v.cancel) })
                .push(Member { key: "request"@, value: opt_bool_model(v.request) }),
        )
    }

    open spec fn parse(j: JsonModel) -> Result<NotificationRequestView, Seq<char>> {
        if object_check(j) is Err {
            Err(Seq::empty())
        } else if opt_text(j, "cancel"@) is Err {
            Err("cancel"@)
        } else if opt_bool(j, "request"@) is Err {
            Err("request"@)
        } else if undeclared(j, Self::declared()) is Some {
            Err(undeclared(j, Self::declared())->Some_0)
        } else {
            Ok(
                NotificationRequestView {
                    cancel: opt_text(j, "cancel"@)->Ok_0,
                    request: opt_bool(j, "request"@)->Ok_0,
                },
            )
        }
    }

    open spec fn declared() -> Set<Seq<char>> {
        Set::empty().insert("cancel"@).insert("request"@)
    }

    open spec fn required() -> Set<Seq<char>> {
        Set::empty()
    }

    open spec fn wf(v: NotificationRequestView) -> bool {
        true
    }

    open spec fn writable(v: NotificationRequestView) -> bool {
        true
    }

    fn to_json(&self) -> (j: Json) {
        let mut ms = new_members();
        put(&mut ms, "cancel", opt_text_json(&self.cancel));
        put(&mut ms, "request", opt_bool_json(&self.request));
        object_of(ms)
    }

    fn from_json(j: &Json) -> (r: Result<NotificationRequest, String>) {
        match check_object(j) {
            Ok(_) => {},
            Err(e) => return Err(e),
        }
        let cancel = match get_opt_text(j, "cancel") {
            Ok(x) => x,
            Err(e) => return Err(e),
        };
        let request = match get_opt_bool(j, "request") {
            Ok(x) => x,
            Err(e) => return Err(e),
        };
        let names: Vec<String> = vec!["cancel".to_owned(), "request".to_owned()];
        assert(names_of(names@) =~= Self::declared()) by {
            assert(names@[0]@ == "cancel"@);
            assert(names@[1]@ == "request"@);
        }
        match j.first_besides(&names) {
            Some(key) => return Err(key),
            None => {},
        }
        Ok(NotificationRequest { cancel, request })
    }

    proof fn lemma_round_trip(v: NotificationRequestView) {
        broadcast use {group_lookup, group_field_laws, vstd::string::group_string_axioms};
        reveal_strlit("cancel");
        reveal_strlit("request");
    }

    proof fn lemma_wire_wf(v: NotificationRequestView) {
        broadcast use {group_wf_laws, vstd::string::group_string_axioms};
        reveal_strlit("cancel");
        reveal_strlit("request");
        let ms = Self::wire(v)->Object_0;
        assert(ms.len() == 2);
        assert(ms[0].key == "cancel"@ && key_mark(ms[0].key).0 == 6);
        assert(ms[1].key == "request"@ && key_mark(ms[1].key).0 == 7);
        assert(distinct_keys(ms));
        assert(ms[0].value.wf());
        assert(ms[1].value.wf());
    }

    proof fn lemma_unfit_is_refused(j: JsonModel) {
        lemma_undeclared(j, Self::declared());
    }
}

} // verus!
