//! Calls and messages of a phone.

use crate::field::{
    bool_json, bool_model, check_object, get_bool, get_opt_text, group_field_laws,
    group_field_refusals, group_wf_laws, new_members, object_check, object_of, opt_text,
    opt_text_json, opt_text_model, opt_text_view, put, req_bool,
};
use crate::shape::{
    get_word, group_shape_laws, group_shape_refusals, group_shape_wf_laws, req_word, word_json,
    word_wire, Shape, Word,
};
use crate::value::{
    distinct_keys, group_lookup, key_mark, lemma_undeclared, names_of, same_text, undeclared, Json,
    JsonModel, Member,
};
use vstd::prelude::*;

verus! {

/// What happened on the phone.
#[derive(Debug, Clone, Copy, PartialEq, Eq, Structural)]
pub enum TelephonyEvent {
    MissedCall,
    Ringing,
    Talking,
    Sms,
}

impl Word for TelephonyEvent {
    open spec fn name(self) -> Seq<char> {
        match self {
            TelephonyEvent::MissedCall => "missedCall"@,
            TelephonyEvent::Ringing => "ringing"@,
            TelephonyEvent::Talking => "talking"@,
            TelephonyEvent::Sms => "sms"@,
        }
    }

    open spec fn from_name(name: Seq<char>) -> Option<TelephonyEvent> {
        if name == "missedCall"@ {
            Some(TelephonyEvent::MissedCall)
        } else if name == "ringing"@ {
            Some(TelephonyEvent::Ringing)
        } else if name == "talking"@ {
            Some(TelephonyEvent::Talking)
        } else if name == "sms"@ {
            Some(TelephonyEvent::Sms)
        } else {
            None
        }
    }

    fn as_str(&self) -> (s: &'static str) {
        match self {
            TelephonyEvent::MissedCall => "missedCall",
            TelephonyEvent::Ringing => "ringing",
            TelephonyEvent::Talking => "talking",
            TelephonyEvent::Sms => "sms",
        }
    }

    fn from_str(name: &str) -> (r: Option<TelephonyEvent>) {
        if same_text(name, "missedCall") {
            Some(TelephonyEvent::MissedCall)
        } else if same_text(name, "ringing") {
            Some(TelephonyEvent::Ringing)
        } else if same_text(name, "talking") {
            Some(TelephonyEvent::Talking)
        } else if same_text(name, "sms") {
            Some(TelephonyEvent::Sms)
        } else {
            None
        }
    }

    proof fn lemma_name_round_trip(x: TelephonyEvent) {
        broadcast use vstd::string::group_string_axioms;
        reveal_strlit("missedCall");
        reveal_strlit("ringing");
        reveal_strlit("talking");
        reveal_strlit("sms");
        // No two names agree in their marks.
        assert(key_mark("missedCall"@).0 == 10);
        assert(key_mark("ringing"@).0 == 7);
        assert(key_mark("talking"@).0 == 7);
        assert(key_mark("sms"@).0 == 3);
    }
}

/// An event on the phone, with what is known of the caller.
#[derive(Debug, PartialEq, Eq)]
pub struct TelephonyBody {
    pub event: TelephonyEvent,
    pub contact_name: Option<String>,
    pub message_body: Option<String>,
    pub phone_number: Option<String>,
    pub phone_thumbnail: Option<String>,
    pub is_cancel: bool,
}

/// Model of [`TelephonyBody`].
pub struct TelephonyBodyView {
    pub event: TelephonyEvent,
    pub contact_name: Option<Seq<char>>,
    pub message_body: Option<Seq<char>>,
    pub phone_number: Option<Seq<char>>,
    pub phone_thumbnail: Option<Seq<char>>,
    pub is_cancel: bool,
}

impl View for TelephonyBody {
    type V = TelephonyBodyView;

    open spec fn view(&self) -> TelephonyBodyView {
        TelephonyBodyView {
            event: self.event,
            contact_name: opt_text_view(self.contact_name),
            message_body: opt_text_view(self.message_body),
            phone_number: opt_text_view(self.phone_number),
            phone_thumbnail: opt_text_view(self.phone_thumbnail),
            is_cancel: self.is_cancel,
        }
    }
}

impl Shape for TelephonyBody {
    open spec fn wire(v: TelephonyBodyView) -> JsonModel {
        JsonModel::Object(
            Seq::empty()
                .push(Member { key: "event"@, value: word_wire(v.event) })
                .push(Member { key: "contactName"@, value: opt_text_model(v.contact_name) })
                .push(Member { key: "messageBody"@, value: opt_text_model(v.message_body) })
                .push(Member { key: "phoneNumber"@, value: opt_text_model(v.phone_number) })
                .push(Member { key: "phoneThumbnail"@, value: opt_text_model(v.phone_thumbnail) })
                .push(Member { key: "isCancel"@, value: bool_model(v.is_cancel) }),
        )
    }

    open spec fn parse(j: JsonModel) -> Result<TelephonyBodyView, Seq<char>> {
        if object_check(j) is Err {
            Err(Seq::empty())
        } else if req_word::<TelephonyEvent>(j, "event"@) is Err {
            Err("event"@)
        } else if opt_text(j, "contactName"@) is Err {
            Err("contactName"@)
        } else if opt_text(j, "messageBody"@) is Err {
            Err("messageBody"@)
        } else if opt_text(j, "phoneNumber"@) is Err {
            Err("phoneNumber"@)
        } else if opt_text(j, "phoneThumbnail"@) is Err {
            Err("phoneThumbnail"@)
        } else if req_bool(j, "isCancel"@) is Err {
            Err("isCancel"@)
        } else if undeclared(j, Self::declared()) is Some {
            Err(undeclared(j, Self::declared())->Some_0)
        } else {
            Ok(
                TelephonyBodyView {
                    event: req_word::<TelephonyEvent>(j, "event"@)->Ok_0,
                    contact_name: opt_text(j, "contactName"@)->Ok_0,
                    message_body: opt_text(j, "messageBody"@)->Ok_0,
                    phone_number: opt_text(j, "phoneNumber"@)->Ok_0,
                    phone_thumbnail: opt_text(j, "phoneThumbnail"@)->Ok_0,
                    is_cancel: req_bool(j, "isCancel"@)->Ok_0,
                },
            )
        }
    }

    open spec fn declared() -> Set<Seq<char>> {
        Set::empty()
            .insert("event"@)
            .insert("contactName"@)
            .insert("messageBody"@)
            .insert("phoneNumber"@)
            .insert("phoneThumbnail"@)
            .insert("isCancel"@)
    }

    open spec fn required() -> Set<Seq<char>> {
        Set::empty().insert("event"@).insert("isCancel"@)
    }

    open spec fn wf(v: TelephonyBodyView) -> bool {
        true
    }

    open spec fn writable(v: TelephonyBodyView) -> bool {
        true
    }

    fn to_json(&self) -> (j: Json) {
        let mut ms = new_members();
        put(&mut ms, "event", word_json(&self.event));
        put(&mut ms, "contactName", opt_text_json(&self.contact_name));
        put(&mut ms, "messageBody", opt_text_json(&self.message_body));
        put(&mut ms, "phoneNumber", opt_text_json(&self.phone_number));
        put(&mut ms, "phoneThumbnail", opt_text_json(&self.phone_thumbnail));
        put(&mut ms, "isCancel", bool_json(self.is_cancel));
        object_of(ms)
    }

    fn from_json(j: &Json) -> (r: Result<TelephonyBody, String>) {
        match check_object(j) {
            Ok(_) => {},
            Err(e) => return Err(e),
        }
        let event = match get_word::<TelephonyEvent>(j, "event") {
            Ok(x) => x,
            Err(e) => return Err(e),
        };
        let contact_name = match get_opt_text(j, "contactName") {
            Ok(x) => x,
            Err(e) => return Err(e),
        };
        let message_body = match get_opt_text(j, "messageBody") {
            Ok(x) => x,
            Err(e) => return Err(e),
        };
        let phone_number = match get_opt_text(j, "phoneNumber") {
            Ok(x) => x,
            Err(e) => return Err(e),
        };
        let phone_thumbnail = match get_opt_text(j, "phoneThumbnail") {
            Ok(x) => x,
            Err(e) => return Err(e),
        };
        let is_cancel = match get_bool(j, "isCancel") {
            Ok(x) => x,
            Err(e) => return Err(e),
        };
        let names: Vec<String> = vec![
            "event".to_owned(),
            "contactName".to_owned(),
            "messageBody".to_owned(),
            "phoneNumber".to_owned(),
            "phoneThumbnail".to_owned(),
            "isCancel".to_owned(),
        ];
        assert(names_of(names@) =~= Self::declared()) by {
            assert(names@[0]@ == "event"@);
            assert(names@[1]@ == "contactName"@);
            assert(names@[2]@ == "messageBody"@);
            assert(names@[3]@ == "phoneNumber"@);
            assert(names@[4]@ == "phoneThumbnail"@);
            assert(names@[5]@ == "isCancel"@);
        }
        match j.first_besides(&names) {
            Some(key) => return Err(key),
            None => {},
        }
        Ok(
            TelephonyBody {
                event,
                contact_name,
                message_body,
                phone_number,
                phone_thumbnail,
                is_cancel,
            },
        )
    }

    proof fn lemma_round_trip(v: TelephonyBodyView) {
        broadcast use {
            group_lookup,
            group_field_laws,
            group_shape_laws,
            vstd::string::group_string_axioms,
        };
        reveal_strlit("event");
        reveal_strlit("contactName");
        reveal_strlit("messageBody");
        reveal_strlit("phoneNumber");
        reveal_strlit("phoneThumbnail");
        reveal_strlit("isCancel");
        let j = Self::wire(v);
        assert(req_word::<TelephonyEvent>(j, "event"@) == Ok::<TelephonyEvent, Seq<char>>(v.event));
        assert(opt_text(j, "contactName"@) == Ok::<Option<Seq<char>>, Seq<char>>(v.contact_name));
        assert(opt_text(j, "messageBody"@) == Ok::<Option<Seq<char>>, Seq<char>>(v.message_body));
        assert(opt_text(j, "phoneNumber"@) == Ok::<Option<Seq<char>>, Seq<char>>(v.phone_number));
        assert(opt_text(j, "phoneThumbnail"@) == Ok::<Option<Seq<char>>, Seq<char>>(
            v.phone_thumbnail,
        ));
        assert(req_bool(j, "isCancel"@) == Ok::<bool, Seq<char>>(v.is_cancel));
        assert(undeclared(j, Self::declared()) is None);
    }

    proof fn lemma_wire_wf(v: TelephonyBodyView) {
        broadcast use {group_wf_laws, group_shape_wf_laws, vstd::string::group_string_axioms};
        reveal_strlit("event");
        reveal_strlit("contactName");
        reveal_strlit("messageBody");
        reveal_strlit("phoneNumber");
        reveal_strlit("phoneThumbnail");
        reveal_strlit("isCancel");
        let ms = Self::wire(v)->Object_0;
        assert(ms.len() == 6);
        assert(ms[0].key == "event"@ && key_mark(ms[0].key).0 == 5);
        assert(ms[1].key == "contactName"@ && key_mark(ms[1].key).0 == 11);
        assert(ms[2].key == "messageBody"@ && key_mark(ms[2].key).0 == 11);
        assert(ms[3].key == "phoneNumber"@ && key_mark(ms[3].key).0 == 11);
        assert(ms[4].key == "phoneThumbnail"@ && key_mark(ms[4].key).0 == 14);
        assert(ms[5].key == "isCancel"@ && key_mark(ms[5].key).0 == 8);
        assert(distinct_keys(ms));
        assert(ms[0].value.wf());
        assert(ms[1].value.wf());
        assert(ms[2].value.wf());
        assert(ms[3].value.wf());
        assert(ms[4].value.wf());
        assert(ms[5].value.wf());
    }

    proof fn lemma_unfit_is_refused(j: JsonModel) {
        broadcast use {group_field_refusals, group_shape_refusals};
        lemma_undeclared(j, Self::declared());
    }
}

/// Asks a phone to silence its ringer.
#[derive(Debug, PartialEq, Eq)]
pub struct TelephonyRequestMute {}

/// Model of [`TelephonyRequestMute`].
pub struct TelephonyRequestMuteView {}

impl View for TelephonyRequestMute {
    type V = TelephonyRequestMuteView;

    open spec fn view(&self) -> TelephonyRequestMuteView {
        TelephonyRequestMuteView {}
    }
}

impl Shape for TelephonyRequestMute {
    open spec fn wire(v: TelephonyRequestMuteView) -> JsonModel {
        JsonModel::Object(Seq::empty())
    }

    open spec fn parse(j: JsonModel) -> Result<TelephonyRequestMuteView, Seq<char>> {
        if object_check(j) is Err {
            Err(Seq::empty())
        } else if undeclared(j, Self::declared()) is Some {
            Err(undeclared(j, Self::declared())->Some_0)
        } else {
            Ok(TelephonyRequestMuteView {})
        }
    }

    open spec fn declared() -> Set<Seq<char>> {
        Set::empty()
    }

    open spec fn required() -> Set<Seq<char>> {
        Set::empty()
    }

    open spec fn wf(v: TelephonyRequestMuteView) -> bool {
        true
    }

    open spec fn writable(v: TelephonyRequestMuteView) -> bool {
        true
    }

    fn to_json(&self) -> (j: Json) {
        object_of(new_members())
    }

    fn from_json(j: &Json) -> (r: Result<TelephonyRequestMute, String>) {
        match check_object(j) {
            Ok(_) => {},
            Err(e) => return Err(e),
        }
        let names: Vec<String> = Vec::new();
        assert(names_of(names@) =~= Self::declared());
        match j.first_besides(&names) {
            Some(key) => return Err(key),
            None => {},
        }
        Ok(TelephonyRequestMute {})
    }

    proof fn lemma_round_trip(v: TelephonyRequestMuteView) {
        broadcast use group_lookup;
    }

    proof fn lemma_wire_wf(v: TelephonyRequestMuteView) {
        assert(distinct_keys(Seq::<Member>::empty()));
    }

    proof fn lemma_unfit_is_refused(j: JsonModel) {
        lemma_undeclared(j, Self::declared());
    }
}

} // verus!
