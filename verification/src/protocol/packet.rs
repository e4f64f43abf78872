//! The packet: the envelope that every message travels in. It names the
//! kind of its body by a tag, and the tag alone decides how the body is
//! read.

use crate::field::{
    get_bounded, get_opt_bounded, get_optional, get_text, group_field_laws, group_wf_laws, nat_json,
    nat_model, new_members, object_of, opt_bounded, opt_nat_json, opt_nat_model, optional, put,
    req_bounded, req_text, text_json, text_model,
};
use crate::protocol::body::{BodyView, PacketBody, PacketKind};
use crate::value::{distinct_keys, group_lookup, key_mark, Json, JsonModel, Member};
use crate::wire::{json_parse, json_text, read_text, write_text};
use vstd::prelude::*;
use vstd::string::StringExecFns;

verus! {

/// Why a packet could not be made or written.
#[derive(Debug, Clone, Copy, PartialEq, Eq, Structural)]
pub enum EncodeError {
    /// The body, or the packet around it, has no wire text: a number in it
    /// is no number literal, or an object in it holds a key twice.
    Unserializable,
    /// The clock of the machine stands before 1970, so that there is no
    /// time to number the packet with.
    ClockBeforeEpoch,
}

/// Why a text could not be read as a packet.
#[derive(Debug, PartialEq, Eq)]
pub enum DecodeError {
    /// The text is no JSON text.
    Syntax,
    /// The text is no envelope: the named field of the envelope is missing
    /// or holds a value of the wrong kind (no field is named where the text
    /// holds no object at all).
    Envelope(String),
    /// The tag of the envelope names no kind of body.
    UnknownTag(String),
    /// The tag names a kind, but the body is no body of that kind: the
    /// second text names the field at which reading it failed, or the
    /// member that the kind does not take.
    ShapeMismatch(String, String),
}

/// Model of [`DecodeError`].
pub enum DecodeErrorView {
    Syntax,
    Envelope(Seq<char>),
    UnknownTag(Seq<char>),
    ShapeMismatch(Seq<char>, Seq<char>),
}

impl View for DecodeError {
    type V = DecodeErrorView;

    open spec fn view(&self) -> DecodeErrorView {
        match self {
            DecodeError::Syntax => DecodeErrorView::Syntax,
            DecodeError::Envelope(field) => DecodeErrorView::Envelope(field@),
            DecodeError::UnknownTag(tag) => DecodeErrorView::UnknownTag(tag@),
            DecodeError::ShapeMismatch(tag, field) => DecodeErrorView::ShapeMismatch(tag@, field@),
        }
    }
}

impl DecodeError {
    /// What the failure says in words.
    pub open spec fn message_text(e: DecodeErrorView) -> Seq<char> {
        match e {
            DecodeErrorView::Syntax => "the text is no JSON text"@,
            DecodeErrorView::Envelope(field) => "the envelope is broken at field: "@ + field,
            DecodeErrorView::UnknownTag(tag) => "unknown packet type: "@ + tag,
            DecodeErrorView::ShapeMismatch(tag, field) => "the body of "@ + tag
                + " is broken at field: "@ + field,
        }
    }

    /// What the failure says in words.
    pub fn message(&self) -> (m: String)
        ensures
            m@ == Self::message_text(self@),
    {
        match self {
            DecodeError::Syntax => "the text is no JSON text".to_owned(),
            DecodeError::Envelope(field) => {
                let mut m = "the envelope is broken at field: ".to_owned();
                m.append(field.as_str());
                m
            },
            DecodeError::UnknownTag(tag) => {
                let mut m = "unknown packet type: ".to_owned();
                m.append(tag.as_str());
                m
            },
            DecodeError::ShapeMismatch(tag, field) => {
                let mut m = "the body of ".to_owned();
                m.append(tag.as_str());
                m.append(" is broken at field: ");
                m.append(field.as_str());
                m
            },
        }
    }
}

/// A packet.
#[derive(Debug, PartialEq, Eq)]
pub struct Packet {
    /// The time at which the packet was made, in milliseconds since 1970.
    pub id: u128,
    /// The tag of the body.
    pub packet_type: String,
    pub body: PacketBody,
    /// The length in bytes of the wire text of the body alone.
    pub payload_size: Option<usize>,
    /// How to fetch a payload that travels beside the packet; it passes
    /// through as it is.
    pub payload_transfer_info: Option<Json>,
}

/// Model of [`Packet`].
pub struct PacketView {
    pub id: u128,
    pub packet_type: Seq<char>,
    pub body: BodyView,
    pub payload_size: Option<usize>,
    pub payload_transfer_info: Option<JsonModel>,
}

impl View for Packet {
    type V = PacketView;

    open spec fn view(&self) -> PacketView {
        PacketView {
            id: self.id,
            packet_type: self.packet_type@,
            body: self.body@,
            payload_size: self.payload_size,
            payload_transfer_info: opt_json_view(self.payload_transfer_info),
        }
    }
}

/// The model of an optional value.
pub open spec fn opt_json_view(o: Option<Json>) -> Option<JsonModel> {
    match o {
        Some(j) => Some(j@),
        None => None,
    }
}

/// An optional value as it is written: null where there is none.
pub open spec fn opt_json_model(o: Option<JsonModel>) -> JsonModel {
    match o {
        Some(j) => j,
        None => JsonModel::Null,
    }
}

/// An optional size as a number.
pub open spec fn opt_size_view(o: Option<usize>) -> Option<nat> {
    match o {
        Some(n) => Some(n as nat),
        None => None,
    }
}

/// Whether decoding gave what the rules of the envelope ask for: the same
/// packet, or the same failure.
pub open spec fn decoded(
    r: Result<Packet, DecodeError>,
    expected: Result<PacketView, DecodeErrorView>,
) -> bool {
    match r {
        Ok(p) => expected == Ok::<PacketView, DecodeErrorView>(p@),
        Err(e) => expected == Err::<PacketView, DecodeErrorView>(e@),
    }
}

/// `std::time::SystemTime::elapsed`, on the start of 1970: the time that has
/// passed since then, or nothing where the clock of the machine stands
/// before it. Nothing is assumed of the time.
#[verifier::external_body]
fn since_epoch() -> (r: Option<core::time::Duration>) {
    std::time::UNIX_EPOCH.elapsed().ok()
}

/// `core::time::Duration::as_millis`: a duration in whole milliseconds.
/// Nothing is assumed of the number.
pub assume_specification[ core::time::Duration::as_millis ](d: &core::time::Duration) -> (r: u128)
;

impl PacketView {
    /// A packet is read back as it was written when its tag is the tag of
    /// its body, its body can be written and read back, and its transfer
    /// information, where it has one, is not null.
    pub open spec fn wf(self) -> bool {
        &&& self.packet_type == self.body.kind().tag()
        &&& self.body.wf()
        &&& self.payload_transfer_info != Some(JsonModel::Null)
    }

    /// Whether a packet can be written to the wire: its body must be
    /// writable, and its transfer information, where it has one, a well
    /// formed value.
    pub open spec fn writable(self) -> bool {
        &&& self.body.writable()
        &&& (self.payload_transfer_info matches Some(info) ==> info.wf())
    }
}

impl Packet {
    /// The object that stands for the packet on the wire. The tag that is
    /// written is always the tag of the body's kind, whatever the packet
    /// holds as its tag: on the wire a tag never disagrees with its body.
    pub open spec fn wire(v: PacketView) -> JsonModel {
        JsonModel::Object(
            Seq::empty()
                .push(Member { key: "id"@, value: nat_model(v.id as nat) })
                .push(Member { key: "type"@, value: text_model(v.body.kind().tag()) })
                .push(Member { key: "body"@, value: v.body.wire() })
                .push(
                    Member {
                        key: "payloadSize"@,
                        value: opt_nat_model(opt_size_view(v.payload_size)),
                    },
                )
                .push(
                    Member {
                        key: "payloadTransferInfo"@,
                        value: opt_json_model(v.payload_transfer_info),
                    },
                ),
        )
    }

    /// The tag of an envelope, or the field that keeps a value from being
    /// an envelope. Whatever the body holds, it is not looked at here.
    pub open spec fn envelope(j: JsonModel) -> Result<Seq<char>, Seq<char>> {
        if !(j is Object) {
            Err(Seq::empty())
        } else if req_bounded(j, "id"@, u128::MAX as nat) is Err {
            Err("id"@)
        } else if req_text(j, "type"@) is Err {
            Err("type"@)
        } else if j.field("body"@) is None {
            Err("body"@)
        } else if opt_bounded(j, "payloadSize"@, usize::MAX as nat) is Err {
            Err("payloadSize"@)
        } else {
            req_text(j, "type"@)
        }
    }

    /// The packet that a value stands for. The envelope is read first, its
    /// body as it comes; then the tag is looked up in the catalog, and the
    /// body is read as the kind that the tag names.
    pub open spec fn parse(j: JsonModel) -> Result<PacketView, DecodeErrorView> {
        match Self::envelope(j) {
            Err(field) => Err(DecodeErrorView::Envelope(field)),
            Ok(tag) => match PacketKind::from_tag(tag) {
                None => Err(DecodeErrorView::UnknownTag(tag)),
                Some(kind) => match BodyView::parse(kind, j.field("body"@)->Some_0) {
                    Err(field) => Err(DecodeErrorView::ShapeMismatch(tag, field)),
                    Ok(body) => Ok(
                        PacketView {
                            id: req_bounded(j, "id"@, u128::MAX as nat)->Ok_0 as u128,
                            packet_type: tag,
                            body,
                            payload_size: match opt_bounded(
                                j,
                                "payloadSize"@,
                                usize::MAX as nat,
                            )->Ok_0 {
                                Some(n) => Some(n as usize),
                                None => None,
                            },
                            payload_transfer_info: optional(j, "payloadTransferInfo"@),
                        },
                    ),
                },
            },
        }
    }

    /// The packet that a wire text stands for.
    pub open spec fn decode(bytes: Seq<u8>) -> Result<PacketView, DecodeErrorView> {
        match json_parse(bytes) {
            Some(j) => Self::parse(j),
            None => Err(DecodeErrorView::Syntax),
        }
    }

    /// The value that stands for the packet on the wire.
    pub fn to_json(&self) -> (j: Json)
        ensures
            j@ == Self::wire(self@),
    {
        let mut ms = new_members();
        put(&mut ms, "id", nat_json(self.id));
        put(&mut ms, "type", text_json(&self.body.kind().as_str().to_owned()));
        put(&mut ms, "body", self.body.to_json());
        let size: Option<u128> = match self.payload_size {
            Some(n) => Some(n as u128),
            None => None,
        };
        put(&mut ms, "payloadSize", opt_nat_json(&size));
        let info = match &self.payload_transfer_info {
            Some(j) => j.clone(),
            None => Json::Null,
        };
        put(&mut ms, "payloadTransferInfo", info);
        object_of(ms)
    }

    /// Reads a packet from the value that stands for it.
    pub fn from_json(j: &Json) -> (r: Result<Packet, DecodeError>)
        ensures
            decoded(r, Self::parse(j@)),
    {
        match j {
            Json::Object(_) => {},
            _ => {
                return Err(DecodeError::Envelope(String::new()));
            },
        }
        let id = match get_bounded(j, "id", u128::MAX) {
            Ok(x) => x,
            Err(e) => return Err(DecodeError::Envelope(e)),
        };
        let tag = match get_text(j, "type") {
            Ok(x) => x,
            Err(e) => return Err(DecodeError::Envelope(e)),
        };
        let raw_body = match j.get("body") {
            Some(x) => x,
            None => return Err(DecodeError::Envelope("body".to_owned())),
        };
        let size = match get_opt_bounded(j, "payloadSize", usize::MAX as u128) {
            Ok(x) => x,
            Err(e) => return Err(DecodeError::Envelope(e)),
        };
        let kind = match PacketKind::of_tag(tag.as_str()) {
            Some(k) => k,
            None => return Err(DecodeError::UnknownTag(tag)),
        };
        let body = match PacketBody::from_json(kind, raw_body) {
            Ok(b) => b,
            Err(field) => return Err(DecodeError::ShapeMismatch(tag, field)),
        };
        let payload_size: Option<usize> = match size {
            Some(n) => Some(n as usize),
            None => None,
        };
        let payload_transfer_info = match get_optional(j, "payloadTransferInfo") {
            Some(x) => Some(x.clone()),
            None => None,
        };
        Ok(Packet { id, packet_type: tag, body, payload_size, payload_transfer_info })
    }

    /// Writes the packet as wire text. A packet has a text exactly when it
    /// can be written, and the text is the one that the writer gives for its
    /// value.
    pub fn serialize(&self) -> (r: Result<Vec<u8>, EncodeError>)
        ensures
            match r {
                Ok(bytes) => self@.writable() && bytes@ == json_text(Self::wire(self@)),
                Err(e) => !self@.writable() && e == EncodeError::Unserializable,
            },
    {
        proof {
            Self::lemma_wire_wf(self@);
        }
        Self::text_or_error(write_text(&self.to_json()))
    }

    /// What writing comes to, for each outcome of the writer.
    pub fn text_or_error(written: Option<Vec<u8>>) -> (r: Result<Vec<u8>, EncodeError>)
        ensures
            r == match written {
                Some(bytes) => Ok::<Vec<u8>, EncodeError>(bytes),
                None => Err::<Vec<u8>, EncodeError>(EncodeError::Unserializable),
            },
    {
        match written {
            Some(bytes) => Ok(bytes),
            None => Err(EncodeError::Unserializable),
        }
    }

    /// Reads a packet from its wire text.
    pub fn deserialize(bytes: &[u8]) -> (r: Result<Packet, DecodeError>)
        ensures
            decoded(r, Self::decode(bytes@)),
    {
        match read_text(bytes) {
            Some(j) => Self::from_json(&j),
            None => Err(DecodeError::Syntax),
        }
    }

    /// The packet around a body, given the time and the wire text of the
    /// body: the tag is the tag of the body's kind, the payload size the
    /// length of the text. Without a text there is no packet.
    pub fn seal(
        body: PacketBody,
        payload_transfer_info: Option<Json>,
        id: u128,
        body_text: Option<Vec<u8>>,
    ) -> (r: Result<Packet, EncodeError>)
        ensures
            match body_text {
                Some(text) => r matches Ok(p) && p@ == (PacketView {
                    id,
                    packet_type: body@.kind().tag(),
                    body: body@,
                    payload_size: Some(text@.len() as usize),
                    payload_transfer_info: opt_json_view(payload_transfer_info),
                }),
                None => r == Err::<Packet, EncodeError>(EncodeError::Unserializable),
            },
    {
        match body_text {
            Some(text) => {
                let packet_type = body.kind().as_str().to_owned();
                Ok(
                    Packet {
                        id,
                        packet_type,
                        body,
                        payload_size: Some(text.len()),
                        payload_transfer_info,
                    },
                )
            },
            None => Err(EncodeError::Unserializable),
        }
    }

    /// The packet around a body, made now. The tag is derived from the
    /// body; the payload size is the length of the wire text of the body
    /// alone; the identifier is the time in milliseconds since 1970. A body
    /// that cannot be written gives no packet, and no other body fails for
    /// that reason: for a body that can be written the only failure is a
    /// clock that stands before 1970.
    pub fn generate_packet(body: PacketBody, payload_transfer_info: Option<Json>) -> (r: Result<
        Packet,
        EncodeError,
    >)
        ensures
            r == Err::<Packet, EncodeError>(EncodeError::Unserializable) <==> !body@.writable(),
            r matches Ok(p) ==> {
                &&& p@.packet_type == body@.kind().tag()
                &&& p@.body == body@
                &&& p@.payload_size == Some(json_text(body@.wire()).len() as usize)
                &&& p@.payload_transfer_info == opt_json_view(payload_transfer_info)
            },
    {
        proof {
            body@.lemma_wire_wf();
        }
        let body_text = write_text(&body.to_json());
        if body_text.is_none() {
            return Err(EncodeError::Unserializable);
        }
        match since_epoch() {
            Some(elapsed) => {
                Self::seal(body, payload_transfer_info, elapsed.as_millis(), body_text)
            },
            None => Err(EncodeError::ClockBeforeEpoch),
        }
    }

    /// The object that stands for a packet is well formed exactly when the
    /// packet can be written.
    pub proof fn lemma_wire_wf(v: PacketView)
        ensures
            Self::wire(v).wf() == v.writable(),
    {
        broadcast use {group_wf_laws, vstd::string::group_string_axioms};
        reveal_strlit("id");
        reveal_strlit("type");
        reveal_strlit("body");
        reveal_strlit("payloadSize");
        reveal_strlit("payloadTransferInfo");
        v.body.lemma_wire_wf();
        let ms = Self::wire(v)->Object_0;
        assert(ms.len() == 5);
        assert(ms[0].key == "id"@ && key_mark(ms[0].key).0 == 2);
        assert(ms[1].key == "type"@ && key_mark(ms[1].key).1 == 't');
        assert(ms[2].key == "body"@ && key_mark(ms[2].key).1 == 'b');
        assert(ms[3].key == "payloadSize"@ && key_mark(ms[3].key).0 == 11);
        assert(ms[4].key == "payloadTransferInfo"@ && key_mark(ms[4].key).0 == 19);
        assert(key_mark(ms[1].key).0 == 4 && key_mark(ms[2].key).0 == 4);
        assert(distinct_keys(ms));
        assert(ms[0].value.wf());
        assert(ms[1].value.wf());
        assert(ms[2].value.wf() == v.body.writable());
        assert(ms[3].value.wf());
        assert(ms[4].value.wf() == (v.payload_transfer_info matches Some(info) ==> info.wf()));
    }

    /// A packet is read back from its value as it was written.
    pub proof fn lemma_round_trip(v: PacketView)
        requires
            v.wf(),
        ensures
            Self::parse(Self::wire(v)) == Ok::<PacketView, DecodeErrorView>(v),
    {
        broadcast use {group_lookup, group_field_laws, vstd::string::group_string_axioms};
        reveal_strlit("id");
        reveal_strlit("type");
        reveal_strlit("body");
        reveal_strlit("payloadSize");
        reveal_strlit("payloadTransferInfo");
        let j = Self::wire(v);
        assert(req_bounded(j, "id"@, u128::MAX as nat) == Ok::<nat, Seq<char>>(v.id as nat));
        assert(req_text(j, "type"@) == Ok::<Seq<char>, Seq<char>>(v.body.kind().tag()));
        assert(j.field("body"@) == Some(v.body.wire()));
        assert(opt_bounded(j, "payloadSize"@, usize::MAX as nat) == Ok::<Option<nat>, Seq<char>>(
            opt_size_view(v.payload_size),
        ));
        assert(optional(j, "payloadTransferInfo"@) == v.payload_transfer_info);
        PacketKind::lemma_tag_round_trip(v.body.kind());
        v.body.lemma_round_trip();
    }

    /// An envelope whose tag names no kind is never read as a packet, whatever
    /// its body holds: reading it fails, and the failure names the tag.
    pub proof fn lemma_unknown_tag(j: JsonModel)
        requires
            Self::envelope(j) matches Ok(tag) && PacketKind::from_tag(tag) is None,
        ensures
            Self::parse(j) == Err::<PacketView, DecodeErrorView>(
                DecodeErrorView::UnknownTag(Self::envelope(j)->Ok_0),
            ),
    {
    }

    /// An envelope whose body is unfit for the kind that its tag names is not
    /// read as a packet: no body of that kind is made of it, and the failure
    /// names the tag. So a body that was written under one tag is not taken
    /// for a body of another, wherever it holds a member that the other
    /// kind does not take or lacks a field that it requires.
    pub proof fn lemma_misassigned_is_refused(j: JsonModel)
        requires
            Self::envelope(j) matches Ok(tag) && PacketKind::from_tag(tag) matches Some(kind)
                && BodyView::unfit(kind, j.field("body"@)->Some_0),
        ensures
            Self::parse(j) matches Err(DecodeErrorView::ShapeMismatch(tag, _)) && tag
                == Self::envelope(j)->Ok_0,
    {
        let tag = Self::envelope(j)->Ok_0;
        let kind = PacketKind::from_tag(tag)->Some_0;
        BodyView::lemma_unfit_is_refused(kind, j.field("body"@)->Some_0);
    }

    /// A packet that was read carries a body of the kind that its tag names.
    pub proof fn lemma_tag_decides(j: JsonModel)
        ensures
            Self::parse(j) matches Ok(p) ==> PacketKind::from_tag(p.packet_type) == Some(
                p.body.kind(),
            ),
    {
        if Self::parse(j) is Ok {
            let tag = Self::envelope(j)->Ok_0;
            let kind = PacketKind::from_tag(tag)->Some_0;
            BodyView::lemma_kind_of_parsed(kind, j.field("body"@)->Some_0);
        }
    }
}

} // verus!
