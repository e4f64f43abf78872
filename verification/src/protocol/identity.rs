//! The identity of a device, and the answer to a request to pair.

use crate::field::{
    bool_json, bool_model, check_object, get_bool, get_bounded, get_text, get_texts,
    group_field_laws, group_field_refusals, group_wf_laws, nat_json, nat_model, new_members,
    object_check, object_of, put, req_bool, req_bounded, req_text, req_texts, text_json, text_model,
    texts_json, texts_model, texts_view,
};
use crate::shape::{Shape, Word};
use crate::value::{
    distinct_keys, group_lookup, key_mark, lemma_lookup_append, lemma_others_append,
    lemma_undeclared, members_view, names_of, others, same_text, undeclared, Json, JsonModel,
    Member,
};
use vstd::prelude::*;

verus! {

/// The types of device that are known.
#[derive(Debug, Clone, Copy, PartialEq, Eq, Structural)]
pub enum DeviceType {
    Desktop,
    Phone,
    Tablet,
}

impl Word for DeviceType {
    open spec fn name(self) -> Seq<char> {
        match self {
            DeviceType::Desktop => "desktop"@,
            DeviceType::Phone => "phone"@,
            DeviceType::Tablet => "tablet"@,
        }
    }

    open spec fn from_name(name: Seq<char>) -> Option<DeviceType> {
        if name == "desktop"@ {
            Some(DeviceType::Desktop)
        } else if name == "phone"@ {
            Some(DeviceType::Phone)
        } else if name == "tablet"@ {
            Some(DeviceType::Tablet)
        } else {
            None
        }
    }

    fn as_str(&self) -> (s: &'static str) {
        match self {
            DeviceType::Desktop => "desktop",
            DeviceType::Phone => "phone",
            DeviceType::Tablet => "tablet",
        }
    }

    fn from_str(name: &str) -> (r: Option<DeviceType>) {
        if same_text(name, "desktop") {
            Some(DeviceType::Desktop)
        } else if same_text(name, "phone") {
            Some(DeviceType::Phone)
        } else if same_text(name, "tablet") {
            Some(DeviceType::Tablet)
        } else {
            None
        }
    }

    proof fn lemma_name_round_trip(x: DeviceType) {
        broadcast use vstd::string::group_string_axioms;
        reveal_strlit("desktop");
        reveal_strlit("phone");
        reveal_strlit("tablet");
        // No two names agree in their marks.
        assert(key_mark("desktop"@).0 == 7);
        assert(key_mark("phone"@).0 == 5);
        assert(key_mark("tablet"@).0 == 6);
    }
}

/// What a device says of itself: who it is, what it can do, and how it can
/// be reached. Beside the named fields an identity carries whatever else
/// the transport adds, such as the port on which the device listens; these
/// extras pass through as they are, known to this library or not.
#[derive(Debug, PartialEq, Eq)]
pub struct Identity {
    pub device_id: String,
    pub device_name: String,
    pub device_type: String,
    pub incoming_capabilities: Vec<String>,
    pub outgoing_capabilities: Vec<String>,
    pub protocol_version: u8,
    pub extras: Vec<(String, Json)>,
}

/// Model of [`Identity`].
pub struct IdentityView {
    pub device_id: Seq<char>,
    pub device_name: Seq<char>,
    pub device_type: Seq<char>,
    pub incoming_capabilities: Seq<Seq<char>>,
    pub outgoing_capabilities: Seq<Seq<char>>,
    pub protocol_version: u8,
    pub extras: Seq<Member>,
}

impl View for Identity {
    type V = IdentityView;

    open spec fn view(&self) -> IdentityView {
        IdentityView {
            device_id: self.device_id@,
            device_name: self.device_name@,
            device_type: self.device_type@,
            incoming_capabilities: texts_view(self.incoming_capabilities@),
            outgoing_capabilities: texts_view(self.outgoing_capabilities@),
            protocol_version: self.protocol_version,
            extras: members_view(self.extras@),
        }
    }
}

/// The device that this library runs on: its persistent identifier and its
/// name. It is made once, when the program starts, and handed to every
/// identity that is built afterwards.
#[derive(Debug, PartialEq, Eq)]
pub struct LocalDevice {
    pub id: String,
    pub name: String,
}

/// The protocol version that this library speaks.
pub const PROTOCOL_VERSION: u8 = 8;

impl Identity {
    /// The keys of the named fields.
    pub open spec fn named() -> Set<Seq<char>> {
        Set::empty().insert("deviceId"@).insert("deviceName"@).insert("deviceType"@).insert(
            "incomingCapabilities"@,
        ).insert("outgoingCapabilities"@).insert("protocolVersion"@)
    }

    /// The capabilities that this library takes and sends.
    pub open spec fn capabilities() -> Seq<Seq<char>> {
        seq!["kdeconnect.ping"@]
    }

    /// The members that stand for the named fields.
    pub open spec fn named_members(v: IdentityView) -> Seq<Member> {
        Seq::empty()
            .push(Member { key: "deviceId"@, value: text_model(v.device_id) })
            .push(Member { key: "deviceName"@, value: text_model(v.device_name) })
            .push(Member { key: "deviceType"@, value: text_model(v.device_type) })
            .push(
                Member {
                    key: "incomingCapabilities"@,
                    value: texts_model(v.incoming_capabilities),
                },
            )
            .push(
                Member {
                    key: "outgoingCapabilities"@,
                    value: texts_model(v.outgoing_capabilities),
                },
            )
            .push(Member { key: "protocolVersion"@, value: nat_model(v.protocol_version as nat) })
    }

    /// The type of the device, where it is one of the types that are known.
    /// A device of another type is a device all the same: its identity is
    /// read and written as it stands.
    pub fn device_kind(&self) -> (r: Option<DeviceType>)
        ensures
            r == DeviceType::from_name(self@.device_type),
    {
        DeviceType::from_str(self.device_type.as_str())
    }

    /// The identity of the local device: a desktop that takes and sends
    /// pings and speaks the protocol version of this library, with the
    /// extras that the transport adds.
    pub fn new(device: LocalDevice, extras: Vec<(String, Json)>) -> (identity: Identity)
        ensures
            identity@ == (IdentityView {
                device_id: device.id@,
                device_name: device.name@,
                device_type: DeviceType::Desktop.name(),
                incoming_capabilities: Self::capabilities(),
                outgoing_capabilities: Self::capabilities(),
                protocol_version: PROTOCOL_VERSION,
                extras: members_view(extras@),
            }),
    {
        let incoming: Vec<String> = vec!["kdeconnect.ping".to_owned()];
        let outgoing: Vec<String> = vec!["kdeconnect.ping".to_owned()];
        assert(texts_view(incoming@) =~= Self::capabilities());
        assert(texts_view(outgoing@) =~= Self::capabilities());
        Identity {
            device_id: device.id,
            device_name: device.name,
            device_type: DeviceType::Desktop.as_str().to_owned(),
            incoming_capabilities: incoming,
            outgoing_capabilities: outgoing,
            protocol_version: PROTOCOL_VERSION,
            extras,
        }
    }

}

/// On the wire the named fields come first and the extras after them, all
/// at one level; in reading, every member that is no named field is an
/// extra. An identity is read back as it was written when none of its extras
/// stands under the key of a named field; it can be written when, beside
/// that, its extras are well formed values under keys of their own.
impl Shape for Identity {
    open spec fn wire(v: IdentityView) -> JsonModel {
        JsonModel::Object(Self::named_members(v) + v.extras)
    }

    open spec fn parse(j: JsonModel) -> Result<IdentityView, Seq<char>> {
        if object_check(j) is Err {
            Err(Seq::empty())
        } else if req_text(j, "deviceId"@) is Err {
            Err("deviceId"@)
        } else if req_text(j, "deviceName"@) is Err {
            Err("deviceName"@)
        } else if req_text(j, "deviceType"@) is Err {
            Err("deviceType"@)
        } else if req_texts(j, "incomingCapabilities"@) is Err {
            Err("incomingCapabilities"@)
        } else if req_texts(j, "outgoingCapabilities"@) is Err {
            Err("outgoingCapabilities"@)
        } else if req_bounded(j, "protocolVersion"@, u8::MAX as nat) is Err {
            Err("protocolVersion"@)
        } else {
            Ok(
                IdentityView {
                    device_id: req_text(j, "deviceId"@)->Ok_0,
                    device_name: req_text(j, "deviceName"@)->Ok_0,
                    device_type: req_text(j, "deviceType"@)->Ok_0,
                    incoming_capabilities: req_texts(j, "incomingCapabilities"@)->Ok_0,
                    outgoing_capabilities: req_texts(j, "outgoingCapabilities"@)->Ok_0,
                    protocol_version: req_bounded(
                        j,
                        "protocolVersion"@,
                        u8::MAX as nat,
                    )->Ok_0 as u8,
                    extras: others(j->Object_0, Self::named()),
                },
            )
        }
    }

    open spec fn declared() -> Set<Seq<char>> {
        Set::full()
    }

    open spec fn required() -> Set<Seq<char>> {
        Self::named()
    }

    open spec fn wf(v: IdentityView) -> bool {
        forall|i: int|
            0 <= i < v.extras.len() ==> !Self::named().contains((#[trigger] v.extras[i]).key)
    }

    open spec fn writable(v: IdentityView) -> bool {
        &&& Self::wf(v)
        &&& distinct_keys(v.extras)
        &&& forall|i: int| 0 <= i < v.extras.len() ==> (#[trigger] v.extras[i]).value.wf()
    }

    fn to_json(&self) -> (j: Json) {
        let mut ms = new_members();
        put(&mut ms, "deviceId", text_json(&self.device_id));
        put(&mut ms, "deviceName", text_json(&self.device_name));
        put(&mut ms, "deviceType", text_json(&self.device_type));
        put(&mut ms, "incomingCapabilities", texts_json(&self.incoming_capabilities));
        put(&mut ms, "outgoingCapabilities", texts_json(&self.outgoing_capabilities));
        put(&mut ms, "protocolVersion", nat_json(self.protocol_version as u128));
        let ghost named = Self::named_members(self@);
        let mut i: usize = 0;
        assert(named + self@.extras.subrange(0, 0) =~= named);
        while i < self.extras.len()
            invariant
                0 <= i <= self.extras@.len(),
                named == Self::named_members(self@),
                members_view(ms@) == named + self@.extras.subrange(0, i as int),
            decreases self.extras@.len() - i,
        {
            put(&mut ms, self.extras[i].0.as_str(), self.extras[i].1.clone());
            assert(named + self@.extras.subrange(0, i + 1) =~= (named + self@.extras.subrange(
                0,
                i as int,
            )).push(self@.extras[i as int]));
            i = i + 1;
        }
        assert(self@.extras.subrange(0, i as int) =~= self@.extras);
        object_of(ms)
    }

    fn from_json(j: &Json) -> (r: Result<Identity, String>) {
        match check_object(j) {
            Ok(_) => {},
            Err(e) => return Err(e),
        }
        let device_id = match get_text(j, "deviceId") {
            Ok(x) => x,
            Err(e) => return Err(e),
        };
        let device_name = match get_text(j, "deviceName") {
            Ok(x) => x,
            Err(e) => return Err(e),
        };
        let device_type = match get_text(j, "deviceType") {
            Ok(x) => x,
            Err(e) => return Err(e),
        };
        let incoming_capabilities = match get_texts(j, "incomingCapabilities") {
            Ok(x) => x,
            Err(e) => return Err(e),
        };
        let outgoing_capabilities = match get_texts(j, "outgoingCapabilities") {
            Ok(x) => x,
            Err(e) => return Err(e),
        };
        let version = match get_bounded(j, "protocolVersion", 255) {
            Ok(x) => x,
            Err(e) => return Err(e),
        };
        let names: Vec<String> = vec![
            "deviceId".to_owned(),
            "deviceName".to_owned(),
            "deviceType".to_owned(),
            "incomingCapabilities".to_owned(),
            "outgoingCapabilities".to_owned(),
            "protocolVersion".to_owned(),
        ];
        assert(names_of(names@) =~= Self::named()) by {
            assert(names@[0]@ == "deviceId"@);
            assert(names@[1]@ == "deviceName"@);
            assert(names@[2]@ == "deviceType"@);
            assert(names@[3]@ == "incomingCapabilities"@);
            assert(names@[4]@ == "outgoingCapabilities"@);
            assert(names@[5]@ == "protocolVersion"@);
        }
        let extras = j.members_besides(&names);
        Ok(
            Identity {
                device_id,
                device_name,
                device_type,
                incoming_capabilities,
                outgoing_capabilities,
                protocol_version: version as u8,
                extras,
            },
        )
    }

    proof fn lemma_round_trip(v: IdentityView) {
        broadcast use {group_lookup, group_field_laws, vstd::string::group_string_axioms};
        reveal_strlit("deviceId");
        reveal_strlit("deviceName");
        reveal_strlit("deviceType");
        reveal_strlit("incomingCapabilities");
        reveal_strlit("outgoingCapabilities");
        reveal_strlit("protocolVersion");
        let j = Self::wire(v);
        let named = Self::named_members(v);
        assert forall|key: Seq<char>| Self::named().contains(key) implies j.field(key) == (
        JsonModel::Object(named)).field(key) by {
            lemma_lookup_append(named, v.extras, key);
        }
        assert(req_text(j, "deviceId"@) == Ok::<Seq<char>, Seq<char>>(v.device_id));
        assert(req_text(j, "deviceName"@) == Ok::<Seq<char>, Seq<char>>(v.device_name));
        assert(req_text(j, "deviceType"@) == Ok::<Seq<char>, Seq<char>>(v.device_type));
        assert(req_texts(j, "incomingCapabilities"@) == Ok::<Seq<Seq<char>>, Seq<char>>(
            v.incoming_capabilities,
        ));
        assert(req_texts(j, "outgoingCapabilities"@) == Ok::<Seq<Seq<char>>, Seq<char>>(
            v.outgoing_capabilities,
        ));
        assert(req_bounded(j, "protocolVersion"@, u8::MAX as nat) == Ok::<nat, Seq<char>>(
            v.protocol_version as nat,
        ));
        lemma_others_append(named, v.extras, Self::named());
        assert(others(named, Self::named()) + v.extras =~= v.extras);
    }

    proof fn lemma_wire_wf(v: IdentityView) {
        broadcast use {group_wf_laws, vstd::string::group_string_axioms};
        reveal_strlit("deviceId");
        reveal_strlit("deviceName");
        reveal_strlit("deviceType");
        reveal_strlit("incomingCapabilities");
        reveal_strlit("outgoingCapabilities");
        reveal_strlit("protocolVersion");
        let named = Self::named_members(v);
        let ms = named + v.extras;
        assert(ms == Self::wire(v)->Object_0);
        assert(named.len() == 6);
        assert(named[0].key == "deviceId"@ && key_mark(named[0].key).0 == 8);
        assert(named[1].key == "deviceName"@ && key_mark(named[1].key).0 == 10);
        assert(named[2].key == "deviceType"@ && key_mark(named[2].key).3 == 'p');
        assert(named[3].key == "incomingCapabilities"@ && key_mark(named[3].key).1 == 'i');
        assert(named[4].key == "outgoingCapabilities"@ && key_mark(named[4].key).1 == 'o');
        assert(named[5].key == "protocolVersion"@ && key_mark(named[5].key).0 == 15);
        assert(key_mark(named[2].key).0 == 10 && key_mark(named[1].key).3 == 'm');
        assert(key_mark(named[3].key).0 == 20 && key_mark(named[4].key).0 == 20);
        assert(distinct_keys(named));
        assert forall|i: int| 0 <= i < 6 implies (#[trigger] named[i]).value.wf()
            && Self::named().contains(named[i].key) by {}
        assert forall|k: Seq<char>| Self::named().contains(k) implies exists|i: int|
            0 <= i < 6 && (#[trigger] named[i]).key == k by {
            if k == "deviceId"@ {
                assert(named[0].key == k);
            } else if k == "deviceName"@ {
                assert(named[1].key == k);
            } else if k == "deviceType"@ {
                assert(named[2].key == k);
            } else if k == "incomingCapabilities"@ {
                assert(named[3].key == k);
            } else if k == "outgoingCapabilities"@ {
                assert(named[4].key == k);
            } else {
                assert(named[5].key == k);
            }
        }
        if Self::writable(v) {
            assert forall|i: int, j: int| 0 <= i < j < ms.len() implies (#[trigger] ms[i]).key != (
            #[trigger] ms[j]).key by {
                if j < 6 {
                    assert(named[i].key != named[j].key);
                } else if i < 6 {
                    assert(Self::named().contains(named[i].key));
                    assert(!Self::named().contains(v.extras[j - 6].key));
                } else {
                    assert(v.extras[i - 6].key != v.extras[j - 6].key);
                }
            }
            assert forall|i: int| 0 <= i < ms.len() implies (#[trigger] ms[i]).value.wf() by {
                if i >= 6 {
                    assert(v.extras[i - 6].value.wf());
                } else {
                    assert(named[i].value.wf());
                }
            }
        }
        if Self::wire(v).wf() {
            assert forall|i: int| 0 <= i < v.extras.len() implies !Self::named().contains(
                (#[trigger] v.extras[i]).key,
            ) by {
                if Self::named().contains(v.extras[i].key) {
                    let n = choose|n: int|
                        0 <= n < 6 && (#[trigger] named[n]).key == v.extras[i].key;
                    assert(ms[n].key != ms[i + 6].key);
                }
            }
            assert forall|i: int, j: int| 0 <= i < j < v.extras.len() implies (
            #[trigger] v.extras[i]).key != (#[trigger] v.extras[j]).key by {
                assert(ms[i + 6].key != ms[j + 6].key);
            }
            assert forall|i: int| 0 <= i < v.extras.len() implies (
            #[trigger] v.extras[i]).value.wf() by {
                assert(ms[i + 6].value.wf());
            }
        }
    }

    proof fn lemma_unfit_is_refused(j: JsonModel) {
        broadcast use group_field_refusals;
    }
}

/// Asks a device to pair, or to end the pairing; also the answer to such a
/// request.
#[derive(Debug, PartialEq, Eq)]
pub struct Pair {
    pub pair: bool,
}

/// Model of [`Pair`].
pub struct PairView {
    pub pair: bool,
}

impl View for Pair {
    type V = PairView;

    open spec fn view(&self) -> PairView {
        PairView {
            pair: self.pair,
        }
    }
}

impl Shape for Pair {
    open spec fn wire(v: PairView) -> JsonModel {
        JsonModel::Object(
            Seq::empty()
                .push(Member { key: "pair"@, value: bool_model(v.pair) }),
        )
    }

    open spec fn parse(j: JsonModel) -> Result<PairView, Seq<char>> {
        if object_check(j) is Err {
            Err(Seq::empty())
        } else if req_bool(j, "pair"@) is Err {
            Err("pair"@)
        } else if undeclared(j, Self::declared()) is Some {
            Err(undeclared(j, Self::declared())->Some_0)
        } else {
            Ok(
                PairView {
                    pair: req_bool(j, "pair"@)->Ok_0,
                },
            )
        }
    }

    open spec fn declared() -> Set<Seq<char>> {
        Set::empty().insert("pair"@)
    }

    open spec fn required() -> Set<Seq<char>> {
        Set::empty().insert("pair"@)
    }

    open spec fn wf(v: PairView) -> bool {
        true
    }

    open spec fn writable(v: PairView) -> bool {
        true
    }

    fn to_json(&self) -> (j: Json) {
        let mut ms = new_members();
        put(&mut ms, "pair", bool_json(self.pair));
        object_of(ms)
    }

    fn from_json(j: &Json) -> (r: Result<Pair, String>) {
        match check_object(j) {
            Ok(_) => {},
            Err(e) => return Err(e),
        }
        let pair = match get_bool(j, "pair") {
            Ok(x) => x,
            Err(e) => return Err(e),
        };
        let names: Vec<String> = vec!["pair".to_owned()];
        assert(names_of(names@) =~= Self::declared()) by {
            assert(names@[0]@ == "pair"@);
        }
        match j.first_besides(&names) {
            Some(key) => return Err(key),
            None => {},
        }
        Ok(Pair { pair })
    }

    proof fn lemma_round_trip(v: PairView) {
        broadcast use {group_lookup, group_field_laws, vstd::string::group_string_axioms};
        reveal_strlit("pair");
    }

    proof fn lemma_wire_wf(v: PairView) {
        broadcast use {group_wf_laws, vstd::string::group_string_axioms};
        reveal_strlit("pair");
        let ms = Self::wire(v)->Object_0;
        assert(ms.len() == 1);
        assert(ms[0].key == "pair"@ && key_mark(ms[0].key).0 == 4);
        assert(distinct_keys(ms));
        assert(ms[0].value.wf());
    }

    proof fn lemma_unfit_is_refused(j: JsonModel) {
        broadcast use group_field_refusals;
        lemma_undeclared(j, Self::declared());
    }
}

} // verus!
