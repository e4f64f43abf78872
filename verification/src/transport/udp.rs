//! Finding devices on the local network: one probe is sent to the broadcast
//! address, and for one window of time the answers are collected.
//!
//! A round goes from probing to listening and ends there; whoever wants to
//! look again starts a new round. An answer that cannot be read is dropped
//! and the others are kept: one peer that talks nonsense does not spoil the
//! round for the rest.

use crate::field::{group_wf_laws, nat_json, nat_model};
use crate::protocol::body::{BodyView, PacketBody};
use crate::protocol::identity::{DeviceType, Identity, IdentityView, LocalDevice};
use crate::shape::Word;
use crate::protocol::packet::{EncodeError, Packet, PacketView};
use crate::transport::frame::{frame_one, framed, frames, lemma_framed_round_trip, rest};
use crate::transport::{DiscoveredDevice, DiscoveredDeviceView, TransportError};
use crate::value::{key_mark, members_view, Json, JsonModel, Member};
use crate::wire::json_text;
use vstd::prelude::*;

verus! {

/// A datagram that arrived: its bytes, the address it came from, and the
/// time at which it came.
#[derive(Debug, PartialEq, Eq)]
pub struct Datagram {
    pub bytes: Vec<u8>,
    pub from: String,
    pub at: u128,
}

/// Model of [`Datagram`].
pub struct DatagramView {
    pub bytes: Seq<u8>,
    pub from: Seq<char>,
    pub at: u128,
}

impl View for Datagram {
    type V = DatagramView;

    open spec fn view(&self) -> DatagramView {
        DatagramView { bytes: self.bytes@, from: self.from@, at: self.at }
    }
}

/// An answer to the probe: a packet, the address it came from, and the time
/// at which it came.
#[derive(Debug, PartialEq, Eq)]
pub struct Answer {
    pub packet: Packet,
    pub from: String,
    pub at: u128,
}

/// Model of [`Answer`].
pub struct AnswerView {
    pub packet: PacketView,
    pub from: Seq<char>,
    pub at: u128,
}

impl View for Answer {
    type V = AnswerView;

    open spec fn view(&self) -> AnswerView {
        AnswerView { packet: self.packet@, from: self.from@, at: self.at }
    }
}

/// What a receive on the socket came to.
#[derive(Debug, PartialEq, Eq)]
pub enum Arrival {
    /// A datagram arrived.
    Received(Datagram),
    /// The window has passed and nothing more is waited for.
    WindowElapsed,
    /// Receiving failed.
    Failed,
}

/// How a round goes on after an arrival.
#[derive(Debug, PartialEq, Eq)]
pub enum Turn {
    /// The round listens on.
    Listen(Listening),
    /// The round is over; these are the answers, in the order in which they
    /// arrived.
    Finished(Vec<Answer>),
    /// The round failed.
    Aborted(TransportError),
}

/// A round whose probe is made and has still to be sent.
#[derive(Debug, PartialEq, Eq)]
pub struct Probing {
    pub datagram: Vec<u8>,
}

/// A round that listens for answers.
#[derive(Debug, PartialEq, Eq)]
pub struct Listening {
    pub answers: Vec<Answer>,
}

/// The models of a list of datagrams.
pub open spec fn datagrams_view(list: Seq<Datagram>) -> Seq<DatagramView> {
    Seq::new(list.len(), |i: int| list[i]@)
}

/// The models of a list of answers.
pub open spec fn answers_view(list: Seq<Answer>) -> Seq<AnswerView> {
    Seq::new(list.len(), |i: int| list[i]@)
}

/// The models of a list of discovered devices.
pub open spec fn devices_view(list: Seq<DiscoveredDevice>) -> Seq<DiscoveredDeviceView> {
    Seq::new(list.len(), |i: int| list[i]@)
}

/// The answers so far with one more datagram taken in: it is kept where it
/// reads as a packet, and dropped where it does not.
pub open spec fn kept_with(answers: Seq<AnswerView>, datagram: DatagramView) -> Seq<AnswerView> {
    match Packet::decode(datagram.bytes) {
        Ok(packet) => answers.push(AnswerView { packet, from: datagram.from, at: datagram.at }),
        Err(_) => answers,
    }
}

/// The answers that a run of datagrams leaves: those that read as packets,
/// in the order in which they arrived.
pub open spec fn kept(datagrams: Seq<DatagramView>) -> Seq<AnswerView>
    decreases datagrams.len(),
{
    if datagrams.len() == 0 {
        Seq::empty()
    } else {
        kept_with(kept(datagrams.drop_last()), datagrams.last())
    }
}

/// The devices that answers make known: one for each answer that is an
/// identity packet, in the order of the answers.
pub open spec fn discovered(answers: Seq<AnswerView>) -> Seq<DiscoveredDeviceView>
    decreases answers.len(),
{
    if answers.len() == 0 {
        Seq::empty()
    } else {
        let before = discovered(answers.drop_last());
        let last = answers.last();
        match DiscoveredDevice::of_answer(last.packet, last.from, last.at) {
            Some(d) => before.push(d),
            None => before,
        }
    }
}

/// The extras of the identity that a probe carries: the port on which the
/// local device takes connections.
pub open spec fn probe_extras(port: u16) -> Seq<Member> {
    seq![Member { key: "tcpPort"@, value: JsonModel::of_nat(port as nat) }]
}

/// The identity that a probe carries.
pub open spec fn probe_identity(device: LocalDevice, port: u16) -> IdentityView {
    IdentityView {
        device_id: device.id@,
        device_name: device.name@,
        device_type: DeviceType::Desktop.name(),
        incoming_capabilities: Identity::capabilities(),
        outgoing_capabilities: Identity::capabilities(),
        protocol_version: crate::protocol::identity::PROTOCOL_VERSION,
        extras: probe_extras(port),
    }
}

/// The packet that announces the local device, made at the time `id`.
pub open spec fn announcement(device: LocalDevice, port: u16, id: u128) -> PacketView {
    let body = BodyView::Identity(probe_identity(device, port));
    PacketView {
        id,
        packet_type: body.kind().tag(),
        body,
        payload_size: Some(json_text(body.wire()).len() as usize),
        payload_transfer_info: None,
    }
}

/// The identity of the local device as it is announced: with the port on
/// which the device takes connections among its extras.
pub fn local_identity(device: LocalDevice, port: u16) -> (identity: Identity)
    ensures
        identity@ == probe_identity(device, port),
{
    let mut extras: Vec<(String, Json)> = Vec::new();
    extras.push(("tcpPort".to_owned(), nat_json(port as u128)));
    assert(members_view(extras@) =~= probe_extras(port));
    Identity::new(device, extras)
}

/// The packet that announces the local device, made now. It can always be
/// written; there is no packet only where the clock stands before 1970.
pub fn announce(device: LocalDevice, port: u16) -> (r: Result<Packet, EncodeError>)
    ensures
        match r {
            Ok(p) => p@ == announcement(device, port, p.id),
            Err(e) => e == EncodeError::ClockBeforeEpoch,
        },
{
    proof {
        lemma_probe_is_writable(device, port);
    }
    Packet::generate_packet(PacketBody::Identity(local_identity(device, port)), None)
}

/// The wire text of the packet that announces the local device. This is
/// what a probe is, and what is sent first on every channel. There is no
/// text only where the clock stands before 1970.
pub fn announcement_text(device: LocalDevice, port: u16) -> (r: Result<Vec<u8>, EncodeError>)
    ensures
        match r {
            Ok(bytes) => exists|id: u128|
                bytes@ == json_text(Packet::wire(#[trigger] announcement(device, port, id))),
            Err(e) => e == EncodeError::ClockBeforeEpoch,
        },
{
    proof {
        lemma_probe_is_writable(device, port);
    }
    match announce(device, port) {
        Ok(packet) => match packet.serialize() {
            Ok(bytes) => {
                assert(bytes@ == json_text(Packet::wire(announcement(device, port, packet.id))));
                Ok(bytes)
            },
            Err(e) => Err(e),
        },
        Err(e) => Err(e),
    }
}

/// What is sent first on a channel: the wire text of the packet that
/// announces the local device, as one frame. The frame ends in a line feed
/// and holds no other, so that the reader on the other side gets the text
/// back whole. There is no frame where the clock stands before 1970, and
/// none for a text that holds a line feed of its own.
pub fn first_message(device: LocalDevice, port: u16) -> (r: Result<Vec<u8>, TransportError>)
    ensures
        match r {
            Ok(frame) => exists|id: u128|
                {
                    let text = json_text(Packet::wire(#[trigger] announcement(device, port, id)));
                    &&& frame@ == framed(text)
                    &&& frames(frame@) == seq![text]
                    &&& rest(frame@) == Seq::<u8>::empty()
                },
            Err(e) => e == TransportError::Encode(EncodeError::ClockBeforeEpoch) || e
                == TransportError::Send,
        },
{
    match announcement_text(device, port) {
        Ok(text) => {
            let ghost id = choose|id: u128|
                text@ == json_text(Packet::wire(#[trigger] announcement(device, port, id)));
            let ghost sent = text@;
            match frame_one(text) {
                Some(frame) => {
                    proof {
                        lemma_framed_round_trip(sent);
                        assert(sent == json_text(Packet::wire(announcement(device, port, id))));
                    }
                    Ok(frame)
                },
                None => Err(TransportError::Send),
            }
        },
        Err(e) => Err(TransportError::Encode(e)),
    }
}

/// The answers so far with one more datagram taken in.
pub fn keep(answers: &mut Vec<Answer>, datagram: &Datagram)
    ensures
        answers_view(final(answers)@) == kept_with(answers_view(old(answers)@), datagram@),
{
    let ghost before = answers_view(answers@);
    match Packet::deserialize(datagram.bytes.as_slice()) {
        Ok(packet) => {
            answers.push(Answer { packet, from: datagram.from.clone(), at: datagram.at });
            assert(answers_view(answers@) =~= before.push(
                AnswerView { packet: packet@, from: datagram.from@, at: datagram.at },
            ));
        },
        Err(_) => {},
    }
}

/// The answers that a run of datagrams leaves.
pub fn collect(datagrams: &Vec<Datagram>) -> (answers: Vec<Answer>)
    ensures
        answers_view(answers@) == kept(datagrams_view(datagrams@)),
{
    let ghost all = datagrams_view(datagrams@);
    let mut answers: Vec<Answer> = Vec::new();
    let mut i: usize = 0;
    proof {
        assert(answers_view(answers@) =~= kept(all.subrange(0, 0)));
    }
    while i < datagrams.len()
        invariant
            0 <= i <= datagrams@.len(),
            all == datagrams_view(datagrams@),
            answers_view(answers@) == kept(all.subrange(0, i as int)),
        decreases datagrams@.len() - i,
    {
        proof {
            assert(all.subrange(0, i + 1).drop_last() =~= all.subrange(0, i as int));
            assert(all.subrange(0, i + 1).last() == datagrams@[i as int]@);
        }
        keep(&mut answers, &datagrams[i]);
        i = i + 1;
    }
    proof {
        assert(all.subrange(0, i as int) =~= all);
    }
    answers
}

/// The devices that answers make known.
pub fn devices(answers: &Vec<Answer>) -> (found: Vec<DiscoveredDevice>)
    ensures
        devices_view(found@) == discovered(answers_view(answers@)),
{
    let ghost all = answers_view(answers@);
    let mut found: Vec<DiscoveredDevice> = Vec::new();
    let mut i: usize = 0;
    proof {
        assert(devices_view(found@) =~= discovered(all.subrange(0, 0)));
    }
    while i < answers.len()
        invariant
            0 <= i <= answers@.len(),
            all == answers_view(answers@),
            devices_view(found@) == discovered(all.subrange(0, i as int)),
        decreases answers@.len() - i,
    {
        let ghost before = devices_view(found@);
        proof {
            assert(all.subrange(0, i + 1).drop_last() =~= all.subrange(0, i as int));
            assert(all.subrange(0, i + 1).last() == answers@[i as int]@);
        }
        let answer = &answers[i];
        match DiscoveredDevice::from_answer(&answer.packet, answer.from.as_str(), answer.at) {
            Some(d) => {
                found.push(d);
                assert(devices_view(found@) =~= before.push(d@));
            },
            None => {},
        }
        i = i + 1;
    }
    proof {
        assert(all.subrange(0, i as int) =~= all);
    }
    found
}

impl Probing {
    /// Starts a round: makes the probe that announces the local device. The
    /// round cannot start only where the clock stands before 1970.
    pub fn begin(device: LocalDevice, port: u16) -> (r: Result<Probing, TransportError>)
        ensures
            match r {
                Ok(round) => exists|id: u128|
                    round.datagram@ == json_text(
                        Packet::wire(#[trigger] announcement(device, port, id)),
                    ),
                Err(e) => e == TransportError::Encode(EncodeError::ClockBeforeEpoch),
            },
    {
        match announcement_text(device, port) {
            Ok(datagram) => Ok(Probing { datagram }),
            Err(e) => Err(TransportError::Encode(e)),
        }
    }

    /// The probe was sent: the round listens, and has no answers yet.
    pub fn sent(self) -> (round: Listening)
        ensures
            answers_view(round.answers@) == Seq::<AnswerView>::empty(),
    {
        let answers: Vec<Answer> = Vec::new();
        assert(answers_view(answers@) =~= Seq::<AnswerView>::empty());
        Listening { answers }
    }

    /// The probe could not be sent: the round is over.
    pub fn failed(self) -> (e: TransportError)
        ensures
            e == TransportError::Send,
    {
        TransportError::Send
    }
}

impl Listening {
    /// Takes what a receive came to. A datagram is kept or dropped and the
    /// round listens on; the end of the window ends the round with the
    /// answers that it has; a failure ends it with nothing.
    pub fn on_arrival(self, arrival: Arrival) -> (turn: Turn)
        ensures
            match arrival {
                Arrival::Received(datagram) => turn matches Turn::Listen(round) && answers_view(
                    round.answers@,
                ) == kept_with(answers_view(self.answers@), datagram@),
                Arrival::WindowElapsed => turn matches Turn::Finished(answers) && answers_view(
                    answers@,
                ) == answers_view(self.answers@),
                Arrival::Failed => turn == Turn::Aborted(TransportError::Receive),
            },
    {
        match arrival {
            Arrival::Received(datagram) => {
                let mut answers = self.answers;
                keep(&mut answers, &datagram);
                Turn::Listen(Listening { answers })
            },
            Arrival::WindowElapsed => Turn::Finished(self.answers),
            Arrival::Failed => Turn::Aborted(TransportError::Receive),
        }
    }
}

/// The identity that a probe carries can always be written: whether a
/// probe can be made hangs on the clock alone.
pub proof fn lemma_probe_is_writable(device: LocalDevice, port: u16)
    ensures
        BodyView::Identity(probe_identity(device, port)).writable(),
{
    broadcast use {group_wf_laws, vstd::string::group_string_axioms};
    reveal_strlit("tcpPort");
    reveal_strlit("deviceId");
    reveal_strlit("deviceName");
    reveal_strlit("deviceType");
    reveal_strlit("incomingCapabilities");
    reveal_strlit("outgoingCapabilities");
    reveal_strlit("protocolVersion");
    let extras = probe_extras(port);
    assert(extras.len() == 1);
    assert(extras[0].key == "tcpPort"@ && key_mark(extras[0].key).0 == 7);
    assert(key_mark("deviceId"@).0 == 8);
    assert(key_mark("deviceName"@).0 == 10);
    assert(key_mark("deviceType"@).0 == 10);
    assert(key_mark("incomingCapabilities"@).0 == 20);
    assert(key_mark("outgoingCapabilities"@).0 == 20);
    assert(key_mark("protocolVersion"@).0 == 15);
    assert(!Identity::named().contains(extras[0].key));
    assert(extras[0].value == nat_model(port as nat));
    assert(extras[0].value.wf());
}

/// A round in which nothing arrives ends without answers.
pub proof fn lemma_no_answers()
    ensures
        kept(Seq::<DatagramView>::empty()) == Seq::<AnswerView>::empty(),
        discovered(Seq::<AnswerView>::empty()) == Seq::<DiscoveredDeviceView>::empty(),
{
}

/// A datagram that cannot be read changes nothing: the answers are those of
/// the other datagrams.
pub proof fn lemma_unreadable_is_dropped(before: Seq<DatagramView>, datagram: DatagramView)
    requires
        Packet::decode(datagram.bytes) is Err,
    ensures
        kept(before.push(datagram)) == kept(before),
{
    assert(before.push(datagram).drop_last() =~= before);
}

/// A datagram that reads as a packet is kept, after the answers of those
/// that came before it.
pub proof fn lemma_readable_is_kept(before: Seq<DatagramView>, datagram: DatagramView)
    requires
        Packet::decode(datagram.bytes) is Ok,
    ensures
        kept(before.push(datagram)) == kept(before).push(
            AnswerView {
                packet: Packet::decode(datagram.bytes)->Ok_0,
                from: datagram.from,
                at: datagram.at,
            },
        ),
{
    assert(before.push(datagram).drop_last() =~= before);
}

} // verus!
