use hyprconnect_core::numeral::Number;
use hyprconnect_core::plugins::battery::Battery;
use hyprconnect_core::plugins::lock::{Lock, LockRequest};
use hyprconnect_core::plugins::ping::Ping;
use hyprconnect_core::protocol::body::{PacketBody, PacketKind};
use hyprconnect_core::protocol::device::{Device, DeviceError};
use hyprconnect_core::protocol::identity::{
    DeviceType, Identity, LocalDevice, Pair, PROTOCOL_VERSION,
};
use hyprconnect_core::protocol::packet::{DecodeError, EncodeError, Packet};
use hyprconnect_core::shape::{Shape, Word};
use hyprconnect_core::value::Json;
use hyprconnect_core::wire::read_text;

fn ping(message: &str) -> PacketBody {
    PacketBody::Ping(Ping { message: Some(message.to_string()) })
}

fn local() -> LocalDevice {
    LocalDevice { id: "0f6a_11".to_string(), name: "desk".to_string() }
}

#[test]
fn payload_size_is_the_length_of_the_body_text() {
    let packet = Packet::generate_packet(ping("hi"), None).unwrap();
    assert_eq!(packet.payload_size, Some("{\"message\":\"hi\"}".len()));
    assert_eq!(packet.payload_size, Some(16));
    let packet = Packet::generate_packet(ping("h\u{e9}"), None).unwrap();
    assert_eq!(packet.payload_size, Some(17));
    let packet = Packet::generate_packet(PacketBody::Lock(Lock { is_locked: true }), None).unwrap();
    assert_eq!(packet.payload_size, Some("{\"isLocked\":true}".len()));
}

#[test]
fn tag_is_derived_from_the_body() {
    let packet = Packet::generate_packet(PacketBody::Pair(Pair { pair: true }), None).unwrap();
    assert_eq!(packet.packet_type, "kdeconnect.pair");
    assert_eq!(packet.body.kind(), PacketKind::Pair);
}

#[test]
fn id_is_the_time_in_milliseconds() {
    let before = std::time::UNIX_EPOCH.elapsed().unwrap().as_millis();
    let packet = Packet::generate_packet(ping("now"), None).unwrap();
    let after = std::time::UNIX_EPOCH.elapsed().unwrap().as_millis();
    assert!(before <= packet.id && packet.id <= after);
}

#[test]
fn seal_gives_the_packet_around_a_body() {
    let text = b"{\"message\":\"hi\"}".to_vec();
    let info = Json::Object(vec![("port".to_string(), Json::from_u128(1739))]);
    let packet = Packet::seal(ping("hi"), Some(info.clone()), 1700000000123, Some(text)).unwrap();
    assert_eq!(
        packet,
        Packet {
            id: 1700000000123,
            packet_type: "kdeconnect.ping".to_string(),
            body: ping("hi"),
            payload_size: Some(16),
            payload_transfer_info: Some(info),
        }
    );
}

#[test]
fn seal_without_a_body_text_fails() {
    assert_eq!(Packet::seal(ping("hi"), None, 1, None), Err(EncodeError::Unserializable));
}

#[test]
fn packet_is_written_with_its_five_fields() {
    let packet = Packet::seal(ping("hi"), None, 1700000000123, Some(vec![0; 16])).unwrap();
    let text = packet.serialize().unwrap();
    assert_eq!(
        String::from_utf8(text).unwrap(),
        "{\"id\":1700000000123,\"type\":\"kdeconnect.ping\",\"body\":{\"message\":\"hi\"},\
         \"payloadSize\":16,\"payloadTransferInfo\":null}"
    );
}

#[test]
fn identity_is_written_with_its_extras_after_its_fields() {
    let identity = Identity::new(local(), vec![("tcpPort".to_string(), Json::from_u128(1716))]);
    let text = hyprconnect_core::wire::write_text(&identity.to_json()).unwrap();
    assert_eq!(
        String::from_utf8(text).unwrap(),
        "{\"deviceId\":\"0f6a_11\",\"deviceName\":\"desk\",\"deviceType\":\"desktop\",\
         \"incomingCapabilities\":[\"kdeconnect.ping\"],\
         \"outgoingCapabilities\":[\"kdeconnect.ping\"],\"protocolVersion\":8,\"tcpPort\":1716}"
    );
}

#[test]
fn new_identity_is_a_desktop_that_pings() {
    let identity = Identity::new(local(), vec![]);
    assert_eq!(
        identity,
        Identity {
            device_id: "0f6a_11".to_string(),
            device_name: "desk".to_string(),
            device_type: "desktop".to_string(),
            incoming_capabilities: vec!["kdeconnect.ping".to_string()],
            outgoing_capabilities: vec!["kdeconnect.ping".to_string()],
            protocol_version: 8,
            extras: vec![],
        }
    );
    assert_eq!(PROTOCOL_VERSION, 8);
}

#[test]
fn packet_of_a_peer_is_read() {
    let text = br#"{
        "id": 1700000000000,
        "type": "kdeconnect.identity",
        "body": {
            "deviceId": "b7d1_22",
            "deviceName": "phone",
            "deviceType": "phone",
            "incomingCapabilities": ["kdeconnect.ping", "kdeconnect.battery"],
            "outgoingCapabilities": ["kdeconnect.ping"],
            "protocolVersion": 7,
            "tcpPort": 1716,
            "somethingNew": {"a": [1, 2]}
        }
    }"#;
    let packet = Packet::deserialize(text).unwrap();
    assert_eq!(packet.id, 1700000000000);
    assert_eq!(packet.packet_type, "kdeconnect.identity");
    assert_eq!(packet.payload_size, None);
    assert_eq!(packet.payload_transfer_info, None);
    assert_eq!(
        packet.body,
        PacketBody::Identity(Identity {
            device_id: "b7d1_22".to_string(),
            device_name: "phone".to_string(),
            device_type: "phone".to_string(),
            incoming_capabilities: vec![
                "kdeconnect.ping".to_string(),
                "kdeconnect.battery".to_string()
            ],
            outgoing_capabilities: vec!["kdeconnect.ping".to_string()],
            protocol_version: 7,
            extras: vec![
                ("tcpPort".to_string(), Json::from_u128(1716)),
                ("somethingNew".to_string(), read_text(b"{\"a\": [1, 2]}").unwrap()),
            ],
        })
    );
}

#[test]
fn unknown_extras_pass_through_a_packet_unchanged() {
    let text = br#"{"id":1,"type":"kdeconnect.identity","body":{"deviceId":"i","deviceName":"n",
        "deviceType":"tablet","incomingCapabilities":[],"outgoingCapabilities":[],
        "protocolVersion":8,"x":1.50,"y":{"z":[null,"q"]}},"payloadSize":null}"#;
    let packet = Packet::deserialize(text).unwrap();
    let again = Packet::deserialize(&packet.serialize().unwrap()).unwrap();
    assert_eq!(again, packet);
    match &again.body {
        PacketBody::Identity(identity) => {
            assert_eq!(identity.extras[0].0, "x");
            assert_eq!(identity.extras[0].1, Json::Number(Number { text: "1.50".to_string() }));
        }
        _ => panic!("not an identity"),
    }
}

#[test]
fn large_id_is_read_whole() {
    let text = br#"{"id":340282366920938463463374607431768211455,"type":"kdeconnect.ping","body":{}}"#;
    assert_eq!(Packet::deserialize(text).unwrap().id, u128::MAX);
    let text = br#"{"id":340282366920938463463374607431768211456,"type":"kdeconnect.ping","body":{}}"#;
    assert_eq!(Packet::deserialize(text), Err(DecodeError::Envelope("id".to_string())));
}

#[test]
fn unknown_tag_fails_with_the_tag() {
    let text = br#"{"id":1,"type":"kdeconnect.teleport","body":{"anything":true}}"#;
    assert_eq!(
        Packet::deserialize(text),
        Err(DecodeError::UnknownTag("kdeconnect.teleport".to_string()))
    );
    for tag in ["", "kdeconnect", "kdeconnect.", "kdeconnect.pin", "kdeconnect.pingg", "KDECONNECT.PING", "kdeconnect.ping "] {
        let text = format!("{{\"id\":1,\"type\":\"{}\",\"body\":{{}}}}", tag);
        assert_eq!(
            Packet::deserialize(text.as_bytes()),
            Err(DecodeError::UnknownTag(tag.to_string()))
        );
        assert_eq!(PacketKind::of_tag(tag), None);
    }
}

#[test]
fn unknown_tag_fails_whatever_the_body_holds() {
    for body in ["null", "7", "[]", "{\"message\":\"hi\"}", "{\"isLocked\":true}"] {
        let text = format!("{{\"id\":1,\"type\":\"nothing\",\"body\":{}}}", body);
        assert_eq!(
            Packet::deserialize(text.as_bytes()),
            Err(DecodeError::UnknownTag("nothing".to_string()))
        );
    }
}

#[test]
fn body_of_the_wrong_shape_fails_with_the_field() {
    let text = br#"{"id":1,"type":"kdeconnect.lock","body":{"message":"hi"}}"#;
    assert_eq!(
        Packet::deserialize(text),
        Err(DecodeError::ShapeMismatch("kdeconnect.lock".to_string(), "isLocked".to_string()))
    );
    let text = br#"{"id":1,"type":"kdeconnect.lock","body":{"isLocked":1}}"#;
    assert_eq!(
        Packet::deserialize(text),
        Err(DecodeError::ShapeMismatch("kdeconnect.lock".to_string(), "isLocked".to_string()))
    );
    let text = br#"{"id":1,"type":"kdeconnect.ping","body":{"message":5}}"#;
    assert_eq!(
        Packet::deserialize(text),
        Err(DecodeError::ShapeMismatch("kdeconnect.ping".to_string(), "message".to_string()))
    );
    let text = br#"{"id":1,"type":"kdeconnect.ping","body":[]}"#;
    assert_eq!(
        Packet::deserialize(text),
        Err(DecodeError::ShapeMismatch("kdeconnect.ping".to_string(), String::new()))
    );
}

#[test]
fn what_is_no_envelope_fails_with_the_field() {
    assert_eq!(Packet::deserialize(b"[]"), Err(DecodeError::Envelope(String::new())));
    assert_eq!(Packet::deserialize(b"{}"), Err(DecodeError::Envelope("id".to_string())));
    assert_eq!(
        Packet::deserialize(br#"{"id":"1","type":"kdeconnect.ping","body":{}}"#),
        Err(DecodeError::Envelope("id".to_string()))
    );
    assert_eq!(
        Packet::deserialize(br#"{"id":-1,"type":"kdeconnect.ping","body":{}}"#),
        Err(DecodeError::Envelope("id".to_string()))
    );
    assert_eq!(
        Packet::deserialize(br#"{"id":1,"body":{}}"#),
        Err(DecodeError::Envelope("type".to_string()))
    );
    assert_eq!(
        Packet::deserialize(br#"{"id":1,"type":"kdeconnect.ping"}"#),
        Err(DecodeError::Envelope("body".to_string()))
    );
    assert_eq!(
        Packet::deserialize(br#"{"id":1,"type":"kdeconnect.ping","body":{},"payloadSize":"9"}"#),
        Err(DecodeError::Envelope("payloadSize".to_string()))
    );
    assert_eq!(
        Packet::deserialize(br#"{"id":1,"type":"kdeconnect.ping","body":{},"payloadSize":1.5}"#),
        Err(DecodeError::Envelope("payloadSize".to_string()))
    );
}

#[test]
fn what_is_no_text_fails_as_syntax() {
    assert_eq!(Packet::deserialize(b""), Err(DecodeError::Syntax));
    assert_eq!(Packet::deserialize(b"{\"id\":1,"), Err(DecodeError::Syntax));
    assert_eq!(Packet::deserialize(b"hello"), Err(DecodeError::Syntax));
    assert_eq!(Packet::deserialize(&[0xff, 0x00]), Err(DecodeError::Syntax));
}

#[test]
fn fields_of_the_envelope_besides_the_five_are_passed_over() {
    let text = br#"{"id":1,"type":"kdeconnect.ping","body":{"message":null},"extra":[]}"#;
    let packet = Packet::deserialize(text).unwrap();
    assert_eq!(packet.body, PacketBody::Ping(Ping { message: None }));
}

#[test]
fn a_member_that_the_shape_does_not_declare_is_refused() {
    let text = br#"{"id":1,"type":"kdeconnect.ping","body":{"message":null,"more":1}}"#;
    assert_eq!(
        Packet::deserialize(text),
        Err(DecodeError::ShapeMismatch("kdeconnect.ping".to_string(), "more".to_string()))
    );
    let text = br#"{"id":1,"type":"kdeconnect.findmyphone.request","body":{"a":1,"b":2}}"#;
    assert_eq!(
        Packet::deserialize(text),
        Err(DecodeError::ShapeMismatch(
            "kdeconnect.findmyphone.request".to_string(),
            "a".to_string()
        ))
    );
    let text = br#"{"id":1,"type":"kdeconnect.lock","body":{"extra":0}}"#;
    assert_eq!(
        Packet::deserialize(text),
        Err(DecodeError::ShapeMismatch("kdeconnect.lock".to_string(), "isLocked".to_string()))
    );
}

#[test]
fn a_lock_body_under_the_ping_tag_is_refused() {
    let text = br#"{"id":1,"type":"kdeconnect.ping","body":{"isLocked":true},"payloadSize":17}"#;
    assert_eq!(
        Packet::deserialize(text),
        Err(DecodeError::ShapeMismatch("kdeconnect.ping".to_string(), "isLocked".to_string()))
    );
}

#[test]
fn payload_fields_are_read() {
    let text = br#"{"id":1,"type":"kdeconnect.ping","body":{},"payloadSize":42,
        "payloadTransferInfo":{"port":1739}}"#;
    let packet = Packet::deserialize(text).unwrap();
    assert_eq!(packet.payload_size, Some(42));
    assert_eq!(
        packet.payload_transfer_info,
        Some(Json::Object(vec![("port".to_string(), Json::from_u128(1739))]))
    );
}

#[test]
fn a_body_is_read_under_its_own_tag_only() {
    let body = PacketBody::Battery(Battery {
        current_charge: Number { text: "55".to_string() },
        is_charging: false,
        threshold_event: Some(false),
    });
    let value = body.to_json();
    for kind in PacketKind::all_kinds() {
        let read = PacketBody::from_json(kind, &value);
        if kind == PacketKind::Battery {
            assert_eq!(read.as_ref(), Ok(&body));
        } else {
            assert!(read.is_err(), "{:?}", kind);
        }
    }
}

#[test]
fn every_written_body_is_refused_under_every_tag_that_it_does_not_fit() {
    let bodies = vec![
        PacketBody::Ping(Ping { message: Some("hi".to_string()) }),
        PacketBody::Ping(Ping { message: None }),
        PacketBody::Lock(Lock { is_locked: true }),
        PacketBody::LockRequest(LockRequest { request_locked: None, set_locked: Some(true) }),
        PacketBody::Pair(Pair { pair: false }),
        PacketBody::Identity(Identity::new(local(), vec![])),
    ];
    for body in &bodies {
        let value = body.to_json();
        for kind in PacketKind::all_kinds() {
            let read = PacketBody::from_json(kind, &value);
            if kind == body.kind() {
                assert_eq!(read.as_ref(), Ok(body));
            } else {
                assert!(read.is_err(), "{:?} under {:?}", body, kind);
            }
        }
    }
}

#[test]
fn identity_read_under_another_tag_fails() {
    let body = PacketBody::Identity(Identity::new(local(), vec![]));
    let value = body.to_json();
    for kind in [
        PacketKind::Pair,
        PacketKind::Battery,
        PacketKind::Lock,
        PacketKind::Notification,
        PacketKind::MprisRequest,
        PacketKind::Sftp,
        PacketKind::Telephony,
    ] {
        assert!(PacketBody::from_json(kind, &value).is_err());
    }
}

#[test]
fn an_empty_body_fits_every_tag_that_requires_nothing() {
    let empty = Json::Object(vec![]);
    assert_eq!(
        PacketBody::from_json(PacketKind::LockRequest, &empty),
        Ok(PacketBody::LockRequest(LockRequest { request_locked: None, set_locked: None }))
    );
    assert_eq!(
        PacketBody::from_json(PacketKind::Ping, &empty),
        Ok(PacketBody::Ping(Ping { message: None }))
    );
    let value = PacketBody::Ping(Ping { message: None }).to_json();
    assert_eq!(
        PacketBody::from_json(PacketKind::LockRequest, &value),
        Err("message".to_string())
    );
}

#[test]
fn every_kind_has_its_own_tag() {
    let kinds = PacketKind::all_kinds();
    assert_eq!(kinds.len(), 42);
    for (i, a) in kinds.iter().enumerate() {
        assert!(a.as_str().starts_with("kdeconnect."));
        assert_eq!(PacketKind::of_tag(a.as_str()), Some(*a));
        for b in &kinds[i + 1..] {
            assert_ne!(a.as_str(), b.as_str());
        }
    }
}

#[test]
fn extras_under_the_key_of_a_named_field_cannot_be_written() {
    let identity = Identity::new(local(), vec![("deviceId".to_string(), Json::Null)]);
    assert_eq!(
        Packet::generate_packet(PacketBody::Identity(identity), None),
        Err(EncodeError::Unserializable)
    );
    let identity = Identity::new(
        local(),
        vec![("port".to_string(), Json::Null), ("port".to_string(), Json::Null)],
    );
    assert_eq!(
        Packet::generate_packet(PacketBody::Identity(identity), None),
        Err(EncodeError::Unserializable)
    );
}

#[test]
fn a_number_that_is_no_literal_cannot_be_written() {
    let body = PacketBody::Battery(Battery {
        current_charge: Number { text: "full".to_string() },
        is_charging: true,
        threshold_event: None,
    });
    assert_eq!(Packet::generate_packet(body, None), Err(EncodeError::Unserializable));
    let packet = Packet {
        id: 1,
        packet_type: "kdeconnect.ping".to_string(),
        body: ping("x"),
        payload_size: None,
        payload_transfer_info: Some(Json::Number(Number { text: "1e5".to_string() })),
    };
    assert_eq!(packet.serialize(), Err(EncodeError::Unserializable));
}

#[test]
fn text_or_error_by_cases() {
    assert_eq!(Packet::text_or_error(Some(vec![1, 2])), Ok(vec![1, 2]));
    assert_eq!(Packet::text_or_error(None), Err(EncodeError::Unserializable));
}

#[test]
fn device_is_taken_from_an_identity_packet() {
    let identity = Identity::new(local(), vec![("tcpPort".to_string(), Json::from_u128(1716))]);
    let packet = Packet::generate_packet(PacketBody::Identity(identity), None).unwrap();
    assert_eq!(
        Device::try_from(packet),
        Ok(Device {
            device_id: "0f6a_11".to_string(),
            device_name: "desk".to_string(),
            device_type: "desktop".to_string(),
            incoming_capabilities: vec!["kdeconnect.ping".to_string()],
            outgoing_capabilities: vec!["kdeconnect.ping".to_string()],
        })
    );
}

#[test]
fn device_is_not_taken_from_any_other_packet() {
    let packet = Packet::generate_packet(ping("hi"), None).unwrap();
    assert_eq!(Device::try_from(packet), Err(DeviceError::NotAnIdentity));
}

#[test]
fn the_tag_that_is_written_is_the_tag_of_the_body() {
    let packet = Packet {
        id: 5,
        packet_type: "kdeconnect.lock".to_string(),
        body: ping("x"),
        payload_size: None,
        payload_transfer_info: None,
    };
    let read = Packet::deserialize(&packet.serialize().unwrap()).unwrap();
    assert_eq!(read.packet_type, "kdeconnect.ping");
    assert_eq!(read.body, ping("x"));
}

#[test]
fn failures_say_what_went_wrong() {
    assert_eq!(DecodeError::Syntax.message(), "the text is no JSON text");
    assert_eq!(
        DecodeError::Envelope("id".to_string()).message(),
        "the envelope is broken at field: id"
    );
    assert_eq!(
        DecodeError::UnknownTag("kdeconnect.teleport".to_string()).message(),
        "unknown packet type: kdeconnect.teleport"
    );
    assert_eq!(
        DecodeError::ShapeMismatch("kdeconnect.lock".to_string(), "isLocked".to_string()).message(),
        "the body of kdeconnect.lock is broken at field: isLocked"
    );
}

#[test]
fn device_type_is_known_or_not() {
    let mut identity = Identity::new(local(), vec![]);
    assert_eq!(identity.device_kind(), Some(DeviceType::Desktop));
    assert_eq!(DeviceType::Desktop.as_str(), "desktop");
    identity.device_type = "phone".to_string();
    assert_eq!(identity.device_kind(), Some(DeviceType::Phone));
    identity.device_type = "tablet".to_string();
    assert_eq!(identity.device_kind(), Some(DeviceType::Tablet));
    identity.device_type = "laptop".to_string();
    assert_eq!(identity.device_kind(), None);
    let read = Identity::from_json(&identity.to_json()).unwrap();
    assert_eq!(read.device_type, "laptop");
}
