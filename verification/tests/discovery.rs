use hyprconnect_core::plugins::ping::Ping;
use hyprconnect_core::protocol::body::PacketBody;
use hyprconnect_core::protocol::identity::{Identity, LocalDevice};
use hyprconnect_core::protocol::packet::Packet;
use hyprconnect_core::transport::udp::{
    announce, announcement_text, collect, devices, keep, local_identity, Answer, Arrival, Datagram,
    Listening, Probing, Turn,
};
use hyprconnect_core::transport::{DiscoveredDevice, TransportError, TransportKind};
use hyprconnect_core::value::Json;

fn local() -> LocalDevice {
    LocalDevice { id: "0f6a_11".to_string(), name: "desk".to_string() }
}

fn peer_identity(id: &str, name: &str) -> Vec<u8> {
    let identity = Identity::new(
        LocalDevice { id: id.to_string(), name: name.to_string() },
        vec![("tcpPort".to_string(), Json::from_u128(1716))],
    );
    Packet::generate_packet(PacketBody::Identity(identity), None).unwrap().serialize().unwrap()
}

fn datagram(bytes: &[u8], from: &str, at: u128) -> Datagram {
    Datagram { bytes: bytes.to_vec(), from: from.to_string(), at }
}

fn listening() -> Listening {
    Probing::begin(local(), 1716).unwrap().sent()
}

#[test]
fn probe_announces_the_local_device_with_its_port() {
    let round = Probing::begin(local(), 1716).unwrap();
    let packet = Packet::deserialize(&round.datagram).unwrap();
    assert_eq!(packet.packet_type, "kdeconnect.identity");
    assert_eq!(
        packet.body,
        PacketBody::Identity(Identity {
            device_id: "0f6a_11".to_string(),
            device_name: "desk".to_string(),
            device_type: "desktop".to_string(),
            incoming_capabilities: vec!["kdeconnect.ping".to_string()],
            outgoing_capabilities: vec!["kdeconnect.ping".to_string()],
            protocol_version: 8,
            extras: vec![("tcpPort".to_string(), Json::from_u128(1716))],
        })
    );
    assert_eq!(packet.payload_transfer_info, None);
}

#[test]
fn announcement_carries_the_size_of_its_body() {
    let packet = announce(local(), 40000).unwrap();
    let body = "{\"deviceId\":\"0f6a_11\",\"deviceName\":\"desk\",\"deviceType\":\"desktop\",\
                \"incomingCapabilities\":[\"kdeconnect.ping\"],\
                \"outgoingCapabilities\":[\"kdeconnect.ping\"],\"protocolVersion\":8,\
                \"tcpPort\":40000}";
    assert_eq!(packet.payload_size, Some(body.len()));
    assert_eq!(local_identity(local(), 40000).extras[0].1, Json::from_u128(40000));
    let text = announcement_text(local(), 40000).unwrap();
    assert!(String::from_utf8(text).unwrap().contains(body));
}

#[test]
fn a_round_without_answers_ends_empty() {
    match listening().on_arrival(Arrival::WindowElapsed) {
        Turn::Finished(answers) => assert!(answers.is_empty()),
        _ => panic!("the round did not end"),
    }
    assert_eq!(collect(&vec![]), vec![]);
    assert_eq!(devices(&vec![]), vec![]);
}

#[test]
fn one_answer_gives_one_device() {
    let reply = datagram(&peer_identity("b7d1_22", "phone"), "192.168.1.20:1716", 150);
    let round = match listening().on_arrival(Arrival::Received(reply)) {
        Turn::Listen(round) => round,
        _ => panic!("the round did not listen on"),
    };
    let answers = match round.on_arrival(Arrival::WindowElapsed) {
        Turn::Finished(answers) => answers,
        _ => panic!("the round did not end"),
    };
    assert_eq!(answers.len(), 1);
    assert_eq!(answers[0].packet.packet_type, "kdeconnect.identity");
    assert_eq!(
        devices(&answers),
        vec![DiscoveredDevice {
            id: "b7d1_22".to_string(),
            name: "phone".to_string(),
            addr: "192.168.1.20:1716".to_string(),
            observed_at: 150,
        }]
    );
}

#[test]
fn a_malformed_answer_is_dropped_and_the_other_kept() {
    let good = datagram(&peer_identity("b7d1_22", "phone"), "192.168.1.20:1716", 10);
    let bad = datagram(b"{\"id\": 1, \"type\": ", "192.168.1.66:1716", 11);
    let mut round = listening();
    for arrival in [Arrival::Received(bad), Arrival::Received(good)] {
        round = match round.on_arrival(arrival) {
            Turn::Listen(round) => round,
            _ => panic!("the round did not listen on"),
        };
    }
    let answers = match round.on_arrival(Arrival::WindowElapsed) {
        Turn::Finished(answers) => answers,
        _ => panic!("the round did not end"),
    };
    let found = devices(&answers);
    assert_eq!(found.len(), 1);
    assert_eq!(found[0].id, "b7d1_22");
    assert_eq!(found[0].addr, "192.168.1.20:1716");
}

#[test]
fn answers_are_kept_in_the_order_of_arrival() {
    let datagrams = vec![
        datagram(&peer_identity("one", "a"), "10.0.0.1:1716", 1),
        datagram(b"not json", "10.0.0.2:1716", 2),
        datagram(b"{\"id\":1,\"type\":\"kdeconnect.nothing\",\"body\":{}}", "10.0.0.3:1716", 3),
        datagram(b"{\"id\":1,\"type\":\"kdeconnect.lock\",\"body\":{}}", "10.0.0.4:1716", 4),
        datagram(b"{\"id\":9,\"type\":\"kdeconnect.ping\",\"body\":{}}", "10.0.0.5:1716", 5),
        datagram(&peer_identity("two", "b"), "10.0.0.6:1716", 6),
        datagram(&peer_identity("one", "a"), "10.0.0.1:1716", 7),
    ];
    let answers = collect(&datagrams);
    let from: Vec<&str> = answers.iter().map(|a| a.from.as_str()).collect();
    assert_eq!(from, vec!["10.0.0.1:1716", "10.0.0.5:1716", "10.0.0.6:1716", "10.0.0.1:1716"]);
    assert_eq!(answers[1].packet.body, PacketBody::Ping(Ping { message: None }));
    let found = devices(&answers);
    let ids: Vec<(&str, u128)> = found.iter().map(|d| (d.id.as_str(), d.observed_at)).collect();
    assert_eq!(ids, vec![("one", 1), ("two", 6), ("one", 7)]);
}

#[test]
fn keep_takes_what_reads_and_drops_what_does_not() {
    let mut answers: Vec<Answer> = Vec::new();
    keep(&mut answers, &datagram(b"", "a", 1));
    assert!(answers.is_empty());
    keep(&mut answers, &datagram(b"{\"id\":9,\"type\":\"kdeconnect.ping\",\"body\":{}}", "b", 2));
    assert_eq!(answers.len(), 1);
    assert_eq!(answers[0].from, "b");
    assert_eq!(answers[0].at, 2);
    assert_eq!(answers[0].packet.id, 9);
}

#[test]
fn a_failure_to_receive_ends_the_round() {
    assert_eq!(
        listening().on_arrival(Arrival::Failed),
        Turn::Aborted(TransportError::Receive)
    );
}

#[test]
fn a_probe_that_cannot_be_sent_ends_the_round() {
    assert_eq!(Probing::begin(local(), 1716).unwrap().failed(), TransportError::Send);
}

#[test]
fn only_an_identity_makes_a_device_known() {
    let packet = Packet::generate_packet(PacketBody::Ping(Ping { message: None }), None).unwrap();
    assert_eq!(DiscoveredDevice::from_answer(&packet, "10.0.0.1:1716", 5), None);
    let packet = Packet::deserialize(&peer_identity("b7d1_22", "phone")).unwrap();
    assert_eq!(
        DiscoveredDevice::from_answer(&packet, "10.0.0.1:1716", 5),
        Some(DiscoveredDevice {
            id: "b7d1_22".to_string(),
            name: "phone".to_string(),
            addr: "10.0.0.1:1716".to_string(),
            observed_at: 5,
        })
    );
}

#[test]
fn the_local_network_goes_over_udp() {
    assert_eq!(TransportKind::Lan.medium(), "UDP");
}
