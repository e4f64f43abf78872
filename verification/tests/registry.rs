use hyprconnect_core::protocol::identity::LocalDevice;
use hyprconnect_core::protocol::packet::Packet;
use hyprconnect_core::transport::frame::{frame, frame_one, FrameBuffer};
use hyprconnect_core::transport::registry::{
    accepting, ChannelAction, ChannelEvent, ChannelState, ConnectionRegistry, Step,
};
use hyprconnect_core::transport::udp::first_message;

const PEER: &str = "192.168.1.20:51000";

fn step(state: ChannelState, action: ChannelAction) -> Step {
    Step { state, action }
}

#[test]
fn a_channel_is_registered_and_leaves_when_its_peer_closes_it() {
    let mut registry = ConnectionRegistry::new();
    let accepted = ConnectionRegistry::accept();
    assert_eq!(accepted, step(ChannelState::Accepted, ChannelAction::SendIdentity));
    assert_eq!(registry.snapshot(), Vec::<String>::new());

    let sent = registry.advance(PEER, accepted.state, ChannelEvent::IdentityWritten);
    assert_eq!(sent, step(ChannelState::IdentitySent, ChannelAction::StartReader));
    assert_eq!(registry.snapshot(), Vec::<String>::new());

    let registered = registry.advance(PEER, sent.state, ChannelEvent::ReaderStarted);
    assert_eq!(registered, step(ChannelState::Registered, ChannelAction::Read));
    assert_eq!(registry.snapshot(), vec![PEER.to_string()]);

    let closed = registry.advance(PEER, registered.state, ChannelEvent::Read(0));
    assert_eq!(closed, step(ChannelState::Closed, ChannelAction::Stop));
    assert_eq!(registry.snapshot(), Vec::<String>::new());
    assert!(!registry.contains(PEER));
}

#[test]
fn reading_goes_on_while_bytes_arrive() {
    let mut registry = ConnectionRegistry::new();
    registry.register(PEER);
    for event in [ChannelEvent::Read(1), ChannelEvent::Read(4096), ChannelEvent::ReadInterrupted] {
        assert_eq!(
            registry.advance(PEER, ChannelState::Registered, event),
            step(ChannelState::Registered, ChannelAction::Read)
        );
        assert_eq!(registry.snapshot(), vec![PEER.to_string()]);
    }
}

#[test]
fn a_failed_read_closes_the_channel() {
    let mut registry = ConnectionRegistry::new();
    registry.register("10.0.0.1:1");
    registry.register(PEER);
    registry.register("10.0.0.2:2");
    assert_eq!(
        registry.advance(PEER, ChannelState::Registered, ChannelEvent::ReadFailed),
        step(ChannelState::Closed, ChannelAction::Stop)
    );
    assert_eq!(registry.snapshot(), vec!["10.0.0.1:1".to_string(), "10.0.0.2:2".to_string()]);
}

#[test]
fn a_failed_write_closes_the_channel_before_it_is_registered() {
    let mut registry = ConnectionRegistry::new();
    assert_eq!(
        registry.advance(PEER, ChannelState::Accepted, ChannelEvent::WriteFailed),
        step(ChannelState::Closed, ChannelAction::Stop)
    );
    assert_eq!(registry.len(), 0);
}

#[test]
fn an_event_that_does_not_fit_closes_the_channel() {
    let closed = step(ChannelState::Closed, ChannelAction::Stop);
    assert_eq!(ConnectionRegistry::decide(ChannelState::Accepted, ChannelEvent::Read(3)), closed);
    assert_eq!(
        ConnectionRegistry::decide(ChannelState::Accepted, ChannelEvent::ReaderStarted),
        closed
    );
    assert_eq!(
        ConnectionRegistry::decide(ChannelState::IdentitySent, ChannelEvent::IdentityWritten),
        closed
    );
    assert_eq!(
        ConnectionRegistry::decide(ChannelState::Registered, ChannelEvent::IdentityWritten),
        closed
    );
    for event in [
        ChannelEvent::IdentityWritten,
        ChannelEvent::WriteFailed,
        ChannelEvent::ReaderStarted,
        ChannelEvent::Read(5),
        ChannelEvent::Read(0),
        ChannelEvent::ReadInterrupted,
        ChannelEvent::ReadFailed,
        ChannelEvent::StopRequested,
    ] {
        assert_eq!(ConnectionRegistry::decide(ChannelState::Closed, event), closed);
    }
}

#[test]
fn an_unfit_event_on_a_registered_channel_removes_it() {
    let mut registry = ConnectionRegistry::new();
    registry.register(PEER);
    registry.advance(PEER, ChannelState::Registered, ChannelEvent::WriteFailed);
    assert_eq!(registry.len(), 0);
}

#[test]
fn a_peer_stands_in_the_registry_once() {
    let mut registry = ConnectionRegistry::new();
    assert!(registry.register(PEER));
    assert!(!registry.register(PEER));
    assert_eq!(registry.len(), 1);
    assert_eq!(
        registry.advance(PEER, ChannelState::IdentitySent, ChannelEvent::ReaderStarted),
        step(ChannelState::Closed, ChannelAction::Stop)
    );
    assert_eq!(registry.snapshot(), vec![PEER.to_string()]);
    assert!(registry.deregister(PEER));
    assert!(!registry.deregister(PEER));
    assert_eq!(registry.len(), 0);
}

#[test]
fn snapshot_keeps_the_order_of_registration() {
    let mut registry = ConnectionRegistry::new();
    for peer in ["c:3", "a:1", "b:2"] {
        registry.register(peer);
    }
    assert_eq!(registry.snapshot(), vec!["c:3".to_string(), "a:1".to_string(), "b:2".to_string()]);
    assert!(registry.contains("a:1"));
    assert!(!registry.contains("a:2"));
    registry.deregister("a:1");
    assert_eq!(registry.snapshot(), vec!["c:3".to_string(), "b:2".to_string()]);
}

#[test]
fn accepting_goes_on_until_the_deadline() {
    assert!(accepting(0, None, false));
    assert!(accepting(u128::MAX, None, false));
    assert!(accepting(999, Some(1000), false));
    assert!(accepting(1000, Some(1000), false));
    assert!(!accepting(1001, Some(1000), false));
    assert!(!accepting(0, None, true));
    assert!(!accepting(0, Some(1000), true));
}

#[test]
fn frame_ends_with_a_line_feed() {
    assert_eq!(frame(b"{}".to_vec()), b"{}\n".to_vec());
    assert_eq!(frame(vec![]), vec![10]);
}

#[test]
fn frames_come_out_when_they_are_complete() {
    let mut buffer = FrameBuffer::new();
    assert_eq!(buffer.feed(b"{\"id\":"), Vec::<Vec<u8>>::new());
    assert_eq!(buffer.pending, b"{\"id\":".to_vec());
    assert_eq!(buffer.feed(b"1}\n{\"id\":2}\n{\"i"), vec![b"{\"id\":1}".to_vec(), b"{\"id\":2}".to_vec()]);
    assert_eq!(buffer.pending, b"{\"i".to_vec());
    assert_eq!(buffer.feed(b""), Vec::<Vec<u8>>::new());
    assert_eq!(buffer.feed(b"d\":3}\n"), vec![b"{\"id\":3}".to_vec()]);
    assert_eq!(buffer.pending, Vec::<u8>::new());
    assert_eq!(buffer.feed(b"\n\n"), vec![Vec::<u8>::new(), Vec::<u8>::new()]);
}

#[test]
fn a_framed_message_comes_out_as_it_went_in() {
    let message = b"{\"id\":1,\"type\":\"kdeconnect.ping\",\"body\":{}}".to_vec();
    let mut buffer = FrameBuffer::new();
    assert_eq!(buffer.feed(&frame(message.clone())), vec![message]);
    assert!(buffer.pending.is_empty());
}

#[test]
fn a_second_channel_of_a_registered_peer_is_closed() {
    let mut registry = ConnectionRegistry::new();
    let first = registry.advance(PEER, ChannelState::IdentitySent, ChannelEvent::ReaderStarted);
    assert_eq!(first, step(ChannelState::Registered, ChannelAction::Read));
    let second = registry.advance(PEER, ChannelState::IdentitySent, ChannelEvent::ReaderStarted);
    assert_eq!(second, step(ChannelState::Closed, ChannelAction::Stop));
    assert_eq!(registry.snapshot(), vec![PEER.to_string()]);
    registry.advance(PEER, second.state, ChannelEvent::Read(0));
    assert_eq!(registry.snapshot(), vec![PEER.to_string()]);
    registry.advance(PEER, first.state, ChannelEvent::Read(0));
    assert_eq!(registry.snapshot(), Vec::<String>::new());
}

#[test]
fn a_request_to_stop_closes_every_channel_and_empties_the_registry() {
    let mut registry = ConnectionRegistry::new();
    let peers = ["10.0.0.1:1", "10.0.0.2:2", "10.0.0.3:3"];
    for peer in peers {
        registry.advance(peer, ChannelState::IdentitySent, ChannelEvent::ReaderStarted);
    }
    assert_eq!(registry.len(), 3);
    for peer in peers {
        assert_eq!(
            registry.advance(peer, ChannelState::Registered, ChannelEvent::StopRequested),
            step(ChannelState::Closed, ChannelAction::Stop)
        );
    }
    assert_eq!(registry.len(), 0);
    for state in [ChannelState::Accepted, ChannelState::IdentitySent] {
        assert_eq!(
            ConnectionRegistry::decide(state, ChannelEvent::StopRequested),
            step(ChannelState::Closed, ChannelAction::Stop)
        );
    }
}

#[test]
fn a_message_with_a_line_feed_of_its_own_gets_no_frame() {
    assert_eq!(frame_one(b"{}".to_vec()), Some(b"{}\n".to_vec()));
    assert_eq!(frame_one(vec![]), Some(vec![10]));
    assert_eq!(frame_one(b"{\n}".to_vec()), None);
    assert_eq!(frame_one(b"\n".to_vec()), None);
    assert_eq!(frame_one(b"{}\n".to_vec()), None);
}

#[test]
fn the_first_message_on_a_channel_is_one_frame() {
    let device = LocalDevice { id: "0f6a_11".to_string(), name: "line\nfeed".to_string() };
    let first = first_message(device, 1716).unwrap();
    assert_eq!(first.iter().filter(|b| **b == 10).count(), 1);
    assert_eq!(first.last(), Some(&10));
    let mut buffer = FrameBuffer::new();
    let frames = buffer.feed(&first);
    assert_eq!(frames.len(), 1);
    assert!(buffer.pending.is_empty());
    let packet = Packet::deserialize(&frames[0]).unwrap();
    assert_eq!(packet.packet_type, "kdeconnect.identity");
}
