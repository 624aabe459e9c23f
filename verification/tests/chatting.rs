//! The ids of messages and the lines of the terminal.

use gossip_chat::address::{Multiaddr, PeerId};
use gossip_chat::chat::{
    chat_topic, listen_address, listening_line, local_peer_line, on_line, on_network_event,
    EventAction, LineAction,
};
use gossip_chat::message::{message_id, GossipsubMessage, MessageId};
use gossip_chat::network::Event;
use std::hash::{Hash, Hasher};

fn peer() -> PeerId {
    let bytes = libp2p::identity::Keypair::generate_ed25519().public().to_peer_id().to_bytes();
    PeerId::from_bytes(bytes).unwrap()
}

fn message(data: &[u8]) -> GossipsubMessage {
    GossipsubMessage {
        source: None,
        data: data.to_vec(),
        sequence_number: None,
        topic: "test-net".to_string(),
    }
}

fn shown(data: &[u8], id: MessageId, from: &PeerId) -> String {
    let event = Event::PubsubMessage {
        propagation_source: from.clone(),
        message_id: id,
        message: message(data),
    };
    match on_network_event(Some(event)) {
        EventAction::Show(line) => line,
        EventAction::Stop(_) => panic!("the chat goes on"),
    }
}

#[test]
fn a_hash_is_written_in_decimal() {
    assert_eq!(MessageId::from_hash(0).bytes, b"0".to_vec());
    assert_eq!(MessageId::from_hash(9).bytes, b"9".to_vec());
    assert_eq!(MessageId::from_hash(10).bytes, b"10".to_vec());
    assert_eq!(MessageId::from_hash(120).bytes, b"120".to_vec());
    assert_eq!(MessageId::from_hash(u64::MAX).bytes, b"18446744073709551615".to_vec());
}

#[test]
fn ids_are_shown_in_hexadecimal() {
    assert_eq!(MessageId { bytes: vec![] }.to_text(), "");
    assert_eq!(MessageId { bytes: vec![0x0a, 0x1b, 0xff, 0x00] }.to_text(), "0a1bff00");
    assert_eq!(MessageId::from_hash(120).to_text(), "313230");
}

#[test]
fn a_message_is_named_by_the_hash_of_its_content() {
    for data in [&b""[..], &b"hello"[..], &[0u8, 255, 7][..]] {
        let mut state = std::collections::hash_map::DefaultHasher::new();
        data.to_vec().hash(&mut state);
        let expected = state.finish().to_string();
        assert_eq!(message_id(&message(data)).bytes, expected.into_bytes());
    }
    assert_eq!(message_id(&message(b"hello")).bytes, b"9754003402134539932".to_vec());
}

#[test]
fn only_the_content_counts_for_the_id() {
    let plain = message(b"hello");
    let other = GossipsubMessage {
        source: Some(peer()),
        data: b"hello".to_vec(),
        sequence_number: Some(3),
        topic: "elsewhere".to_string(),
    };
    assert_eq!(message_id(&plain).bytes, message_id(&other).bytes);
    assert_ne!(message_id(&plain).bytes, message_id(&message(b"hallo")).bytes);
}

#[test]
fn exit_ends_the_chat() {
    assert!(matches!(on_line(&"exit".to_string()), LineAction::Exit));
}

#[test]
fn any_other_line_is_published() {
    for line in ["", "Exit", "exit ", "hello", "caf\u{e9} \u{1f600}"] {
        match on_line(&line.to_string()) {
            LineAction::Publish(bytes) => assert_eq!(bytes, line.as_bytes().to_vec()),
            LineAction::Exit => panic!("the chat goes on"),
        }
    }
}

#[test]
fn a_message_is_shown_with_its_id_and_its_sender() {
    let from = peer();
    let line = shown(b"hello", MessageId::from_hash(12), &from);
    assert_eq!(
        line,
        format!("Got message: hello with id: 3132 from peer: {}", from.to_text())
    );
}

#[test]
fn a_typed_line_is_shown_unchanged() {
    let typed = "caf\u{e9} \u{1f600} {x}".to_string();
    let data = match on_line(&typed) {
        LineAction::Publish(bytes) => bytes,
        LineAction::Exit => panic!("the chat goes on"),
    };
    let line = shown(&data, MessageId::from_hash(1), &peer());
    assert!(line.starts_with(&format!("Got message: {} with id: 31 from peer: PeerId(", typed)));
}

#[test]
fn bytes_that_are_no_text_are_mended() {
    let line = shown(&[b'a', 0xff, b'b'], MessageId::from_hash(1), &peer());
    assert!(line.starts_with("Got message: a\u{fffd}b with id: "));
}

#[test]
fn the_chat_stops_with_the_network() {
    match on_network_event(None) {
        EventAction::Stop(line) => assert_eq!(line, "Network event loop stopped"),
        EventAction::Show(_) => panic!("the chat stops"),
    }
}

#[test]
fn the_chat_starts_on_every_interface() {
    assert_eq!(chat_topic().topic, "test-net");
    let addr = listen_address().unwrap();
    assert_eq!(addr.to_text(), "/ip4/0.0.0.0/tcp/0");
    assert_eq!(addr.to_bytes(), vec![4, 0, 0, 0, 0, 6, 0, 0]);
}

#[test]
fn the_node_introduces_itself() {
    let local = peer();
    assert_eq!(local_peer_line(&local), format!("Local peer id: {}", local.to_text()));
    let announced = Multiaddr::parse("/ip4/127.0.0.1/tcp/24915").unwrap();
    assert_eq!(
        listening_line(&announced),
        "Local node is listening on /ip4/127.0.0.1/tcp/24915"
    );
}
