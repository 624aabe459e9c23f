//! The event loop and the client that talks to it.

use gossip_chat::address::{AddressError, Multiaddr, PeerId};
use gossip_chat::bootstrap::{dial_bootstrap_peers, BootstrapStep};
use gossip_chat::message::{GossipsubMessage, IdentTopic, MessageId};
use gossip_chat::network::{
    gossipsub_config, new, Command, ConnectedPoint, Effect, Event, EventLoop, GossipsubConfig,
    GossipsubEvent, MessageAuthenticity, P2PClient, Reply, SwarmCall, SwarmEvent, Turn,
    ValidationMode, Waiting, Wake,
};

type Loop = EventLoop<u32>;
type TurnTaken = Turn<u32, String>;

fn peer(n: u8) -> PeerId {
    PeerId::from_bytes(vec![0x12, 2, n, n]).unwrap()
}

fn addr(text: &str) -> Multiaddr {
    Multiaddr::parse(text).unwrap()
}

fn client() -> P2PClient {
    P2PClient {}
}

fn call(state: &mut Loop, command: Command<u32>) -> (SwarmCall, Waiting<u32>) {
    assert!(state.takes(&command));
    let turn: TurnTaken = state.run(Wake::Command(Some(command)));
    match turn {
        Turn::Call { call, waiting } => (call, waiting),
        _ => panic!("a command asks for a call"),
    }
}

fn act(state: &mut Loop, event: SwarmEvent<String>) -> Effect<u32, String> {
    match state.run(Wake::Swarm(event)) {
        Turn::Act(effect) => effect,
        _ => panic!("an event is acted on"),
    }
}

fn start_dial(state: &mut Loop, n: u8, sender: u32) {
    let (_, waiting) = call(state, client().dial(peer(n), addr("/ip4/10.0.0.1/tcp/1"), sender));
    let reply: Option<Reply<u32, String>> = state.finish_command(waiting, Ok(1000));
    assert!(reply.is_none());
    assert!(state.is_dialing(&peer(n)));
}

fn answer(effect: Effect<u32, String>) -> (u32, Result<(), String>) {
    match effect {
        Effect::Answer { senders, result } => {
            assert_eq!(senders.len(), 1);
            (senders[0], result)
        }
        _ => panic!("somebody is answered"),
    }
}

fn start_address_dial(state: &mut Loop, dial: u64, sender: u32) {
    let command = client().dial_address(addr("/ip4/127.0.0.1/tcp/24915"), sender);
    let (_, waiting) = call(state, command);
    let outcome: Result<u64, String> = Ok(dial);
    assert!(state.can_finish(&waiting, &outcome));
    assert!(state.finish_command(waiting, outcome).is_none());
}

fn connected(n: u8, endpoint: ConnectedPoint) -> SwarmEvent<String> {
    connected_by(n, endpoint, 1)
}

fn connected_by(n: u8, endpoint: ConnectedPoint, dial: u64) -> SwarmEvent<String> {
    SwarmEvent::ConnectionEstablished { peer_id: peer(n), endpoint, dial }
}

fn failed(n: u8, error: &str) -> SwarmEvent<String> {
    failed_by(Some(peer(n)), 1, error)
}

fn failed_by(peer_id: Option<PeerId>, dial: u64, error: &str) -> SwarmEvent<String> {
    SwarmEvent::OutgoingConnectionError { peer_id, dial, error: error.to_string() }
}

#[test]
fn a_node_is_known_by_its_key() {
    let public = libp2p::identity::Keypair::generate_ed25519().public();
    let key = public.encode_protobuf();
    let (_, mut state, config): (P2PClient, Loop, GossipsubConfig) = new(&key).unwrap();
    match config.authenticity {
        MessageAuthenticity::Signed { public_key } => assert_eq!(public_key, key),
        _ => panic!("messages are signed"),
    }
    match act(&mut state, SwarmEvent::NewListenAddr { address: addr("/ip4/127.0.0.1/tcp/9") }) {
        Effect::Announce(announced) => {
            let id = libp2p::PeerId::from(public);
            assert_eq!(announced.to_text(), format!("/ip4/127.0.0.1/tcp/9/p2p/{}", id));
            assert_eq!(addr(&announced.to_text()).to_bytes(), announced.to_bytes());
        }
        _ => panic!("the address is announced"),
    }
    let refused: Result<(P2PClient, Loop, GossipsubConfig), AddressError> = new(&vec![9]);
    assert_eq!(refused.err(), Some(AddressError::InvalidPublicKey));
}

#[test]
fn an_announced_address_leads_back_here() {
    let mut state = Loop::new(peer(1));
    let listening = addr("/ip4/127.0.0.1/tcp/24915");
    let announced = match act(&mut state, SwarmEvent::NewListenAddr { address: listening }) {
        Effect::Announce(announced) => announced,
        _ => panic!("the address is announced"),
    };
    match &dial_bootstrap_peers(&vec![announced])[0] {
        BootstrapStep::Dial { peer_id, addr } => {
            assert!(peer_id.same_as(&peer(1)));
            assert_eq!(addr.to_text(), "/ip4/127.0.0.1/tcp/24915");
        }
        _ => panic!("the address names its peer"),
    }
}

#[test]
fn listening_is_answered_with_its_outcome() {
    let mut state = Loop::new(peer(1));
    let command = client().start_listening(addr("/ip4/0.0.0.0/tcp/0"), 5);
    let (made, waiting) = call(&mut state, command);
    match made {
        SwarmCall::ListenOn(addr) => assert_eq!(addr.to_text(), "/ip4/0.0.0.0/tcp/0"),
        _ => panic!("listening"),
    }
    let reply = state.finish_command(waiting, Err("in use".to_string())).unwrap();
    assert_eq!((reply.sender, reply.result), (5, Err("in use".to_string())));
}

#[test]
fn subscribing_is_answered_with_its_outcome() {
    let mut state = Loop::new(peer(1));
    let (made, waiting) = call(&mut state, client().subscribe(&IdentTopic::new("test-net"), 6));
    match made {
        SwarmCall::Subscribe(topic) => assert_eq!(topic.topic, "test-net"),
        _ => panic!("subscribing"),
    }
    let reply: Reply<u32, String> = state.finish_command(waiting, Ok(1000)).unwrap();
    assert_eq!((reply.sender, reply.result), (6, Ok(())));
}

#[test]
fn publishing_is_answered_with_its_outcome() {
    let mut state = Loop::new(peer(1));
    let topic = IdentTopic::new("test-net");
    let (made, waiting) = call(&mut state, client().publish(&topic, b"hi", 7));
    match made {
        SwarmCall::Publish(topic, message) => {
            assert_eq!(topic.topic, "test-net");
            assert_eq!(message, b"hi".to_vec());
        }
        _ => panic!("publishing"),
    }
    let reply = state.finish_command(waiting, Err("no peers".to_string())).unwrap();
    assert_eq!((reply.sender, reply.result), (7, Err("no peers".to_string())));
}

#[test]
fn a_peer_is_dialed_at_its_address_with_its_id() {
    let mut state = Loop::new(peer(1));
    let (made, _) = call(&mut state, client().dial(peer(2), addr("/ip4/10.0.0.1/tcp/1"), 8));
    match made {
        SwarmCall::Dial(dialed) => {
            let expected = addr("/ip4/10.0.0.1/tcp/1").with_peer(&peer(2));
            assert_eq!(dialed.to_bytes(), expected.to_bytes());
        }
        _ => panic!("dialing"),
    }
}

#[test]
fn an_address_without_a_peer_is_dialed_as_it_stands() {
    let mut state = Loop::new(peer(1));
    let command = client().dial_address(addr("/ip4/127.0.0.1/tcp/24915"), 9);
    let (made, waiting) = call(&mut state, command);
    match made {
        SwarmCall::Dial(dialed) => assert_eq!(dialed.to_text(), "/ip4/127.0.0.1/tcp/24915"),
        _ => panic!("dialing"),
    }
    // Starting the dial answers nobody.
    let reply: Option<Reply<u32, String>> = state.finish_command(waiting, Ok(77));
    assert!(reply.is_none());
}

#[test]
fn a_dial_of_an_address_is_answered_by_its_connection() {
    let mut state = Loop::new(peer(1));
    start_address_dial(&mut state, 77, 9);
    let other = connected_by(2, ConnectedPoint::Dialer, 78);
    assert!(matches!(act(&mut state, other), Effect::Nothing));
    let inbound = connected_by(2, ConnectedPoint::Listener, 77);
    assert!(matches!(act(&mut state, inbound), Effect::Nothing));
    let effect = act(&mut state, connected_by(2, ConnectedPoint::Dialer, 77));
    assert_eq!(answer(effect), (9, Ok(())));
    let again = connected_by(2, ConnectedPoint::Dialer, 77);
    assert!(matches!(act(&mut state, again), Effect::Nothing));
}

#[test]
fn a_dial_of_an_address_is_answered_by_its_failure() {
    let mut state = Loop::new(peer(1));
    start_address_dial(&mut state, 77, 9);
    start_address_dial(&mut state, 78, 10);
    let effect = act(&mut state, failed_by(None, 78, "refused"));
    assert_eq!(answer(effect), (10, Err("refused".to_string())));
    let effect = act(&mut state, failed_by(Some(peer(5)), 77, "denied"));
    assert_eq!(answer(effect), (9, Err("denied".to_string())));
}

#[test]
fn a_refused_dial_of_an_address_is_answered_at_once() {
    let mut state = Loop::new(peer(1));
    let command = client().dial_address(addr("/ip4/127.0.0.1/tcp/24915"), 9);
    let (_, waiting) = call(&mut state, command);
    let reply = state.finish_command(waiting, Err("no addresses".to_string())).unwrap();
    assert_eq!((reply.sender, reply.result), (9, Err("no addresses".to_string())));
}

#[test]
fn one_connection_can_answer_two_dials() {
    let mut state = Loop::new(peer(1));
    start_dial(&mut state, 2, 20);
    start_address_dial(&mut state, 77, 21);
    match act(&mut state, connected_by(2, ConnectedPoint::Dialer, 77)) {
        Effect::Answer { senders, result } => {
            assert_eq!(senders, vec![20, 21]);
            assert_eq!(result, Ok(()));
        }
        _ => panic!("both are answered"),
    }
}

#[test]
fn one_failure_can_answer_two_dials() {
    let mut state = Loop::new(peer(1));
    start_dial(&mut state, 2, 20);
    start_dial(&mut state, 3, 22);
    start_address_dial(&mut state, 77, 21);
    match act(&mut state, failed_by(Some(peer(2)), 77, "denied")) {
        Effect::Answer { senders, result } => {
            assert_eq!(senders, vec![20, 21]);
            assert_eq!(result, Err("denied".to_string()));
        }
        _ => panic!("both are answered"),
    }
    assert!(!state.is_dialing(&peer(2)));
    assert!(state.is_dialing(&peer(3)));
}

#[test]
fn a_further_outcome_answers_nobody_again() {
    for late in [connected(2, ConnectedPoint::Dialer), failed(2, "late")] {
        let mut state = Loop::new(peer(1));
        start_dial(&mut state, 2, 20);
        start_dial(&mut state, 3, 22);
        start_address_dial(&mut state, 77, 21);
        assert_eq!(answer(act(&mut state, failed(2, "gone"))), (20, Err("gone".to_string())));
        assert!(matches!(act(&mut state, late), Effect::Nothing));
        // One that bears the number of a dial of an address answers that dial alone.
        let effect = act(&mut state, failed_by(Some(peer(2)), 77, "denied"));
        assert_eq!(answer(effect), (21, Err("denied".to_string())));
        assert!(state.is_dialing(&peer(3)));
    }
}

#[test]
fn a_number_stands_for_one_dial_at_a_time() {
    let mut state = Loop::new(peer(1));
    start_address_dial(&mut state, 77, 9);
    let command = client().dial_address(addr("/ip4/127.0.0.1/tcp/1"), 10);
    let (_, waiting) = call(&mut state, command);
    let taken: Result<u64, String> = Ok(77);
    let free: Result<u64, String> = Ok(78);
    let refused: Result<u64, String> = Err("x".to_string());
    assert!(!state.can_finish(&waiting, &taken));
    assert!(state.can_finish(&waiting, &free));
    assert!(state.can_finish(&waiting, &refused));
}

#[test]
fn a_dial_is_answered_by_its_connection() {
    let mut state = Loop::new(peer(1));
    start_dial(&mut state, 2, 10);
    let effect = act(&mut state, connected(2, ConnectedPoint::Dialer));
    assert_eq!(answer(effect), (10, Ok(())));
    assert!(!state.is_dialing(&peer(2)));
    // It is answered once, and the peer can be dialed again.
    assert!(matches!(act(&mut state, connected(2, ConnectedPoint::Dialer)), Effect::Nothing));
    start_dial(&mut state, 2, 11);
}

#[test]
fn a_dial_is_answered_by_its_failure() {
    let mut state = Loop::new(peer(1));
    start_dial(&mut state, 2, 12);
    let effect = act(&mut state, failed(2, "refused"));
    assert_eq!(answer(effect), (12, Err("refused".to_string())));
    assert!(!state.is_dialing(&peer(2)));
}

#[test]
fn a_refused_dial_is_answered_at_once() {
    let mut state = Loop::new(peer(1));
    let (_, waiting) = call(&mut state, client().dial(peer(2), addr("/ip4/10.0.0.1/tcp/1"), 13));
    let reply = state.finish_command(waiting, Err("banned".to_string())).unwrap();
    assert_eq!((reply.sender, reply.result), (13, Err("banned".to_string())));
    assert!(!state.is_dialing(&peer(2)));
}

#[test]
fn a_dial_outlasts_what_happens_to_others() {
    let mut state = Loop::new(peer(1));
    start_dial(&mut state, 2, 14);
    start_dial(&mut state, 3, 15);
    start_dial(&mut state, 4, 16);
    let unknown = failed_by(None, 1, "x");
    assert!(matches!(act(&mut state, connected(2, ConnectedPoint::Listener)), Effect::Nothing));
    assert!(matches!(act(&mut state, connected(5, ConnectedPoint::Dialer)), Effect::Nothing));
    assert!(matches!(act(&mut state, unknown), Effect::Nothing));
    assert!(matches!(act(&mut state, SwarmEvent::Other), Effect::Nothing));
    assert!(matches!(
        act(&mut state, SwarmEvent::Behaviour(GossipsubEvent::Other)),
        Effect::Nothing
    ));
    assert_eq!(answer(act(&mut state, failed(3, "gone"))), (15, Err("gone".to_string())));
    assert_eq!(answer(act(&mut state, connected(4, ConnectedPoint::Dialer))), (16, Ok(())));
    assert_eq!(answer(act(&mut state, connected(2, ConnectedPoint::Dialer))), (14, Ok(())));
}

#[test]
fn a_peer_is_not_dialed_twice_at_a_time() {
    let mut state = Loop::new(peer(1));
    start_dial(&mut state, 2, 17);
    assert!(!state.takes(&client().dial(peer(2), addr("/ip4/10.0.0.9/tcp/1"), 18)));
    assert!(state.takes(&client().dial(peer(3), addr("/ip4/10.0.0.9/tcp/1"), 18)));
    assert!(state.takes(&client().subscribe(&IdentTopic::new("t"), 18)));
}

#[test]
fn messages_are_handed_on_unchanged() {
    let mut state = Loop::new(peer(1));
    let event = SwarmEvent::Behaviour(GossipsubEvent::Message {
        propagation_source: peer(2),
        message_id: MessageId { bytes: vec![1, 2] },
        message: GossipsubMessage {
            source: Some(peer(3)),
            data: b"hi".to_vec(),
            sequence_number: Some(4),
            topic: "test-net".to_string(),
        },
    });
    match act(&mut state, event) {
        Effect::Forward(Event::PubsubMessage { propagation_source, message_id, message }) => {
            assert!(propagation_source.same_as(&peer(2)));
            assert_eq!(message_id.bytes, vec![1, 2]);
            assert!(message.source.unwrap().same_as(&peer(3)));
            assert_eq!(message.data, b"hi".to_vec());
            assert_eq!(message.sequence_number, Some(4));
            assert_eq!(message.topic, "test-net");
        }
        _ => panic!("the message is handed on"),
    }
}

#[test]
fn the_loop_ends_when_the_clients_are_gone() {
    let mut state = Loop::new(peer(1));
    let turn: TurnTaken = state.run(Wake::Command(None));
    assert!(matches!(turn, Turn::Stop));
}

#[test]
fn every_call_gets_one_answer() {
    let mut state = Loop::new(peer(1));
    let mut answers = Vec::new();
    for n in 2u8..6 {
        start_dial(&mut state, n, n as u32);
    }
    start_address_dial(&mut state, 77, 7);
    let (_, waiting) = call(&mut state, client().subscribe(&IdentTopic::new("t"), 6));
    let reply: Reply<u32, String> = state.finish_command(waiting, Ok(1000)).unwrap();
    answers.push(reply.sender);
    for n in [4u8, 2, 5, 3] {
        for event in [connected(n, ConnectedPoint::Dialer), failed(n, "late")] {
            if let Effect::Answer { senders, .. } = act(&mut state, event) {
                answers.extend(senders);
            }
        }
    }
    assert_eq!(answers, vec![6, 4, 2, 5, 3]);
    assert_eq!(answer(act(&mut state, failed_by(None, 77, "late"))).0, 7);
}

#[test]
fn gossip_beats_every_second_and_is_signed() {
    let config = gossipsub_config(&vec![1, 2, 3]);
    assert_eq!(config.heartbeat_interval_secs, 1);
    assert_eq!(config.validation_mode, ValidationMode::Strict);
    match config.authenticity {
        MessageAuthenticity::Signed { public_key } => assert_eq!(public_key, vec![1, 2, 3]),
        _ => panic!("messages are signed"),
    }
}
