//! Peer ids, multiaddresses, and the bootstrap peers made of them.

use gossip_chat::address::{AddressError, Multiaddr, PeerId};
use gossip_chat::bootstrap::{bootstrap_peers, dial_bootstrap_peers, dial_report, BootstrapStep};

const PEER: &str = "12D3KooWBtg3aaRMjxwedh83aGiUkwSxDwUZkzuJcfaqUmo7R3pq";

const KEY: [u8; 36] = [
    8, 1, 18, 32, 30, 209, 232, 250, 226, 196, 161, 68, 184, 190, 143, 212, 180, 123, 243, 211,
    179, 75, 135, 28, 60, 172, 246, 1, 15, 14, 66, 212, 116, 252, 226, 126,
];

fn key_peer_bytes() -> Vec<u8> {
    let mut bytes = vec![0u8, 36u8];
    bytes.extend_from_slice(&KEY);
    bytes
}

fn sha_peer_bytes() -> Vec<u8> {
    let mut bytes = vec![0x12u8, 32u8];
    bytes.extend(0u8..32u8);
    bytes
}

fn addr(text: &str) -> Multiaddr {
    Multiaddr::parse(text).unwrap()
}

#[test]
fn an_ed25519_key_is_held_inline_in_its_peer_id() {
    let peer = PeerId::from_public_key(&KEY.to_vec()).unwrap();
    assert_eq!(peer.to_bytes(), key_peer_bytes());
    assert_eq!(peer.to_text(), format!("PeerId(\"{}\")", PEER));
}

#[test]
fn the_peer_id_of_a_fresh_key_is_the_one_the_network_uses() {
    let public = libp2p::identity::Keypair::generate_ed25519().public();
    let peer = PeerId::from_public_key(&public.encode_protobuf()).unwrap();
    assert_eq!(peer.to_bytes(), libp2p::PeerId::from(public).to_bytes());
}

#[test]
fn bytes_that_are_no_key_are_refused() {
    let refused = PeerId::from_public_key(&vec![1, 2, 3]);
    assert_eq!(refused.err(), Some(AddressError::InvalidPublicKey));
}

#[test]
fn peer_ids_are_told_from_other_bytes() {
    assert!(PeerId::from_bytes(key_peer_bytes()).is_some());
    assert!(PeerId::from_bytes(sha_peer_bytes()).is_some());
    // An inline key may be empty, and no longer than 42 bytes.
    assert!(PeerId::from_bytes(vec![0, 0]).is_some());
    let mut long = vec![0u8, 42u8];
    long.extend(vec![7u8; 42]);
    assert!(PeerId::from_bytes(long).is_some());
    let mut longer = vec![0u8, 43u8];
    longer.extend(vec![7u8; 43]);
    assert!(PeerId::from_bytes(longer).is_none());
    // Too short, cut off, too long, and of another hash.
    assert!(PeerId::from_bytes(vec![]).is_none());
    assert!(PeerId::from_bytes(vec![0x12]).is_none());
    assert!(PeerId::from_bytes(vec![0x12, 2, 5]).is_none());
    assert!(PeerId::from_bytes(vec![0x12, 2, 5, 6, 7]).is_none());
    assert!(PeerId::from_bytes(vec![0x13, 2, 5, 6]).is_none());
}

#[test]
fn peer_ids_are_accepted_as_the_network_accepts_them() {
    for code in [0x00u8, 0x11, 0x12, 0x13] {
        for len in 0u8..70 {
            let mut bytes = vec![code, len];
            bytes.extend(vec![9u8; len as usize]);
            let ours = PeerId::from_bytes(bytes.clone()).is_some();
            assert_eq!(ours, libp2p::PeerId::from_bytes(&bytes).is_ok());
        }
    }
}

#[test]
fn peers_are_compared_by_their_ids() {
    let a = PeerId::from_bytes(key_peer_bytes()).unwrap();
    let b = PeerId::from_bytes(sha_peer_bytes()).unwrap();
    assert!(a.same_as(&a.clone()));
    assert!(!a.same_as(&b));
}

#[test]
fn addresses_are_read_and_shown() {
    let read = addr("/ip4/127.0.0.1/tcp/24915");
    assert_eq!(read.to_bytes(), vec![4, 127, 0, 0, 1, 6, 0x61, 0x53]);
    assert_eq!(read.to_text(), "/ip4/127.0.0.1/tcp/24915");
    assert!(Multiaddr::from_bytes(read.to_bytes()).is_some());
    assert_eq!(
        Multiaddr::parse("127.0.0.1:24915").err(),
        Some(AddressError::InvalidMultiaddr)
    );
    assert!(Multiaddr::from_bytes(vec![4, 127, 0]).is_none());
}

#[test]
fn a_hash_that_is_no_peer_id_is_refused_in_an_address() {
    // A SHA-512 hash does not name a peer.
    let hash = "8VsnYEdXhyugAP7tYzLW48TDaKWpzTX4V9ikJRxnCep1jbjYwjDfKtfnLFUR8cn5XxxYfUcjiRLDGos9H4T97LMyFc";
    assert!(Multiaddr::parse(&format!("/ip4/127.0.0.1/tcp/1/p2p/{}", hash)).is_err());
    assert!(Multiaddr::parse(&format!("/ip4/127.0.0.1/tcp/1/p2p/{}", PEER)).is_ok());
}

#[test]
fn appending_a_peer_and_splitting_it_off_again() {
    let base = addr("/ip4/10.0.0.1/tcp/4001");
    let peer = PeerId::from_bytes(key_peer_bytes()).unwrap();
    let joined = base.with_peer(&peer);
    let mut expected = base.to_bytes();
    expected.extend([0xa5, 0x03, 38]);
    expected.extend(key_peer_bytes());
    assert_eq!(joined.to_bytes(), expected);
    assert_eq!(joined.to_text(), format!("/ip4/10.0.0.1/tcp/4001/p2p/{}", PEER));
    let (rest, last) = joined.split_peer();
    assert_eq!(rest.to_bytes(), base.to_bytes());
    assert!(last.unwrap().same_as(&peer));
}

#[test]
fn splitting_an_address_that_names_no_peer() {
    let (rest, last) = addr("/ip4/10.0.0.1/tcp/4001").split_peer();
    assert_eq!(rest.to_text(), "/ip4/10.0.0.1");
    assert!(last.is_none());
    let (rest, last) = Multiaddr::from_bytes(vec![]).unwrap().split_peer();
    assert!(rest.to_bytes().is_empty());
    assert!(last.is_none());
}

#[test]
fn a_peer_that_is_written_at_length_is_shortened() {
    // The code of the component takes five bytes where two would do.
    let mut bytes = addr("/ip4/127.0.0.1/tcp/1").to_bytes();
    bytes.extend([0xa5, 0x83, 0x80, 0x80, 0x10, 4, 0x12, 2, 7, 7]);
    let (rest, last) = Multiaddr::from_bytes(bytes.clone()).unwrap().split_peer();
    assert_eq!(rest.to_text(), "/ip4/127.0.0.1/tcp/1");
    let joined = rest.with_peer(&last.unwrap()).to_bytes();
    assert_eq!(joined.len(), bytes.len() - 3);
}

#[test]
fn no_argument_names_no_bootstrap_peer() {
    assert!(bootstrap_peers(None).unwrap().is_empty());
}

#[test]
fn an_argument_names_one_bootstrap_peer() {
    let peers = bootstrap_peers(Some("/ip4/127.0.0.1/tcp/24915".to_string())).unwrap();
    assert_eq!(peers.len(), 1);
    assert_eq!(peers[0].to_text(), "/ip4/127.0.0.1/tcp/24915");
    let refused = bootstrap_peers(Some("peer".to_string()));
    assert_eq!(refused.err(), Some(AddressError::InvalidMultiaddr));
}

#[test]
fn bootstrap_peers_are_dialed_in_order() {
    let named = format!("/ip4/10.0.0.1/tcp/1/p2p/{}", PEER);
    let peers = vec![addr(&named), addr("/ip4/10.0.0.2/tcp/2"), addr(&named)];
    let steps = dial_bootstrap_peers(&peers);
    assert_eq!(steps.len(), 3);
    for at in [0usize, 2] {
        match &steps[at] {
            BootstrapStep::Dial { peer_id, addr } => {
                assert_eq!(peer_id.to_bytes(), key_peer_bytes());
                assert_eq!(addr.to_text(), "/ip4/10.0.0.1/tcp/1");
                // Joined again, it is the address that was given.
                assert_eq!(addr.with_peer(peer_id).to_text(), named);
            }
            _ => panic!("the address names its peer"),
        }
        assert_eq!(steps[at].notice(), None);
    }
    match &steps[1] {
        BootstrapStep::DialAddress { addr } => assert_eq!(addr.to_text(), "/ip4/10.0.0.2/tcp/2"),
        _ => panic!("the address is one to listen on"),
    }
    assert_eq!(steps[1].notice(), None);
}

#[test]
fn addresses_that_lead_to_nobody_are_passed_over() {
    let base = addr("/ip4/127.0.0.1/tcp/4001");
    let peer = PeerId::from_bytes(vec![0, 1, 65]).unwrap();
    let good = base.with_peer(&peer);
    let relayed = addr(&format!("{}/p2p-circuit", good.to_text()));
    let peers = vec![Multiaddr::from_bytes(vec![]).unwrap(), relayed, good];
    let steps = dial_bootstrap_peers(&peers);
    for step in &steps[..2] {
        assert!(matches!(step, BootstrapStep::Skip));
        assert_eq!(
            step.notice().unwrap(),
            "Bootstrap peer multiaddr must end with its peer ID (/p2p/<peer-id>."
        );
    }
    match &steps[2] {
        BootstrapStep::Dial { peer_id, addr } => {
            assert!(peer_id.same_as(&peer));
            assert_eq!(addr.to_bytes(), base.to_bytes());
        }
        _ => panic!("the address names its peer"),
    }
    // The text of the empty address is itself an argument.
    let empty = bootstrap_peers(Some("".to_string())).unwrap();
    assert!(matches!(dial_bootstrap_peers(&empty)[0], BootstrapStep::Skip));
    let others = [
        "/ip4/10.0.0.1",
        "/ip4/10.0.0.1/udp/6",
        "/ip4/10.0.0.1/tcp/80/ws",
        "/ip4/10.0.0.1/tcp/80/tcp/80",
        "/ip6/::1/udp/6",
        "/dns/example.com",
        "/dns/example.com/tcp/24915",
        "/dns4/example.com/tcp/24915",
        "/dns6/example.com/tcp/24915",
        "/memory/6",
        "/tcp/24915",
    ];
    for text in others {
        assert!(!addr(text).is_for_listening());
        let steps = dial_bootstrap_peers(&vec![addr(text)]);
        assert!(matches!(steps[0], BootstrapStep::Skip));
        assert_eq!(
            steps[0].notice().unwrap(),
            "Bootstrap peer multiaddr must end with its peer ID (/p2p/<peer-id>."
        );
    }
}

#[test]
fn a_plain_address_to_listen_on_is_dialed() {
    for text in ["/ip4/127.0.0.1/tcp/24915", "/ip6/::1/tcp/24915"] {
        let peers = bootstrap_peers(Some(text.to_string())).unwrap();
        match &dial_bootstrap_peers(&peers)[0] {
            BootstrapStep::DialAddress { addr } => assert_eq!(addr.to_text(), text),
            _ => panic!("the address is one to listen on"),
        }
    }
}

#[test]
fn a_shown_address_is_read_back() {
    for text in [
        "/ip4/127.0.0.1/tcp/24915",
        "/ip4/0.0.0.0/tcp/0",
        "/ip6/::1/tcp/65535",
        "/ip6/::ffff:1.2.3.4/tcp/80",
        "/ip6/2001:db8:0:0:1:0:0:1/tcp/1",
    ] {
        let base = addr(text);
        let peer = PeerId::from_bytes(key_peer_bytes()).unwrap();
        for shown in [base.clone(), base.with_peer(&peer)] {
            assert_eq!(addr(&shown.to_text()).to_bytes(), shown.to_bytes());
        }
        assert!(base.is_for_listening());
        assert!(!base.with_peer(&peer).is_for_listening());
    }
}

#[test]
fn the_outcome_of_a_bootstrap_dial_is_reported() {
    let peer = addr("/ip4/10.0.0.2/tcp/2");
    assert_eq!(
        dial_report(&peer, Ok(())),
        "Successfully dialed bootstrap peer: /ip4/10.0.0.2/tcp/2"
    );
    assert_eq!(
        dial_report(&peer, Err("no route".to_string())),
        "Failed to dial bootstrap peer /ip4/10.0.0.2/tcp/2: no route"
    );
}
