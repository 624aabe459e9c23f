//! Peer ids and multiaddresses, each held by its byte encoding.

use vstd::prelude::*;

verus! {

/// The error with which `libp2p` refuses the text of a multiaddress. Nothing is known of its
/// contents.
#[verifier::external_type_specification]
#[verifier::external_body]
pub struct ExMultiaddrError(libp2p::multiaddr::Error);

/// The error with which `libp2p` refuses the encoding of a public key. Nothing is known of its
/// contents.
#[verifier::external_type_specification]
#[verifier::external_body]
pub struct ExKeyDecodingError(libp2p::identity::DecodingError);

/// Whether `libp2p::Multiaddr` accepts these bytes as the encoding of a multiaddress, on a target
/// whose `usize` has this many bits: lengths inside the encoding are read as `usize`.
pub uninterp spec fn multiaddr_valid(bytes: Seq<u8>, word_bits: int) -> bool;

/// The encoding of the multiaddress that `libp2p::Multiaddr` reads out of this text, or nothing
/// where it refuses the text.
pub uninterp spec fn multiaddr_of_text(text: Seq<char>) -> Option<Seq<u8>>;

/// The text with which `libp2p::Multiaddr` shows the multiaddress of this encoding, on a target
/// whose `usize` has this many bits.
pub uninterp spec fn multiaddr_text(bytes: Seq<u8>, word_bits: int) -> Seq<char>;

/// What `libp2p::Multiaddr::pop` makes of this encoding, on a target whose `usize` has this many
/// bits: what is left of it without its last component, and the peer id in that component where it
/// is a `/p2p` one.
pub uninterp spec fn multiaddr_popped(bytes: Seq<u8>, word_bits: int) -> (
    Seq<u8>,
    Option<Seq<u8>>,
);

/// The text with which `libp2p::PeerId` shows itself for debugging.
pub uninterp spec fn peer_id_text(bytes: Seq<u8>) -> Seq<char>;

/// The peer id that `libp2p::PeerId` gives to the holder of this protobuf-encoded public key, or
/// nothing where the key cannot be read.
pub uninterp spec fn peer_id_of_key(key: Seq<u8>) -> Option<Seq<u8>>;

/// The encoding of a peer id: a multihash, which is a code, the length of the digest and the
/// digest. Either the SHA-256 code stands in front, or the identity code with a key that is short
/// enough to be held inline.
pub open spec fn is_peer_id(bytes: Seq<u8>) -> bool {
    &&& bytes.len() >= 2
    &&& bytes.len() == 2 + bytes[1]
    &&& (bytes[0] == 0x12 && bytes[1] <= 64) || (bytes[0] == 0 && bytes[1] <= 42)
}

/// The encoding of the component `/p2p/<peer>`: the code of the protocol as a varint, the length
/// of the peer id and the peer id.
pub open spec fn p2p_component(peer: Seq<u8>) -> Seq<u8> {
    seq![0xa5u8, 0x03u8, peer.len() as u8] + peer
}

/// Whether these bytes are the encoding of a multiaddress on the running target.
pub open spec fn is_multiaddr(bytes: Seq<u8>) -> bool {
    multiaddr_valid(bytes, usize::BITS as int)
}

/// The text of an address on the running target.
pub open spec fn text_of(bytes: Seq<u8>) -> Seq<char> {
    multiaddr_text(bytes, usize::BITS as int)
}

/// What an address comes to on the running target without its last component, and the peer in that
/// component where it names one.
pub open spec fn popped(bytes: Seq<u8>) -> (Seq<u8>, Option<Seq<u8>>) {
    multiaddr_popped(bytes, usize::BITS as int)
}

/// An address to listen on: `/ip4/<host>/tcp/<port>` or `/ip6/<host>/tcp/<port>`.
pub open spec fn is_listen_address(bytes: Seq<u8>) -> bool {
    ||| bytes.len() == 8 && bytes[0] == 4 && bytes[5] == 6
    ||| bytes.len() == 20 && bytes[0] == 41 && bytes[17] == 6
}

/// An address to listen on, with or without the id of the peer that listens there.
pub open spec fn is_reachable_address(bytes: Seq<u8>) -> bool {
    ||| is_listen_address(bytes)
    ||| exists|base: Seq<u8>, peer: Seq<u8>| #[trigger]
        is_listen_address(base) && #[trigger] is_peer_id(peer) && bytes == base + p2p_component(
            peer,
        )
}

/// Where a node can be reached at the address, the text of the address reads as the address.
pub open spec fn reads_back(bytes: Seq<u8>) -> bool {
    is_reachable_address(bytes) ==> multiaddr_of_text(text_of(bytes)) == Some(bytes)
}

/// The address ends in `/p2p-circuit`, behind an address of its own.
pub open spec fn is_circuit(bytes: Seq<u8>) -> bool {
    &&& bytes.len() >= 2
    &&& bytes.skip(bytes.len() - 2) == seq![0xa2u8, 0x02u8]
    &&& is_multiaddr(bytes.take(bytes.len() - 2))
}

/// What comes off a few kinds of addresses that name no peer at their end: nothing off an empty
/// one, the port off one to listen on, and the relay off one that ends in it.
pub open spec fn splits_plainly(bytes: Seq<u8>) -> bool {
    &&& bytes.len() == 0 ==> popped(bytes) == (bytes, None::<Seq<u8>>)
    &&& is_listen_address(bytes) ==> popped(bytes) == (bytes.take(bytes.len() - 3), None::<Seq<u8>>)
    &&& is_circuit(bytes) ==> popped(bytes) == (bytes.take(bytes.len() - 2), None::<Seq<u8>>)
}

/// Where the address ends in a peer id, its last component is written in the shortest way.
pub open spec fn ends_canonically(bytes: Seq<u8>) -> bool {
    popped(bytes).1 matches Some(peer) ==> bytes == popped(bytes).0 + p2p_component(peer)
}

/// The encoding of an Ed25519 public key: the key's type, the length of its data and the data.
pub open spec fn is_ed25519_key(key: Seq<u8>) -> bool {
    key.len() == 36 && key.take(4) == seq![0x08u8, 0x01u8, 0x12u8, 0x20u8]
}

/// `libp2p::Multiaddr::try_from` on a byte vector. It succeeds exactly on the encodings that
/// `multiaddr_valid` names.
#[verifier::external_body]
fn check_multiaddr(bytes: &Vec<u8>) -> (valid: bool)
    ensures
        valid == multiaddr_valid(bytes@, usize::BITS as int),
{
    libp2p::Multiaddr::try_from(bytes.clone()).is_ok()
}

/// `libp2p::Multiaddr::from_str`. It yields the encoding that `multiaddr_of_text` names, which is
/// a valid one, and writes a `/p2p` component in the shortest way.
#[verifier::external_body]
fn read_multiaddr(text: &str) -> (read: Result<Vec<u8>, libp2p::multiaddr::Error>)
    ensures
        read is Ok <==> multiaddr_of_text(text@) is Some,
        read matches Ok(bytes) ==> multiaddr_of_text(text@) == Some(bytes@),
        read matches Ok(bytes) ==> is_multiaddr(bytes@),
        read matches Ok(bytes) ==> ends_canonically(bytes@),
{
    text.parse::<libp2p::Multiaddr>().map(|addr| addr.to_vec())
}

/// `libp2p::Multiaddr`'s `Display`: the text that `multiaddr_text` names. Of an IP address and a TCP
/// port, with or without a peer id, `libp2p::Multiaddr::from_str` reads it back.
#[verifier::external_body]
fn show_multiaddr(bytes: &Vec<u8>) -> (text: String)
    requires
        is_multiaddr(bytes@),
    ensures
        text@ == multiaddr_text(bytes@, usize::BITS as int),
        is_reachable_address(bytes@) ==> multiaddr_of_text(text@) == Some(bytes@),
{
    libp2p::Multiaddr::try_from(bytes.clone()).expect("a valid multiaddress").to_string()
}

/// `libp2p::Multiaddr::with` for the component `/p2p/<peer>`: the component's encoding is appended
/// to that of the address. The result is valid, and `pop` takes the component off again.
#[verifier::external_body]
fn append_peer(bytes: &Vec<u8>, peer: &Vec<u8>) -> (joined: Vec<u8>)
    requires
        is_multiaddr(bytes@),
        is_peer_id(peer@),
    ensures
        joined@ == bytes@ + p2p_component(peer@),
        is_multiaddr(joined@),
        popped(joined@) == (bytes@, Some(peer@)),
{
    let addr = libp2p::Multiaddr::try_from(bytes.clone()).expect("a valid multiaddress");
    let peer_id = libp2p::PeerId::from_bytes(peer).expect("a valid peer id");
    addr.with(libp2p::multiaddr::Protocol::P2p(peer_id)).to_vec()
}

/// `libp2p::Multiaddr::pop`, told apart by whether a `/p2p` component came off. What is left is
/// valid and stands at the front of the address; a peer id that came off is a valid one. Nothing
/// comes off an empty address, the port off an IP address with a TCP port, and `/p2p-circuit` off an
/// address that ends in it.
#[verifier::external_body]
fn pop_component(bytes: &Vec<u8>) -> (came_off: (Vec<u8>, Option<Vec<u8>>))
    requires
        is_multiaddr(bytes@),
    ensures
        came_off.0@ == multiaddr_popped(bytes@, usize::BITS as int).0,
        came_off.1 is Some <==> popped(bytes@).1 is Some,
        came_off.1 matches Some(peer) ==> popped(bytes@).1 == Some(peer@),
        came_off.1 matches Some(peer) ==> is_peer_id(peer@),
        is_multiaddr(came_off.0@),
        came_off.0@.is_prefix_of(bytes@),
        bytes@.len() == 0 ==> came_off.1 is None,
        is_listen_address(bytes@) ==> came_off.1 is None && came_off.0@ == bytes@.take(
            bytes@.len() - 3,
        ),
        is_circuit(bytes@) ==> came_off.1 is None && came_off.0@ == bytes@.take(bytes@.len() - 2),
{
    let mut addr = libp2p::Multiaddr::try_from(bytes.clone()).expect("a valid multiaddress");
    let peer = match addr.pop() {
        Some(libp2p::multiaddr::Protocol::P2p(peer_id)) => Some(peer_id.to_bytes()),
        _ => None,
    };
    (addr.to_vec(), peer)
}

/// `libp2p::PeerId`'s `Debug`: the text that `peer_id_text` names.
#[verifier::external_body]
fn show_peer_id(bytes: &Vec<u8>) -> (text: String)
    requires
        is_peer_id(bytes@),
    ensures
        text@ == peer_id_text(bytes@),
{
    format!("{:?}", libp2p::PeerId::from_bytes(bytes).expect("a valid peer id"))
}

/// `libp2p::PeerId::from` on a public key in its protobuf encoding. The result is a valid peer id;
/// a key of Ed25519 is held inline, behind the identity code and its length.
#[verifier::external_body]
fn identify_key(key: &Vec<u8>) -> (id: Result<Vec<u8>, libp2p::identity::DecodingError>)
    ensures
        id is Ok <==> peer_id_of_key(key@) is Some,
        id matches Ok(bytes) ==> peer_id_of_key(key@) == Some(bytes@),
        id matches Ok(bytes) ==> is_peer_id(bytes@),
        id matches Ok(bytes) ==> is_ed25519_key(key@) ==> bytes@ == seq![0u8, 36u8] + key@,
{
    let key = libp2p::identity::PublicKey::try_decode_protobuf(key)?;
    Ok(libp2p::PeerId::from(key).to_bytes())
}

/// Why a text or an encoding was refused.
#[derive(Clone, Copy, Debug, PartialEq, Eq, Structural)]
pub enum AddressError {
    /// The text is not that of a multiaddress.
    InvalidMultiaddr,
    /// The bytes are not the encoding of a public key.
    InvalidPublicKey,
}

/// The identity of a peer.
pub struct PeerId {
    bytes: Vec<u8>,
}

impl View for PeerId {
    type V = Seq<u8>;

    /// The encoding of the peer id.
    closed spec fn view(&self) -> Seq<u8> {
        self.bytes@
    }
}

impl PeerId {
    #[verifier::type_invariant]
    spec fn well_formed(self) -> bool {
        is_peer_id(self.bytes@)
    }

    /// Takes the encoding of a peer id.
    pub fn from_bytes(bytes: Vec<u8>) -> (id: Option<PeerId>)
        ensures
            id is Some <==> is_peer_id(bytes@),
            id matches Some(id) ==> id@ == bytes@,
    {
        if bytes.len() < 2 || bytes.len() != 2 + bytes[1] as usize {
            return None;
        }
        if bytes[0] == 0x12 && bytes[1] <= 64 || bytes[0] == 0 && bytes[1] <= 42 {
            Some(PeerId { bytes })
        } else {
            None
        }
    }

    /// The peer id of the holder of a public key, given in its protobuf encoding.
    pub fn from_public_key(key: &Vec<u8>) -> (id: Result<PeerId, AddressError>)
        ensures
            id is Ok <==> peer_id_of_key(key@) is Some,
            id matches Ok(id) ==> peer_id_of_key(key@) == Some(id@) && is_peer_id(id@),
            id matches Ok(id) ==> is_ed25519_key(key@) ==> id@ == seq![0u8, 36u8] + key@,
            id matches Err(error) ==> error == AddressError::InvalidPublicKey,
    {
        match identify_key(key) {
            Ok(bytes) => Ok(PeerId { bytes }),
            Err(_) => Err(AddressError::InvalidPublicKey),
        }
    }

    /// The encoding of the peer id.
    pub fn to_bytes(&self) -> (bytes: Vec<u8>)
        ensures
            bytes@ == self@,
            is_peer_id(bytes@),
    {
        proof {
            use_type_invariant(self);
        }
        self.bytes.clone()
    }

    /// Whether this is the same peer as `other`.
    pub fn same_as(&self, other: &PeerId) -> (same: bool)
        ensures
            same == (self@ == other@),
    {
        let same = self.bytes == other.bytes;
        assert(same ==> self@ =~= other@);
        same
    }

    /// The text with which the peer is shown.
    pub fn to_text(&self) -> (text: String)
        ensures
            text@ == peer_id_text(self@),
    {
        proof {
            use_type_invariant(self);
        }
        show_peer_id(&self.bytes)
    }
}

impl Clone for PeerId {
    fn clone(&self) -> (copy: Self)
        ensures
            copy@ == self@,
    {
        proof {
            use_type_invariant(self);
        }
        PeerId { bytes: self.bytes.clone() }
    }
}

/// A network address, made of protocol components.
pub struct Multiaddr {
    bytes: Vec<u8>,
}

impl View for Multiaddr {
    type V = Seq<u8>;

    /// The encoding of the address.
    closed spec fn view(&self) -> Seq<u8> {
        self.bytes@
    }
}

impl Multiaddr {
    #[verifier::type_invariant]
    spec fn well_formed(self) -> bool {
        is_multiaddr(self.bytes@)
    }

    /// Takes the encoding of an address.
    pub fn from_bytes(bytes: Vec<u8>) -> (addr: Option<Multiaddr>)
        ensures
            addr is Some <==> is_multiaddr(bytes@),
            addr is Some <==> multiaddr_valid(bytes@, usize::BITS as int),
            addr matches Some(addr) ==> addr@ == bytes@,
    {
        if check_multiaddr(&bytes) {
            Some(Multiaddr { bytes })
        } else {
            None
        }
    }

    /// Reads an address such as `/ip4/127.0.0.1/tcp/24915`.
    pub fn parse(text: &str) -> (addr: Result<Multiaddr, AddressError>)
        ensures
            addr is Ok <==> multiaddr_of_text(text@) is Some,
            addr matches Ok(addr) ==> multiaddr_of_text(text@) == Some(addr@),
            addr matches Ok(addr) ==> ends_canonically(addr@),
            addr matches Err(error) ==> error == AddressError::InvalidMultiaddr,
    {
        match read_multiaddr(text) {
            Ok(bytes) => Ok(Multiaddr { bytes }),
            Err(_) => Err(AddressError::InvalidMultiaddr),
        }
    }

    /// The encoding of the address.
    pub fn to_bytes(&self) -> (bytes: Vec<u8>)
        ensures
            bytes@ == self@,
            is_multiaddr(bytes@),
    {
        proof {
            use_type_invariant(self);
        }
        self.bytes.clone()
    }

    /// The text of the address.
    pub fn to_text(&self) -> (text: String)
        ensures
            text@ == text_of(self@),
            text@ == multiaddr_text(self@, usize::BITS as int),
            reads_back(self@),
    {
        proof {
            use_type_invariant(self);
        }
        show_multiaddr(&self.bytes)
    }

    /// The address of this peer at this address: `/p2p/<peer>` is appended, and `split_peer` takes
    /// it off again.
    pub fn with_peer(&self, peer: &PeerId) -> (joined: Multiaddr)
        ensures
            joined@ == self@ + p2p_component(peer@),
            popped(joined@) == (self@, Some(peer@)),
            multiaddr_popped(joined@, usize::BITS as int) == (self@, Some(peer@)),
            is_peer_id(peer@),
    {
        proof {
            use_type_invariant(self);
            use_type_invariant(peer);
        }
        Multiaddr { bytes: append_peer(&self.bytes, &peer.bytes) }
    }

    /// Takes off the last component: what is left, and the peer in it where it names one.
    pub fn split_peer(&self) -> (split: (Multiaddr, Option<PeerId>))
        ensures
            split.0@ == popped(self@).0,
            split.0@.is_prefix_of(self@),
            split.1 is Some <==> popped(self@).1 is Some,
            split.1 matches Some(peer) ==> popped(self@).1 == Some(peer@),
            split.0@ == multiaddr_popped(self@, usize::BITS as int).0,
            match split.1 {
                Some(peer) => multiaddr_popped(self@, usize::BITS as int).1 == Some(peer@),
                None => multiaddr_popped(self@, usize::BITS as int).1 is None,
            },
            splits_plainly(self@),
    {
        proof {
            use_type_invariant(self);
        }
        let (rest, last) = pop_component(&self.bytes);
        assert(self@.len() == 0 ==> rest@ =~= self@);
        let peer = match last {
            Some(bytes) => Some(PeerId { bytes }),
            None => None,
        };
        (Multiaddr { bytes: rest }, peer)
    }

    /// Whether this is `/ip4/<host>/tcp/<port>` or `/ip6/<host>/tcp/<port>`, and nothing more.
    pub fn is_for_listening(&self) -> (listening: bool)
        ensures
            listening == is_listen_address(self@),
    {
        let bytes = &self.bytes;
        bytes.len() == 8 && bytes[0] == 4 && bytes[5] == 6 || bytes.len() == 20 && bytes[0] == 41
            && bytes[17] == 6
    }
}

impl Clone for Multiaddr {
    fn clone(&self) -> (copy: Self)
        ensures
            copy@ == self@,
    {
        proof {
            use_type_invariant(self);
        }
        Multiaddr { bytes: self.bytes.clone() }
    }
}

/// A peer id is a digest behind its length and one of two codes: any digest of up to 64 bytes behind
/// that of SHA-256, and any of up to 42 bytes behind that of the identity. There are no others.
pub proof fn peer_ids_are_multihashes(code: u8, digest: Seq<u8>, bytes: Seq<u8>)
    ensures
        digest.len() < 256 ==> (is_peer_id(seq![code, digest.len() as u8] + digest) <==> code == 0x12
            && digest.len() <= 64 || code == 0 && digest.len() <= 42),
        is_peer_id(bytes) ==> bytes == seq![bytes[0], (bytes.len() - 2) as u8] + bytes.skip(2),
{
    if digest.len() < 256 {
        let made = seq![code, digest.len() as u8] + digest;
        assert(made[0] == code && made[1] == digest.len());
    }
    if is_peer_id(bytes) {
        assert(bytes =~= seq![bytes[0], (bytes.len() - 2) as u8] + bytes.skip(2));
    }
}

/// The component that names a peer starts with the varint of 421, goes on with the length of the
/// peer id and ends with the peer id.
pub proof fn a_component_holds_its_peer(peer: Seq<u8>)
    requires
        is_peer_id(peer),
    ensures
        p2p_component(peer).len() == 3 + peer.len(),
        (p2p_component(peer)[0] - 128) + 128 * p2p_component(peer)[1] == 421,
        p2p_component(peer)[2] == peer.len(),
        p2p_component(peer).skip(3) == peer,
{
    assert(p2p_component(peer).skip(3) =~= peer);
}

/// Every host of the fourth or the sixth version of IP together with every TCP port is an address to
/// listen on, and there are no others. With the id of a peer behind it, it is still one at which a
/// node can be reached.
pub proof fn hosts_with_a_tcp_port_are_listened_on(
    host: Seq<u8>,
    port: Seq<u8>,
    peer: Seq<u8>,
    bytes: Seq<u8>,
)
    requires
        port.len() == 2,
        is_peer_id(peer),
    ensures
        host.len() == 4 ==> is_listen_address(seq![4u8] + host + seq![6u8] + port),
        host.len() == 16 ==> is_listen_address(seq![41u8] + host + seq![6u8] + port),
        is_listen_address(bytes) ==> {
            ||| bytes.len() == 8 && bytes == seq![4u8] + bytes.subrange(1, 5) + seq![6u8]
                + bytes.skip(6)
            ||| bytes.len() == 20 && bytes == seq![41u8] + bytes.subrange(1, 17) + seq![6u8]
                + bytes.skip(18)
        },
        is_listen_address(bytes) ==> is_reachable_address(bytes) && is_reachable_address(
            bytes + (seq![0xa5u8, 0x03u8, peer.len() as u8] + peer),
        ),
{
    if host.len() == 4 {
        let made = seq![4u8] + host + seq![6u8] + port;
        assert(made.len() == 8 && made[0] == 4 && made[5] == 6);
    }
    if host.len() == 16 {
        let made = seq![41u8] + host + seq![6u8] + port;
        assert(made.len() == 20 && made[0] == 41 && made[17] == 6);
    }
    if is_listen_address(bytes) {
        if bytes.len() == 8 {
            assert(bytes =~= seq![4u8] + bytes.subrange(1, 5) + seq![6u8] + bytes.skip(6));
        } else {
            assert(bytes =~= seq![41u8] + bytes.subrange(1, 17) + seq![6u8] + bytes.skip(18));
        }
        assert(is_reachable_address(bytes + p2p_component(peer)));
    }
}

/// A key of 32 bytes behind the type of Ed25519 and its length is an Ed25519 key, and what holds it
/// inline is a peer id.
pub proof fn an_ed25519_key_is_held_inline(data: Seq<u8>)
    requires
        data.len() == 32,
    ensures
        is_ed25519_key(seq![0x08u8, 0x01u8, 0x12u8, 0x20u8] + data),
        is_peer_id(seq![0u8, 36u8] + (seq![0x08u8, 0x01u8, 0x12u8, 0x20u8] + data)),
{
    let key = seq![0x08u8, 0x01u8, 0x12u8, 0x20u8] + data;
    assert(key.take(4) =~= seq![0x08u8, 0x01u8, 0x12u8, 0x20u8]);
}

} // verus!
