//! Messages, their topics, and the ids by which the network tells them apart.

use crate::address::PeerId;
use std::collections::hash_map::DefaultHasher;
use std::hash::{Hash, Hasher};
use vstd::prelude::*;
use vstd::std_specs::hash::DefaultHasherAdditionalSpecFns;

verus! {

/// What `Hash` for a byte vector writes into a hasher, one sequence of bytes per write, on a target
/// whose `usize` has this many bits and this byte order.
pub uninterp spec fn hash_writes(
    data: Seq<u8>,
    word_bits: int,
    big_endian: bool,
) -> Seq<Seq<u8>>;

/// `Vec<u8>`'s `Hash::hash` into a `DefaultHasher`. What it writes depends on the bytes and on the
/// target's `usize` alone: equal vectors are written alike.
#[verifier::external_body]
fn write_hash(data: &Vec<u8>, state: &mut DefaultHasher)
    ensures
        final(state)@ == old(state)@ + hash_writes(
            data@,
            usize::BITS as int,
            vstd::endian::endianness() is Big,
        ),
{
    data.hash(state)
}

/// The hash of a message's content on the running target.
pub open spec fn content_hash(data: Seq<u8>) -> u64 {
    DefaultHasher::spec_finish(
        hash_writes(data, usize::BITS as int, vstd::endian::endianness() is Big),
    )
}

/// The decimal digits of a number, as ASCII.
pub open spec fn decimal(n: nat) -> Seq<u8>
    decreases n,
{
    if n < 10 {
        seq![(48 + n) as u8]
    } else {
        decimal(n / 10).push((48 + n % 10) as u8)
    }
}

/// The lower-case hexadecimal digit of a number below sixteen.
pub open spec fn hex_digit(n: int) -> char {
    if n < 10 {
        (48 + n) as char
    } else {
        (87 + n) as char
    }
}

/// Two lower-case hexadecimal digits per byte.
pub open spec fn hex_text(bytes: Seq<u8>) -> Seq<char> {
    Seq::new(
        2 * bytes.len(),
        |i: int|
            hex_digit(
                if i % 2 == 0 {
                    bytes[i / 2] as int / 16
                } else {
                    bytes[i / 2] as int % 16
                },
            ),
    )
}

/// `libp2p::gossipsub::MessageId`'s `Display`: the bytes of the id in hexadecimal.
#[verifier::external_body]
fn show_message_id(bytes: &Vec<u8>) -> (text: String)
    ensures
        text@ == hex_text(bytes@),
{
    libp2p::gossipsub::MessageId::new(bytes).to_string()
}

/// Writes a number in decimal.
fn decimal_digits(n: u64) -> (digits: Vec<u8>)
    ensures
        digits@ == decimal(n as nat),
    decreases n,
{
    if n < 10 {
        let mut digits: Vec<u8> = Vec::new();
        digits.push(48 + n as u8);
        assert(digits@ =~= decimal(n as nat));
        digits
    } else {
        let mut digits = decimal_digits(n / 10);
        digits.push(48 + (n % 10) as u8);
        digits
    }
}

/// The id of a message.
pub struct MessageId {
    pub bytes: Vec<u8>,
}

impl View for MessageId {
    type V = Seq<u8>;

    open spec fn view(&self) -> Seq<u8> {
        self.bytes@
    }
}

impl MessageId {
    /// The id that stands for a hash: its decimal digits.
    pub fn from_hash(hash: u64) -> (id: MessageId)
        ensures
            id@ == decimal(hash as nat),
            id.bytes@ == decimal(hash as nat),
    {
        MessageId { bytes: decimal_digits(hash) }
    }

    /// The text with which the id is shown.
    pub fn to_text(&self) -> (text: String)
        ensures
            text@ == hex_text(self@),
            text@ == hex_text(self.bytes@),
    {
        show_message_id(&self.bytes)
    }
}

/// A topic that is known to the network under its own name.
pub struct IdentTopic {
    pub topic: String,
}

impl View for IdentTopic {
    type V = Seq<char>;

    open spec fn view(&self) -> Seq<char> {
        self.topic@
    }
}

impl IdentTopic {
    pub fn new(topic: &str) -> (made: IdentTopic)
        ensures
            made@ == topic@,
            made.topic@ == topic@,
    {
        IdentTopic { topic: topic.to_owned() }
    }
}

impl Clone for IdentTopic {
    fn clone(&self) -> (copy: Self)
        ensures
            copy@ == self@,
            copy.topic@ == self.topic@,
    {
        IdentTopic { topic: self.topic.clone() }
    }
}

/// A message that reached this node.
pub struct GossipsubMessage {
    /// The peer that published it, where it is known.
    pub source: Option<PeerId>,
    pub data: Vec<u8>,
    pub sequence_number: Option<u64>,
    /// The name of the topic that it was published on.
    pub topic: String,
}

/// The model of a message.
#[verifier::ext_equal]
pub struct MessageView {
    pub source: Option<Seq<u8>>,
    pub data: Seq<u8>,
    pub sequence_number: Option<u64>,
    pub topic: Seq<char>,
}

impl View for GossipsubMessage {
    type V = MessageView;

    open spec fn view(&self) -> MessageView {
        MessageView {
            source: match self.source {
                Some(peer) => Some(peer@),
                None => None,
            },
            data: self.data@,
            sequence_number: self.sequence_number,
            topic: self.topic@,
        }
    }
}

/// The id of a message: the hash of its content, in decimal.
pub open spec fn content_id(message: MessageView) -> Seq<u8> {
    decimal(content_hash(message.data) as nat)
}

/// Names a message by its content, so that the same content goes round the network once. The whole
/// content is hashed, and nothing but the content.
pub fn message_id(message: &GossipsubMessage) -> (id: MessageId)
    ensures
        id@ == content_id(message@),
        id.bytes@ == decimal(
            DefaultHasher::spec_finish(
                hash_writes(
                    message.data@,
                    usize::BITS as int,
                    vstd::endian::endianness() is Big,
                ),
            ) as nat,
        ),
{
    let mut state = DefaultHasher::new();
    write_hash(&message.data, &mut state);
    assert(state@ =~= hash_writes(
        message.data@,
        usize::BITS as int,
        vstd::endian::endianness() is Big,
    ));
    MessageId::from_hash(state.finish())
}

/// The decimal digits tell numbers apart.
pub proof fn decimal_is_injective(a: nat, b: nat)
    requires
        decimal(a) == decimal(b),
    ensures
        a == b,
    decreases a,
{
    if a < 10 {
        if b >= 10 {
            lemma_decimal_not_empty(b / 10);
            assert(decimal(b).len() >= 2);
        }
        assert(decimal(a)[0] == 48 + a);
        assert(decimal(b)[0] == 48 + b);
    } else if b < 10 {
        lemma_decimal_not_empty(a / 10);
        assert(decimal(a).len() >= 2);
    } else {
        assert(decimal(a).last() == 48 + a % 10);
        assert(decimal(b).last() == 48 + b % 10);
        assert(decimal(a).drop_last() =~= decimal(a / 10));
        assert(decimal(b).drop_last() =~= decimal(b / 10));
        decimal_is_injective(a / 10, b / 10);
    }
}

proof fn lemma_decimal_not_empty(n: nat)
    ensures
        decimal(n).len() >= 1,
    decreases n,
{
    if n >= 10 {
        lemma_decimal_not_empty(n / 10);
    }
}

/// The number that a row of decimal digits stands for.
pub open spec fn number_of(digits: Seq<u8>) -> int
    decreases digits.len(),
{
    if digits.len() == 0 {
        0
    } else {
        10 * number_of(digits.drop_last()) + (digits.last() - 48)
    }
}

/// The decimal digits of a number are digits, read as the number, and start with a zero for zero
/// alone.
pub proof fn decimal_reads_as_its_number(n: nat)
    ensures
        number_of(decimal(n)) == n,
        forall|i: int| 0 <= i < decimal(n).len() ==> 48 <= #[trigger] decimal(n)[i] <= 57,
        decimal(n).len() >= 1,
        decimal(n)[0] == 48 <==> n == 0,
        n == 0 ==> decimal(n).len() == 1,
    decreases n,
{
    if n < 10 {
        assert(decimal(n).drop_last() =~= Seq::<u8>::empty());
        assert(number_of(decimal(n).drop_last()) == 0);
    } else {
        decimal_reads_as_its_number(n / 10);
        assert(decimal(n).drop_last() =~= decimal(n / 10));
        assert(decimal(n)[0] == decimal(n / 10)[0]);
        assert forall|i: int| 0 <= i < decimal(n).len() implies 48 <= #[trigger] decimal(n)[i]
            <= 57 by {
            if i < decimal(n / 10).len() {
                assert(decimal(n)[i] == decimal(n / 10)[i]);
            }
        }
    }
}

/// The text of an id shows each byte by two digits, the upper four bits first.
pub proof fn hex_text_shows_every_byte(bytes: Seq<u8>)
    ensures
        hex_text(bytes).len() == 2 * bytes.len(),
        forall|i: int|
            0 <= i < bytes.len() ==> hex_text(bytes)[2 * i] == "0123456789abcdef"@[(
            #[trigger] bytes[i]) as int / 16],
        forall|i: int|
            0 <= i < bytes.len() ==> hex_text(bytes)[2 * i + 1] == "0123456789abcdef"@[(
            #[trigger] bytes[i]) as int % 16],
{
    reveal_strlit("0123456789abcdef");
    assert forall|n: int| 0 <= n < 16 implies hex_digit(n) == "0123456789abcdef"@[n] by {}
    assert forall|i: int| 0 <= i < bytes.len() implies hex_text(bytes)[2 * i]
        == "0123456789abcdef"@[(#[trigger] bytes[i]) as int / 16] && hex_text(bytes)[2 * i + 1]
        == "0123456789abcdef"@[bytes[i] as int % 16] by {
        assert((2 * i) / 2 == i && (2 * i) % 2 == 0);
        assert((2 * i + 1) / 2 == i && (2 * i + 1) % 2 == 1);
        assert(hex_digit(bytes[i] as int / 16) == "0123456789abcdef"@[bytes[i] as int / 16]);
        assert(hex_digit(bytes[i] as int % 16) == "0123456789abcdef"@[bytes[i] as int % 16]);
    }
}

/// The id of a message reads as the number to which the hash of its whole content comes, so that
/// two messages share an id exactly where the hashes of their whole contents come to the same.
pub proof fn ids_are_hashes_of_the_whole_content(a: MessageView, b: MessageView)
    ensures
        ({
            let hash_of = |data: Seq<u8>|
                DefaultHasher::spec_finish(
                    hash_writes(data, usize::BITS as int, vstd::endian::endianness() is Big),
                );
            &&& number_of(content_id(a)) == hash_of(a.data)
            &&& content_id(a) == content_id(b) <==> hash_of(a.data) == hash_of(b.data)
        }),
{
    decimal_reads_as_its_number(content_hash(a.data) as nat);
    decimal_reads_as_its_number(content_hash(b.data) as nat);
}

/// Messages of the same content have the same id, whoever published them, on whatever topic and
/// under whatever sequence number; messages share an id only where the hashes of their contents
/// are equal.
pub proof fn ids_are_those_of_content(a: MessageView, b: MessageView)
    ensures
        a.data == b.data ==> content_id(a) == content_id(b),
        content_id(a) == content_id(b) <==> content_hash(a.data) == content_hash(b.data),
{
    if content_id(a) == content_id(b) {
        decimal_is_injective(content_hash(a.data) as nat, content_hash(b.data) as nat);
    }
}

} // verus!
