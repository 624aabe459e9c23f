//! The chat itself: what is typed is published, and what is received is shown.

use crate::address::{self, AddressError, Multiaddr, PeerId};
use crate::message::{self, IdentTopic};
use crate::network::{Event, EventView};
use vstd::prelude::*;
use vstd::utf8;

verus! {

/// The text that `String::from_utf8_lossy` makes of bytes that are not UTF-8.
pub uninterp spec fn mended_utf8(bytes: Seq<u8>) -> Seq<char>;

/// `String::from_utf8_lossy`: the text of which the bytes are the UTF-8 encoding, or, where there
/// is none, the text that `mended_utf8` names.
#[verifier::external_body]
fn read_utf8(bytes: &Vec<u8>) -> (text: String)
    ensures
        utf8::valid_utf8(bytes@) ==> text@ == utf8::decode_utf8(bytes@),
        !utf8::valid_utf8(bytes@) ==> text@ == mended_utf8(bytes@),
{
    String::from_utf8_lossy(bytes).into_owned()
}

/// The text of a message's content.
pub open spec fn content_text(data: Seq<u8>) -> Seq<char> {
    if utf8::valid_utf8(data) {
        utf8::decode_utf8(data)
    } else {
        mended_utf8(data)
    }
}

/// What a typed line asks for.
pub enum LineAction {
    /// The chat ends.
    Exit,
    /// The bytes are published.
    Publish(Vec<u8>),
}

/// What the chat does about a network event.
pub enum EventAction {
    /// The line is shown.
    Show(String),
    /// The line is shown, and the chat ends.
    Stop(String),
}

/// The line that shows a message.
pub open spec fn message_line(event: EventView) -> Seq<char> {
    match event {
        EventView::PubsubMessage { propagation_source, message_id, message } => "Got message: "@
            + content_text(message.data) + " with id: "@ + message::hex_text(message_id)
            + " from peer: "@ + address::peer_id_text(propagation_source),
    }
}

/// Acts on a typed line: `exit` ends the chat, and any other line is published as its UTF-8.
pub fn on_line(line: &String) -> (action: LineAction)
    ensures
        line@ == "exit"@ ==> action is Exit,
        line@ != "exit"@ ==> (action matches LineAction::Publish(message) && message@
            == utf8::encode_utf8(line@)),
{
    if *line == "exit".to_owned() {
        LineAction::Exit
    } else {
        LineAction::Publish(line.as_str().as_bytes_vec())
    }
}

/// Acts on a network event, or on the end of the events.
pub fn on_network_event(event: Option<Event>) -> (action: EventAction)
    ensures
        match event {
            Some(event) => action matches EventAction::Show(line) && line@ == message_line(event@),
            None => action matches EventAction::Stop(line) && line@
                == "Network event loop stopped"@,
        },
        event matches Some(Event::PubsubMessage { propagation_source, message_id, message }) ==> {
            let text = if utf8::valid_utf8(message.data@) {
                utf8::decode_utf8(message.data@)
            } else {
                mended_utf8(message.data@)
            };
            action matches EventAction::Show(line) && line@ == "Got message: "@ + text
                + " with id: "@ + message::hex_text(message_id.bytes@) + " from peer: "@
                + address::peer_id_text(propagation_source@)
        },
{
    match event {
        Some(Event::PubsubMessage { propagation_source, message_id, message }) => {
            let text = read_utf8(&message.data);
            let id = message_id.to_text();
            let peer = propagation_source.to_text();
            EventAction::Show(
                "Got message: ".to_owned().concat(text.as_str()).concat(" with id: ").concat(
                    id.as_str(),
                ).concat(" from peer: ").concat(peer.as_str()),
            )
        },
        None => EventAction::Stop("Network event loop stopped".to_owned()),
    }
}

/// The topic of the chat.
pub fn chat_topic() -> (topic: IdentTopic)
    ensures
        topic@ == "test-net"@,
{
    IdentTopic::new("test-net")
}

/// The address to listen on: every interface, and whatever port is free.
pub fn listen_address() -> (addr: Result<Multiaddr, AddressError>)
    ensures
        addr is Ok <==> address::multiaddr_of_text("/ip4/0.0.0.0/tcp/0"@) is Some,
        addr matches Ok(addr) ==> address::multiaddr_of_text("/ip4/0.0.0.0/tcp/0"@) == Some(addr@),
        addr matches Err(error) ==> error == AddressError::InvalidMultiaddr,
{
    Multiaddr::parse("/ip4/0.0.0.0/tcp/0")
}

/// The line that shows who this node is.
pub fn local_peer_line(local_peer_id: &PeerId) -> (line: String)
    ensures
        line@ == "Local peer id: "@ + address::peer_id_text(local_peer_id@),
{
    let peer = local_peer_id.to_text();
    "Local peer id: ".to_owned().concat(peer.as_str())
}

/// The line that shows where this node can be reached. Typed in elsewhere, the address in it is the
/// address announced.
pub fn listening_line(announced: &Multiaddr) -> (line: String)
    ensures
        line@ == "Local node is listening on "@ + address::text_of(announced@),
        address::reads_back(announced@),
{
    let addr = announced.to_text();
    "Local node is listening on ".to_owned().concat(addr.as_str())
}

} // verus!
