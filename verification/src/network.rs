//! The network client and the event loop behind it, as decisions on plain values.
//!
//! A client call becomes a [`Command`] that carries the sender of its reply. The loop turns a
//! command into a call on the swarm, and the outcome of that call into a reply; a dial that was
//! started is answered later, by the swarm event that settles it. A dial of a peer is known by the
//! peer, and a dial of an address by the number that the swarm gave to it. `S` is whatever carries a
//! reply back to the caller, `E` the error in a reply.

use crate::address::{self, AddressError, Multiaddr, PeerId};
use crate::bootstrap::{self, BootstrapStepView};
use crate::message::{GossipsubMessage, IdentTopic, MessageId, MessageView};
use crate::pending::PendingDials;
use std::collections::HashMap;
use vstd::prelude::*;
use vstd::slice::slice_to_vec;

verus! {

/// What is asked of the author, the sequence number and the signature of a message before it is
/// accepted.
#[derive(Clone, Copy, Debug, PartialEq, Eq, Structural)]
pub enum ValidationMode {
    /// All of them have to be there, and valid.
    Strict,
    /// Those that are there have to be valid.
    Permissive,
    /// None of them may be there.
    Anonymous,
    /// They are not looked at.
    Unchecked,
}

/// What stands on the messages that this node publishes.
pub enum MessageAuthenticity {
    /// They are signed with the key whose public half this is, in its protobuf encoding, and name
    /// its holder as their author.
    Signed { public_key: Vec<u8> },
    /// They name an author, and are not signed.
    Author { peer_id: PeerId },
    /// They name an author at random, and are not signed.
    RandomAuthor,
    /// They name no author, and are not signed.
    Anonymous,
}

/// The settings of the gossip protocol that differ from its defaults, beside the ids of messages.
pub struct GossipsubConfig {
    pub heartbeat_interval_secs: u64,
    pub validation_mode: ValidationMode,
    pub authenticity: MessageAuthenticity,
}

impl GossipsubConfig {
    /// A beat every second; what is received has to be signed, and what is published is signed with
    /// the key of this public half.
    pub open spec fn is_for(&self, public_key: Seq<u8>) -> bool {
        &&& self.heartbeat_interval_secs == 1
        &&& self.validation_mode is Strict
        &&& self.authenticity matches MessageAuthenticity::Signed { public_key: key }
        &&& key@ == public_key
    }
}

/// What a client asks of the event loop.
pub enum Command<S> {
    StartListening { addr: Multiaddr, sender: S },
    Dial { peer_id: PeerId, peer_addr: Multiaddr, sender: S },
    /// Dials an address without knowing who answers there.
    DialAddress { addr: Multiaddr, sender: S },
    Subscribe { topic: IdentTopic, sender: S },
    PublishMessage { topic: IdentTopic, message: Vec<u8>, sender: S },
}

/// The model of a command.
#[verifier::ext_equal]
pub enum CommandView<S> {
    StartListening { addr: Seq<u8>, sender: S },
    Dial { peer_id: Seq<u8>, peer_addr: Seq<u8>, sender: S },
    DialAddress { addr: Seq<u8>, sender: S },
    Subscribe { topic: Seq<char>, sender: S },
    PublishMessage { topic: Seq<char>, message: Seq<u8>, sender: S },
}

impl<S> View for Command<S> {
    type V = CommandView<S>;

    open spec fn view(&self) -> CommandView<S> {
        match *self {
            Command::StartListening { addr, sender } => CommandView::StartListening {
                addr: addr@,
                sender,
            },
            Command::Dial { peer_id, peer_addr, sender } => CommandView::Dial {
                peer_id: peer_id@,
                peer_addr: peer_addr@,
                sender,
            },
            Command::DialAddress { addr, sender } => CommandView::DialAddress {
                addr: addr@,
                sender,
            },
            Command::Subscribe { topic, sender } => CommandView::Subscribe {
                topic: topic@,
                sender,
            },
            Command::PublishMessage { topic, message, sender } => CommandView::PublishMessage {
                topic: topic@,
                message: message@,
                sender,
            },
        }
    }
}

impl<S> CommandView<S> {
    /// Whoever waits for the command to be answered.
    pub open spec fn asker(self) -> S {
        match self {
            CommandView::StartListening { sender, .. } => sender,
            CommandView::Dial { sender, .. } => sender,
            CommandView::DialAddress { sender, .. } => sender,
            CommandView::Subscribe { sender, .. } => sender,
            CommandView::PublishMessage { sender, .. } => sender,
        }
    }
}

/// A call that the loop makes on the swarm.
pub enum SwarmCall {
    ListenOn(Multiaddr),
    Dial(Multiaddr),
    Subscribe(IdentTopic),
    Publish(IdentTopic, Vec<u8>),
}

/// The model of a call on the swarm.
#[verifier::ext_equal]
pub enum SwarmCallView {
    ListenOn(Seq<u8>),
    Dial(Seq<u8>),
    Subscribe(Seq<char>),
    Publish(Seq<char>, Seq<u8>),
}

impl View for SwarmCall {
    type V = SwarmCallView;

    open spec fn view(&self) -> SwarmCallView {
        match *self {
            SwarmCall::ListenOn(addr) => SwarmCallView::ListenOn(addr@),
            SwarmCall::Dial(addr) => SwarmCallView::Dial(addr@),
            SwarmCall::Subscribe(topic) => SwarmCallView::Subscribe(topic@),
            SwarmCall::Publish(topic, message) => SwarmCallView::Publish(topic@, message@),
        }
    }
}

/// Whoever waits while a call on the swarm is made, and for what.
pub enum Waiting<S> {
    /// The outcome of the call is the reply.
    Outcome { sender: S },
    /// The reply comes once the dial of the peer is settled, unless the call fails.
    Connection { peer_id: PeerId, sender: S },
    /// The reply comes once this dial is settled, unless the call fails.
    Address { sender: S },
}

/// The model of a waiting caller.
#[verifier::ext_equal]
pub enum WaitingView<S> {
    Outcome { sender: S },
    Connection { peer_id: Seq<u8>, sender: S },
    Address { sender: S },
}

impl<S> View for Waiting<S> {
    type V = WaitingView<S>;

    open spec fn view(&self) -> WaitingView<S> {
        match *self {
            Waiting::Outcome { sender } => WaitingView::Outcome { sender },
            Waiting::Connection { peer_id, sender } => WaitingView::Connection {
                peer_id: peer_id@,
                sender,
            },
            Waiting::Address { sender } => WaitingView::Address { sender },
        }
    }
}

/// A reply to a client call.
pub struct Reply<S, E> {
    pub sender: S,
    pub result: Result<(), E>,
}

/// What the network tells the application.
pub enum Event {
    PubsubMessage {
        propagation_source: PeerId,
        message_id: MessageId,
        message: GossipsubMessage,
    },
}

/// The model of a network event.
#[verifier::ext_equal]
pub enum EventView {
    PubsubMessage { propagation_source: Seq<u8>, message_id: Seq<u8>, message: MessageView },
}

impl View for Event {
    type V = EventView;

    open spec fn view(&self) -> EventView {
        match *self {
            Event::PubsubMessage { propagation_source, message_id, message } =>
                EventView::PubsubMessage {
                    propagation_source: propagation_source@,
                    message_id: message_id@,
                    message: message@,
                },
        }
    }
}

/// Which side opened a connection.
#[derive(Clone, Copy, Debug, PartialEq, Eq, Structural)]
pub enum ConnectedPoint {
    Dialer,
    Listener,
}

impl ConnectedPoint {
    /// Whether this node opened the connection.
    pub fn is_dialer(&self) -> (dialer: bool)
        ensures
            dialer == (*self is Dialer),
    {
        match self {
            ConnectedPoint::Dialer => true,
            ConnectedPoint::Listener => false,
        }
    }
}

/// What the gossip protocol reports.
pub enum GossipsubEvent {
    Message { propagation_source: PeerId, message_id: MessageId, message: GossipsubMessage },
    /// Anything that the loop does not act on.
    Other,
}

/// What the swarm reports.
pub enum SwarmEvent<E> {
    Behaviour(GossipsubEvent),
    /// A connection is open. `dial` is the number of the dial that opened it, if one did.
    ConnectionEstablished { peer_id: PeerId, endpoint: ConnectedPoint, dial: u64 },
    /// The dial of this number failed.
    OutgoingConnectionError { peer_id: Option<PeerId>, dial: u64, error: E },
    NewListenAddr { address: Multiaddr },
    /// Anything that the loop does not act on.
    Other,
}

/// The model of a swarm event.
#[verifier::ext_equal]
pub enum SwarmEventView<E> {
    Message { propagation_source: Seq<u8>, message_id: Seq<u8>, message: MessageView },
    ConnectionEstablished { peer_id: Seq<u8>, endpoint: ConnectedPoint, dial: u64 },
    OutgoingConnectionError { peer_id: Option<Seq<u8>>, dial: u64, error: E },
    NewListenAddr { address: Seq<u8> },
    Other,
}

impl<E> View for SwarmEvent<E> {
    type V = SwarmEventView<E>;

    open spec fn view(&self) -> SwarmEventView<E> {
        match *self {
            SwarmEvent::Behaviour(
                GossipsubEvent::Message { propagation_source, message_id, message },
            ) => SwarmEventView::Message {
                propagation_source: propagation_source@,
                message_id: message_id@,
                message: message@,
            },
            SwarmEvent::Behaviour(GossipsubEvent::Other) => SwarmEventView::Other,
            SwarmEvent::ConnectionEstablished { peer_id, endpoint, dial } =>
                SwarmEventView::ConnectionEstablished { peer_id: peer_id@, endpoint, dial },
            SwarmEvent::OutgoingConnectionError { peer_id, dial, error } =>
                SwarmEventView::OutgoingConnectionError {
                    peer_id: match peer_id {
                        Some(peer) => Some(peer@),
                        None => None,
                    },
                    dial,
                    error,
                },
            SwarmEvent::NewListenAddr { address } => SwarmEventView::NewListenAddr {
                address: address@,
            },
            SwarmEvent::Other => SwarmEventView::Other,
        }
    }
}

/// What the loop does about a swarm event.
pub enum Effect<S, E> {
    Nothing,
    /// Hands a message to the application.
    Forward(Event),
    /// Answers the client calls that dialed, at least one of them, all with the same result.
    Answer { senders: Vec<S>, result: Result<(), E> },
    /// Makes known where this node can be reached.
    Announce(Multiaddr),
}

/// The model of an effect.
#[verifier::ext_equal]
pub enum EffectView<S, E> {
    Nothing,
    Forward(EventView),
    Answer { senders: Seq<S>, result: Result<(), E> },
    Announce(Seq<u8>),
}

impl<S, E> View for Effect<S, E> {
    type V = EffectView<S, E>;

    open spec fn view(&self) -> EffectView<S, E> {
        match *self {
            Effect::Nothing => EffectView::Nothing,
            Effect::Forward(event) => EffectView::Forward(event@),
            Effect::Answer { senders, result } => EffectView::Answer { senders: senders@, result },
            Effect::Announce(addr) => EffectView::Announce(addr@),
        }
    }
}

/// What wakes the loop.
pub enum Wake<S, E> {
    Swarm(SwarmEvent<E>),
    /// A command, or nothing once every client is gone.
    Command(Option<Command<S>>),
}

/// What one turn of the loop comes to.
pub enum Turn<S, E> {
    /// The loop ends.
    Stop,
    /// The call is to be made, and its outcome handed to [`EventLoop::finish_command`].
    Call { call: SwarmCall, waiting: Waiting<S> },
    /// The effect is to be carried out.
    Act(Effect<S, E>),
}

/// The model of the loop's state.
#[verifier::ext_equal]
pub struct LoopView<S> {
    pub local_peer_id: Seq<u8>,
    /// The sender that waits for the dial of each peer that is being dialed.
    pub pending_dial: Map<Seq<u8>, S>,
    /// The sender that waits for each dial of an address, by the number of the dial.
    pub pending_address: Map<u64, S>,
}

/// The loop takes every command but a dial of a peer that is being dialed already.
pub open spec fn accepts<S>(state: LoopView<S>, command: CommandView<S>) -> bool {
    command matches CommandView::Dial { peer_id, .. } ==> !state.pending_dial.contains_key(peer_id)
}

/// The call on the swarm that a command asks for. A peer is dialed at its address with its id
/// appended.
pub open spec fn command_call<S>(command: CommandView<S>) -> SwarmCallView {
    match command {
        CommandView::StartListening { addr, .. } => SwarmCallView::ListenOn(addr),
        CommandView::Dial { peer_id, peer_addr, .. } => SwarmCallView::Dial(
            peer_addr + address::p2p_component(peer_id),
        ),
        CommandView::DialAddress { addr, .. } => SwarmCallView::Dial(addr),
        CommandView::Subscribe { topic, .. } => SwarmCallView::Subscribe(topic),
        CommandView::PublishMessage { topic, message, .. } => SwarmCallView::Publish(
            topic,
            message,
        ),
    }
}

/// Who waits while the call of a command is made.
pub open spec fn command_waiting<S>(command: CommandView<S>) -> WaitingView<S> {
    match command {
        CommandView::Dial { peer_id, sender, .. } => WaitingView::Connection { peer_id, sender },
        CommandView::DialAddress { sender, .. } => WaitingView::Address { sender },
        _ => WaitingView::Outcome { sender: command.asker() },
    }
}

/// Whether the outcome of a call can be noted down: no dial is under way for the same peer, or under
/// the same number.
pub open spec fn can_finish<S, E>(
    state: LoopView<S>,
    waiting: WaitingView<S>,
    outcome: Result<u64, E>,
) -> bool {
    match waiting {
        WaitingView::Outcome { .. } => true,
        WaitingView::Connection { peer_id, .. } => !state.pending_dial.contains_key(peer_id),
        WaitingView::Address { .. } => outcome matches Ok(dial)
            ==> !state.pending_address.contains_key(dial),
    }
}

/// An outcome without the number that comes with it.
pub open spec fn plain<E>(outcome: Result<u64, E>) -> Result<(), E> {
    match outcome {
        Ok(_) => Ok(()),
        Err(error) => Err(error),
    }
}

/// What the outcome of a call comes to: a dial that was started is noted down, and anything else
/// is answered with the outcome.
pub open spec fn finished<S, E>(
    state: LoopView<S>,
    waiting: WaitingView<S>,
    outcome: Result<u64, E>,
) -> (LoopView<S>, Option<Reply<S, E>>) {
    match (waiting, outcome) {
        (WaitingView::Connection { peer_id, sender }, Ok(_)) => (
            LoopView { pending_dial: state.pending_dial.insert(peer_id, sender), ..state },
            None,
        ),
        (WaitingView::Address { sender }, Ok(dial)) => (
            LoopView { pending_address: state.pending_address.insert(dial, sender), ..state },
            None,
        ),
        (WaitingView::Connection { sender, .. }, Err(error)) => (
            state,
            Some(Reply { sender, result: Err(error) }),
        ),
        (WaitingView::Address { sender }, Err(error)) => (
            state,
            Some(Reply { sender, result: Err(error) }),
        ),
        (WaitingView::Outcome { sender }, _) => (
            state,
            Some(Reply { sender, result: plain(outcome) }),
        ),
    }
}

/// The dial of a peer is settled: whoever waits for it is to be answered.
pub open spec fn settled_peer<S>(state: LoopView<S>, peer_id: Seq<u8>) -> (LoopView<S>, Seq<S>) {
    if state.pending_dial.contains_key(peer_id) {
        (
            LoopView { pending_dial: state.pending_dial.remove(peer_id), ..state },
            seq![state.pending_dial[peer_id]],
        )
    } else {
        (state, seq![])
    }
}

/// The dial of an address is settled: whoever waits for it is to be answered.
pub open spec fn settled_address<S>(state: LoopView<S>, dial: u64) -> (LoopView<S>, Seq<S>) {
    if state.pending_address.contains_key(dial) {
        (
            LoopView { pending_address: state.pending_address.remove(dial), ..state },
            seq![state.pending_address[dial]],
        )
    } else {
        (state, seq![])
    }
}

/// A dial came to its end: it settles the dial of its peer, where the peer is known, and the dial
/// of an address that has its number.
pub open spec fn settled<S>(state: LoopView<S>, peer_id: Option<Seq<u8>>, dial: u64) -> (
    LoopView<S>,
    Seq<S>,
) {
    let (between, to_peer) = match peer_id {
        Some(peer_id) => settled_peer(state, peer_id),
        None => (state, seq![]),
    };
    let (next, to_address) = settled_address(between, dial);
    (next, to_peer + to_address)
}

/// The effect of having senders to answer.
pub open spec fn answering<S, E>(senders: Seq<S>, result: Result<(), E>) -> EffectView<S, E> {
    if senders.len() == 0 {
        EffectView::Nothing
    } else {
        EffectView::Answer { senders, result }
    }
}

/// What a swarm event comes to.
pub open spec fn on_event<S, E>(state: LoopView<S>, event: SwarmEventView<E>) -> (
    LoopView<S>,
    EffectView<S, E>,
) {
    match event {
        SwarmEventView::Message { propagation_source, message_id, message } => (
            state,
            EffectView::Forward(
                EventView::PubsubMessage { propagation_source, message_id, message },
            ),
        ),
        SwarmEventView::ConnectionEstablished { peer_id, endpoint, dial } => if endpoint is Dialer {
            let (next, senders) = settled(state, Some(peer_id), dial);
            (next, answering(senders, Ok(())))
        } else {
            (state, EffectView::Nothing)
        },
        SwarmEventView::OutgoingConnectionError { peer_id, dial, error } => {
            let (next, senders) = settled(state, peer_id, dial);
            (next, answering(senders, Err(error)))
        },
        SwarmEventView::NewListenAddr { address } => (
            state,
            EffectView::Announce(address + address::p2p_component(state.local_peer_id)),
        ),
        SwarmEventView::Other => (state, EffectView::Nothing),
    }
}

/// What is announced for an address that is listened on: another node that is started with it
/// dials `peer_id` at `address`, and it is one whose text can be typed in.
pub open spec fn is_announcement(announced: Seq<u8>, peer_id: Seq<u8>, address: Seq<u8>) -> bool {
    &&& bootstrap::bootstrap_step(announced) == (BootstrapStepView::Dial { peer_id, addr: address })
    &&& address::is_listen_address(address) ==> address::is_reachable_address(announced)
}

/// The client's side of the network: it words the commands.
#[derive(Clone, Copy)]
pub struct P2PClient {}

impl P2PClient {
    /// Asks to listen on an address.
    pub fn start_listening<S>(&self, addr: Multiaddr, sender: S) -> (command: Command<S>)
        ensures
            command@ == (CommandView::StartListening { addr: addr@, sender }),
    {
        Command::StartListening { addr, sender }
    }

    /// Asks to connect to a peer at an address that does not name it.
    pub fn dial<S>(&self, peer_id: PeerId, peer_addr: Multiaddr, sender: S) -> (command: Command<S>)
        ensures
            command@ == (CommandView::Dial { peer_id: peer_id@, peer_addr: peer_addr@, sender }),
    {
        Command::Dial { peer_id, peer_addr, sender }
    }

    /// Asks to connect to whoever answers at an address.
    pub fn dial_address<S>(&self, addr: Multiaddr, sender: S) -> (command: Command<S>)
        ensures
            command@ == (CommandView::DialAddress { addr: addr@, sender }),
    {
        Command::DialAddress { addr, sender }
    }

    /// Asks for the messages of a topic.
    pub fn subscribe<S>(&self, topic: &IdentTopic, sender: S) -> (command: Command<S>)
        ensures
            command@ == (CommandView::Subscribe { topic: topic@, sender }),
    {
        Command::Subscribe { topic: topic.clone(), sender }
    }

    /// Asks to publish a message on a topic.
    pub fn publish<S>(&self, topic: &IdentTopic, message: &[u8], sender: S) -> (command: Command<S>)
        ensures
            command@ == (CommandView::PublishMessage { topic: topic@, message: message@, sender }),
    {
        Command::PublishMessage { topic: topic.clone(), message: slice_to_vec(message), sender }
    }
}

/// The state of the event loop.
pub struct EventLoop<S> {
    local_peer_id: PeerId,
    pending_dial: PendingDials<S>,
    pending_address: HashMap<u64, S>,
}

impl<S> View for EventLoop<S> {
    type V = LoopView<S>;

    closed spec fn view(&self) -> LoopView<S> {
        LoopView {
            local_peer_id: self.local_peer_id@,
            pending_dial: self.pending_dial@,
            pending_address: self.pending_address@,
        }
    }
}

impl<S> EventLoop<S> {
    /// The loop of the peer with this id. No dial is under way.
    pub fn new(local_peer_id: PeerId) -> (made: Self)
        ensures
            made@ == (LoopView {
                local_peer_id: local_peer_id@,
                pending_dial: Map::<Seq<u8>, S>::empty(),
                pending_address: Map::<u64, S>::empty(),
            }),
    {
        EventLoop {
            local_peer_id,
            pending_dial: PendingDials::new(),
            pending_address: HashMap::new(),
        }
    }

    /// Whether this peer is being dialed.
    pub fn is_dialing(&self, peer_id: &PeerId) -> (dialing: bool)
        ensures
            dialing == self@.pending_dial.contains_key(peer_id@),
    {
        self.pending_dial.contains(peer_id)
    }

    /// Whether this outcome of a call can be noted down.
    pub fn can_finish<E>(&self, waiting: &Waiting<S>, outcome: &Result<u64, E>) -> (can: bool)
        ensures
            can == can_finish(self@, waiting@, *outcome),
            can == match (*waiting, *outcome) {
                (Waiting::Connection { peer_id, .. }, _) => !self@.pending_dial.contains_key(
                    peer_id@,
                ),
                (Waiting::Address { .. }, Ok(dial)) => !self@.pending_address.contains_key(dial),
                _ => true,
            },
    {
        match waiting {
            Waiting::Outcome { .. } => true,
            Waiting::Connection { peer_id, .. } => !self.is_dialing(peer_id),
            Waiting::Address { .. } => match outcome {
                Ok(dial) => !self.pending_address.contains_key(dial),
                Err(_) => true,
            },
        }
    }

    /// Whether the loop takes this command: a peer that is being dialed is not dialed again.
    pub fn takes(&self, command: &Command<S>) -> (taken: bool)
        ensures
            taken == accepts(self@, command@),
            taken == match *command {
                Command::Dial { peer_id, .. } => !self@.pending_dial.contains_key(peer_id@),
                _ => true,
            },
    {
        match command {
            Command::Dial { peer_id, .. } => !self.is_dialing(peer_id),
            _ => true,
        }
    }

    /// One turn of the loop.
    pub fn run<E>(&mut self, wake: Wake<S, E>) -> (turn: Turn<S, E>)
        requires
            wake matches Wake::Command(Some(command)) ==> accepts(old(self)@, command@),
        ensures
            match wake {
                Wake::Swarm(event) => turn matches Turn::Act(effect) && (
                    final(self)@,
                    effect@,
                ) == on_event::<S, E>(old(self)@, event@),
                Wake::Command(Some(command)) => turn matches Turn::Call { call, waiting }
                    && call@ == command_call(command@) && waiting@ == command_waiting(command@)
                    && final(self)@ == old(self)@,
                Wake::Command(None) => turn is Stop && final(self)@ == old(self)@,
            },
            wake matches Wake::Swarm(
                SwarmEvent::Behaviour(
                    GossipsubEvent::Message { propagation_source, message_id, message },
                ),
            ) ==> turn == Turn::<S, E>::Act(
                Effect::Forward(Event::PubsubMessage { propagation_source, message_id, message }),
            ),
            wake matches Wake::Swarm(SwarmEvent::NewListenAddr { address }) ==> (turn matches
                Turn::Act(Effect::Announce(announced)) && is_announcement(
                announced@,
                old(self)@.local_peer_id,
                address@,
            )),
    {
        match wake {
            Wake::Swarm(event) => Turn::Act(self.handle_event(event)),
            Wake::Command(Some(command)) => {
                let (call, waiting) = self.handle_command(command);
                Turn::Call { call, waiting }
            },
            Wake::Command(None) => Turn::Stop,
        }
    }

    /// Acts on a swarm event. Another node that is started with an address announced here dials
    /// this peer at the address that is listened on.
    pub fn handle_event<E>(&mut self, event: SwarmEvent<E>) -> (effect: Effect<S, E>)
        ensures
            (final(self)@, effect@) == on_event::<S, E>(old(self)@, event@),
            event matches SwarmEvent::Behaviour(
                GossipsubEvent::Message { propagation_source, message_id, message },
            ) ==> effect == Effect::<S, E>::Forward(
                Event::PubsubMessage { propagation_source, message_id, message },
            ) && final(self)@ == old(self)@,
            event matches SwarmEvent::NewListenAddr { address } ==> (effect matches
                Effect::Announce(announced) && is_announcement(
                announced@,
                old(self)@.local_peer_id,
                address@,
            )),
    {
        match event {
            SwarmEvent::Behaviour(
                GossipsubEvent::Message { propagation_source, message_id, message },
            ) => Effect::Forward(Event::PubsubMessage { propagation_source, message_id, message }),
            SwarmEvent::Behaviour(GossipsubEvent::Other) => Effect::Nothing,
            SwarmEvent::ConnectionEstablished { peer_id, endpoint, dial } => {
                if endpoint.is_dialer() {
                    self.settle(Some(peer_id), dial, Ok(()))
                } else {
                    Effect::Nothing
                }
            },
            SwarmEvent::OutgoingConnectionError { peer_id, dial, error } => {
                self.settle(peer_id, dial, Err(error))
            },
            SwarmEvent::NewListenAddr { address } => {
                Effect::Announce(address.with_peer(&self.local_peer_id))
            },
            SwarmEvent::Other => Effect::Nothing,
        }
    }

    /// Takes whoever waits for the dial of a peer off the list.
    fn settle_peer(&mut self, peer_id: &PeerId) -> (sender: Option<S>)
        ensures
            (final(self)@, listed(sender)) == settled_peer(old(self)@, peer_id@),
    {
        let sender = self.pending_dial.remove(peer_id);
        assert(sender is None ==> self.pending_dial@ =~= old(self)@.pending_dial);
        sender
    }

    /// Takes whoever waits for the dial of an address off the list.
    fn settle_address(&mut self, dial: u64) -> (sender: Option<S>)
        ensures
            (final(self)@, listed(sender)) == settled_address(old(self)@, dial),
    {
        let sender = self.pending_address.remove(&dial);
        assert(self.pending_address@ =~= old(self)@.pending_address.remove(dial));
        assert(sender is None ==> self.pending_address@ =~= old(self)@.pending_address);
        sender
    }

    /// Acts on the end of a dial.
    fn settle<E>(&mut self, peer_id: Option<PeerId>, dial: u64, result: Result<(), E>) -> (effect:
        Effect<S, E>)
        ensures
            ({
                let peer = match peer_id {
                    Some(peer) => Some(peer@),
                    None => None,
                };
                let (next, senders) = settled(old(self)@, peer, dial);
                final(self)@ == next && effect@ == answering(senders, result)
            }),
    {
        let to_peer = match &peer_id {
            Some(peer_id) => self.settle_peer(peer_id),
            None => None,
        };
        let to_address = self.settle_address(dial);
        answer(to_peer, to_address, result)
    }

    /// Words the call that a command asks for, and says who waits for what. The outcome of the call
    /// goes to [`EventLoop::finish_command`] before the next turn.
    pub fn handle_command(&self, command: Command<S>) -> (started: (SwarmCall, Waiting<S>))
        requires
            accepts(self@, command@),
        ensures
            started.0@ == command_call(command@),
            started.1@ == command_waiting(command@),
            match command {
                Command::StartListening { addr, sender } => started == (
                    SwarmCall::ListenOn(addr),
                    Waiting::Outcome { sender },
                ),
                Command::Dial { peer_id, peer_addr, sender } => started.1 == (
                Waiting::Connection { peer_id, sender }) && (started.0 matches SwarmCall::Dial(addr)
                    && addr@ == peer_addr@ + address::p2p_component(peer_id@)),
                Command::DialAddress { addr, sender } => started == (
                    SwarmCall::Dial(addr),
                    Waiting::Address { sender },
                ),
                Command::Subscribe { topic, sender } => started == (
                    SwarmCall::Subscribe(topic),
                    Waiting::Outcome { sender },
                ),
                Command::PublishMessage { topic, message, sender } => started == (
                    SwarmCall::Publish(topic, message),
                    Waiting::Outcome { sender },
                ),
            },
    {
        match command {
            Command::StartListening { addr, sender } => (
                SwarmCall::ListenOn(addr),
                Waiting::Outcome { sender },
            ),
            Command::Dial { peer_id, peer_addr, sender } => (
                SwarmCall::Dial(peer_addr.with_peer(&peer_id)),
                Waiting::Connection { peer_id, sender },
            ),
            Command::DialAddress { addr, sender } => (
                SwarmCall::Dial(addr),
                Waiting::Address { sender },
            ),
            Command::Subscribe { topic, sender } => (
                SwarmCall::Subscribe(topic),
                Waiting::Outcome { sender },
            ),
            Command::PublishMessage { topic, message, sender } => (
                SwarmCall::Publish(topic, message),
                Waiting::Outcome { sender },
            ),
        }
    }

    /// Takes the outcome of a call, with the number of the dial where the call was one. There is a
    /// reply at once, unless a dial was started.
    pub fn finish_command<E>(&mut self, waiting: Waiting<S>, outcome: Result<u64, E>) -> (reply:
        Option<Reply<S, E>>)
        requires
            can_finish(old(self)@, waiting@, outcome),
        ensures
            (final(self)@, reply) == finished::<S, E>(old(self)@, waiting@, outcome),
            waiting matches Waiting::Outcome { sender } ==> final(self)@ == old(self)@ && reply
                == Some(
                Reply {
                    sender,
                    result: match outcome {
                        Ok(_) => Ok(()),
                        Err(error) => Err(error),
                    },
                },
            ),
    {
        match (waiting, outcome) {
            (Waiting::Connection { peer_id, sender }, Ok(_)) => {
                self.pending_dial.insert(peer_id, sender);
                None
            },
            (Waiting::Address { sender }, Ok(dial)) => {
                self.pending_address.insert(dial, sender);
                None
            },
            (Waiting::Outcome { sender }, Ok(_)) => Some(Reply { sender, result: Ok(()) }),
            (Waiting::Connection { sender, .. }, Err(error)) => Some(
                Reply { sender, result: Err(error) },
            ),
            (Waiting::Address { sender }, Err(error)) => Some(
                Reply { sender, result: Err(error) },
            ),
            (Waiting::Outcome { sender }, Err(error)) => Some(
                Reply { sender, result: Err(error) },
            ),
        }
    }
}

/// What there is, if anything.
pub open spec fn listed<T>(one: Option<T>) -> Seq<T> {
    match one {
        Some(one) => seq![one],
        None => seq![],
    }
}

/// Answers the senders that there are.
fn answer<S, E>(first: Option<S>, second: Option<S>, result: Result<(), E>) -> (effect: Effect<
    S,
    E,
>)
    ensures
        effect@ == answering(listed(first) + listed(second), result),
{
    let ghost wanted = listed(first) + listed(second);
    let mut senders: Vec<S> = Vec::new();
    if let Some(sender) = first {
        senders.push(sender);
    }
    if let Some(sender) = second {
        senders.push(sender);
    }
    assert(senders@ =~= wanted);
    if senders.len() == 0 {
        Effect::Nothing
    } else {
        Effect::Answer { senders, result }
    }
}

/// The settings with which the holder of a key runs the gossip protocol.
pub fn gossipsub_config(public_key: &Vec<u8>) -> (config: GossipsubConfig)
    ensures
        config.is_for(public_key@),
        config.heartbeat_interval_secs == 1,
        config.validation_mode is Strict,
        config.authenticity matches MessageAuthenticity::Signed { public_key: key } && key@
            == public_key@,
{
    GossipsubConfig {
        heartbeat_interval_secs: 1,
        validation_mode: ValidationMode::Strict,
        authenticity: MessageAuthenticity::Signed { public_key: public_key.clone() },
    }
}

/// A client, the event loop that serves it and the settings of the gossip protocol, for the holder
/// of a key whose public half is given in its protobuf encoding.
pub fn new<S>(public_key: &Vec<u8>) -> (made: Result<
    (P2PClient, EventLoop<S>, GossipsubConfig),
    AddressError,
>)
    ensures
        made is Ok <==> address::peer_id_of_key(public_key@) is Some,
        made matches Ok((_, event_loop, config)) ==> ({
            &&& event_loop@ == (LoopView {
                local_peer_id: address::peer_id_of_key(public_key@)->0,
                pending_dial: Map::<Seq<u8>, S>::empty(),
                pending_address: Map::<u64, S>::empty(),
            })
            &&& address::is_peer_id(event_loop@.local_peer_id)
            &&& address::is_ed25519_key(public_key@) ==> event_loop@.local_peer_id == seq![0u8, 36u8]
                + public_key@
            &&& config.is_for(public_key@)
        }),
        made matches Err(error) ==> error == AddressError::InvalidPublicKey,
{
    match PeerId::from_public_key(public_key) {
        Ok(local_peer_id) => Ok(
            (P2PClient {  }, EventLoop::new(local_peer_id), gossipsub_config(public_key)),
        ),
        Err(error) => Err(error),
    }
}

} // verus!
