//! What holds of the library as a whole.

use crate::address;
use crate::bootstrap::{self, BootstrapStep, BootstrapStepView};
use crate::chat;
use crate::message::{GossipsubMessage, MessageView};
use crate::network::{
    self, Command, CommandView, ConnectedPoint, Effect, EffectView, Event, EventView,
    GossipsubConfig, GossipsubEvent, LoopView, MessageAuthenticity, Reply, SwarmCall,
    SwarmCallView, SwarmEvent, SwarmEventView, Waiting, WaitingView,
};
use vstd::multiset::Multiset;
use vstd::prelude::*;
use vstd::utf8;

verus! {

/// One step in the life of the event loop: a turn that a swarm event brings, or a turn that a
/// command brings followed by the end of that command.
pub enum Step<S, E> {
    Event(SwarmEventView<E>),
    /// A command together with the outcome of the call on the swarm that it asks for.
    Command(CommandView<S>, Result<u64, E>),
}

/// The same reply to each of these senders.
pub open spec fn replies_to<S, E>(senders: Seq<S>, result: Result<(), E>) -> Seq<Reply<S, E>> {
    senders.map_values(|sender: S| Reply { sender, result })
}

/// What a step makes of the state, and the replies that it sends.
pub open spec fn step<S, E>(state: LoopView<S>, taken: Step<S, E>) -> (
    LoopView<S>,
    Seq<Reply<S, E>>,
) {
    match taken {
        Step::Event(event) => {
            let (next, effect) = network::on_event::<S, E>(state, event);
            (
                next,
                match effect {
                    EffectView::Answer { senders, result } => replies_to(senders, result),
                    _ => seq![],
                },
            )
        },
        Step::Command(command, outcome) => {
            let (next, reply) = network::finished(
                state,
                network::command_waiting(command),
                outcome,
            );
            (next, network::listed(reply))
        },
    }
}

/// Whether a step can be taken: the loop takes the command, and its outcome can be noted down.
pub open spec fn allowed_step<S, E>(state: LoopView<S>, taken: Step<S, E>) -> bool {
    taken matches Step::Command(command, outcome) ==> network::accepts(state, command)
        && network::can_finish(state, network::command_waiting(command), outcome)
}

/// The state after a run of steps.
pub open spec fn after<S, E>(state: LoopView<S>, steps: Seq<Step<S, E>>) -> LoopView<S>
    decreases steps.len(),
{
    if steps.len() == 0 {
        state
    } else {
        step(after(state, steps.drop_last()), steps.last()).0
    }
}

/// Whether each step of a run can be taken.
pub open spec fn allowed<S, E>(state: LoopView<S>, steps: Seq<Step<S, E>>) -> bool
    decreases steps.len(),
{
    steps.len() > 0 ==> allowed(state, steps.drop_last()) && allowed_step(
        after(state, steps.drop_last()),
        steps.last(),
    )
}

/// Whoever asks something in a step.
pub open spec fn asked_in<S, E>(taken: Step<S, E>) -> Multiset<S> {
    match taken {
        Step::Command(command, _) => Multiset::singleton(command.asker()),
        Step::Event(_) => Multiset::empty(),
    }
}

/// Whoever asked something in a run, as often as they asked.
pub open spec fn asked<S, E>(steps: Seq<Step<S, E>>) -> Multiset<S>
    decreases steps.len(),
{
    if steps.len() == 0 {
        Multiset::empty()
    } else {
        asked(steps.drop_last()).add(asked_in(steps.last()))
    }
}

/// Whoever gets these replies, as often as they get one.
pub open spec fn receivers<S, E>(replies: Seq<Reply<S, E>>) -> Multiset<S>
    decreases replies.len(),
{
    if replies.len() == 0 {
        Multiset::empty()
    } else {
        receivers(replies.drop_last()).insert(replies.last().sender)
    }
}

/// Whoever was answered in a run, as often as they were answered.
pub open spec fn answered<S, E>(state: LoopView<S>, steps: Seq<Step<S, E>>) -> Multiset<S>
    decreases steps.len(),
{
    if steps.len() == 0 {
        Multiset::empty()
    } else {
        answered(state, steps.drop_last()).add(
            receivers(step(after(state, steps.drop_last()), steps.last()).1),
        )
    }
}

/// Whoever is listed as waiting.
pub open spec fn listed_in<K, S>(pending: Map<K, S>) -> Multiset<S>
    decreases pending.dom().len(),
{
    if pending.dom().finite() && pending.dom().len() > 0 {
        let key = pending.dom().choose();
        listed_in(pending.remove(key)).insert(pending[key])
    } else {
        Multiset::empty()
    }
}

/// Whoever waits for a dial, of a peer or of an address.
pub open spec fn waiting<S>(state: LoopView<S>) -> Multiset<S> {
    listed_in(state.pending_dial).add(listed_in(state.pending_address))
}

/// Finitely many dials are under way.
pub open spec fn is_finite<S>(state: LoopView<S>) -> bool {
    state.pending_dial.dom().finite() && state.pending_address.dom().finite()
}

proof fn lemma_listed_remove<K, S>(pending: Map<K, S>, key: K)
    requires
        pending.dom().finite(),
        pending.contains_key(key),
    ensures
        listed_in(pending) == listed_in(pending.remove(key)).insert(pending[key]),
    decreases pending.dom().len(),
{
    let first = pending.dom().choose();
    assert(pending.dom().contains(first));
    if first != key {
        lemma_listed_remove(pending.remove(first), key);
        lemma_listed_remove(pending.remove(key), first);
        assert(pending.remove(first).remove(key) =~= pending.remove(key).remove(first));
        assert(listed_in(pending) =~= listed_in(pending.remove(key)).insert(pending[key]));
    }
}

proof fn lemma_listed_insert<K, S>(pending: Map<K, S>, key: K, sender: S)
    requires
        pending.dom().finite(),
        !pending.contains_key(key),
    ensures
        listed_in(pending.insert(key, sender)) == listed_in(pending).insert(sender),
{
    lemma_listed_remove(pending.insert(key, sender), key);
    assert(pending.insert(key, sender).remove(key) =~= pending);
}

proof fn lemma_receivers_one<S, E>(reply: Reply<S, E>)
    ensures
        receivers(seq![reply]) == Multiset::singleton(reply.sender),
{
    reveal_with_fuel(receivers, 2);
    assert(seq![reply].drop_last() =~= Seq::<Reply<S, E>>::empty());
    assert(receivers(seq![reply]) =~= Multiset::singleton(reply.sender));
}

proof fn lemma_receivers_join<S, E>(first: Seq<Reply<S, E>>, second: Seq<Reply<S, E>>)
    ensures
        receivers(first + second) == receivers(first).add(receivers(second)),
    decreases second.len(),
{
    if second.len() == 0 {
        assert(first + second =~= first);
        assert(receivers(first + second) =~= receivers(first).add(receivers(second)));
    } else {
        lemma_receivers_join(first, second.drop_last());
        assert((first + second).drop_last() =~= first + second.drop_last());
        assert(receivers(first + second) =~= receivers(first).add(receivers(second)));
    }
}

proof fn lemma_settled_peer<S, E>(state: LoopView<S>, peer: Seq<u8>, result: Result<(), E>)
    requires
        is_finite(state),
    ensures
        ({
            let (next, senders) = network::settled_peer(state, peer);
            is_finite(next) && waiting(state) == receivers(replies_to(senders, result)).add(
                waiting(next),
            )
        }),
{
    let (next, senders) = network::settled_peer(state, peer);
    let replies = replies_to(senders, result);
    if state.pending_dial.contains_key(peer) {
        lemma_listed_remove(state.pending_dial, peer);
        lemma_receivers_one(replies[0]);
        assert(replies =~= seq![replies[0]]);
    }
    assert(waiting(state) =~= receivers(replies).add(waiting(next)));
}

proof fn lemma_settled_address<S, E>(state: LoopView<S>, dial: u64, result: Result<(), E>)
    requires
        is_finite(state),
    ensures
        ({
            let (next, senders) = network::settled_address(state, dial);
            is_finite(next) && waiting(state) == receivers(replies_to(senders, result)).add(
                waiting(next),
            )
        }),
{
    let (next, senders) = network::settled_address(state, dial);
    let replies = replies_to(senders, result);
    if state.pending_address.contains_key(dial) {
        lemma_listed_remove(state.pending_address, dial);
        lemma_receivers_one(replies[0]);
        assert(replies =~= seq![replies[0]]);
    }
    assert(waiting(state) =~= receivers(replies).add(waiting(next)));
}

proof fn lemma_settled<S, E>(
    state: LoopView<S>,
    peer_id: Option<Seq<u8>>,
    dial: u64,
    result: Result<(), E>,
)
    requires
        is_finite(state),
    ensures
        ({
            let (next, senders) = network::settled(state, peer_id, dial);
            is_finite(next) && waiting(state) == receivers(replies_to(senders, result)).add(
                waiting(next),
            )
        }),
{
    let (between, to_peer) = match peer_id {
        Some(peer) => network::settled_peer(state, peer),
        None => (state, seq![]),
    };
    let (next, to_address) = network::settled_address(between, dial);
    if peer_id is Some {
        lemma_settled_peer(state, peer_id->0, result);
    }
    lemma_settled_address(between, dial, result);
    let first = replies_to(to_peer, result);
    let second = replies_to(to_address, result);
    lemma_receivers_join(first, second);
    assert(replies_to(to_peer + to_address, result) =~= first + second);
    assert(waiting(state) =~= receivers(first).add(waiting(between)));
    assert(waiting(state) =~= receivers(first).add(receivers(second)).add(waiting(next)));
}

/// In one step, those who wait and those who ask are, one for one, those who are answered and those
/// who wait afterwards.
pub proof fn a_step_loses_nobody<S, E>(state: LoopView<S>, taken: Step<S, E>)
    requires
        is_finite(state),
        allowed_step(state, taken),
    ensures
        waiting(state).add(asked_in(taken)) == receivers(step(state, taken).1).add(
            waiting(step(state, taken).0),
        ),
        is_finite(step(state, taken).0),
{
    let (next, replies) = step(state, taken);
    match taken {
        Step::Event(SwarmEventView::ConnectionEstablished { peer_id, endpoint, dial }) => {
            if endpoint is Dialer {
                lemma_settled::<S, E>(state, Some(peer_id), dial, Ok(()));
                assert(replies =~= replies_to(
                    network::settled(state, Some(peer_id), dial).1,
                    Ok(()),
                ));
            }
        },
        Step::Event(SwarmEventView::OutgoingConnectionError { peer_id, dial, error }) => {
            lemma_settled::<S, E>(state, peer_id, dial, Err(error));
            assert(replies =~= replies_to(network::settled(state, peer_id, dial).1, Err(error)));
        },
        Step::Event(_) => {},
        Step::Command(command, outcome) => {
            match (command, outcome) {
                (CommandView::Dial { peer_id, sender, .. }, Ok(_)) => {
                    lemma_listed_insert(state.pending_dial, peer_id, sender);
                },
                (CommandView::DialAddress { sender, .. }, Ok(dial)) => {
                    lemma_listed_insert(state.pending_address, dial, sender);
                },
                _ => {
                    lemma_receivers_one(replies[0]);
                },
            }
        },
    }
    assert(waiting(state).add(asked_in(taken)) =~= receivers(replies).add(waiting(next)));
}

/// Every client call is answered once, or still waits for its dial: over any run of the loop, those
/// who waited at first and those who asked are, one for one, those who were answered and those who
/// wait at the end. No reply is lost, and none is sent twice.
pub proof fn every_call_is_answered_once<S, E>(state: LoopView<S>, steps: Seq<Step<S, E>>)
    requires
        is_finite(state),
        allowed(state, steps),
    ensures
        waiting(state).add(asked(steps)) == answered(state, steps).add(
            waiting(after(state, steps)),
        ),
        is_finite(after(state, steps)),
    decreases steps.len(),
{
    if steps.len() > 0 {
        let earlier = steps.drop_last();
        let before = after(state, earlier);
        every_call_is_answered_once(state, earlier);
        a_step_loses_nobody(before, steps.last());
        let asks = asked_in(steps.last());
        let replies = receivers(step(before, steps.last()).1);
        assert(waiting(state).add(asked(steps)) =~= waiting(state).add(asked(earlier)).add(asks));
        assert(answered(state, earlier).add(waiting(before)).add(asks) =~= answered(
            state,
            earlier,
        ).add(waiting(before).add(asks)));
        assert(answered(state, steps).add(waiting(after(state, steps))) =~= answered(
            state,
            earlier,
        ).add(replies.add(waiting(after(state, steps)))));
    } else {
        assert(waiting(state).add(asked(steps)) =~= answered(state, steps).add(
            waiting(after(state, steps)),
        ));
    }
}

/// Whether a step settles the dial of a peer: a connection that this node opened to it, or the
/// failure to open one.
pub open spec fn settles<S, E>(taken: Step<S, E>, peer: Seq<u8>) -> bool {
    match taken {
        Step::Event(SwarmEventView::ConnectionEstablished { peer_id, endpoint, .. }) => peer_id
            == peer && endpoint is Dialer,
        Step::Event(SwarmEventView::OutgoingConnectionError { peer_id, .. }) => peer_id == Some(
            peer,
        ),
        _ => false,
    }
}

/// Whether a step settles the dial of an address: the connection that it opened, or its failure.
pub open spec fn settles_address<S, E>(taken: Step<S, E>, dial: u64) -> bool {
    match taken {
        Step::Event(SwarmEventView::ConnectionEstablished { endpoint, dial: number, .. }) => number
            == dial && endpoint is Dialer,
        Step::Event(SwarmEventView::OutgoingConnectionError { dial: number, .. }) => number == dial,
        _ => false,
    }
}

/// Whether a step is a command to dial a peer.
pub open spec fn dials<S, E>(taken: Step<S, E>, peer: Seq<u8>) -> bool {
    taken matches Step::Command(CommandView::Dial { peer_id, .. }, _) && peer_id == peer
}

/// The result with which a step answers the dials that it settles.
pub open spec fn settles_with<S, E>(taken: Step<S, E>) -> Result<(), E> {
    match taken {
        Step::Event(SwarmEventView::OutgoingConnectionError { error, .. }) => Err(error),
        _ => Ok(()),
    }
}

/// Whoever waits for the dial of a peer goes on waiting through every step that does not settle it,
/// whatever else is dialed, connected or refused meanwhile.
pub proof fn a_dial_waits_for_its_own_outcome<S, E>(
    state: LoopView<S>,
    steps: Seq<Step<S, E>>,
    peer: Seq<u8>,
)
    requires
        state.pending_dial.contains_key(peer),
        allowed(state, steps),
        forall|i: int| 0 <= i < steps.len() ==> !settles(#[trigger] steps[i], peer),
    ensures
        after(state, steps).pending_dial.contains_key(peer),
        after(state, steps).pending_dial[peer] == state.pending_dial[peer],
    decreases steps.len(),
{
    if steps.len() > 0 {
        let earlier = steps.drop_last();
        assert forall|i: int| 0 <= i < earlier.len() implies !settles(
            #[trigger] earlier[i],
            peer,
        ) by {
            assert(earlier[i] == steps[i]);
        }
        a_dial_waits_for_its_own_outcome(state, earlier, peer);
        assert(!settles(steps[steps.len() - 1], peer));
    }
}

/// Whoever waits for the dial of an address goes on waiting through every step that does not settle
/// it, whatever else is dialed, connected or refused meanwhile.
pub proof fn an_address_dial_waits_for_its_own_outcome<S, E>(
    state: LoopView<S>,
    steps: Seq<Step<S, E>>,
    dial: u64,
)
    requires
        state.pending_address.contains_key(dial),
        allowed(state, steps),
        forall|i: int| 0 <= i < steps.len() ==> !settles_address(#[trigger] steps[i], dial),
    ensures
        after(state, steps).pending_address.contains_key(dial),
        after(state, steps).pending_address[dial] == state.pending_address[dial],
    decreases steps.len(),
{
    if steps.len() > 0 {
        let earlier = steps.drop_last();
        assert forall|i: int| 0 <= i < earlier.len() implies !settles_address(
            #[trigger] earlier[i],
            dial,
        ) by {
            assert(earlier[i] == steps[i]);
        }
        an_address_dial_waits_for_its_own_outcome(state, earlier, dial);
        assert(!settles_address(steps[steps.len() - 1], dial));
    }
}

/// A swarm event takes off the list exactly the dials that it settles, at most one of a peer and at
/// most one of an address, and adds or changes none.
pub proof fn an_event_removes_what_it_settles<S, E>(state: LoopView<S>, event: SwarmEventView<E>)
    ensures
        ({
            let taken = Step::<S, E>::Event(event);
            let next = step(state, taken).0;
            &&& forall|peer: Seq<u8>| #[trigger]
                next.pending_dial.contains_key(peer) <==> state.pending_dial.contains_key(peer)
                    && !settles(taken, peer)
            &&& forall|peer: Seq<u8>| #[trigger]
                next.pending_dial.contains_key(peer) ==> next.pending_dial[peer]
                    == state.pending_dial[peer]
            &&& forall|a: Seq<u8>, b: Seq<u8>|
                settles(taken, a) && settles(taken, b) ==> a == b
            &&& forall|dial: u64| #[trigger]
                next.pending_address.contains_key(dial) <==> state.pending_address.contains_key(
                    dial,
                ) && !settles_address(taken, dial)
            &&& forall|dial: u64| #[trigger]
                next.pending_address.contains_key(dial) ==> next.pending_address[dial]
                    == state.pending_address[dial]
            &&& forall|a: u64, b: u64|
                settles_address(taken, a) && settles_address(taken, b) ==> a == b
        }),
{
}

/// The first step that settles the dial of a peer answers it, with success for a connection and with
/// the error for a failure, and the peer is free to be dialed again.
pub proof fn a_dial_is_answered_when_it_is_settled<S, E>(
    state: LoopView<S>,
    peer: Seq<u8>,
    taken: Step<S, E>,
)
    requires
        state.pending_dial.contains_key(peer),
        settles(taken, peer),
    ensures
        step(state, taken).0.pending_dial == state.pending_dial.remove(peer),
        step(state, taken).1.contains(
            Reply { sender: state.pending_dial[peer], result: settles_with(taken) },
        ),
{
    assert(step(state, taken).1[0] == (Reply {
        sender: state.pending_dial[peer],
        result: settles_with(taken),
    }));
}

/// A dial is answered by its first outcome alone: with no dial of the peer under way, a further
/// outcome for the peer leaves the dials of peers as they are, and answers nobody but whoever waits
/// for the dial of an address that has its number.
pub proof fn a_further_outcome_answers_no_dial_of_a_peer<S, E>(
    state: LoopView<S>,
    peer: Seq<u8>,
    taken: Step<S, E>,
)
    requires
        !state.pending_dial.contains_key(peer),
        settles(taken, peer),
    ensures
        step(state, taken).0.pending_dial == state.pending_dial,
        forall|i: int|
            0 <= i < step(state, taken).1.len() ==> exists|dial: u64| #[trigger]
                state.pending_address.contains_key(dial) && settles_address(taken, dial) && (
                #[trigger] step(state, taken).1[i]).sender == state.pending_address[dial],
        (forall|dial: u64| #[trigger]
            state.pending_address.contains_key(dial) ==> !settles_address(taken, dial)) ==> step(
            state,
            taken,
        ) == (state, Seq::<Reply<S, E>>::empty()),
{
    assert(step(state, taken).1.len() == 0 ==> step(state, taken).1 =~= Seq::empty());
}

proof fn lemma_undialed<S, E>(state: LoopView<S>, steps: Seq<Step<S, E>>, peer: Seq<u8>)
    requires
        !state.pending_dial.contains_key(peer),
        forall|i: int| 0 <= i < steps.len() ==> !dials(#[trigger] steps[i], peer),
    ensures
        !after(state, steps).pending_dial.contains_key(peer),
    decreases steps.len(),
{
    if steps.len() > 0 {
        let earlier = steps.drop_last();
        assert forall|i: int| 0 <= i < earlier.len() implies !dials(#[trigger] earlier[i], peer) by {
            assert(earlier[i] == steps[i]);
        }
        lemma_undialed(state, earlier, peer);
        assert(!dials(steps[steps.len() - 1], peer));
    }
}

/// Once a first outcome for a peer was seen, a second one changes no dial of a peer and answers none,
/// whatever happened in between, as long as the peer was not dialed again.
pub proof fn only_the_first_outcome_answers<S, E>(
    state: LoopView<S>,
    peer: Seq<u8>,
    first: Step<S, E>,
    steps: Seq<Step<S, E>>,
    second: Step<S, E>,
)
    requires
        settles(first, peer),
        settles(second, peer),
        forall|i: int| 0 <= i < steps.len() ==> !dials(#[trigger] steps[i], peer),
    ensures
        ({
            let before = after(step(state, first).0, steps);
            &&& step(before, second).0.pending_dial == before.pending_dial
            &&& forall|i: int|
                0 <= i < step(before, second).1.len() ==> exists|dial: u64| #[trigger]
                    before.pending_address.contains_key(dial) && settles_address(second, dial) && (
                    #[trigger] step(before, second).1[i]).sender == before.pending_address[dial]
            &&& (forall|dial: u64| #[trigger]
                before.pending_address.contains_key(dial) ==> !settles_address(second, dial))
                ==> step(before, second) == (before, Seq::<Reply<S, E>>::empty())
        }),
{
    let next = step(state, first).0;
    lemma_undialed(next, steps, peer);
    a_further_outcome_answers_no_dial_of_a_peer(after(next, steps), peer, second);
}

/// The dial of an address is answered by the connection that it opens or by its failure, with
/// success or with the error, and its number is free again.
pub proof fn an_address_dial_is_answered_when_it_is_settled<S, E>(
    state: LoopView<S>,
    dial: u64,
    taken: Step<S, E>,
)
    requires
        state.pending_address.contains_key(dial),
        settles_address(taken, dial),
    ensures
        step(state, taken).0.pending_address == state.pending_address.remove(dial),
        step(state, taken).1.contains(
            Reply { sender: state.pending_address[dial], result: settles_with(taken) },
        ),
{
    let replies = step(state, taken).1;
    assert(replies[replies.len() - 1] == (Reply {
        sender: state.pending_address[dial],
        result: settles_with(taken),
    }));
}

/// A dial of a peer that was started is not answered yet, and settling it undoes starting it: it is
/// answered, and the dials of peers are as they were before the command. Where no dial of an address
/// is settled beside it, nobody else is answered and the whole loop is as it was.
pub proof fn settling_undoes_dialing<S, E>(
    state: LoopView<S>,
    peer: Seq<u8>,
    addr: Seq<u8>,
    sender: S,
    number: u64,
    outcome: Step<S, E>,
)
    requires
        !state.pending_dial.contains_key(peer),
        settles(outcome, peer),
    ensures
        ({
            let dial = CommandView::Dial { peer_id: peer, peer_addr: addr, sender };
            let answer = Reply { sender, result: settles_with(outcome) };
            let (dialing, replies) = step(state, Step::<S, E>::Command(dial, Ok(number)));
            &&& replies.len() == 0
            &&& dialing.pending_dial.contains_key(peer)
            &&& step(dialing, outcome).0.pending_dial == state.pending_dial
            &&& step(dialing, outcome).1.contains(answer)
            &&& (forall|dial: u64| #[trigger]
                state.pending_address.contains_key(dial) ==> !settles_address(outcome, dial))
                ==> step(dialing, outcome) == (state, seq![answer])
        }),
{
    let dial = CommandView::Dial { peer_id: peer, peer_addr: addr, sender };
    let answer = Reply { sender, result: settles_with(outcome) };
    let dialing = step(state, Step::<S, E>::Command(dial, Ok(number))).0;
    let replies = step(dialing, outcome).1;
    assert(state.pending_dial.insert(peer, sender).remove(peer) =~= state.pending_dial);
    assert(replies[0] == answer);
    assert(replies.len() == 1 ==> replies =~= seq![answer]);
}

/// A dial of an address that was started is not answered yet, and settling it undoes starting it: it
/// is answered, and the dials of addresses are as they were before the command. Where no dial of a
/// peer is settled beside it, nobody else is answered and the whole loop is as it was.
pub proof fn settling_undoes_dialing_an_address<S, E>(
    state: LoopView<S>,
    addr: Seq<u8>,
    sender: S,
    number: u64,
    outcome: Step<S, E>,
)
    requires
        !state.pending_address.contains_key(number),
        settles_address(outcome, number),
    ensures
        ({
            let dial = CommandView::DialAddress { addr, sender };
            let answer = Reply { sender, result: settles_with(outcome) };
            let (dialing, replies) = step(state, Step::<S, E>::Command(dial, Ok(number)));
            &&& replies.len() == 0
            &&& dialing.pending_address.contains_key(number)
            &&& step(dialing, outcome).0.pending_address == state.pending_address
            &&& step(dialing, outcome).1.contains(answer)
            &&& (forall|peer: Seq<u8>| #[trigger]
                state.pending_dial.contains_key(peer) ==> !settles(outcome, peer)) ==> step(
                dialing,
                outcome,
            ) == (state, seq![answer])
        }),
{
    let dial = CommandView::DialAddress { addr, sender };
    let answer = Reply { sender, result: settles_with(outcome) };
    let dialing = step(state, Step::<S, E>::Command(dial, Ok(number))).0;
    let replies = step(dialing, outcome).1;
    assert(state.pending_address.insert(number, sender).remove(number) =~= state.pending_address);
    assert(replies[replies.len() - 1] == answer);
    assert(replies.len() == 1 ==> replies =~= seq![answer]);
}

/// A step that sends a reply sends it to whoever gave the command, with the outcome of its call, or
/// to whoever waits for a dial that it settles, with the result of the dial. A connection that
/// another node opened answers nobody.
pub proof fn replies_go_to_those_who_asked<S, E>(state: LoopView<S>, taken: Step<S, E>, i: int)
    requires
        0 <= i < step(state, taken).1.len(),
    ensures
        ({
            let reply = step(state, taken).1[i];
            match taken {
                Step::Command(command, outcome) => reply.sender == command.asker() && reply.result
                    == network::plain(outcome),
                Step::Event(_) => reply.result == settles_with(taken) && {
                    ||| exists|peer: Seq<u8>| #[trigger]
                        state.pending_dial.contains_key(peer) && settles(taken, peer)
                            && reply.sender == state.pending_dial[peer]
                    ||| exists|dial: u64| #[trigger]
                        state.pending_address.contains_key(dial) && settles_address(taken, dial)
                            && reply.sender == state.pending_address[dial]
                },
            }
        }),
{
}

/// A refused call is answered with its error at once, and leaves nothing behind.
pub proof fn a_refused_call_changes_nothing<S, E>(
    state: LoopView<S>,
    command: CommandView<S>,
    error: E,
)
    ensures
        step(state, Step::Command(command, Err(error))) == (
            state,
            seq![Reply { sender: command.asker(), result: Err(error) }],
        ),
{
}

/// A node keeps its identity for as long as its loop runs.
pub proof fn the_local_peer_stays<S, E>(state: LoopView<S>, steps: Seq<Step<S, E>>)
    ensures
        after(state, steps).local_peer_id == state.local_peer_id,
    decreases steps.len(),
{
    if steps.len() > 0 {
        the_local_peer_stays(state, steps.drop_last());
    }
}

/// A bootstrap address that is not passed over is dialed just as it was given: taking the peer's id
/// off and appending it for the dial gives the address back. Any address that was read from text
/// ends canonically.
pub proof fn bootstrap_addresses_are_dialed_as_given<S>(addr: Seq<u8>, sender: S)
    requires
        address::ends_canonically(addr),
        !(bootstrap::bootstrap_step(addr) is Skip),
    ensures
        bootstrap::step_command(bootstrap::bootstrap_step(addr), sender) matches Some(command)
            && network::command_call(command) == SwarmCallView::Dial(addr),
{
}

/// A bootstrap address is passed over exactly where it neither ends with a peer id nor is one to
/// listen on, and then nothing is asked of the network.
pub proof fn other_bootstrap_addresses_are_passed_over<S>(addr: Seq<u8>, sender: S)
    ensures
        bootstrap::step_command(bootstrap::bootstrap_step(addr), sender) is None
            <==> address::popped(addr).1 is None && !address::is_listen_address(addr),
{
}

/// An address to listen on is dialed as it stands, and an empty address or one that ends in a relay
/// is passed over.
pub proof fn listening_addresses_are_dialed_and_dead_ends_are_not(addr: Seq<u8>)
    requires
        address::splits_plainly(addr),
    ensures
        address::is_listen_address(addr) ==> bootstrap::bootstrap_step(addr) == (
        BootstrapStepView::DialAddress { addr }),
        addr.len() == 0 || address::is_circuit(addr) ==> bootstrap::bootstrap_step(addr) is Skip,
{
    // No address is of both kinds: what comes off would differ in length.
    if address::is_listen_address(addr) && address::is_circuit(addr) {
        assert(addr.take(addr.len() - 3).len() != addr.take(addr.len() - 2).len());
    }
}

/// The text that a node shows of where it listens, given to another node, has that node dial the
/// first one there: the text reads as the address that was announced, which leads to the peer at the
/// address that it listens on.
pub proof fn a_shown_address_leads_to_its_node(
    announced: Seq<u8>,
    peer_id: Seq<u8>,
    address: Seq<u8>,
)
    requires
        network::is_announcement(announced, peer_id, address),
        address::is_listen_address(address),
        address::reads_back(announced),
    ensures
        address::multiaddr_of_text(address::text_of(announced)) matches Some(typed)
            && bootstrap::bootstrap_step(typed) == (BootstrapStepView::Dial {
            peer_id,
            addr: address,
        }),
{
}

/// The text of an address that a node listens on, given to another node, has that node dial the
/// address as it stands.
pub proof fn a_plain_listening_address_is_dialed<S>(addr: Seq<u8>, sender: S)
    requires
        address::is_listen_address(addr),
        address::reads_back(addr),
        address::splits_plainly(addr),
    ensures
        address::multiaddr_of_text(address::text_of(addr)) == Some(addr),
        bootstrap::bootstrap_step(addr) == (BootstrapStepView::DialAddress { addr }),
        bootstrap::step_command(bootstrap::bootstrap_step(addr), sender) matches Some(command)
            && network::command_call(command) == SwarmCallView::Dial(addr),
{
}

/// A line that one user types is the line that the other users see: published as its UTF-8, it is
/// shown unchanged.
pub proof fn typed_lines_are_shown_unchanged(line: Seq<char>, event: EventView)
    requires
        event matches EventView::PubsubMessage { message, .. } && message.data == utf8::encode_utf8(
            line,
        ),
    ensures
        event matches EventView::PubsubMessage { propagation_source, message_id, .. }
            && chat::message_line(event) == "Got message: "@ + line + " with id: "@
            + crate::message::hex_text(message_id) + " from peer: "@ + address::peer_id_text(
            propagation_source,
        ),
{
    utf8::encode_utf8_valid_utf8(line);
    utf8::encode_utf8_decode_utf8(line);
}

/// The loop takes every command to listen, to dial an address, to subscribe and to publish, and every
/// dial of a peer that is not being dialed; it refuses a dial only while the peer is being dialed. So
/// a loop with no dial under way takes every command.
pub proof fn commands_are_taken_unless_their_peer_is_being_dialed<S>(
    state: LoopView<S>,
    peer_id: Seq<u8>,
    addr: Seq<u8>,
    topic: Seq<char>,
    message: Seq<u8>,
    sender: S,
)
    ensures
        network::accepts(state, CommandView::StartListening { addr, sender }),
        network::accepts(state, CommandView::DialAddress { addr, sender }),
        network::accepts(state, CommandView::Subscribe { topic, sender }),
        network::accepts(state, CommandView::PublishMessage { topic, message, sender }),
        network::accepts(state, CommandView::Dial { peer_id, peer_addr: addr, sender })
            <==> !state.pending_dial.contains_key(peer_id),
        state.pending_dial == Map::<Seq<u8>, S>::empty() ==> forall|command: CommandView<S>|
            network::accepts(state, command),
{
}

/// A peer cannot be dialed again while its dial is under way, and can be once it is settled.
pub proof fn a_peer_is_dialed_once_at_a_time<S, E>(
    state: LoopView<S>,
    peer_id: Seq<u8>,
    addr: Seq<u8>,
    sender: S,
    number: u64,
    later: CommandView<S>,
    outcome: Step<S, E>,
)
    requires
        later matches CommandView::Dial { peer_id: same, .. } && same == peer_id,
        settles(outcome, peer_id),
    ensures
        ({
            let dial = CommandView::Dial { peer_id, peer_addr: addr, sender };
            let dialing = step(state, Step::<S, E>::Command(dial, Ok(number))).0;
            &&& !network::accepts(dialing, later)
            &&& network::accepts(step(dialing, outcome).0, later)
        }),
{
}

/// What a command names reaches the swarm as it was given: the address to listen on, the topic, every
/// byte of a message, the address to dial, and behind the address of a peer that peer's id.
pub proof fn commands_reach_the_swarm_as_given<S>(
    peer_id: Seq<u8>,
    addr: Seq<u8>,
    topic: Seq<char>,
    message: Seq<u8>,
    sender: S,
)
    ensures
        network::command_call(CommandView::StartListening { addr, sender })
            == SwarmCallView::ListenOn(addr),
        network::command_call(CommandView::Subscribe { topic, sender }) == SwarmCallView::Subscribe(
            topic,
        ),
        network::command_call(CommandView::PublishMessage { topic, message, sender })
            == SwarmCallView::Publish(topic, message),
        network::command_call(CommandView::DialAddress { addr, sender }) == SwarmCallView::Dial(
            addr,
        ),
        network::command_call(CommandView::Dial { peer_id, peer_addr: addr, sender })
            == SwarmCallView::Dial(
            addr + (seq![0xa5u8, 0x03u8, peer_id.len() as u8] + peer_id),
        ),
{
}

/// Listening, subscribing and publishing are answered in their own step, whoever else waits: with
/// success where the swarm took the call, and with its error where it did not. Nothing else changes.
pub proof fn calls_other_than_dials_are_answered_at_once<S, E>(
    state: LoopView<S>,
    addr: Seq<u8>,
    topic: Seq<char>,
    message: Seq<u8>,
    sender: S,
    number: u64,
    error: E,
)
    ensures
        forall|command: CommandView<S>|
            {
                ||| command == (CommandView::StartListening { addr, sender })
                ||| command == (CommandView::Subscribe { topic, sender })
                ||| command == (CommandView::PublishMessage { topic, message, sender })
            } ==> {
                let waiting = #[trigger] network::command_waiting(command);
                let taken: Result<u64, E> = Ok(number);
                let refused: Result<u64, E> = Err(error);
                &&& network::can_finish(state, waiting, taken)
                &&& network::can_finish(state, waiting, refused)
                &&& network::finished(state, waiting, taken) == (
                    state,
                    Some(Reply::<S, E> { sender, result: Ok(()) }),
                )
                &&& network::finished(state, waiting, refused) == (
                    state,
                    Some(Reply { sender, result: Err(error) }),
                )
                &&& step(state, Step::Command(command, taken)) == (
                    state,
                    seq![Reply { sender, result: Ok::<(), E>(()) }],
                )
                &&& step(state, Step::Command(command, refused)) == (
                    state,
                    seq![Reply { sender, result: Err::<(), E>(error) }],
                )
            },
{
}

/// A dial that the swarm started is not answered in its own step: whoever asked is listed, under the
/// peer or under the number of the dial, and nothing else changes. A dial that the swarm refused is
/// answered with the error, and nobody is listed. A dial that the loop takes can always be noted
/// down, and one of an address wherever its number is free.
pub proof fn dials_wait_once_they_are_started<S, E>(
    state: LoopView<S>,
    peer_id: Seq<u8>,
    addr: Seq<u8>,
    sender: S,
    number: u64,
    error: E,
)
    ensures
        ({
            let to_peer = network::command_waiting(
                CommandView::Dial { peer_id, peer_addr: addr, sender },
            );
            let to_address = network::command_waiting(CommandView::DialAddress { addr, sender });
            let started: Result<u64, E> = Ok(number);
            let refused: Result<u64, E> = Err(error);
            let answer = Some(Reply { sender, result: Err::<(), E>(error) });
            &&& network::finished(state, to_peer, started) == (
                LoopView {
                    local_peer_id: state.local_peer_id,
                    pending_dial: state.pending_dial.insert(peer_id, sender),
                    pending_address: state.pending_address,
                },
                None::<Reply<S, E>>,
            )
            &&& network::finished(state, to_address, started) == (
                LoopView {
                    local_peer_id: state.local_peer_id,
                    pending_dial: state.pending_dial,
                    pending_address: state.pending_address.insert(number, sender),
                },
                None::<Reply<S, E>>,
            )
            &&& network::finished(state, to_peer, refused) == (state, answer)
            &&& network::finished(state, to_address, refused) == (state, answer)
            &&& !state.pending_dial.contains_key(peer_id) ==> network::can_finish(
                state,
                to_peer,
                started,
            ) && network::can_finish(state, to_peer, refused)
            &&& network::can_finish(state, to_address, started)
                <==> !state.pending_address.contains_key(number)
            &&& network::can_finish(state, to_address, refused)
        }),
{
}

/// Every message that the gossip protocol reports is handed to the application with its source, its
/// id and its content, whoever wrote it and whoever passed it on, and nothing else changes.
pub proof fn received_messages_are_handed_on<S, E>(
    state: LoopView<S>,
    propagation_source: Seq<u8>,
    message_id: Seq<u8>,
    message: MessageView,
)
    ensures
        network::on_event::<S, E>(
            state,
            SwarmEventView::Message { propagation_source, message_id, message },
        ) == (
            state,
            EffectView::<S, E>::Forward(
                EventView::PubsubMessage { propagation_source, message_id, message },
            ),
        ),
{
}

/// A connection that this node opened takes the dial of its peer and the dial of its number off the
/// lists, and answers whoever waited for them, the dial of the peer first, with success. With nobody
/// waiting nothing is done, and likewise about a connection that another node opened.
pub proof fn connections_answer_those_who_wait_for_them<S, E>(
    state: LoopView<S>,
    peer_id: Seq<u8>,
    dial: u64,
)
    ensures
        ({
            let opened = SwarmEventView::<E>::ConnectionEstablished {
                peer_id,
                endpoint: ConnectedPoint::Dialer,
                dial,
            };
            let accepted = SwarmEventView::<E>::ConnectionEstablished {
                peer_id,
                endpoint: ConnectedPoint::Listener,
                dial,
            };
            let (next, effect) = network::on_event::<S, E>(state, opened);
            let by_peer = state.pending_dial.contains_key(peer_id);
            let by_number = state.pending_address.contains_key(dial);
            let result: Result<(), E> = Ok(());
            &&& next == LoopView {
                local_peer_id: state.local_peer_id,
                pending_dial: state.pending_dial.remove(peer_id),
                pending_address: state.pending_address.remove(dial),
            }
            &&& !by_peer && !by_number ==> effect is Nothing
            &&& by_peer && !by_number ==> effect == (EffectView::Answer {
                senders: seq![state.pending_dial[peer_id]],
                result,
            })
            &&& !by_peer && by_number ==> effect == (EffectView::Answer {
                senders: seq![state.pending_address[dial]],
                result,
            })
            &&& by_peer && by_number ==> effect == (EffectView::Answer {
                senders: seq![state.pending_dial[peer_id], state.pending_address[dial]],
                result,
            })
            &&& network::on_event::<S, E>(state, accepted) == (state, EffectView::<S, E>::Nothing)
        }),
{
    assert(!state.pending_dial.contains_key(peer_id) ==> state.pending_dial.remove(peer_id)
        =~= state.pending_dial);
    assert(!state.pending_address.contains_key(dial) ==> state.pending_address.remove(dial)
        =~= state.pending_address);
    let senders = network::settled(state, Some(peer_id), dial).1;
    assert(senders =~= network::settled_peer(state, peer_id).1 + network::settled_address(
        state,
        dial,
    ).1);
    assert(senders.len() == 1 && state.pending_dial.contains_key(peer_id) ==> senders
        =~= seq![state.pending_dial[peer_id]]);
    assert(senders.len() == 1 && state.pending_address.contains_key(dial) ==> senders
        =~= seq![state.pending_address[dial]]);
    assert(senders.len() == 2 ==> senders
        =~= seq![state.pending_dial[peer_id], state.pending_address[dial]]);
}

/// A failed dial takes the dial of its peer, where the peer is known, and the dial of its number off
/// the lists, and answers whoever waited for them, the dial of the peer first, with the error. With
/// nobody waiting nothing is done.
pub proof fn failures_answer_those_who_wait_for_them<S, E>(
    state: LoopView<S>,
    peer_id: Seq<u8>,
    dial: u64,
    error: E,
)
    ensures
        ({
            let known = SwarmEventView::OutgoingConnectionError {
                peer_id: Some(peer_id),
                dial,
                error,
            };
            let (next, effect) = network::on_event::<S, E>(state, known);
            let by_peer = state.pending_dial.contains_key(peer_id);
            let by_number = state.pending_address.contains_key(dial);
            let result: Result<(), E> = Err(error);
            &&& next == LoopView {
                local_peer_id: state.local_peer_id,
                pending_dial: state.pending_dial.remove(peer_id),
                pending_address: state.pending_address.remove(dial),
            }
            &&& !by_peer && !by_number ==> effect is Nothing
            &&& by_peer && !by_number ==> effect == (EffectView::Answer {
                senders: seq![state.pending_dial[peer_id]],
                result,
            })
            &&& !by_peer && by_number ==> effect == (EffectView::Answer {
                senders: seq![state.pending_address[dial]],
                result,
            })
            &&& by_peer && by_number ==> effect == (EffectView::Answer {
                senders: seq![state.pending_dial[peer_id], state.pending_address[dial]],
                result,
            })
        }),
        ({
            let unknown = SwarmEventView::OutgoingConnectionError { peer_id: None, dial, error };
            let (next, effect) = network::on_event::<S, E>(state, unknown);
            &&& next == LoopView {
                local_peer_id: state.local_peer_id,
                pending_dial: state.pending_dial,
                pending_address: state.pending_address.remove(dial),
            }
            &&& !state.pending_address.contains_key(dial) ==> effect is Nothing
            &&& state.pending_address.contains_key(dial) ==> effect == (EffectView::Answer {
                senders: seq![state.pending_address[dial]],
                result: Err(error),
            })
        }),
{
    assert(!state.pending_dial.contains_key(peer_id) ==> state.pending_dial.remove(peer_id)
        =~= state.pending_dial);
    assert(!state.pending_address.contains_key(dial) ==> state.pending_address.remove(dial)
        =~= state.pending_address);
    let senders = network::settled(state, Some(peer_id), dial).1;
    assert(senders =~= network::settled_peer(state, peer_id).1 + network::settled_address(
        state,
        dial,
    ).1);
    assert(senders.len() == 1 && state.pending_dial.contains_key(peer_id) ==> senders
        =~= seq![state.pending_dial[peer_id]]);
    assert(senders.len() == 1 && state.pending_address.contains_key(dial) ==> senders
        =~= seq![state.pending_address[dial]]);
    assert(senders.len() == 2 ==> senders
        =~= seq![state.pending_dial[peer_id], state.pending_address[dial]]);
    let alone = network::settled(state, None::<Seq<u8>>, dial).1;
    assert(alone.len() == 1 ==> alone =~= seq![state.pending_address[dial]]);
}

/// Each address that is listened on is made known with the id of this node behind it, and nothing is
/// done about what concerns nobody. Neither changes anything.
pub proof fn addresses_are_made_known_with_the_id_of_this_node<S, E>(
    state: LoopView<S>,
    address: Seq<u8>,
)
    ensures
        network::on_event::<S, E>(state, SwarmEventView::NewListenAddr { address }) == (
            state,
            EffectView::<S, E>::Announce(
                address + (seq![0xa5u8, 0x03u8, state.local_peer_id.len() as u8]
                    + state.local_peer_id),
            ),
        ),
        network::on_event::<S, E>(state, SwarmEventView::Other) == (
            state,
            EffectView::<S, E>::Nothing,
        ),
{
}

/// A bootstrap address at whose end a peer id stands leads to that peer at what is in front of it.
/// Any other is dialed as it stands where it is an IP address with a TCP port, and is passed over
/// where it is not.
pub proof fn bootstrap_addresses_lead_to_their_peers<S>(addr: Seq<u8>, sender: S)
    ensures
        ({
            let (rest, last) = address::multiaddr_popped(addr, usize::BITS as int);
            let step = bootstrap::bootstrap_step(addr);
            let command = bootstrap::step_command(step, sender);
            let listened_on = addr.len() == 8 && addr[0] == 4 && addr[5] == 6 || addr.len() == 20
                && addr[0] == 41 && addr[17] == 6;
            match last {
                Some(peer_id) => step == (BootstrapStepView::Dial { peer_id, addr: rest })
                    && command == Some(CommandView::Dial { peer_id, peer_addr: rest, sender }),
                None if listened_on => step == (BootstrapStepView::DialAddress { addr }) && command
                    == Some(CommandView::DialAddress { addr, sender }),
                None => step is Skip && command is None,
            }
        }),
{
}

/// The names of what an address shows and of what comes off it are those of the running target.
pub proof fn addresses_are_those_of_the_running_target(addr: Seq<u8>)
    ensures
        address::is_multiaddr(addr) == address::multiaddr_valid(addr, usize::BITS as int),
        address::text_of(addr) == address::multiaddr_text(addr, usize::BITS as int),
        address::popped(addr) == address::multiaddr_popped(addr, usize::BITS as int),
{
}

/// The line that shows a message holds the whole content, as text where it is UTF-8 and mended where
/// it is not, the whole id and who passed the message on.
pub proof fn a_message_is_shown_whole(
    propagation_source: Seq<u8>,
    message_id: Seq<u8>,
    message: MessageView,
    text: Seq<char>,
)
    requires
        utf8::valid_utf8(message.data) ==> text == utf8::decode_utf8(message.data),
        !utf8::valid_utf8(message.data) ==> text == chat::mended_utf8(message.data),
    ensures
        chat::message_line(EventView::PubsubMessage { propagation_source, message_id, message })
            == "Got message: "@ + text + " with id: "@ + crate::message::hex_text(message_id)
            + " from peer: "@ + address::peer_id_text(propagation_source),
{
}

/// What one user types, the others see. The line, published as its UTF-8, is taken by the loop in
/// any state and reaches the swarm on its topic, byte for byte; and where a node receives a message
/// of these bytes, its loop hands on an event that is shown with this line in it.
pub proof fn a_typed_line_reaches_the_other_users<S, E>(
    sending: LoopView<S>,
    receiving: LoopView<S>,
    line: Seq<char>,
    topic: Seq<char>,
    sender: S,
    propagation_source: Seq<u8>,
    message_id: Seq<u8>,
    message: MessageView,
)
    requires
        message.data == utf8::encode_utf8(line),
    ensures
        ({
            let publish = CommandView::PublishMessage {
                topic,
                message: utf8::encode_utf8(line),
                sender,
            };
            &&& network::accepts(sending, publish)
            &&& network::command_call(publish) == SwarmCallView::Publish(topic, message.data)
        }),
        ({
            let event = SwarmEventView::Message { propagation_source, message_id, message };
            network::on_event::<S, E>(receiving, event).1 matches EffectView::Forward(handed)
                && chat::message_line(handed) == "Got message: "@ + line + " with id: "@
                + crate::message::hex_text(message_id) + " from peer: "@ + address::peer_id_text(
                propagation_source,
            )
        }),
{
    utf8::encode_utf8_valid_utf8(line);
    utf8::encode_utf8_decode_utf8(line);
}

/// The settings of the holder of a key are a beat every second, messages that are accepted only with
/// a valid signature, and messages that are signed with that key.
pub proof fn the_gossip_settings_are_those_of_the_key(
    config: GossipsubConfig,
    public_key: Seq<u8>,
)
    ensures
        config.is_for(public_key) <==> config.heartbeat_interval_secs == 1
            && config.validation_mode is Strict && (config.authenticity matches
            MessageAuthenticity::Signed { public_key: key } && key@ == public_key),
{
}

/// The model of a command, of a call and of whoever waits for it holds what the value holds, field by
/// field.
pub proof fn models_of_calls_hold_what_they_stand_for<S>(
    command: Command<S>,
    call: SwarmCall,
    waiting: Waiting<S>,
)
    ensures
        match command {
            Command::StartListening { addr, sender } => command@ == (CommandView::StartListening {
                addr: addr@,
                sender,
            }) && command@.asker() == sender,
            Command::Dial { peer_id, peer_addr, sender } => command@ == (CommandView::Dial {
                peer_id: peer_id@,
                peer_addr: peer_addr@,
                sender,
            }) && command@.asker() == sender,
            Command::DialAddress { addr, sender } => command@ == (CommandView::DialAddress {
                addr: addr@,
                sender,
            }) && command@.asker() == sender,
            Command::Subscribe { topic, sender } => command@ == (CommandView::Subscribe {
                topic: topic.topic@,
                sender,
            }) && command@.asker() == sender,
            Command::PublishMessage { topic, message, sender } => command@ == (
            CommandView::PublishMessage { topic: topic.topic@, message: message@, sender })
                && command@.asker() == sender,
        },
        match call {
            SwarmCall::ListenOn(addr) => call@ == SwarmCallView::ListenOn(addr@),
            SwarmCall::Dial(addr) => call@ == SwarmCallView::Dial(addr@),
            SwarmCall::Subscribe(topic) => call@ == SwarmCallView::Subscribe(topic.topic@),
            SwarmCall::Publish(topic, message) => call@ == SwarmCallView::Publish(
                topic.topic@,
                message@,
            ),
        },
        match waiting {
            Waiting::Outcome { sender } => waiting@ == (WaitingView::Outcome { sender }),
            Waiting::Connection { peer_id, sender } => waiting@ == (WaitingView::Connection {
                peer_id: peer_id@,
                sender,
            }),
            Waiting::Address { sender } => waiting@ == (WaitingView::Address { sender }),
        },
{
}

/// The model of what the swarm reports, of what is done about it and of what the application is told
/// holds what the value holds, field by field.
pub proof fn models_of_events_hold_what_they_stand_for<S, E>(
    event: SwarmEvent<E>,
    effect: Effect<S, E>,
    handed: Event,
    message: GossipsubMessage,
    step: BootstrapStep,
)
    ensures
        match event {
            SwarmEvent::Behaviour(
                GossipsubEvent::Message { propagation_source, message_id, message },
            ) => event@ == (SwarmEventView::<E>::Message {
                propagation_source: propagation_source@,
                message_id: message_id.bytes@,
                message: message@,
            }),
            SwarmEvent::Behaviour(GossipsubEvent::Other) => event@ is Other,
            SwarmEvent::ConnectionEstablished { peer_id, endpoint, dial } => event@ == (
            SwarmEventView::<E>::ConnectionEstablished { peer_id: peer_id@, endpoint, dial }),
            SwarmEvent::OutgoingConnectionError { peer_id: Some(peer), dial, error } => event@ == (
            SwarmEventView::OutgoingConnectionError { peer_id: Some(peer@), dial, error }),
            SwarmEvent::OutgoingConnectionError { peer_id: None, dial, error } => event@ == (
            SwarmEventView::OutgoingConnectionError { peer_id: None, dial, error }),
            SwarmEvent::NewListenAddr { address } => event@ == (SwarmEventView::<E>::NewListenAddr {
                address: address@,
            }),
            SwarmEvent::Other => event@ is Other,
        },
        match effect {
            Effect::Nothing => effect@ is Nothing,
            Effect::Forward(told) => effect@ == EffectView::<S, E>::Forward(told@),
            Effect::Answer { senders, result } => effect@ == (EffectView::<S, E>::Answer {
                senders: senders@,
                result,
            }),
            Effect::Announce(addr) => effect@ == EffectView::<S, E>::Announce(addr@),
        },
        handed matches Event::PubsubMessage { propagation_source, message_id, message } && handed@
            == (EventView::PubsubMessage {
            propagation_source: propagation_source@,
            message_id: message_id.bytes@,
            message: message@,
        }),
        message@.data == message.data@ && message@.topic == message.topic@
            && message@.sequence_number == message.sequence_number,
        match message.source {
            Some(peer) => message@.source == Some(peer@),
            None => message@.source is None,
        },
        match step {
            BootstrapStep::Dial { peer_id, addr } => step@ == (BootstrapStepView::Dial {
                peer_id: peer_id@,
                addr: addr@,
            }),
            BootstrapStep::DialAddress { addr } => step@ == (BootstrapStepView::DialAddress {
                addr: addr@,
            }),
            BootstrapStep::Skip => step@ is Skip,
        },
{
}

} // verus!
