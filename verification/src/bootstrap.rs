//! Reaching out to the peers named on the command line.

use crate::address::{self, AddressError, Multiaddr, PeerId};
use crate::network::CommandView;
use vstd::prelude::*;

verus! {

/// What is done about one bootstrap peer.
pub enum BootstrapStep {
    /// The address ends with the peer's id: the peer is dialed at what stands before it.
    Dial { peer_id: PeerId, addr: Multiaddr },
    /// The address is one to listen on and does not say whose it is: it is dialed as it stands.
    DialAddress { addr: Multiaddr },
    /// The address leads to nobody, and is passed over.
    Skip,
}

/// The model of a step.
#[verifier::ext_equal]
pub enum BootstrapStepView {
    Dial { peer_id: Seq<u8>, addr: Seq<u8> },
    DialAddress { addr: Seq<u8> },
    Skip,
}

impl View for BootstrapStep {
    type V = BootstrapStepView;

    open spec fn view(&self) -> BootstrapStepView {
        match *self {
            BootstrapStep::Dial { peer_id, addr } => BootstrapStepView::Dial {
                peer_id: peer_id@,
                addr: addr@,
            },
            BootstrapStep::DialAddress { addr } => BootstrapStepView::DialAddress { addr: addr@ },
            BootstrapStep::Skip => BootstrapStepView::Skip,
        }
    }
}

/// The step for a bootstrap address: one that ends with a peer id leads to that peer, one that a
/// node listens on leads to whoever listens there, and any other is passed over.
pub open spec fn bootstrap_step(addr: Seq<u8>) -> BootstrapStepView {
    let (rest, last) = address::popped(addr);
    match last {
        Some(peer_id) => BootstrapStepView::Dial { peer_id, addr: rest },
        None => if address::is_listen_address(addr) {
            BootstrapStepView::DialAddress { addr }
        } else {
            BootstrapStepView::Skip
        },
    }
}

/// The command with which a step is carried out, where it takes one.
pub open spec fn step_command<S>(step: BootstrapStepView, sender: S) -> Option<CommandView<S>> {
    match step {
        BootstrapStepView::Dial { peer_id, addr } => Some(
            CommandView::Dial { peer_id, peer_addr: addr, sender },
        ),
        BootstrapStepView::DialAddress { addr } => Some(CommandView::DialAddress { addr, sender }),
        BootstrapStepView::Skip => None,
    }
}

/// The bootstrap peers that the first argument names: none where there is no argument.
pub fn bootstrap_peers(argument: Option<String>) -> (peers: Result<Vec<Multiaddr>, AddressError>)
    ensures
        match argument {
            None => peers matches Ok(list) && list@.len() == 0,
            Some(text) => match address::multiaddr_of_text(text@) {
                Some(bytes) => peers matches Ok(list) && list@.len() == 1 && list@[0]@ == bytes
                    && address::ends_canonically(bytes),
                None => peers matches Err(error) && error == AddressError::InvalidMultiaddr,
            },
        },
{
    let mut peers: Vec<Multiaddr> = Vec::new();
    match argument {
        None => Ok(peers),
        Some(text) => match Multiaddr::parse(text.as_str()) {
            Ok(addr) => {
                peers.push(addr);
                Ok(peers)
            },
            Err(error) => Err(error),
        },
    }
}

/// What is done about each of the bootstrap peers, in their order. An address without a peer id at
/// its end is passed over unless it is one to listen on; an empty address, one to listen on and one
/// that ends in a relay are known to have none there.
pub fn dial_bootstrap_peers(peers: &Vec<Multiaddr>) -> (steps: Vec<BootstrapStep>)
    ensures
        steps@.len() == peers@.len(),
        forall|i: int|
            0 <= i < peers@.len() ==> (#[trigger] steps@[i])@ == bootstrap_step(peers@[i]@),
        forall|i: int|
            0 <= i < peers@.len() ==> match (#[trigger] steps@[i]) {
                BootstrapStep::Dial { peer_id, addr } => address::multiaddr_popped(
                    peers@[i]@,
                    usize::BITS as int,
                ) == (addr@, Some(peer_id@)),
                BootstrapStep::DialAddress { addr } => addr@ == peers@[i]@,
                BootstrapStep::Skip => true,
            },
        forall|i: int|
            0 <= i < peers@.len() ==> address::splits_plainly((#[trigger] peers@[i])@),
{
    let mut steps: Vec<BootstrapStep> = Vec::new();
    let mut next: usize = 0;
    while next < peers.len()
        invariant
            next <= peers@.len(),
            steps@.len() == next,
            forall|i: int|
                0 <= i < next ==> (#[trigger] steps@[i])@ == bootstrap_step(peers@[i]@),
            forall|i: int|
                0 <= i < next ==> match (#[trigger] steps@[i]) {
                    BootstrapStep::Dial { peer_id, addr } => address::multiaddr_popped(
                        peers@[i]@,
                        usize::BITS as int,
                    ) == (addr@, Some(peer_id@)),
                    BootstrapStep::DialAddress { addr } => addr@ == peers@[i]@,
                    BootstrapStep::Skip => true,
                },
            forall|i: int| 0 <= i < next ==> address::splits_plainly((#[trigger] peers@[i])@),
        decreases peers@.len() - next,
    {
        let (rest, last) = peers[next].split_peer();
        let step = match last {
            Some(peer_id) => BootstrapStep::Dial { peer_id, addr: rest },
            None => if peers[next].is_for_listening() {
                BootstrapStep::DialAddress { addr: peers[next].clone() }
            } else {
                BootstrapStep::Skip
            },
        };
        steps.push(step);
        next += 1;
    }
    steps
}

impl BootstrapStep {
    /// What the user is told of an address that is passed over: that it lacks a peer id.
    pub fn notice(&self) -> (line: Option<String>)
        ensures
            line is Some <==> self is Skip,
            line matches Some(text) ==> text@
                == "Bootstrap peer multiaddr must end with its peer ID (/p2p/<peer-id>."@,
    {
        match self {
            BootstrapStep::Skip => Some(
                "Bootstrap peer multiaddr must end with its peer ID (/p2p/<peer-id>.".to_owned(),
            ),
            _ => None,
        }
    }
}

/// What the user is told of a bootstrap peer once its dial is answered; a failed dial comes with
/// the text of its error.
pub fn dial_report(peer_addr: &Multiaddr, outcome: Result<(), String>) -> (line: String)
    ensures
        match outcome {
            Ok(()) => line@ == "Successfully dialed bootstrap peer: "@ + address::text_of(
                peer_addr@,
            ),
            Err(error) => line@ == "Failed to dial bootstrap peer "@ + address::text_of(
                peer_addr@,
            ) + ": "@ + error@,
        },
{
    let addr = peer_addr.to_text();
    match outcome {
        Ok(()) => "Successfully dialed bootstrap peer: ".to_owned().concat(addr.as_str()),
        Err(error) => "Failed to dial bootstrap peer ".to_owned().concat(addr.as_str()).concat(
            ": ",
        ).concat(error.as_str()),
    }
}

} // verus!
