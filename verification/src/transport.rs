//! What passes between the chat actor and the transport: the events that
//! the actor is told of, the actions that it asks for, and the failures that
//! are reported back to it.

use crate::behaviour::ChatBehaviourEvent;
use crate::peer::PeerIdentifier;
use vstd::prelude::*;

verus! {

/// What the transport's event stream yields.
#[derive(Debug)]
pub enum SwarmEvent {
    /// An event of discovery, of the handshake or of the mesh.
    Behaviour(ChatBehaviourEvent),
    /// The node now listens on this address.
    NewListenAddr {
        /// The address that was bound.
        address: String,
    },
    /// A connection to this peer has been closed.
    ConnectionClosed {
        /// The peer at the other end.
        peer_id: PeerIdentifier,
    },
    /// Anything else.
    Other,
}

/// What one turn of the loop found ready.
#[derive(Debug)]
pub enum Event {
    /// Cancellation was signalled.
    Cancelled,
    /// An outbound command waits in the channel.
    Outbound,
    /// The transport reported something.
    Swarm(SwarmEvent),
}

/// What the actor asks of the transport.
#[derive(Debug, PartialEq, Eq)]
pub enum Action {
    /// Subscribe to the chat topic.
    Subscribe,
    /// Listen on this address.
    Listen {
        /// The address to bind.
        address: String,
    },
    /// Connect to this peer.
    Dial {
        /// The peer to connect to.
        peer: PeerIdentifier,
    },
    /// Close the connections to this peer.
    Disconnect {
        /// The peer to turn away.
        peer: PeerIdentifier,
    },
    /// Mark this peer explicit in the mesh, so that every message is forwarded to it.
    AddExplicitPeer {
        /// The admitted peer.
        peer: PeerIdentifier,
    },
    /// Broadcast these bytes on the chat topic.
    Publish {
        /// The bytes to put on the wire.
        data: Vec<u8>,
    },
    /// Unsubscribe from the chat topic.
    Unsubscribe,
}

/// An action as contracts speak of it.
#[verifier::ext_equal]
pub enum ActionView {
    /// Subscribe to the chat topic.
    Subscribe,
    /// Listen on this address.
    Listen { address: Seq<char> },
    /// Connect to this peer.
    Dial { peer: Seq<u8> },
    /// Close the connections to this peer.
    Disconnect { peer: Seq<u8> },
    /// Mark this peer explicit in the mesh.
    AddExplicitPeer { peer: Seq<u8> },
    /// Broadcast these bytes on the chat topic.
    Publish { data: Seq<u8> },
    /// Unsubscribe from the chat topic.
    Unsubscribe,
}

impl View for Action {
    type V = ActionView;

    open spec fn view(&self) -> ActionView {
        match *self {
            Action::Subscribe => ActionView::Subscribe,
            Action::Listen { address } => ActionView::Listen { address: address@ },
            Action::Dial { peer } => ActionView::Dial { peer: peer@ },
            Action::Disconnect { peer } => ActionView::Disconnect { peer: peer@ },
            Action::AddExplicitPeer { peer } => ActionView::AddExplicitPeer { peer: peer@ },
            Action::Publish { data } => ActionView::Publish { data: data@ },
            Action::Unsubscribe => ActionView::Unsubscribe,
        }
    }
}

/// The actions of a list, as contracts speak of them.
pub open spec fn views(actions: Seq<Action>) -> Seq<ActionView> {
    actions.map_values(|action: Action| action@)
}

/// Why the transport refused to connect to a peer.
#[derive(Clone, Copy, Debug, PartialEq, Eq, Structural)]
pub enum DialFailure {
    /// The peer is connected already, or an earlier dial to it is under way.
    PeerConditionFalse,
    /// Any other reason.
    Other,
}

/// Why the mesh refused a publication.
#[derive(Clone, Copy, Debug, PartialEq, Eq, Structural)]
pub enum PublishFailure {
    /// No peer is subscribed to the chat topic.
    NoPeers,
    /// The mesh has seen a message with this identifier before.
    Duplicate,
    /// The queues to all peers are full.
    NoCapacity,
    /// Any other reason.
    Other,
}

/// An action that the transport could not perform.
#[derive(Debug)]
#[allow(inconsistent_fields)]
pub enum Failure {
    /// [`Action::Subscribe`] failed.
    Subscribe {
        /// What the transport said.
        reason: String,
    },
    /// [`Action::Listen`] failed.
    Listen {
        /// What the transport said.
        reason: String,
    },
    /// [`Action::Dial`] failed.
    Dial {
        /// The peer that was to be connected.
        peer: PeerIdentifier,
        /// Why it was not.
        cause: DialFailure,
    },
    /// [`Action::Disconnect`] failed.
    Disconnect {
        /// The peer that was to be turned away.
        peer: PeerIdentifier,
    },
    /// [`Action::Publish`] failed.
    Publish {
        /// Why the mesh refused.
        cause: PublishFailure,
        /// What the transport said.
        reason: String,
    },
}

} // verus!
