//! The chat actor: one event loop that owns the node's state.
//!
//! The actor decides; it does not touch the network. Each call hands it what
//! became ready and gets back what the transport is to do. Whoever drives the
//! actor performs the actions in order and reports the ones that failed
//! through [`ChatClient::on_failure`].
//!
//! ```text
//! Constructed --start--> Listening --cancellation--> Draining --stop--> Stopped
//! ```

use crate::behaviour::{ChatBehaviourEvent, GossipsubEvent, IdentifyEvent, MdnsEvent};
use crate::behaviour::{own_protocol_version, protocol_version_text};
use crate::behaviour::{PROTOCOL_NAME, VERSION_MAJOR, VERSION_MINOR};
use crate::clock::unix_nanos;
use crate::decimal::{decimal_text, to_decimal};
use crate::dedup::{frame, framed, unframe, unframed, DecodeFault, DedupPolicy};
use crate::gate::{verdict, PeerTrustGate, Verdict};
use crate::queue::{Message, MessageView, ReceivedQueue};
use crate::transport::{
    Action, ActionView, DialFailure, Event, Failure, PublishFailure, SwarmEvent, views,
};
use std::collections::VecDeque;
use vstd::prelude::*;
use vstd::string::StringExecFns;

verus! {

/// Where the actor is in its life.
#[derive(Clone, Copy, Debug, PartialEq, Eq, Structural)]
pub enum ActorState {
    /// Built, not yet started.
    Constructed,
    /// Subscribed and bound; the loop runs.
    Listening,
    /// Cancellation was observed; the loop has ended and the actor waits to be stopped.
    Draining,
    /// Unsubscribed, the outbound channel closed. Nothing follows.
    Stopped,
}

/// What went wrong in the chat client.
#[derive(Debug, PartialEq, Eq)]
pub enum ChatClientError {
    /// The chat topic could not be subscribed to.
    SubscribtionError(String),
    /// No listening address could be bound.
    ListenError(String),
    /// A payload could not be published.
    PublishError(String),
}

/// An error as contracts speak of it.
pub enum ChatClientErrorView {
    /// The chat topic could not be subscribed to.
    SubscribtionError(Seq<char>),
    /// No listening address could be bound.
    ListenError(Seq<char>),
    /// A payload could not be published.
    PublishError(Seq<char>),
}

impl View for ChatClientError {
    type V = ChatClientErrorView;

    open spec fn view(&self) -> ChatClientErrorView {
        match *self {
            ChatClientError::SubscribtionError(reason) => ChatClientErrorView::SubscribtionError(
                reason@,
            ),
            ChatClientError::ListenError(reason) => ChatClientErrorView::ListenError(reason@),
            ChatClientError::PublishError(reason) => ChatClientErrorView::PublishError(reason@),
        }
    }
}

/// The text that describes an error.
pub open spec fn error_text(error: ChatClientErrorView) -> Seq<char> {
    match error {
        ChatClientErrorView::SubscribtionError(reason) => "Could not subscribe: "@ + reason,
        ChatClientErrorView::ListenError(reason) => "Could not listen: "@ + reason,
        ChatClientErrorView::PublishError(reason) => "Could not publish: "@ + reason,
    }
}

impl ChatClientError {
    /// Describes the error in words.
    pub fn message(&self) -> (text: String)
        ensures
            text@ == error_text(self@),
    {
        match self {
            ChatClientError::SubscribtionError(reason) => {
                String::from_str("Could not subscribe: ").concat(reason.as_str())
            },
            ChatClientError::ListenError(reason) => {
                String::from_str("Could not listen: ").concat(reason.as_str())
            },
            ChatClientError::PublishError(reason) => {
                String::from_str("Could not publish: ").concat(reason.as_str())
            },
        }
    }
}

/// How the actor takes a failure.
#[derive(Debug, PartialEq, Eq)]
pub enum Reaction {
    /// The failure was to be expected. Nothing is done and nothing is said.
    Ignore,
    /// The failure is worth a line in the log. The loop goes on.
    Log,
    /// The failure ends the attempt to start, with this error.
    Abort(ChatClientError),
}

/// A reaction as contracts speak of it.
pub enum ReactionView {
    /// Nothing is done and nothing is said.
    Ignore,
    /// The failure is logged and the loop goes on.
    Log,
    /// The attempt to start ends with this error.
    Abort(ChatClientErrorView),
}

impl View for Reaction {
    type V = ReactionView;

    open spec fn view(&self) -> ReactionView {
        match *self {
            Reaction::Ignore => ReactionView::Ignore,
            Reaction::Log => ReactionView::Log,
            Reaction::Abort(error) => ReactionView::Abort(error@),
        }
    }
}

/// The actor's state as contracts speak of it.
#[verifier::ext_equal]
pub struct ClientView {
    /// Where the actor is in its life.
    pub state: ActorState,
    /// Whether cancellation has been signalled.
    pub cancelled: bool,
    /// The protocol version that the node announces and admits.
    pub own_version: Seq<char>,
    /// How publications are told apart.
    pub policy: DedupPolicy,
    /// The clock value of the latest stamped publication; zero before the first.
    pub last_stamp: u128,
    /// The messages that arrived and were not taken yet, oldest first.
    pub received: Seq<MessageView>,
    /// The payloads that wait in the outbound channel, oldest first.
    pub outbound: Seq<Seq<u8>>,
}

/// The address that the node binds for a port: every interface, TCP.
pub open spec fn listen_address_text(port: u16) -> Seq<char> {
    "/ip4/0.0.0.0/tcp/"@ + decimal_text(port as nat)
}

/// Writes the address that the node binds for a port. Port zero leaves the
/// choice to the operating system.
pub fn listen_address(port: u16) -> (address: String)
    ensures
        address@ == listen_address_text(port),
{
    String::from_str("/ip4/0.0.0.0/tcp/").concat(to_decimal(port as u64).as_str())
}

/// The state of an actor that was just built.
pub open spec fn constructed(policy: DedupPolicy) -> ClientView {
    ClientView {
        state: ActorState::Constructed,
        cancelled: false,
        own_version: protocol_version_text(
            PROTOCOL_NAME@,
            VERSION_MAJOR as nat,
            VERSION_MINOR as nat,
        ),
        policy,
        last_stamp: 0,
        received: Seq::empty(),
        outbound: Seq::empty(),
    }
}

/// The clock value that the next publication is stamped with, given the
/// latest stamp and what the clock says now: the clock's value where that is
/// later than every stamp before, else the next value after the latest stamp.
/// There is none once the latest stamp is the largest value there is.
pub open spec fn next_stamp(last: u128, now: u128) -> Option<u128> {
    if now > last {
        Some(now)
    } else if last < u128::MAX {
        Some((last + 1) as u128)
    } else {
        None
    }
}

/// What [`ChatClient::start`] does.
pub open spec fn start_spec(pre: ClientView, port: u16) -> (ClientView, Seq<ActionView>) {
    if pre.state == ActorState::Constructed {
        (
            ClientView { state: ActorState::Listening, ..pre },
            seq![ActionView::Subscribe, ActionView::Listen { address: listen_address_text(port) }],
        )
    } else {
        (pre, Seq::empty())
    }
}

/// What [`ChatClient::stop`] does.
pub open spec fn stop_spec(pre: ClientView) -> (ClientView, Seq<ActionView>) {
    if pre.state == ActorState::Draining {
        (
            ClientView { state: ActorState::Stopped, outbound: Seq::empty(), ..pre },
            seq![ActionView::Unsubscribe],
        )
    } else {
        (pre, Seq::empty())
    }
}

/// What [`ChatClient::submit`] does: the payload joins the channel unless the
/// channel is closed.
pub open spec fn submit_spec(pre: ClientView, payload: Seq<u8>) -> (ClientView, bool) {
    if pre.state == ActorState::Stopped {
        (pre, false)
    } else {
        (ClientView { outbound: pre.outbound.push(payload), ..pre }, true)
    }
}

/// What [`ChatClient::publish_at`] does when the clock says `now`.
pub open spec fn publish_spec(pre: ClientView, message: Seq<u8>, now: u128) -> (
    ClientView,
    Option<ActionView>,
) {
    match pre.policy {
        DedupPolicy::ContentHash => (
            pre,
            Some(ActionView::Publish { data: framed(DedupPolicy::ContentHash, 0, message) }),
        ),
        DedupPolicy::Timestamp => match next_stamp(pre.last_stamp, now) {
            Some(stamp) => (
                ClientView { last_stamp: stamp, ..pre },
                Some(ActionView::Publish { data: framed(DedupPolicy::Timestamp, stamp, message) }),
            ),
            None => (pre, None),
        },
    }
}

/// The actions that answer an event of local discovery: a dial for each peer
/// that was discovered, a disconnect for each that expired, in the order of
/// the report.
pub open spec fn mdns_actions(event: MdnsEvent) -> Seq<ActionView> {
    match event {
        MdnsEvent::Discovered(peers) => Seq::new(
            peers@.len(),
            |i: int| ActionView::Dial { peer: peers@[i]@ },
        ),
        MdnsEvent::Expired(peers) => Seq::new(
            peers@.len(),
            |i: int| ActionView::Disconnect { peer: peers@[i]@ },
        ),
    }
}

/// The actions that answer an event of the handshake: the trust gate's
/// decision, carried out.
pub open spec fn identify_actions(own_version: Seq<char>, event: IdentifyEvent) -> Seq<
    ActionView,
> {
    match event {
        IdentifyEvent::Received { peer_id, protocol_version } => match verdict(
            own_version,
            protocol_version@,
        ) {
            Verdict::Admit => seq![ActionView::AddExplicitPeer { peer: peer_id@ }],
            Verdict::Reject => seq![ActionView::Disconnect { peer: peer_id@ }],
        },
        IdentifyEvent::Other => Seq::empty(),
    }
}

/// The queue of arrived messages after an event of the mesh: a message whose
/// payload can be taken out of its frame joins the queue at the back.
pub open spec fn gossipsub_spec(pre: ClientView, event: GossipsubEvent) -> ClientView {
    match event {
        GossipsubEvent::Message { propagation_source, data } => match unframed(
            pre.policy,
            data@,
        ) {
            Some(payload) => ClientView {
                received: pre.received.push(
                    MessageView { sender: propagation_source@, payload },
                ),
                ..pre
            },
            None => pre,
        },
        GossipsubEvent::Other => pre,
    }
}

/// What the loop does with the outbound channel when the clock says `now`: it
/// takes the oldest command out, drops it if its payload is empty, and
/// publishes it otherwise.
pub open spec fn outbound_spec(pre: ClientView, now: u128) -> (ClientView, Seq<ActionView>) {
    if pre.outbound.len() == 0 {
        (pre, Seq::empty())
    } else {
        let taken = ClientView { outbound: pre.outbound.skip(1), ..pre };
        let payload = pre.outbound[0];
        if payload.len() == 0 {
            (taken, Seq::empty())
        } else {
            match publish_spec(taken, payload, now) {
                (post, Some(action)) => (post, seq![action]),
                (post, None) => (post, Seq::empty()),
            }
        }
    }
}

/// What [`ChatClient::run_at`] does: one turn of the loop on the event that
/// was ready, when the clock says `now`.
///
/// Outside the listening state nothing happens. In it, cancellation comes
/// first: once it was signalled, the turn ends the loop, whatever the event.
pub open spec fn run_spec(pre: ClientView, event: Event, now: u128) -> (
    ClientView,
    Seq<ActionView>,
) {
    if pre.state != ActorState::Listening {
        (pre, Seq::empty())
    } else if pre.cancelled || event is Cancelled {
        (ClientView { state: ActorState::Draining, cancelled: true, ..pre }, Seq::empty())
    } else {
        match event {
            Event::Cancelled => (pre, Seq::empty()),
            Event::Outbound => outbound_spec(pre, now),
            Event::Swarm(SwarmEvent::Behaviour(ChatBehaviourEvent::Mdns(inner))) => (
                pre,
                mdns_actions(inner),
            ),
            Event::Swarm(SwarmEvent::Behaviour(ChatBehaviourEvent::Identify(inner))) => (
                pre,
                identify_actions(pre.own_version, inner),
            ),
            Event::Swarm(SwarmEvent::Behaviour(ChatBehaviourEvent::Gossipsub(inner))) => (
                gossipsub_spec(pre, inner),
                Seq::empty(),
            ),
            Event::Swarm(_) => (pre, Seq::empty()),
        }
    }
}

/// What [`ChatClient::on_failure`] does.
///
/// A failure to subscribe or to listen ends the attempt to start: the actor
/// is back where it was before. Everything else leaves the actor alone. A
/// dial that was refused because one is under way already, and a publication
/// that found no peer, are expected; the rest is logged.
pub open spec fn failure_spec(pre: ClientView, failure: Failure) -> (ClientView, ReactionView) {
    match failure {
        Failure::Subscribe { reason } => (
            aborted(pre),
            ReactionView::Abort(ChatClientErrorView::SubscribtionError(reason@)),
        ),
        Failure::Listen { reason } => (
            aborted(pre),
            ReactionView::Abort(ChatClientErrorView::ListenError(reason@)),
        ),
        Failure::Dial { peer, cause } => (
            pre,
            if cause == DialFailure::PeerConditionFalse {
                ReactionView::Ignore
            } else {
                ReactionView::Log
            },
        ),
        Failure::Disconnect { peer } => (pre, ReactionView::Log),
        Failure::Publish { cause, reason } => (
            pre,
            if cause == PublishFailure::NoPeers {
                ReactionView::Ignore
            } else {
                ReactionView::Log
            },
        ),
    }
}

/// The actor after an attempt to start was given up.
pub open spec fn aborted(pre: ClientView) -> ClientView {
    if pre.state == ActorState::Listening {
        ClientView { state: ActorState::Constructed, ..pre }
    } else {
        pre
    }
}

/// What [`ChatClient::receive`] does to the queue and to the caller's buffer,
/// and the status it returns.
///
/// The oldest message leaves the queue in any case. Its payload goes to the
/// front of the buffer if it fits there and its length can be returned.
pub open spec fn receive_spec(received: Seq<MessageView>, buffer: Seq<u8>) -> (
    Seq<MessageView>,
    Seq<u8>,
    int,
) {
    if received.len() == 0 {
        (received, buffer, 0)
    } else {
        let payload = received[0].payload;
        if payload.len() == 0 {
            (received.skip(1), buffer, 0)
        } else if buffer.len() < payload.len() || payload.len() > i32::MAX {
            (received.skip(1), buffer, BUFFER_TOO_SMALL as int)
        } else {
            (
                received.skip(1),
                payload + buffer.skip(payload.len() as int),
                payload.len() as int,
            )
        }
    }
}

/// The status of a receive that took a message out and could not deliver it.
pub const BUFFER_TOO_SMALL: i32 = -1;

/// The chat actor.
#[derive(Debug)]
pub struct ChatClient {
    state: ActorState,
    cancelled: bool,
    gate: PeerTrustGate,
    policy: DedupPolicy,
    last_stamp: u128,
    received: ReceivedQueue,
    outbound: VecDeque<Vec<u8>>,
}

impl View for ChatClient {
    type V = ClientView;

    closed spec fn view(&self) -> ClientView {
        ClientView {
            state: self.state,
            cancelled: self.cancelled,
            own_version: self.gate.own_version(),
            policy: self.policy,
            last_stamp: self.last_stamp,
            received: self.received@,
            outbound: self.outbound@.map_values(|payload: Vec<u8>| payload@),
        }
    }
}

impl ChatClient {
    /// The topic that all chat messages are published on.
    pub const CHAT_TOPIC: &'static str = "rustconnect";

    /// Builds an actor that tells publications apart by `policy`.
    pub fn new(policy: DedupPolicy) -> (client: ChatClient)
        ensures
            client@ == constructed(policy),
    {
        let client = ChatClient {
            state: ActorState::Constructed,
            cancelled: false,
            gate: PeerTrustGate::new(own_protocol_version()),
            policy,
            last_stamp: 0,
            received: ReceivedQueue::new(),
            outbound: VecDeque::new(),
        };
        assert(client@.outbound =~= Seq::<Seq<u8>>::empty());
        client
    }

    /// Where the actor is in its life.
    pub fn state(&self) -> (state: ActorState)
        ensures
            state == self@.state,
    {
        self.state
    }

    /// Whether cancellation has been signalled.
    pub fn is_cancelled(&self) -> (cancelled: bool)
        ensures
            cancelled == self@.cancelled,
    {
        self.cancelled
    }

    /// How the actor tells publications apart.
    pub fn policy(&self) -> (policy: DedupPolicy)
        ensures
            policy == self@.policy,
    {
        self.policy
    }

    /// The protocol version that the node announces and admits.
    pub fn protocol_version(&self) -> (text: &String)
        ensures
            text@ == self@.own_version,
    {
        self.gate.version()
    }

    /// The number of arrived messages that wait to be taken.
    pub fn received_len(&self) -> (count: usize)
        ensures
            count == self@.received.len(),
    {
        self.received.len()
    }

    /// The number of payloads that wait in the outbound channel.
    pub fn outbound_len(&self) -> (count: usize)
        ensures
            count == self@.outbound.len(),
    {
        self.outbound.len()
    }

    /// Signals cancellation. The loop observes it at its next turn. Signalling
    /// twice is the same as signalling once.
    pub fn cancel(&mut self)
        ensures
            final(self)@ == (ClientView { cancelled: true, ..old(self)@ }),
    {
        self.cancelled = true;
    }

    /// Puts a payload into the outbound channel, and says whether the channel
    /// took it. The channel takes everything until the actor has stopped.
    pub fn submit(&mut self, payload: Vec<u8>) -> (accepted: bool)
        ensures
            (final(self)@, accepted) == submit_spec(old(self)@, payload@),
    {
        match self.state {
            ActorState::Stopped => false,
            _ => {
                self.outbound.push_back(payload);
                assert(self@.outbound =~= old(self)@.outbound.push(payload@));
                true
            },
        }
    }

    /// Starts the actor: it subscribes to the chat topic and binds every
    /// interface on `port`. An actor that was started before stays as it is.
    pub fn start(&mut self, port: u16) -> (actions: Vec<Action>)
        ensures
            (final(self)@, views(actions@)) == start_spec(old(self)@, port),
    {
        let mut actions: Vec<Action> = Vec::new();
        match self.state {
            ActorState::Constructed => {
                self.state = ActorState::Listening;
                actions.push(Action::Subscribe);
                actions.push(Action::Listen { address: listen_address(port) });
            },
            _ => {},
        }
        assert(views(actions@) =~= start_spec(old(self)@, port).1);
        actions
    }

    /// Ends a drained actor: it unsubscribes from the chat topic and closes
    /// the outbound channel, dropping what still waits there. An actor in any
    /// other state stays as it is.
    pub fn stop(&mut self) -> (actions: Vec<Action>)
        ensures
            (final(self)@, views(actions@)) == stop_spec(old(self)@),
    {
        let mut actions: Vec<Action> = Vec::new();
        match self.state {
            ActorState::Draining => {
                self.state = ActorState::Stopped;
                self.outbound.clear();
                actions.push(Action::Unsubscribe);
                assert(self@.outbound =~= Seq::<Seq<u8>>::empty());
            },
            _ => {},
        }
        assert(views(actions@) =~= stop_spec(old(self)@).1);
        actions
    }

    /// Frames a payload for the mesh when the clock says `now`, and returns the
    /// publication to perform.
    ///
    /// Fails only under the timestamp policy, and only when no clock value is
    /// left to stamp the payload with.
    pub fn publish_at(&mut self, message: &[u8], now: u128) -> (publication: Result<
        Action,
        ChatClientError,
    >)
        ensures
            match publication {
                Ok(action) => (final(self)@, Some(action@)) == publish_spec(
                    old(self)@,
                    message@,
                    now,
                ),
                Err(error) => {
                    &&& (final(self)@, None::<ActionView>) == publish_spec(
                        old(self)@,
                        message@,
                        now,
                    )
                    &&& error@ == ChatClientErrorView::PublishError("no clock value is left"@)
                },
            },
    {
        match self.policy {
            DedupPolicy::ContentHash => Ok(
                Action::Publish { data: frame(DedupPolicy::ContentHash, 0, message) },
            ),
            DedupPolicy::Timestamp => {
                let stamp: u128 = if now > self.last_stamp {
                    now
                } else if self.last_stamp < u128::MAX {
                    self.last_stamp + 1
                } else {
                    return Err(
                        ChatClientError::PublishError(String::from_str("no clock value is left")),
                    );
                };
                self.last_stamp = stamp;
                Ok(Action::Publish { data: frame(DedupPolicy::Timestamp, stamp, message) })
            },
        }
    }

    /// Frames a payload for the mesh and returns the publication to perform.
    ///
    /// This is [`ChatClient::publish_at`] at whatever the system's clock says.
    pub fn publish(&mut self, message: &[u8]) -> (publication: Result<Action, ChatClientError>)
        ensures
            exists|now: u128|
                match publication {
                    Ok(action) => (final(self)@, Some(action@)) == #[trigger] publish_spec(
                        old(self)@,
                        message@,
                        now,
                    ),
                    Err(error) => (final(self)@, None::<ActionView>) == publish_spec(
                        old(self)@,
                        message@,
                        now,
                    ),
                },
    {
        let now: u128 = unix_nanos();
        let publication = self.publish_at(message, now);
        assert(match publication {
            Ok(action) => (self@, Some(action@)) == publish_spec(old(self)@, message@, now),
            Err(error) => (self@, None::<ActionView>) == publish_spec(old(self)@, message@, now),
        });
        publication
    }

    /// Answers an event of local discovery.
    pub fn handle_mdns(&self, event: MdnsEvent) -> (actions: Vec<Action>)
        ensures
            views(actions@) == mdns_actions(event),
    {
        let mut actions: Vec<Action> = Vec::new();
        match event {
            MdnsEvent::Discovered(peers) => {
                for peer in turn: peers
                    invariant
                        actions@.len() == turn.index(),
                        forall|i: int|
                            0 <= i < actions@.len() ==> (#[trigger] actions@[i])@
                                == (ActionView::Dial { peer: turn.seq()[i]@ }),
                {
                    actions.push(Action::Dial { peer });
                }
            },
            MdnsEvent::Expired(peers) => {
                for peer in turn: peers
                    invariant
                        actions@.len() == turn.index(),
                        forall|i: int|
                            0 <= i < actions@.len() ==> (#[trigger] actions@[i])@
                                == (ActionView::Disconnect { peer: turn.seq()[i]@ }),
                {
                    actions.push(Action::Disconnect { peer });
                }
            },
        }
        assert(views(actions@) =~= mdns_actions(event));
        actions
    }

    /// Answers an event of the handshake: a peer that announced this node's
    /// own version is marked explicit, any other is disconnected.
    pub fn handle_identify(&self, event: IdentifyEvent) -> (actions: Vec<Action>)
        ensures
            views(actions@) == identify_actions(self@.own_version, event),
    {
        let mut actions: Vec<Action> = Vec::new();
        match event {
            IdentifyEvent::Received { peer_id, protocol_version } => {
                match self.gate.decide(&protocol_version) {
                    Verdict::Admit => {
                        actions.push(Action::AddExplicitPeer { peer: peer_id });
                    },
                    Verdict::Reject => {
                        actions.push(Action::Disconnect { peer: peer_id });
                    },
                }
            },
            IdentifyEvent::Other => {},
        }
        assert(views(actions@) =~= identify_actions(self@.own_version, event));
        actions
    }

    /// Answers an event of the mesh: the payload of an arrived message is
    /// taken out of its frame and queued behind all that arrived before.
    ///
    /// Fails exactly when a message arrived whose data is too short to hold a
    /// frame. Such a message is dropped.
    pub fn handle_gossipsub(&mut self, event: GossipsubEvent) -> (outcome: Result<
        (),
        DecodeFault,
    >)
        ensures
            final(self)@ == gossipsub_spec(old(self)@, event),
            match outcome {
                Ok(_) => event is Message ==> unframed(
                    old(self)@.policy,
                    event->data@,
                ) is Some,
                Err(fault) => {
                    &&& event is Message
                    &&& unframed(old(self)@.policy, event->data@) is None
                    &&& fault.length == event->data@.len()
                },
            },
    {
        match event {
            GossipsubEvent::Message { propagation_source, data } => {
                match unframe(self.policy, data.as_slice()) {
                    Ok(payload) => {
                        self.received.push(Message { sender: propagation_source, payload });
                        Ok(())
                    },
                    Err(fault) => Err(fault),
                }
            },
            GossipsubEvent::Other => Ok(()),
        }
    }

    /// Runs one turn of the loop on the event that was ready, when the clock
    /// says `now`, and returns what the transport is to do, in order.
    ///
    /// The loop goes on for as long as the actor is listening afterwards.
    pub fn run_at(&mut self, event: Event, now: u128) -> (actions: Vec<Action>)
        ensures
            (final(self)@, views(actions@)) == run_spec(old(self)@, event, now),
    {
        match self.state {
            ActorState::Listening => {},
            _ => {
                let actions: Vec<Action> = Vec::new();
                assert(views(actions@) =~= Seq::<ActionView>::empty());
                return actions;
            },
        }
        let cancelled: bool = match event {
            Event::Cancelled => true,
            _ => self.cancelled,
        };
        if cancelled {
            self.state = ActorState::Draining;
            self.cancelled = true;
            let actions: Vec<Action> = Vec::new();
            assert(views(actions@) =~= Seq::<ActionView>::empty());
            return actions;
        }
        match event {
            Event::Outbound => self.drain_one(now),
            Event::Swarm(SwarmEvent::Behaviour(ChatBehaviourEvent::Mdns(inner))) => {
                self.handle_mdns(inner)
            },
            Event::Swarm(SwarmEvent::Behaviour(ChatBehaviourEvent::Identify(inner))) => {
                self.handle_identify(inner)
            },
            Event::Swarm(SwarmEvent::Behaviour(ChatBehaviourEvent::Gossipsub(inner))) => {
                let _ = self.handle_gossipsub(inner);
                let actions: Vec<Action> = Vec::new();
                assert(views(actions@) =~= Seq::<ActionView>::empty());
                actions
            },
            _ => {
                let actions: Vec<Action> = Vec::new();
                assert(views(actions@) =~= Seq::<ActionView>::empty());
                actions
            },
        }
    }

    /// Runs one turn of the loop on the event that was ready, and returns what
    /// the transport is to do, in order.
    ///
    /// This is [`ChatClient::run_at`] at whatever the system's clock says.
    pub fn run(&mut self, event: Event) -> (actions: Vec<Action>)
        ensures
            exists|now: u128|
                (final(self)@, views(actions@)) == #[trigger] run_spec(old(self)@, event, now),
    {
        let now: u128 = unix_nanos();
        let actions = self.run_at(event, now);
        assert((self@, views(actions@)) == run_spec(old(self)@, event, now));
        actions
    }

    /// Takes the oldest command out of the outbound channel and publishes its
    /// payload, unless that is empty.
    fn drain_one(&mut self, now: u128) -> (actions: Vec<Action>)
        ensures
            (final(self)@, views(actions@)) == outbound_spec(old(self)@, now),
    {
        let mut actions: Vec<Action> = Vec::new();
        match self.outbound.pop_front() {
            None => {},
            Some(payload) => {
                assert(self@.outbound =~= old(self)@.outbound.skip(1));
                assert(payload@ == old(self)@.outbound[0]);
                if payload.len() > 0 {
                    match self.publish_at(payload.as_slice(), now) {
                        Ok(action) => {
                            actions.push(action);
                        },
                        Err(_) => {},
                    }
                }
            },
        }
        assert(views(actions@) =~= outbound_spec(old(self)@, now).1);
        actions
    }

    /// Takes a failure that the transport reported and says what is to be
    /// done about it.
    pub fn on_failure(&mut self, failure: Failure) -> (reaction: Reaction)
        ensures
            (final(self)@, reaction@) == failure_spec(old(self)@, failure),
    {
        match failure {
            Failure::Subscribe { reason } => {
                self.abort_start();
                Reaction::Abort(ChatClientError::SubscribtionError(reason))
            },
            Failure::Listen { reason } => {
                self.abort_start();
                Reaction::Abort(ChatClientError::ListenError(reason))
            },
            Failure::Dial { peer, cause } => match cause {
                DialFailure::PeerConditionFalse => Reaction::Ignore,
                DialFailure::Other => Reaction::Log,
            },
            Failure::Disconnect { peer } => Reaction::Log,
            Failure::Publish { cause, reason } => match cause {
                PublishFailure::NoPeers => Reaction::Ignore,
                _ => Reaction::Log,
            },
        }
    }

    /// Gives up an attempt to start.
    fn abort_start(&mut self)
        ensures
            final(self)@ == aborted(old(self)@),
    {
        match self.state {
            ActorState::Listening => {
                self.state = ActorState::Constructed;
            },
            _ => {},
        }
    }

    /// Takes the oldest arrived message off the queue, with the name of the
    /// peer it came from.
    pub fn take_received(&mut self) -> (message: Option<Message>)
        ensures
            match message {
                Some(oldest) => {
                    &&& old(self)@.received.len() > 0
                    &&& oldest@ == old(self)@.received[0]
                    &&& final(self)@ == (ClientView {
                        received: old(self)@.received.skip(1),
                        ..old(self)@
                    })
                },
                None => old(self)@.received.len() == 0 && final(self)@ == old(self)@,
            },
    {
        self.received.pop()
    }

    /// Pops the oldest arrived message into the caller's buffer.
    ///
    /// Returns the number of bytes copied: zero if no message waits or the
    /// oldest is empty. Returns [`BUFFER_TOO_SMALL`] if the message does not
    /// fit the buffer, or is longer than a status can say; the message is
    /// lost then, and the buffer is left as it was.
    pub fn receive(&mut self, buffer: &mut [u8]) -> (status: i32)
        ensures
            final(self)@ == (ClientView {
                received: receive_spec(old(self)@.received, old(buffer)@).0,
                ..old(self)@
            }),
            final(buffer)@ == receive_spec(old(self)@.received, old(buffer)@).1,
            status == receive_spec(old(self)@.received, old(buffer)@).2,
    {
        match self.received.pop() {
            None => 0,
            Some(message) => {
                let length: usize = message.payload.len();
                if length == 0 {
                    0
                } else if buffer.len() < length || length > i32::MAX as usize {
                    BUFFER_TOO_SMALL
                } else {
                    copy_to_front(buffer, message.payload.as_slice());
                    length as i32
                }
            },
        }
    }
}

/// Copies `source` over the front of `buffer` and leaves the rest of the
/// buffer as it is.
fn copy_to_front(buffer: &mut [u8], source: &[u8])
    requires
        source@.len() <= old(buffer)@.len(),
    ensures
        final(buffer)@ == source@ + old(buffer)@.skip(source@.len() as int),
{
    let count: usize = source.len();
    let mut i: usize = 0;
    while i < count
        invariant
            count == source@.len(),
            i <= count,
            buffer@.len() == old(buffer)@.len(),
            count <= buffer@.len(),
            forall|k: int| 0 <= k < i ==> buffer@[k] == source@[k],
            forall|k: int| i <= k < buffer@.len() ==> buffer@[k] == old(buffer)@[k],
        decreases count - i,
    {
        buffer[i] = source[i];
        i = i + 1;
    }
    assert(buffer@ =~= source@ + old(buffer)@.skip(source@.len() as int));
}

} // verus!
