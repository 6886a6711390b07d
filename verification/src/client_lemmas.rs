//! What holds of the chat actor in every state and for every event.

use crate::behaviour::{ChatBehaviourEvent, GossipsubEvent, IdentifyEvent};
use crate::client::{
    constructed, failure_spec, identify_actions, next_stamp, publish_spec, receive_spec, run_spec,
    start_spec, stop_spec, submit_spec, ActorState, ClientView, ReactionView, BUFFER_TOO_SMALL,
};
use crate::dedup::{
    identity, lemma_timestamp_keeps_publications_apart, lemma_unframe_inverts_frame, unframed,
    DedupPolicy,
};
use crate::peer::PeerIdentifier;
use crate::queue::MessageView;
use crate::transport::{ActionView, DialFailure, Event, Failure, PublishFailure, SwarmEvent};
use vstd::prelude::*;

verus! {

/// The place of a state in the actor's life.
pub open spec fn stage(state: ActorState) -> nat {
    match state {
        ActorState::Constructed => 0,
        ActorState::Listening => 1,
        ActorState::Draining => 2,
        ActorState::Stopped => 3,
    }
}

/// What holds of every actor: once it has stopped, its outbound channel is empty.
pub open spec fn channel_closed_when_stopped(client: ClientView) -> bool {
    client.state == ActorState::Stopped ==> client.outbound.len() == 0
}

/// A new actor keeps the rule of the closed channel, and so does every actor
/// after a start, a turn of the loop, a stop, a submission, a cancellation or
/// a failure.
pub proof fn lemma_channel_stays_closed(
    pre: ClientView,
    policy: DedupPolicy,
    port: u16,
    event: Event,
    now: u128,
    payload: Seq<u8>,
    failure: Failure,
)
    requires
        channel_closed_when_stopped(pre),
    ensures
        channel_closed_when_stopped(constructed(policy)),
        channel_closed_when_stopped(start_spec(pre, port).0),
        channel_closed_when_stopped(run_spec(pre, event, now).0),
        channel_closed_when_stopped(stop_spec(pre).0),
        channel_closed_when_stopped(submit_spec(pre, payload).0),
        channel_closed_when_stopped(ClientView { cancelled: true, ..pre }),
        channel_closed_when_stopped(failure_spec(pre, failure).0),
{
}

/// The actor's life runs one way: a start, a turn of the loop and a stop
/// never take it back to an earlier state, and each takes it one state
/// further at most.
pub proof fn lemma_life_runs_one_way(pre: ClientView, port: u16, event: Event, now: u128)
    ensures
        stage(pre.state) <= stage(start_spec(pre, port).0.state) <= stage(pre.state) + 1,
        stage(pre.state) <= stage(run_spec(pre, event, now).0.state) <= stage(pre.state) + 1,
        stage(pre.state) <= stage(stop_spec(pre).0.state) <= stage(pre.state) + 1,
{
}

/// A stopped actor is stopped for good: it does not start again, its loop
/// does nothing, stopping it again does nothing, and its channel takes no
/// payload.
pub proof fn lemma_stopped_is_terminal(
    pre: ClientView,
    port: u16,
    event: Event,
    now: u128,
    payload: Seq<u8>,
)
    requires
        pre.state == ActorState::Stopped,
    ensures
        start_spec(pre, port) == (pre, Seq::<ActionView>::empty()),
        run_spec(pre, event, now) == (pre, Seq::<ActionView>::empty()),
        stop_spec(pre) == (pre, Seq::<ActionView>::empty()),
        submit_spec(pre, payload) == (pre, false),
{
}

/// Only cancellation ends the loop: a listening actor listens on after a
/// turn, unless cancellation had been signalled or the turn's event was the
/// signal. Then the actor drains, and the turn asks nothing of the transport.
pub proof fn lemma_only_cancellation_ends_the_loop(pre: ClientView, event: Event, now: u128)
    requires
        pre.state == ActorState::Listening,
    ensures
        run_spec(pre, event, now).0.state == (if pre.cancelled || event is Cancelled {
            ActorState::Draining
        } else {
            ActorState::Listening
        }),
        pre.cancelled || event is Cancelled ==> run_spec(pre, event, now).1.len() == 0,
{
}

/// A failure of the transport never ends the loop once it runs: after a
/// failed dial, disconnect or publication the actor is as it was.
pub proof fn lemma_steady_failures_change_nothing(pre: ClientView, failure: Failure)
    requires
        failure is Dial || failure is Disconnect || failure is Publish,
    ensures
        failure_spec(pre, failure).0 == pre,
        !(failure_spec(pre, failure).1 is Abort),
{
}

/// That no peer is there to get a publication is no error: the actor takes
/// this failure without a word and stays as it is.
pub proof fn lemma_absent_peers_are_no_error(pre: ClientView, reason: String)
    ensures
        failure_spec(pre, Failure::Publish { cause: PublishFailure::NoPeers, reason }) == (
            pre,
            ReactionView::Ignore,
        ),
{
}

/// A dial that the transport refused because the peer is connected, or being
/// dialled, already is taken without a word.
pub proof fn lemma_pending_dial_is_expected(pre: ClientView, peer: PeerIdentifier)
    ensures
        failure_spec(pre, Failure::Dial { peer, cause: DialFailure::PeerConditionFalse }) == (
            pre,
            ReactionView::Ignore,
        ),
{
}

/// The step that processes a handshake turns away every peer that announced
/// another version than the node's own: it asks for that peer's disconnection
/// and for nothing else, so the peer is not marked explicit.
pub proof fn lemma_handshake_step_rejects_mismatch(
    own_version: Seq<char>,
    peer_id: PeerIdentifier,
    protocol_version: String,
)
    requires
        protocol_version@ != own_version,
    ensures
        identify_actions(own_version, IdentifyEvent::Received { peer_id, protocol_version })
            == seq![ActionView::Disconnect { peer: peer_id@ }],
{
}

/// The step that processes a handshake admits every peer that announced the
/// node's own version: it asks for that peer to be marked explicit.
pub proof fn lemma_handshake_step_admits_match(
    own_version: Seq<char>,
    peer_id: PeerIdentifier,
    protocol_version: String,
)
    requires
        protocol_version@ == own_version,
    ensures
        identify_actions(own_version, IdentifyEvent::Received { peer_id, protocol_version })
            == seq![ActionView::AddExplicitPeer { peer: peer_id@ }],
{
}

/// The turn that processes the handshake of a peer with another version than
/// the node's own disconnects that peer and does nothing else.
pub proof fn lemma_mismatched_peer_is_disconnected(
    pre: ClientView,
    peer_id: PeerIdentifier,
    protocol_version: String,
    now: u128,
)
    requires
        pre.state == ActorState::Listening,
        !pre.cancelled,
        protocol_version@ != pre.own_version,
    ensures
        run_spec(
            pre,
            Event::Swarm(
                SwarmEvent::Behaviour(
                    ChatBehaviourEvent::Identify(
                        IdentifyEvent::Received { peer_id, protocol_version },
                    ),
                ),
            ),
            now,
        ) == (pre, seq![ActionView::Disconnect { peer: peer_id@ }]),
{
}

/// No turn of the loop marks a peer explicit unless the turn's event is that
/// peer's handshake and the version announced in it is the node's own.
pub proof fn lemma_explicit_only_by_matching_handshake(
    pre: ClientView,
    event: Event,
    now: u128,
    i: int,
)
    requires
        0 <= i < run_spec(pre, event, now).1.len(),
        run_spec(pre, event, now).1[i] is AddExplicitPeer,
    ensures
        event matches Event::Swarm(
            SwarmEvent::Behaviour(
                ChatBehaviourEvent::Identify(IdentifyEvent::Received { peer_id, protocol_version }),
            ),
        ) && protocol_version@ == pre.own_version && run_spec(pre, event, now).1[i] == (
            ActionView::AddExplicitPeer { peer: peer_id@ }
        ),
{
}

/// Neither a start nor a stop marks any peer explicit.
pub proof fn lemma_start_and_stop_admit_nobody(pre: ClientView, port: u16, i: int)
    ensures
        0 <= i < start_spec(pre, port).1.len() ==> !(start_spec(pre, port).1[i]
            is AddExplicitPeer),
        0 <= i < stop_spec(pre).1.len() ==> !(stop_spec(pre).1[i] is AddExplicitPeer),
{
}

/// Arrived messages keep their order: a turn of the loop leaves the queue as
/// it is or puts one message at its back.
pub proof fn lemma_arrivals_join_at_the_back(pre: ClientView, event: Event, now: u128)
    ensures
        ({
            let post = run_spec(pre, event, now).0;
            ||| post.received == pre.received
            ||| (post.received.len() == pre.received.len() + 1 && post.received.drop_last()
                == pre.received)
        }),
{
    let post = run_spec(pre, event, now).0;
    if post.received != pre.received {
        assert(post.received.drop_last() =~= pre.received);
    }
}

/// One turn of the loop as the loop's history records it: the event that was
/// ready and what the clock said.
pub struct Turn {
    /// The event that was ready.
    pub event: Event,
    /// What the clock said.
    pub now: u128,
}

/// The actor after a run of turns, one after the other.
pub open spec fn after_turns(pre: ClientView, turns: Seq<Turn>) -> ClientView
    decreases turns.len(),
{
    if turns.len() == 0 {
        pre
    } else {
        after_turns(run_spec(pre, turns[0].event, turns[0].now).0, turns.drop_first())
    }
}

/// The message that an event brings, if it brings one: the event is the
/// arrival of wire data that holds a payload.
pub open spec fn arrival(policy: DedupPolicy, event: Event) -> Option<MessageView> {
    match event {
        Event::Swarm(
            SwarmEvent::Behaviour(
                ChatBehaviourEvent::Gossipsub(GossipsubEvent::Message { propagation_source, data }),
            ),
        ) => match unframed(policy, data@) {
            Some(payload) => Some(MessageView { sender: propagation_source@, payload }),
            None => None,
        },
        _ => None,
    }
}

/// The messages that a run of turns brings, in the order of the turns.
pub open spec fn arrivals(policy: DedupPolicy, turns: Seq<Turn>) -> Seq<MessageView>
    decreases turns.len(),
{
    if turns.len() == 0 {
        Seq::empty()
    } else {
        match arrival(policy, turns[0].event) {
            Some(message) => seq![message] + arrivals(policy, turns.drop_first()),
            None => arrivals(policy, turns.drop_first()),
        }
    }
}

/// The queue holds the arrived messages in the exact order of their arrival:
/// after any run of turns without cancellation, a listening actor's queue is
/// what it was, followed by the messages that the turns brought, one by one
/// as they came. The actor listens on.
pub proof fn lemma_queue_is_the_history_of_arrivals(pre: ClientView, turns: Seq<Turn>)
    requires
        pre.state == ActorState::Listening,
        !pre.cancelled,
        forall|i: int| 0 <= i < turns.len() ==> !((#[trigger] turns[i]).event is Cancelled),
    ensures
        after_turns(pre, turns).received == pre.received + arrivals(pre.policy, turns),
        after_turns(pre, turns).state == ActorState::Listening,
        after_turns(pre, turns).policy == pre.policy,
    decreases turns.len(),
{
    if turns.len() == 0 {
        assert(pre.received + arrivals(pre.policy, turns) =~= pre.received);
    } else {
        let first = turns[0];
        let next = run_spec(pre, first.event, first.now).0;
        let rest = turns.drop_first();
        assert(!(first.event is Cancelled));
        assert forall|i: int| 0 <= i < rest.len() implies !((#[trigger] rest[i]).event
            is Cancelled) by {
            assert(rest[i] == turns[i + 1]);
        }
        assert(next.state == ActorState::Listening && !next.cancelled && next.policy
            == pre.policy);
        lemma_queue_is_the_history_of_arrivals(next, rest);
        match arrival(pre.policy, first.event) {
            Some(message) => {
                assert(next.received == pre.received.push(message));
                assert(pre.received.push(message) + arrivals(pre.policy, rest) =~= pre.received
                    + (seq![message] + arrivals(pre.policy, rest)));
            },
            None => {
                assert(next.received == pre.received);
            },
        }
    }
}

/// Every stamp is later than the one before it.
pub proof fn lemma_stamps_increase(last: u128, now: u128)
    ensures
        next_stamp(last, now) matches Some(stamp) ==> stamp > last && stamp >= now,
        next_stamp(last, now) is None <==> last == u128::MAX && now <= last,
{
}

/// Under the timestamp policy two publications of one actor, one after the
/// other, have different identifiers, whatever their payloads and whatever
/// the clock said: the mesh takes them for two messages.
pub proof fn lemma_stamped_publications_differ(
    pre: ClientView,
    first: Seq<u8>,
    first_now: u128,
    second: Seq<u8>,
    second_now: u128,
)
    requires
        pre.policy == DedupPolicy::Timestamp,
        publish_spec(pre, first, first_now).1 is Some,
        publish_spec(publish_spec(pre, first, first_now).0, second, second_now).1 is Some,
    ensures
        ({
            let (between, earlier) = publish_spec(pre, first, first_now);
            let (after, later) = publish_spec(between, second, second_now);
            identity(DedupPolicy::Timestamp, earlier->0->data) != identity(
                DedupPolicy::Timestamp,
                later->0->data,
            )
        }),
{
    let (between, earlier) = publish_spec(pre, first, first_now);
    lemma_stamps_increase(pre.last_stamp, first_now);
    lemma_stamps_increase(between.last_stamp, second_now);
    lemma_timestamp_keeps_publications_apart(
        between.last_stamp,
        first,
        publish_spec(between, second, second_now).0.last_stamp,
        second,
    );
}

/// Under the content-hash policy two publications of the same bytes are the
/// same on the wire and have the same identifier, whenever they are made:
/// the mesh takes the second for the first.
pub proof fn lemma_hashed_publications_coincide(
    pre: ClientView,
    payload: Seq<u8>,
    first_now: u128,
    second_now: u128,
)
    requires
        pre.policy == DedupPolicy::ContentHash,
    ensures
        ({
            let (between, earlier) = publish_spec(pre, payload, first_now);
            let (after, later) = publish_spec(between, payload, second_now);
            &&& earlier is Some
            &&& later == earlier
            &&& earlier->0->data == payload
        }),
{
}

/// What one node publishes, another gets: a payload framed by a sender
/// arrives, once the mesh has carried it to a listening node with the same
/// policy, at the back of that node's queue, byte for byte and under the
/// name of the peer it came from.
pub proof fn lemma_published_payload_arrives_intact(
    sender: ClientView,
    payload: Seq<u8>,
    sent_at: u128,
    receiver: ClientView,
    propagation_source: PeerIdentifier,
    data: Vec<u8>,
    received_at: u128,
)
    requires
        sender.policy == receiver.policy,
        publish_spec(sender, payload, sent_at).1 == Some(ActionView::Publish { data: data@ }),
        receiver.state == ActorState::Listening,
        !receiver.cancelled,
    ensures
        run_spec(
            receiver,
            Event::Swarm(
                SwarmEvent::Behaviour(
                    ChatBehaviourEvent::Gossipsub(
                        GossipsubEvent::Message { propagation_source, data },
                    ),
                ),
            ),
            received_at,
        ) == (
            ClientView {
                received: receiver.received.push(
                    MessageView { sender: propagation_source@, payload },
                ),
                ..receiver
            },
            Seq::<ActionView>::empty(),
        ),
{
    match sender.policy {
        DedupPolicy::ContentHash => {
            lemma_unframe_inverts_frame(DedupPolicy::ContentHash, 0, payload);
        },
        DedupPolicy::Timestamp => {
            let stamp = next_stamp(sender.last_stamp, sent_at)->0;
            lemma_unframe_inverts_frame(DedupPolicy::Timestamp, stamp, payload);
        },
    }
}

/// The loop publishes what was submitted: a listening actor with one payload
/// in its channel, and that not empty, publishes it in the turn that finds
/// the channel ready, unless no clock value is left.
pub proof fn lemma_submitted_payload_is_published(pre: ClientView, now: u128)
    requires
        pre.state == ActorState::Listening,
        !pre.cancelled,
        pre.outbound.len() > 0,
        pre.outbound[0].len() > 0,
        pre.policy == DedupPolicy::Timestamp ==> pre.last_stamp < u128::MAX,
    ensures
        ({
            let (post, actions) = run_spec(pre, Event::Outbound, now);
            &&& actions.len() == 1
            &&& actions[0] is Publish
            &&& unframed(pre.policy, actions[0]->data) == Some(pre.outbound[0])
            &&& post.outbound == pre.outbound.skip(1)
        }),
{
    let payload = pre.outbound[0];
    match pre.policy {
        DedupPolicy::ContentHash => {
            lemma_unframe_inverts_frame(DedupPolicy::ContentHash, 0, payload);
        },
        DedupPolicy::Timestamp => {
            let stamp = next_stamp(pre.last_stamp, now)->0;
            lemma_unframe_inverts_frame(DedupPolicy::Timestamp, stamp, payload);
        },
    }
}

/// The channel keeps the order of sending: what is submitted later waits
/// behind what was submitted earlier, and the loop takes what waited longest.
pub proof fn lemma_channel_keeps_send_order(
    pre: ClientView,
    first: Seq<u8>,
    second: Seq<u8>,
    now: u128,
)
    requires
        pre.state == ActorState::Listening,
        !pre.cancelled,
    ensures
        submit_spec(submit_spec(pre, first).0, second).0.outbound == pre.outbound.push(
            first,
        ).push(second),
        pre.outbound.len() > 0 ==> run_spec(pre, Event::Outbound, now).0.outbound
            == pre.outbound.skip(1),
{
}

/// The loop drops an empty payload without a word.
pub proof fn lemma_empty_payload_is_dropped(pre: ClientView, now: u128)
    requires
        pre.state == ActorState::Listening,
        !pre.cancelled,
        pre.outbound.len() > 0,
        pre.outbound[0].len() == 0,
    ensures
        run_spec(pre, Event::Outbound, now) == (
            ClientView { outbound: pre.outbound.skip(1), ..pre },
            Seq::<ActionView>::empty(),
        ),
{
}

/// A receive on an empty queue returns zero and writes nothing.
pub proof fn lemma_receive_on_empty_queue(buffer: Seq<u8>)
    ensures
        receive_spec(Seq::<MessageView>::empty(), buffer) == (
            Seq::<MessageView>::empty(),
            buffer,
            0int,
        ),
{
}

/// A receive into a buffer of exactly the oldest message's size returns that
/// size, and the buffer then holds the message's bytes and nothing else.
pub proof fn lemma_receive_into_exact_buffer(received: Seq<MessageView>, buffer: Seq<u8>)
    requires
        received.len() > 0,
        0 < received[0].payload.len() <= i32::MAX,
        buffer.len() == received[0].payload.len(),
    ensures
        receive_spec(received, buffer) == (
            received.skip(1),
            received[0].payload,
            received[0].payload.len() as int,
        ),
{
    let payload = received[0].payload;
    assert(payload + buffer.skip(payload.len() as int) =~= payload);
}

/// A receive into a buffer that is too small, be it by one byte, returns
/// a negative status, writes nothing, and takes the message off the queue all
/// the same.
pub proof fn lemma_receive_into_small_buffer(received: Seq<MessageView>, buffer: Seq<u8>)
    requires
        received.len() > 0,
        buffer.len() < received[0].payload.len(),
    ensures
        receive_spec(received, buffer) == (received.skip(1), buffer, BUFFER_TOO_SMALL as int),
        receive_spec(received, buffer).2 < 0,
{
}

/// A receive takes at most the oldest message and leaves the others in their order.
pub proof fn lemma_receive_takes_the_oldest(received: Seq<MessageView>, buffer: Seq<u8>)
    ensures
        receive_spec(received, buffer).0 == (if received.len() == 0 {
            received
        } else {
            received.skip(1)
        }),
        receive_spec(received, buffer).1.len() == buffer.len(),
{
}

} // verus!
