//! What holds of the bridge's table whatever the host does with its handles.

use crate::client::{receive_spec, ActorState, ClientView};
use crate::external::{
    bridge_free_spec, bridge_publish_spec, bridge_receive_spec, bridge_start_spec,
    bridge_stop_spec, can_free, can_start, names_run, new_spec, BridgeView, RunState, SlotView,
    NULL_HANDLE, STATUS_OK, STATUS_REJECTED, STATUS_UNKNOWN_HANDLE,
};
use crate::transport::ActionView;
use vstd::prelude::*;

verus! {

/// One call of the host into the bridge.
pub enum Call {
    /// Create a client.
    New,
    /// Start the loop of a client on a port.
    Start { handle: usize, port: u16 },
    /// Hand a payload to a client.
    Publish { handle: usize, data: Seq<u8> },
    /// Pop a message of a client into a buffer.
    Receive { handle: usize, buffer: Seq<u8> },
    /// Stop a client.
    Stop { handle: usize, run_handle: usize },
    /// Free a client.
    Free { handle: usize },
}

/// The table after a call.
pub open spec fn after(pre: BridgeView, call: Call) -> BridgeView {
    match call {
        Call::New => new_spec(pre).0,
        Call::Start { handle, port } => bridge_start_spec(pre, handle, port).0,
        Call::Publish { handle, data } => bridge_publish_spec(pre, handle, data).0,
        Call::Receive { handle, buffer } => bridge_receive_spec(pre, handle, buffer).0,
        Call::Stop { handle, run_handle } => bridge_stop_spec(pre, handle, run_handle).0,
        Call::Free { handle } => bridge_free_spec(pre, handle).0,
    }
}

/// The handle that a call is made on, if it is made on one.
pub open spec fn subject(call: Call) -> Option<usize> {
    match call {
        Call::New => None,
        Call::Start { handle, port } => Some(handle),
        Call::Publish { handle, data } => Some(handle),
        Call::Receive { handle, buffer } => Some(handle),
        Call::Stop { handle, run_handle } => Some(handle),
        Call::Free { handle } => Some(handle),
    }
}

/// What holds of every table: the run handle of each running loop is one
/// that was given out, and no two loops run under the same.
pub open spec fn run_handles_in_order(bridge: BridgeView) -> bool {
    &&& forall|i: int|
        0 <= i < bridge.slots.len() && (#[trigger] bridge.slots[i]) is Live
            && bridge.slots[i]->run is Running ==> 1 <= bridge.slots[i]->run->0
            <= bridge.runs_issued
    &&& forall|i: int, j: int|
        0 <= i < j < bridge.slots.len() && (#[trigger] bridge.slots[i]) is Live
            && bridge.slots[i]->run is Running && (#[trigger] bridge.slots[j]) is Live
            && bridge.slots[j]->run is Running ==> bridge.slots[i]->run->0
            != bridge.slots[j]->run->0
}

/// Every call keeps the run handles in order.
pub proof fn lemma_run_handles_stay_in_order(pre: BridgeView, call: Call)
    requires
        run_handles_in_order(pre),
    ensures
        run_handles_in_order(after(pre, call)),
{
    let post = after(pre, call);
    match call {
        Call::Start { handle, port } => {
            if can_start(pre, handle) {
                assert forall|i: int|
                    0 <= i < post.slots.len() && (#[trigger] post.slots[i]) is Live
                        && post.slots[i]->run is Running implies 1 <= post.slots[i]->run->0
                    <= post.runs_issued by {
                    if i != handle - 1 {
                        assert(post.slots[i] == pre.slots[i]);
                    }
                }
                assert forall|i: int, j: int|
                    0 <= i < j < post.slots.len() && (#[trigger] post.slots[i]) is Live
                        && post.slots[i]->run is Running && (#[trigger] post.slots[j]) is Live
                        && post.slots[j]->run is Running implies post.slots[i]->run->0
                    != post.slots[j]->run->0 by {
                    if i != handle - 1 {
                        assert(post.slots[i] == pre.slots[i]);
                    }
                    if j != handle - 1 {
                        assert(post.slots[j] == pre.slots[j]);
                    }
                }
            }
        },
        _ => {
            assert forall|i: int|
                0 <= i < post.slots.len() && (#[trigger] post.slots[i]) is Live
                    && post.slots[i]->run is Running implies 0 <= i < pre.slots.len()
                && pre.slots[i] is Live && pre.slots[i]->run == post.slots[i]->run by {}
        },
    }
}

/// An empty table has its run handles in order.
pub proof fn lemma_empty_table_is_in_order(bridge: BridgeView)
    requires
        bridge.slots.len() == 0,
    ensures
        run_handles_in_order(bridge),
{
}

/// A handle is owned by one host call at a time and names one client: a
/// call on one handle leaves the client and the run state under every other
/// handle as they were.
pub proof fn lemma_call_touches_one_entry(pre: BridgeView, call: Call, other: usize)
    requires
        pre.live(other),
        subject(call) != Some(other),
    ensures
        after(pre, call).live(other),
        after(pre, call).client(other) == pre.client(other),
        after(pre, call).run(other) == pre.run(other),
{
}

/// A handle that was freed names nothing ever after: no call brings it back,
/// and no new client gets it.
pub proof fn lemma_freed_handle_stays_dead(pre: BridgeView, call: Call, handle: usize)
    requires
        1 <= handle <= pre.slots.len(),
        !pre.live(handle),
    ensures
        !after(pre, call).live(handle),
        new_spec(pre).1 != handle,
{
}

/// A new client gets a handle that is not null and that no client had before.
pub proof fn lemma_new_handle_is_fresh(pre: BridgeView)
    requires
        pre.slots.len() < usize::MAX,
    ensures
        new_spec(pre).1 != NULL_HANDLE,
        new_spec(pre).1 > pre.slots.len(),
        new_spec(pre).0.live(new_spec(pre).1),
        new_spec(pre).0.run(new_spec(pre).1) == RunState::Idle,
        new_spec(pre).0.client(new_spec(pre).1).state == ActorState::Constructed,
{
}

/// A call with a handle that names no client changes nothing, and says so.
pub proof fn lemma_unknown_handle_changes_nothing(
    pre: BridgeView,
    handle: usize,
    port: u16,
    data: Seq<u8>,
    buffer: Seq<u8>,
    run_handle: usize,
)
    requires
        !pre.live(handle),
    ensures
        bridge_start_spec(pre, handle, port) == (pre, NULL_HANDLE, Seq::<ActionView>::empty()),
        bridge_publish_spec(pre, handle, data) == (pre, STATUS_UNKNOWN_HANDLE),
        bridge_receive_spec(pre, handle, buffer) == (pre, buffer, STATUS_UNKNOWN_HANDLE as int),
        bridge_stop_spec(pre, handle, run_handle) == (pre, STATUS_UNKNOWN_HANDLE),
        bridge_free_spec(pre, handle) == (pre, false),
{
}

/// A publication succeeds whether or not any peer is there: all it takes is
/// a client whose channel is open. The payload then waits at the back of the
/// client's outbound channel.
pub proof fn lemma_publish_needs_no_peers(pre: BridgeView, handle: usize, data: Seq<u8>)
    requires
        pre.live(handle),
        pre.client(handle).state != ActorState::Stopped,
    ensures
        bridge_publish_spec(pre, handle, data).1 == STATUS_OK,
        bridge_publish_spec(pre, handle, data).0.client(handle) == (ClientView {
            outbound: pre.client(handle).outbound.push(data),
            ..pre.client(handle)
        }),
{
}

/// A publication to a client that has stopped is turned down.
pub proof fn lemma_publish_after_stop_is_rejected(pre: BridgeView, handle: usize, data: Seq<u8>)
    requires
        pre.live(handle),
        pre.client(handle).state == ActorState::Stopped,
    ensures
        bridge_publish_spec(pre, handle, data) == (pre, STATUS_REJECTED),
{
}

/// A receive through the bridge is the client's receive: it touches the
/// client's queue of arrived messages and nothing else of the client.
pub proof fn lemma_receive_pops_the_clients_queue(pre: BridgeView, handle: usize, buffer: Seq<u8>)
    requires
        pre.live(handle),
    ensures
        ({
            let (post, filled, status) = bridge_receive_spec(pre, handle, buffer);
            let (received, expected, code) = receive_spec(pre.client(handle).received, buffer);
            &&& post.live(handle)
            &&& post.client(handle) == (ClientView { received, ..pre.client(handle) })
            &&& post.run(handle) == pre.run(handle)
            &&& filled == expected
            &&& status == code
        }),
{
}

/// Stopping a client that was never started signals cancellation to it and
/// joins nothing: no loop ran, and none is marked as joined.
pub proof fn lemma_stop_before_start_joins_nothing(pre: BridgeView, handle: usize)
    requires
        pre.live(handle),
        pre.run(handle) == RunState::Idle,
    ensures
        bridge_stop_spec(pre, handle, NULL_HANDLE) == (
            pre.with(
                handle,
                ClientView { cancelled: true, ..pre.client(handle) },
                RunState::Idle,
            ),
            STATUS_OK,
        ),
{
}

/// A loop is joined once: the stop that names the running loop joins it, and
/// a second stop with the same run handle is turned down and changes nothing.
pub proof fn lemma_run_is_joined_once(pre: BridgeView, handle: usize, run_handle: usize)
    requires
        pre.live(handle),
        pre.run(handle) == RunState::Running(run_handle),
        run_handle != NULL_HANDLE,
    ensures
        ({
            let (joined, status) = bridge_stop_spec(pre, handle, run_handle);
            &&& status == STATUS_OK
            &&& joined.run(handle) == RunState::Joined
            &&& joined.client(handle).cancelled
            &&& bridge_stop_spec(joined, handle, run_handle) == (joined, STATUS_REJECTED)
        }),
{
    let (joined, status) = bridge_stop_spec(pre, handle, run_handle);
    assert(joined.slots[handle - 1] == SlotView::Live {
        client: ClientView { cancelled: true, ..pre.client(handle) },
        run: RunState::Joined,
    });
}

/// Signalling cancellation twice is signalling it once: a second stop of a
/// client whose loop does not run leaves the table as the first left it.
pub proof fn lemma_cancellation_is_idempotent(pre: BridgeView, handle: usize)
    requires
        pre.live(handle),
        !(pre.run(handle) is Running),
    ensures
        ({
            let (once, first) = bridge_stop_spec(pre, handle, NULL_HANDLE);
            let (twice, second) = bridge_stop_spec(once, handle, NULL_HANDLE);
            first == STATUS_OK && second == STATUS_OK && twice == once
        }),
{
    let (once, first) = bridge_stop_spec(pre, handle, NULL_HANDLE);
    let (twice, second) = bridge_stop_spec(once, handle, NULL_HANDLE);
    assert(once.slots[handle - 1] == SlotView::Live {
        client: ClientView { cancelled: true, ..pre.client(handle) },
        run: pre.run(handle),
    });
    assert(twice.slots =~= once.slots);
}

/// A client is not freed from under its loop: while the loop runs, a free
/// releases nothing.
pub proof fn lemma_running_client_is_not_freed(pre: BridgeView, handle: usize)
    requires
        pre.live(handle),
        pre.run(handle) is Running,
    ensures
        bridge_free_spec(pre, handle) == (pre, false),
{
}

/// After a stop, one free releases the client and a second releases nothing:
/// no client is released twice.
pub proof fn lemma_free_after_stop_releases_once(pre: BridgeView, handle: usize, run_handle: usize)
    requires
        pre.live(handle),
        names_run(pre.run(handle), run_handle),
    ensures
        ({
            let stopped = bridge_stop_spec(pre, handle, run_handle).0;
            let (freed, first) = bridge_free_spec(stopped, handle);
            let (again, second) = bridge_free_spec(freed, handle);
            &&& first
            &&& !freed.live(handle)
            &&& !second
            &&& again == freed
        }),
{
    let stopped = bridge_stop_spec(pre, handle, run_handle).0;
    assert(stopped.live(handle));
    assert(!(stopped.run(handle) is Running));
}

/// A start gives out a run handle that is not null and that no loop had
/// before, and the client then listens under it.
pub proof fn lemma_started_client_runs(pre: BridgeView, handle: usize, port: u16)
    requires
        can_start(pre, handle),
    ensures
        ({
            let (post, run_handle, actions) = bridge_start_spec(pre, handle, port);
            &&& run_handle != NULL_HANDLE
            &&& run_handle > pre.runs_issued
            &&& post.run(handle) == RunState::Running(run_handle)
            &&& post.client(handle).state == ActorState::Listening
            &&& actions.len() == 2
        }),
{
}

/// A client runs at most once at a time: while its loop runs, a second start
/// is turned down and changes nothing.
pub proof fn lemma_running_client_is_not_started(pre: BridgeView, handle: usize, port: u16)
    requires
        pre.live(handle),
        pre.run(handle) is Running,
    ensures
        bridge_start_spec(pre, handle, port) == (pre, NULL_HANDLE, Seq::<ActionView>::empty()),
{
}

} // verus!
