//! The bridge to a host written in another language.
//!
//! The host holds handles, not references: small integers that name a chat
//! client in the bridge's table. A handle that names nothing (one that was
//! never given out, or whose client was freed) is found out by looking it up,
//! and the call that carried it changes nothing. The null handle is given out
//! never.
//!
//! The bridge keeps the rules of the handles' lives: a client runs at most
//! once at a time, a run is joined once, and a client is not freed while it
//! runs.

use crate::client::{
    constructed, receive_spec, start_spec, submit_spec, ActorState, ChatClient, ClientView,
};
use crate::dedup::DedupPolicy;
use crate::transport::{views, Action, ActionView};
use vstd::prelude::*;
use vstd::slice::slice_to_vec;

verus! {

/// The handle that names nothing.
pub const NULL_HANDLE: usize = 0;

/// The status of a call that did what it was asked.
pub const STATUS_OK: i32 = 0;

/// The status of a call that was turned down.
pub const STATUS_REJECTED: i32 = -1;

/// The status of a call whose handle names no client.
pub const STATUS_UNKNOWN_HANDLE: i32 = -2;

/// Whether a client's loop runs.
#[derive(Clone, Copy, Debug, PartialEq, Eq, Structural)]
pub enum RunState {
    /// The client was never started.
    Idle,
    /// The loop runs, under this run handle.
    Running(usize),
    /// The loop was started and has been joined.
    Joined,
}

/// One entry of the table.
#[derive(Debug)]
enum Slot {
    /// The client that was here has been freed.
    Released,
    /// A client, and whether its loop runs.
    Live { client: ChatClient, run: RunState },
}

/// An entry of the table as contracts speak of it.
#[verifier::ext_equal]
pub enum SlotView {
    /// The client that was here has been freed.
    Released,
    /// A client, and whether its loop runs.
    Live { client: ClientView, run: RunState },
}

impl View for Slot {
    type V = SlotView;

    closed spec fn view(&self) -> SlotView {
        match *self {
            Slot::Released => SlotView::Released,
            Slot::Live { client, run } => SlotView::Live { client: client@, run },
        }
    }
}

/// The table as contracts speak of it.
#[verifier::ext_equal]
pub struct BridgeView {
    /// How the clients of this table tell publications apart.
    pub policy: DedupPolicy,
    /// The entries. The handle of an entry is its index plus one.
    pub slots: Seq<SlotView>,
    /// The number of run handles given out so far.
    pub runs_issued: nat,
}

impl BridgeView {
    /// Whether a handle names a client.
    pub open spec fn live(self, handle: usize) -> bool {
        1 <= handle <= self.slots.len() && self.slots[handle - 1] is Live
    }

    /// The client that a live handle names.
    pub open spec fn client(self, handle: usize) -> ClientView
        recommends
            self.live(handle),
    {
        self.slots[handle - 1]->client
    }

    /// Whether the loop of the client runs that a live handle names.
    pub open spec fn run(self, handle: usize) -> RunState
        recommends
            self.live(handle),
    {
        self.slots[handle - 1]->run
    }

    /// The table with another client, or another run state, under a handle.
    pub open spec fn with(self, handle: usize, client: ClientView, run: RunState) -> BridgeView {
        BridgeView { slots: self.slots.update(handle - 1, SlotView::Live { client, run }), ..self }
    }
}

/// What [`libp2p_chat_new`] does: a new client takes a new entry at the end of
/// the table, unless the table is full.
pub open spec fn new_spec(pre: BridgeView) -> (BridgeView, usize) {
    if pre.slots.len() >= usize::MAX {
        (pre, NULL_HANDLE)
    } else {
        (
            BridgeView {
                slots: pre.slots.push(
                    SlotView::Live { client: constructed(pre.policy), run: RunState::Idle },
                ),
                ..pre
            },
            (pre.slots.len() + 1) as usize,
        )
    }
}

/// Whether a client can be started: it is there, it was never started (or the
/// attempt was given up), its loop does not run, and a run handle is left.
pub open spec fn can_start(pre: BridgeView, handle: usize) -> bool {
    &&& pre.live(handle)
    &&& !(pre.run(handle) is Running)
    &&& pre.client(handle).state == ActorState::Constructed
    &&& pre.runs_issued < usize::MAX
}

/// What [`libp2p_chat_start`] does: the table afterwards, the run handle and
/// the actions that bring the client to listen.
pub open spec fn bridge_start_spec(pre: BridgeView, handle: usize, port: u16) -> (
    BridgeView,
    usize,
    Seq<ActionView>,
) {
    if can_start(pre, handle) {
        let run = (pre.runs_issued + 1) as usize;
        let (client, actions) = start_spec(pre.client(handle), port);
        (
            BridgeView {
                runs_issued: run as nat,
                ..pre.with(handle, client, RunState::Running(run))
            },
            run,
            actions,
        )
    } else {
        (pre, NULL_HANDLE, Seq::empty())
    }
}

/// What [`libp2p_chat_publish`] does: the payload joins the outbound channel
/// of the client, if the client is there and its channel is open.
pub open spec fn bridge_publish_spec(pre: BridgeView, handle: usize, data: Seq<u8>) -> (
    BridgeView,
    i32,
) {
    if !pre.live(handle) {
        (pre, STATUS_UNKNOWN_HANDLE)
    } else {
        let (client, accepted) = submit_spec(pre.client(handle), data);
        if accepted {
            (pre.with(handle, client, pre.run(handle)), STATUS_OK)
        } else {
            (pre, STATUS_REJECTED)
        }
    }
}

/// What [`libp2p_chat_receive`] does: the table afterwards, the buffer
/// afterwards and the status.
pub open spec fn bridge_receive_spec(pre: BridgeView, handle: usize, buffer: Seq<u8>) -> (
    BridgeView,
    Seq<u8>,
    int,
) {
    if !pre.live(handle) {
        (pre, buffer, STATUS_UNKNOWN_HANDLE as int)
    } else {
        let client = pre.client(handle);
        let (received, filled, status) = receive_spec(client.received, buffer);
        (
            pre.with(handle, ClientView { received, ..client }, pre.run(handle)),
            filled,
            status,
        )
    }
}

/// Whether a run handle is the one to stop a client with: the handle of its
/// running loop, or the null handle where no loop runs.
pub open spec fn names_run(run: RunState, run_handle: usize) -> bool {
    match run {
        RunState::Running(current) => run_handle == current,
        _ => run_handle == NULL_HANDLE,
    }
}

/// What [`libp2p_chat_stop`] does: cancellation is signalled to the client
/// and its running loop counts as joined.
pub open spec fn bridge_stop_spec(pre: BridgeView, handle: usize, run_handle: usize) -> (
    BridgeView,
    i32,
) {
    if !pre.live(handle) {
        (pre, STATUS_UNKNOWN_HANDLE)
    } else if !names_run(pre.run(handle), run_handle) {
        (pre, STATUS_REJECTED)
    } else {
        (
            pre.with(
                handle,
                ClientView { cancelled: true, ..pre.client(handle) },
                if pre.run(handle) is Running {
                    RunState::Joined
                } else {
                    pre.run(handle)
                },
            ),
            STATUS_OK,
        )
    }
}

/// Whether a handle can be freed: it names a client whose loop does not run.
pub open spec fn can_free(pre: BridgeView, handle: usize) -> bool {
    pre.live(handle) && !(pre.run(handle) is Running)
}

/// What [`libp2p_chat_free`] does: the entry is released for good.
pub open spec fn bridge_free_spec(pre: BridgeView, handle: usize) -> (BridgeView, bool) {
    if can_free(pre, handle) {
        (BridgeView { slots: pre.slots.update(handle - 1, SlotView::Released), ..pre }, true)
    } else {
        (pre, false)
    }
}

/// The table of the chat clients that a host holds handles to.
#[derive(Debug)]
pub struct ForeignHandleBridge {
    policy: DedupPolicy,
    slots: Vec<Slot>,
    runs_issued: usize,
}

impl View for ForeignHandleBridge {
    type V = BridgeView;

    closed spec fn view(&self) -> BridgeView {
        BridgeView {
            policy: self.policy,
            slots: self.slots@.map_values(|slot: Slot| slot@),
            runs_issued: self.runs_issued as nat,
        }
    }
}

impl ForeignHandleBridge {
    /// An empty table whose clients will tell publications apart by `policy`.
    pub fn new(policy: DedupPolicy) -> (bridge: ForeignHandleBridge)
        ensures
            bridge@ == (BridgeView { policy, slots: Seq::empty(), runs_issued: 0 }),
    {
        let bridge = ForeignHandleBridge { policy, slots: Vec::new(), runs_issued: 0 };
        assert(bridge@.slots =~= Seq::<SlotView>::empty());
        bridge
    }

    /// Whether a handle names a client.
    pub fn is_live(&self, handle: usize) -> (live: bool)
        ensures
            live == self@.live(handle),
    {
        if handle == 0 || handle > self.slots.len() {
            false
        } else {
            match &self.slots[handle - 1] {
                Slot::Released => false,
                Slot::Live { .. } => true,
            }
        }
    }

    /// Whether the loop of the client runs that a handle names. Of a handle
    /// that names no client there is nothing to say.
    pub fn run_state(&self, handle: usize) -> (run: Option<RunState>)
        ensures
            run == if self@.live(handle) {
                Some(self@.run(handle))
            } else {
                None
            },
    {
        if handle == 0 || handle > self.slots.len() {
            None
        } else {
            match &self.slots[handle - 1] {
                Slot::Released => None,
                Slot::Live { run, .. } => Some(*run),
            }
        }
    }

    /// The client that a handle names, as it is.
    pub fn client(&self, handle: usize) -> (client: Option<&ChatClient>)
        ensures
            match client {
                Some(found) => self@.live(handle) && found@ == self@.client(handle),
                None => !self@.live(handle),
            },
    {
        if handle == 0 || handle > self.slots.len() {
            None
        } else {
            match &self.slots[handle - 1] {
                Slot::Released => None,
                Slot::Live { client, .. } => Some(client),
            }
        }
    }

    /// The client that a handle names, for the loop to drive it. Whatever the
    /// loop makes of the client is in the table afterwards.
    pub fn client_mut(&mut self, handle: usize) -> (client: Option<&mut ChatClient>)
        ensures
            match client {
                Some(found) => {
                    &&& old(self)@.live(handle)
                    &&& found@ == old(self)@.client(handle)
                    &&& final(self)@ =~= old(self)@.with(
                        handle,
                        final(found)@,
                        old(self)@.run(handle),
                    )
                },
                None => !old(self)@.live(handle) && final(self)@ =~= old(self)@,
            },
    {
        if handle == 0 || handle > self.slots.len() {
            None
        } else {
            match &mut self.slots[handle - 1] {
                Slot::Released => None,
                Slot::Live { client, .. } => Some(client),
            }
        }
    }
}

/// Creates a chat client and returns the handle that names it from now on.
///
/// The table owns the client. The handle is the host's: it stays good until
/// the host passes it to [`libp2p_chat_free`], and no other call ends it.
///
/// Returns the null handle, and changes nothing, if the table can hold no
/// further entry.
pub fn libp2p_chat_new(bridge: &mut ForeignHandleBridge) -> (handle: usize)
    ensures
        (final(bridge)@, handle) == new_spec(old(bridge)@),
{
    if bridge.slots.len() == usize::MAX {
        return NULL_HANDLE;
    }
    let client = ChatClient::new(bridge.policy);
    bridge.slots.push(Slot::Live { client, run: RunState::Idle });
    assert(bridge@.slots =~= new_spec(old(bridge)@).0.slots);
    bridge.slots.len()
}

/// Starts the loop of a client on `port` and returns the run handle to stop
/// it with, together with the actions that bring the client to listen.
///
/// The run handle is the host's until it passes it to [`libp2p_chat_stop`],
/// which ends it. The client's handle stays good. The null handle names no
/// client, and is not to be passed.
///
/// Returns the null handle and no action, and changes nothing, unless the
/// client can be started (see [`can_start`]).
pub fn libp2p_chat_start(bridge: &mut ForeignHandleBridge, handle: usize, port: u16) -> (started: (
    usize,
    Vec<Action>,
))
    requires
        handle != NULL_HANDLE,
    ensures
        (final(bridge)@, started.0, views(started.1@)) == bridge_start_spec(
            old(bridge)@,
            handle,
            port,
        ),
{
    let none: Vec<Action> = Vec::new();
    assert(views(none@) =~= Seq::<ActionView>::empty());
    if handle > bridge.slots.len() || bridge.runs_issued == usize::MAX {
        return (NULL_HANDLE, none);
    }
    let run_handle: usize = bridge.runs_issued + 1;
    let started = match &mut bridge.slots[handle - 1] {
        Slot::Released => (NULL_HANDLE, none),
        Slot::Live { client, run } => {
            let running: bool = match run {
                RunState::Running(_) => true,
                _ => false,
            };
            let fresh: bool = match client.state() {
                ActorState::Constructed => true,
                _ => false,
            };
            if running || !fresh {
                (NULL_HANDLE, none)
            } else {
                let actions = client.start(port);
                *run = RunState::Running(run_handle);
                (run_handle, actions)
            }
        },
    };
    if started.0 != NULL_HANDLE {
        bridge.runs_issued = run_handle;
    }
    assert(bridge@.slots =~= bridge_start_spec(old(bridge)@, handle, port).0.slots);
    started
}

/// Hands a payload to a client for broadcast.
///
/// The payload is copied; its bytes stay the caller's. No handle ends. The
/// null handle names no client, and is not to be passed.
///
/// Returns [`STATUS_OK`] once the payload waits in the client's outbound
/// channel. Whether any peer is there to get it plays no part. Returns
/// [`STATUS_REJECTED`] if the channel is closed, and
/// [`STATUS_UNKNOWN_HANDLE`] if the handle names no client.
pub fn libp2p_chat_publish(bridge: &mut ForeignHandleBridge, handle: usize, data: &[u8]) -> (status:
    i32)
    requires
        handle != NULL_HANDLE,
    ensures
        (final(bridge)@, status) == bridge_publish_spec(old(bridge)@, handle, data@),
{
    if handle > bridge.slots.len() {
        return STATUS_UNKNOWN_HANDLE;
    }
    let status: i32 = match &mut bridge.slots[handle - 1] {
        Slot::Released => STATUS_UNKNOWN_HANDLE,
        Slot::Live { client, .. } => {
            if client.submit(slice_to_vec(data)) {
                STATUS_OK
            } else {
                STATUS_REJECTED
            }
        },
    };
    assert(bridge@.slots =~= bridge_publish_spec(old(bridge)@, handle, data@).0.slots);
    status
}

/// Pops the oldest message that arrived at a client into the caller's buffer.
///
/// The buffer is the caller's, before and after. No handle ends. The null
/// handle names no client, and is not to be passed.
///
/// Returns the number of bytes copied: zero if no message waits or the oldest
/// is empty. Returns a negative status if the message does not fit the
/// buffer, in which case the message is lost, or, with another value, if the
/// handle names no client.
pub fn libp2p_chat_receive(
    bridge: &mut ForeignHandleBridge,
    handle: usize,
    buffer: &mut [u8],
) -> (status: i32)
    requires
        handle != NULL_HANDLE,
    ensures
        final(bridge)@ == bridge_receive_spec(old(bridge)@, handle, old(buffer)@).0,
        final(buffer)@ == bridge_receive_spec(old(bridge)@, handle, old(buffer)@).1,
        status == bridge_receive_spec(old(bridge)@, handle, old(buffer)@).2,
{
    if handle > bridge.slots.len() {
        return STATUS_UNKNOWN_HANDLE;
    }
    let status: i32 = match &mut bridge.slots[handle - 1] {
        Slot::Released => STATUS_UNKNOWN_HANDLE,
        Slot::Live { client, .. } => client.receive(buffer),
    };
    assert(bridge@.slots =~= bridge_receive_spec(old(bridge)@, handle, old(buffer)@).0.slots);
    status
}

/// Stops a client: signals cancellation to it and takes its running loop for
/// joined.
///
/// `run_handle` is the handle that [`libp2p_chat_start`] returned, or the
/// null handle for a client whose loop does not run: then there is nothing to
/// join. A stop that joins a loop ends its run handle; the client's handle
/// stays good. The null handle names no client, and is not to be passed in
/// its place.
///
/// Returns [`STATUS_REJECTED`], and changes nothing, for any other run
/// handle, and [`STATUS_UNKNOWN_HANDLE`] if the handle names no client.
pub fn libp2p_chat_stop(bridge: &mut ForeignHandleBridge, handle: usize, run_handle: usize) -> (status:
    i32)
    requires
        handle != NULL_HANDLE,
    ensures
        (final(bridge)@, status) == bridge_stop_spec(old(bridge)@, handle, run_handle),
{
    if handle > bridge.slots.len() {
        return STATUS_UNKNOWN_HANDLE;
    }
    let status: i32 = match &mut bridge.slots[handle - 1] {
        Slot::Released => STATUS_UNKNOWN_HANDLE,
        Slot::Live { client, run } => {
            let named: bool = match run {
                RunState::Running(current) => run_handle == *current,
                _ => run_handle == NULL_HANDLE,
            };
            if !named {
                STATUS_REJECTED
            } else {
                client.cancel();
                match run {
                    RunState::Running(_) => {
                        *run = RunState::Joined;
                    },
                    _ => {},
                }
                STATUS_OK
            }
        },
    };
    assert(bridge@.slots =~= bridge_stop_spec(old(bridge)@, handle, run_handle).0.slots);
    status
}

/// Frees a client, and says whether it did.
///
/// A free that releases the client ends its handle for good: the handle
/// names nothing from then on, and is given to no other client.
///
/// Nothing happens for the null handle, for a handle that names no client
/// (so a second free releases nothing), and for a client whose loop runs:
/// a stop comes before the free.
pub fn libp2p_chat_free(bridge: &mut ForeignHandleBridge, handle: usize) -> (released: bool)
    ensures
        (final(bridge)@, released) == bridge_free_spec(old(bridge)@, handle),
{
    if handle == NULL_HANDLE || handle > bridge.slots.len() {
        return false;
    }
    let free: bool = match &bridge.slots[handle - 1] {
        Slot::Released => false,
        Slot::Live { run, .. } => match run {
            RunState::Running(_) => false,
            _ => true,
        },
    };
    if free {
        bridge.slots[handle - 1] = Slot::Released;
        assert(bridge@.slots =~= bridge_free_spec(old(bridge)@, handle).0.slots);
    }
    free
}

} // verus!
