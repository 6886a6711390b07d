use rustconnect::behaviour::{ChatBehaviourEvent, GossipsubEvent};
use rustconnect::client::{ActorState, BUFFER_TOO_SMALL};
use rustconnect::transport::{Action, Event, Failure, SwarmEvent};
use rustconnect::dedup::DedupPolicy;
use rustconnect::external::{
    libp2p_chat_free, libp2p_chat_new, libp2p_chat_publish, libp2p_chat_receive,
    libp2p_chat_start, libp2p_chat_stop, ForeignHandleBridge, RunState, NULL_HANDLE, STATUS_OK,
    STATUS_REJECTED, STATUS_UNKNOWN_HANDLE,
};
use rustconnect::peer::PeerIdentifier;

fn arrival(from: u8, data: &[u8]) -> Event {
    Event::Swarm(SwarmEvent::Behaviour(ChatBehaviourEvent::Gossipsub(GossipsubEvent::Message {
        propagation_source: PeerIdentifier::new(vec![from]),
        data: data.to_vec(),
    })))
}

fn deliver(bridge: &mut ForeignHandleBridge, handle: usize, from: u8, data: &[u8]) {
    let client = bridge.client_mut(handle).unwrap();
    client.run(arrival(from, data));
}

fn started(policy: DedupPolicy) -> (ForeignHandleBridge, usize, usize) {
    let mut bridge = ForeignHandleBridge::new(policy);
    let handle = libp2p_chat_new(&mut bridge);
    let (run_handle, _) = libp2p_chat_start(&mut bridge, handle, 0);
    (bridge, handle, run_handle)
}

#[test]
fn status_codes() {
    assert_eq!(STATUS_OK, 0);
    assert!(STATUS_REJECTED < 0);
    assert!(STATUS_UNKNOWN_HANDLE < 0);
    assert_ne!(STATUS_UNKNOWN_HANDLE, BUFFER_TOO_SMALL);
    assert_eq!(NULL_HANDLE, 0);
}

#[test]
fn new_gives_out_fresh_handles() {
    let mut bridge = ForeignHandleBridge::new(DedupPolicy::Timestamp);
    let first = libp2p_chat_new(&mut bridge);
    let second = libp2p_chat_new(&mut bridge);
    assert_eq!(first, 1);
    assert_eq!(second, 2);
    assert_ne!(first, NULL_HANDLE);
    assert!(bridge.is_live(first));
    assert!(bridge.is_live(second));
    assert!(!bridge.is_live(3));
    assert!(!bridge.is_live(NULL_HANDLE));
    assert_eq!(bridge.run_state(first), Some(RunState::Idle));
    assert_eq!(bridge.client(first).unwrap().state(), ActorState::Constructed);
    assert_eq!(bridge.client(first).unwrap().policy(), DedupPolicy::Timestamp);
}

#[test]
fn start_returns_a_run_handle_and_the_first_actions() {
    let mut bridge = ForeignHandleBridge::new(DedupPolicy::Timestamp);
    let handle = libp2p_chat_new(&mut bridge);
    let (run_handle, actions) = libp2p_chat_start(&mut bridge, handle, 4001);
    assert_eq!(run_handle, 1);
    assert_eq!(
        actions,
        vec![Action::Subscribe, Action::Listen { address: String::from("/ip4/0.0.0.0/tcp/4001") }]
    );
    assert_eq!(bridge.run_state(handle), Some(RunState::Running(run_handle)));
    assert_eq!(bridge.client(handle).unwrap().state(), ActorState::Listening);
}

#[test]
fn start_of_a_running_client_is_turned_down() {
    let (mut bridge, handle, run_handle) = started(DedupPolicy::Timestamp);
    let (second, actions) = libp2p_chat_start(&mut bridge, handle, 0);
    assert_eq!(second, NULL_HANDLE);
    assert_eq!(actions, Vec::new());
    assert_eq!(bridge.run_state(handle), Some(RunState::Running(run_handle)));
}

#[test]
fn start_of_an_unknown_handle_is_turned_down() {
    let mut bridge = ForeignHandleBridge::new(DedupPolicy::Timestamp);
    let (run_handle, actions) = libp2p_chat_start(&mut bridge, 5, 0);
    assert_eq!(run_handle, NULL_HANDLE);
    assert_eq!(actions, Vec::new());
}

#[test]
fn run_handles_are_not_given_out_twice() {
    let mut bridge = ForeignHandleBridge::new(DedupPolicy::Timestamp);
    let first = libp2p_chat_new(&mut bridge);
    let second = libp2p_chat_new(&mut bridge);
    let (first_run, _) = libp2p_chat_start(&mut bridge, first, 0);
    let (second_run, _) = libp2p_chat_start(&mut bridge, second, 0);
    assert_ne!(first_run, NULL_HANDLE);
    assert_ne!(second_run, NULL_HANDLE);
    assert_ne!(first_run, second_run);
}

#[test]
fn stopped_client_is_not_started_again() {
    let (mut bridge, handle, run_handle) = started(DedupPolicy::Timestamp);
    assert_eq!(libp2p_chat_stop(&mut bridge, handle, run_handle), STATUS_OK);
    {
        let client = bridge.client_mut(handle).unwrap();
        client.run(Event::Cancelled);
        client.stop();
    }
    let (again, actions) = libp2p_chat_start(&mut bridge, handle, 0);
    assert_eq!(again, NULL_HANDLE);
    assert_eq!(actions, Vec::new());
}

#[test]
fn publish_succeeds_without_any_peer() {
    let (mut bridge, handle, _) = started(DedupPolicy::Timestamp);
    assert_eq!(libp2p_chat_publish(&mut bridge, handle, b"hello"), STATUS_OK);
    assert_eq!(bridge.client(handle).unwrap().outbound_len(), 1);
}

#[test]
fn publish_succeeds_before_start() {
    let mut bridge = ForeignHandleBridge::new(DedupPolicy::Timestamp);
    let handle = libp2p_chat_new(&mut bridge);
    assert_eq!(libp2p_chat_publish(&mut bridge, handle, b"early"), STATUS_OK);
    assert_eq!(libp2p_chat_publish(&mut bridge, handle, b""), STATUS_OK);
    assert_eq!(bridge.client(handle).unwrap().outbound_len(), 2);
}

#[test]
fn publish_is_rejected_once_the_client_has_stopped() {
    let (mut bridge, handle, run_handle) = started(DedupPolicy::Timestamp);
    assert_eq!(libp2p_chat_publish(&mut bridge, handle, b"queued"), STATUS_OK);
    assert_eq!(libp2p_chat_stop(&mut bridge, handle, run_handle), STATUS_OK);
    {
        let client = bridge.client_mut(handle).unwrap();
        client.run(Event::Cancelled);
        client.stop();
    }
    assert_eq!(libp2p_chat_publish(&mut bridge, handle, b"late"), STATUS_REJECTED);
    assert_eq!(bridge.client(handle).unwrap().outbound_len(), 0);
}

#[test]
fn publish_to_unknown_handle_changes_nothing() {
    let mut bridge = ForeignHandleBridge::new(DedupPolicy::Timestamp);
    let handle = libp2p_chat_new(&mut bridge);
    assert_eq!(libp2p_chat_publish(&mut bridge, handle + 1, b"x"), STATUS_UNKNOWN_HANDLE);
    assert_eq!(bridge.client(handle).unwrap().outbound_len(), 0);
}

#[test]
fn published_payload_reaches_the_loop() {
    let (mut bridge, handle, _) = started(DedupPolicy::ContentHash);
    assert_eq!(libp2p_chat_publish(&mut bridge, handle, b"hello"), STATUS_OK);
    let actions = bridge.client_mut(handle).unwrap().run(Event::Outbound);
    assert_eq!(actions, vec![Action::Publish { data: b"hello".to_vec() }]);
}

#[test]
fn receive_on_empty_queue_writes_nothing() {
    let (mut bridge, handle, _) = started(DedupPolicy::ContentHash);
    let mut buffer = [0xaau8; 8];
    assert_eq!(libp2p_chat_receive(&mut bridge, handle, &mut buffer), 0);
    assert_eq!(buffer, [0xaau8; 8]);
}

#[test]
fn receive_into_exact_buffer() {
    let (mut bridge, handle, _) = started(DedupPolicy::ContentHash);
    deliver(&mut bridge, handle, 7, b"hello");
    let mut buffer = [0u8; 5];
    assert_eq!(libp2p_chat_receive(&mut bridge, handle, &mut buffer), 5);
    assert_eq!(&buffer, b"hello");
    assert_eq!(bridge.client(handle).unwrap().received_len(), 0);
}

#[test]
fn receive_into_buffer_one_byte_short() {
    let (mut bridge, handle, _) = started(DedupPolicy::ContentHash);
    deliver(&mut bridge, handle, 7, b"hello");
    let mut buffer = [0xaau8; 4];
    let status = libp2p_chat_receive(&mut bridge, handle, &mut buffer);
    assert_eq!(status, BUFFER_TOO_SMALL);
    assert!(status < 0);
    assert_eq!(buffer, [0xaau8; 4]);
    assert_eq!(bridge.client(handle).unwrap().received_len(), 0);
    assert_eq!(libp2p_chat_receive(&mut bridge, handle, &mut buffer), 0);
}

#[test]
fn receive_of_zero_length_message() {
    let (mut bridge, handle, _) = started(DedupPolicy::ContentHash);
    deliver(&mut bridge, handle, 7, b"");
    assert_eq!(bridge.client(handle).unwrap().received_len(), 1);
    let mut buffer = [0xaau8; 4];
    assert_eq!(libp2p_chat_receive(&mut bridge, handle, &mut buffer), 0);
    assert_eq!(buffer, [0xaau8; 4]);
    assert_eq!(bridge.client(handle).unwrap().received_len(), 0);
}

#[test]
fn receive_from_unknown_handle() {
    let (mut bridge, handle, _) = started(DedupPolicy::ContentHash);
    deliver(&mut bridge, handle, 7, b"hello");
    let mut buffer = [0xaau8; 8];
    let status = libp2p_chat_receive(&mut bridge, handle + 1, &mut buffer);
    assert_eq!(status, STATUS_UNKNOWN_HANDLE);
    assert_eq!(buffer, [0xaau8; 8]);
    assert_eq!(bridge.client(handle).unwrap().received_len(), 1);
}

#[test]
fn receive_touches_one_client_only() {
    let mut bridge = ForeignHandleBridge::new(DedupPolicy::ContentHash);
    let first = libp2p_chat_new(&mut bridge);
    let second = libp2p_chat_new(&mut bridge);
    libp2p_chat_start(&mut bridge, first, 0);
    libp2p_chat_start(&mut bridge, second, 0);
    deliver(&mut bridge, first, 7, b"for one");
    deliver(&mut bridge, second, 7, b"for two");
    let mut buffer = [0u8; 7];
    assert_eq!(libp2p_chat_receive(&mut bridge, second, &mut buffer), 7);
    assert_eq!(&buffer, b"for two");
    assert_eq!(bridge.client(first).unwrap().received_len(), 1);
}

#[test]
fn stop_before_start_cancels_and_joins_nothing() {
    let mut bridge = ForeignHandleBridge::new(DedupPolicy::Timestamp);
    let handle = libp2p_chat_new(&mut bridge);
    assert_eq!(libp2p_chat_stop(&mut bridge, handle, NULL_HANDLE), STATUS_OK);
    assert!(bridge.client(handle).unwrap().is_cancelled());
    assert_eq!(bridge.run_state(handle), Some(RunState::Idle));
    assert_eq!(bridge.client(handle).unwrap().state(), ActorState::Constructed);
}

#[test]
fn stop_joins_the_running_loop() {
    let (mut bridge, handle, run_handle) = started(DedupPolicy::Timestamp);
    assert_eq!(libp2p_chat_stop(&mut bridge, handle, run_handle), STATUS_OK);
    assert!(bridge.client(handle).unwrap().is_cancelled());
    assert_eq!(bridge.run_state(handle), Some(RunState::Joined));
}

#[test]
fn stop_twice_joins_once() {
    let (mut bridge, handle, run_handle) = started(DedupPolicy::Timestamp);
    assert_eq!(libp2p_chat_stop(&mut bridge, handle, run_handle), STATUS_OK);
    assert_eq!(libp2p_chat_stop(&mut bridge, handle, run_handle), STATUS_REJECTED);
    assert_eq!(libp2p_chat_stop(&mut bridge, handle, NULL_HANDLE), STATUS_OK);
    assert_eq!(bridge.run_state(handle), Some(RunState::Joined));
}

#[test]
fn stop_with_a_wrong_run_handle_changes_nothing() {
    let (mut bridge, handle, run_handle) = started(DedupPolicy::Timestamp);
    assert_eq!(libp2p_chat_stop(&mut bridge, handle, run_handle + 1), STATUS_REJECTED);
    assert_eq!(libp2p_chat_stop(&mut bridge, handle, NULL_HANDLE), STATUS_REJECTED);
    assert!(!bridge.client(handle).unwrap().is_cancelled());
    assert_eq!(bridge.run_state(handle), Some(RunState::Running(run_handle)));
}

#[test]
fn stop_of_unknown_handle() {
    let mut bridge = ForeignHandleBridge::new(DedupPolicy::Timestamp);
    assert_eq!(libp2p_chat_stop(&mut bridge, 1, NULL_HANDLE), STATUS_UNKNOWN_HANDLE);
}

#[test]
fn free_of_null_does_nothing() {
    let mut bridge = ForeignHandleBridge::new(DedupPolicy::Timestamp);
    let handle = libp2p_chat_new(&mut bridge);
    assert!(!libp2p_chat_free(&mut bridge, NULL_HANDLE));
    assert!(bridge.is_live(handle));
}

#[test]
fn free_once_after_stop_never_releases_twice() {
    let (mut bridge, handle, run_handle) = started(DedupPolicy::Timestamp);
    assert_eq!(libp2p_chat_stop(&mut bridge, handle, run_handle), STATUS_OK);
    assert!(libp2p_chat_free(&mut bridge, handle));
    assert!(!bridge.is_live(handle));
    assert!(!libp2p_chat_free(&mut bridge, handle));
    assert!(!bridge.is_live(handle));
}

#[test]
fn free_of_a_running_client_is_refused() {
    let (mut bridge, handle, run_handle) = started(DedupPolicy::Timestamp);
    assert!(!libp2p_chat_free(&mut bridge, handle));
    assert!(bridge.is_live(handle));
    assert_eq!(bridge.run_state(handle), Some(RunState::Running(run_handle)));
}

#[test]
fn free_of_a_client_that_never_ran() {
    let mut bridge = ForeignHandleBridge::new(DedupPolicy::Timestamp);
    let handle = libp2p_chat_new(&mut bridge);
    assert!(libp2p_chat_free(&mut bridge, handle));
    assert!(!bridge.is_live(handle));
}

#[test]
fn freed_handle_names_nothing_ever_after() {
    let mut bridge = ForeignHandleBridge::new(DedupPolicy::Timestamp);
    let handle = libp2p_chat_new(&mut bridge);
    assert!(libp2p_chat_free(&mut bridge, handle));
    let next = libp2p_chat_new(&mut bridge);
    assert_ne!(next, handle);
    assert!(!bridge.is_live(handle));
    assert!(bridge.client(handle).is_none());
    assert!(bridge.client_mut(handle).is_none());
    assert_eq!(bridge.run_state(handle), None);
    assert_eq!(libp2p_chat_publish(&mut bridge, handle, b"x"), STATUS_UNKNOWN_HANDLE);
    let mut buffer = [0u8; 1];
    assert_eq!(libp2p_chat_receive(&mut bridge, handle, &mut buffer), STATUS_UNKNOWN_HANDLE);
    assert_eq!(libp2p_chat_stop(&mut bridge, handle, NULL_HANDLE), STATUS_UNKNOWN_HANDLE);
    assert_eq!(libp2p_chat_start(&mut bridge, handle, 0).0, NULL_HANDLE);
}

#[test]
fn start_can_be_tried_again_after_it_was_given_up() {
    let (mut bridge, handle, run_handle) = started(DedupPolicy::Timestamp);
    {
        let client = bridge.client_mut(handle).unwrap();
        client.on_failure(Failure::Listen { reason: String::from("in use") });
    }
    assert_eq!(bridge.client(handle).unwrap().state(), ActorState::Constructed);
    assert_eq!(libp2p_chat_start(&mut bridge, handle, 0).0, NULL_HANDLE);
    assert_eq!(libp2p_chat_stop(&mut bridge, handle, run_handle), STATUS_OK);
    let (again, actions) = libp2p_chat_start(&mut bridge, handle, 0);
    assert_eq!(again, run_handle + 1);
    assert_eq!(actions.len(), 2);
    assert_eq!(bridge.run_state(handle), Some(RunState::Running(again)));
}
