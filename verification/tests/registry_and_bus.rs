//! Tests of the registry's liveness and ordering behaviour and of the
//! bounded message bus.

use run_in_roblox::bus::{MessageBus, SendOutcome, BUS_CAPACITY};
use run_in_roblox::messages::{Message, RobloxEvent};
use run_in_roblox::registry::{Registry, RegistryError, LIVENESS_TIMEOUT};

fn run_script(script: &str, oneshot: bool) -> RobloxEvent {
    RobloxEvent::RunScript { script: script.to_string(), oneshot }
}

#[test]
fn heartbeat_before_timeout_prevents_eviction() {
    let mut reg = Registry::new();
    let id = "worker-1".to_string();
    reg.register(id.clone(), 0);
    // One tick before the deadline: nothing is stale yet.
    assert!(!reg.evict_stale(&id, LIVENESS_TIMEOUT - 1));
    assert!(reg.contains(&id));
    // A heartbeat just in time pushes the deadline out.
    assert!(reg.heartbeat(&id, LIVENESS_TIMEOUT - 1).is_ok());
    assert!(!reg.evict_stale(&id, LIVENESS_TIMEOUT));
    assert!(!reg.evict_stale(&id, 2 * LIVENESS_TIMEOUT - 2));
    assert!(reg.contains(&id));
}

#[test]
fn silent_worker_evicted_exactly_once() {
    let mut reg = Registry::new();
    let id = "worker-1".to_string();
    reg.register(id.clone(), 5);
    // The full timeout elapses with no heartbeat: evicted, exactly once.
    assert!(reg.evict_stale(&id, 5 + LIVENESS_TIMEOUT));
    assert!(!reg.contains(&id));
    assert!(!reg.evict_stale(&id, 5 + LIVENESS_TIMEOUT));
    assert!(!reg.evict_stale(&id, 5 + 2 * LIVENESS_TIMEOUT));
}

#[test]
fn heartbeat_unknown_id_fails() {
    let mut reg = Registry::new();
    let id = "nobody".to_string();
    assert_eq!(reg.heartbeat(&id, 3), Err(RegistryError::NotFound));
    assert!(!reg.contains(&id));
}

#[test]
fn drain_returns_events_in_order_exactly_once() {
    let mut reg = Registry::new();
    let id = "worker-1".to_string();
    let e1 = run_script("print(1)", false);
    let e2 = run_script("print(2)", false);
    let e3 = run_script("print(3)", true);
    reg.enqueue(id.clone(), e1.clone(), 0);
    reg.enqueue(id.clone(), e2.clone(), 1);
    reg.enqueue(id.clone(), e3.clone(), 2);
    assert_eq!(reg.drain(&id), Ok(vec![e1, e2, e3]));
    // An immediate second drain on the same id returns an empty list.
    assert_eq!(reg.drain(&id), Ok(vec![]));
}

#[test]
fn drain_unknown_id_fails() {
    let mut reg = Registry::new();
    assert_eq!(reg.drain(&"nobody".to_string()), Err(RegistryError::NotFound));
}

#[test]
fn register_is_idempotent_and_keeps_the_queue() {
    let mut reg = Registry::new();
    let id = "worker-1".to_string();
    reg.register(id.clone(), 0);
    reg.enqueue(id.clone(), run_script("x", false), 1);
    // Registering an id that is already live is a no-op.
    reg.register(id.clone(), 2);
    assert_eq!(reg.len(), 1);
    assert_eq!(reg.drain(&id), Ok(vec![run_script("x", false)]));
}

#[test]
fn interleaved_writers_lose_nothing() {
    let mut reg = Registry::new();
    let ids: Vec<String> = (0..8).map(|i| format!("worker-{i}")).collect();
    // Two "callers" interleaved: one registers even ids, one enqueues for
    // odd ids (lazily registering them), in alternating order.
    for i in 0..8 {
        if i % 2 == 0 {
            reg.register(ids[i].clone(), i as u64);
        } else {
            reg.enqueue(ids[i].clone(), run_script("a", false), i as u64);
            reg.register(ids[i].clone(), i as u64);
            reg.enqueue(ids[i].clone(), run_script("b", false), i as u64);
        }
    }
    // Exactly N live entries, one per distinct id, no lost writes.
    assert_eq!(reg.len(), 8);
    for i in 0..8 {
        assert!(reg.contains(&ids[i]));
        let drained = reg.drain(&ids[i]).unwrap();
        if i % 2 == 0 {
            assert_eq!(drained, vec![]);
        } else {
            assert_eq!(drained, vec![run_script("a", false), run_script("b", false)]);
        }
    }
}

#[test]
fn evict_removes_entry_and_reports_it() {
    let mut reg = Registry::new();
    let id = "worker-1".to_string();
    reg.register(id.clone(), 0);
    assert!(reg.evict(&id));
    assert!(!reg.contains(&id));
    assert!(!reg.evict(&id));
}

#[test]
fn clear_tears_everything_down() {
    let mut reg = Registry::new();
    reg.register("a".to_string(), 0);
    reg.register("b".to_string(), 0);
    reg.clear();
    assert_eq!(reg.len(), 0);
}

fn start_msg(server: &str) -> Message {
    Message::Start { server: server.to_string() }
}

#[test]
fn bus_send_on_full_suspends_rather_than_drops() {
    let mut bus = MessageBus::new(2);
    assert_eq!(bus.try_send(start_msg("a")), SendOutcome::Sent);
    assert_eq!(bus.try_send(start_msg("b")), SendOutcome::Sent);
    // Full: the producer would suspend; nothing is sent and nothing lost.
    assert_eq!(bus.try_send(start_msg("c")), SendOutcome::Full);
    assert_eq!(bus.len(), 2);
    // Once the consumer takes one message, the same send goes through.
    match bus.try_recv() {
        Some(Message::Start { server }) => assert_eq!(server, "a"),
        other => panic!("expected the oldest message, got {other:?}"),
    }
    assert_eq!(bus.try_send(start_msg("c")), SendOutcome::Sent);
    assert_eq!(bus.len(), 2);
    // Delivery order is send order.
    match bus.try_recv() {
        Some(Message::Start { server }) => assert_eq!(server, "b"),
        other => panic!("expected send order, got {other:?}"),
    }
    match bus.try_recv() {
        Some(Message::Start { server }) => assert_eq!(server, "c"),
        other => panic!("expected send order, got {other:?}"),
    }
    assert!(bus.try_recv().is_none());
}

#[test]
fn bus_send_fails_permanently_once_closed() {
    let mut bus = MessageBus::new(BUS_CAPACITY);
    assert_eq!(bus.try_send(start_msg("a")), SendOutcome::Sent);
    bus.close();
    assert!(bus.is_closed());
    assert_eq!(bus.try_send(start_msg("b")), SendOutcome::Closed);
    assert!(bus.send(start_msg("c")).is_err());
    assert!(bus.try_recv().is_none());
}
