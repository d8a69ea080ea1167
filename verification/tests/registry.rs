use bahlilui::registry::{Delivery, Registry, RegistryError};
use tokio::sync::mpsc::error::{SendError, TryRecvError};
use tokio::sync::mpsc::{unbounded_channel, UnboundedReceiver};
use warp::ws::Message;

fn next_text(receiver: &mut UnboundedReceiver<Message>) -> Option<String> {
    match receiver.try_recv() {
        Ok(message) => Some(message.to_str().expect("a text frame").to_string()),
        Err(_) => None,
    }
}

fn sorted_ids(report: &[Delivery]) -> Vec<u128> {
    let mut ids: Vec<u128> = report.iter().map(|d| d.id).collect();
    ids.sort();
    ids
}

#[test]
fn new_registry_is_empty() {
    let registry = Registry::new();
    assert_eq!(registry.len(), 0);
    assert!(!registry.contains(1));
    assert!(registry.broadcast("reload").is_empty());
    assert_eq!(registry.snapshot().len(), 0);
}

#[test]
fn register_inserts_the_identifier() {
    let mut registry = Registry::new();
    let (tx, _rx) = unbounded_channel::<Message>();
    assert_eq!(registry.register(7, tx), Ok(()));
    assert!(registry.contains(7));
    assert!(!registry.contains(8));
    assert_eq!(registry.len(), 1);
}

#[test]
fn register_refuses_an_identifier_that_exists() {
    let mut registry = Registry::new();
    let (first, mut first_rx) = unbounded_channel::<Message>();
    let (second, mut second_rx) = unbounded_channel::<Message>();
    assert_eq!(registry.register(7, first), Ok(()));
    assert_eq!(registry.register(7, second), Err(RegistryError::AlreadyRegistered));
    assert_eq!(registry.len(), 1);
    let report = registry.broadcast("reload");
    assert_eq!(report, vec![Delivery { id: 7, delivered: true }]);
    assert_eq!(next_text(&mut first_rx), Some("reload".to_string()));
    assert_eq!(next_text(&mut second_rx), None);
}

#[test]
fn unregister_removes_the_identifier() {
    let mut registry = Registry::new();
    let (tx, _rx) = unbounded_channel::<Message>();
    registry.register(7, tx).unwrap();
    assert!(registry.unregister(7));
    assert!(!registry.contains(7));
    assert_eq!(registry.len(), 0);
}

#[test]
fn unregister_of_an_absent_identifier_changes_nothing() {
    let mut registry = Registry::new();
    let (tx, _rx) = unbounded_channel::<Message>();
    registry.register(7, tx).unwrap();
    assert!(!registry.unregister(8));
    assert!(registry.contains(7));
    assert_eq!(registry.len(), 1);
}

#[test]
fn unregister_twice_is_as_once() {
    let mut registry = Registry::new();
    let (a, _a_rx) = unbounded_channel::<Message>();
    let (b, _b_rx) = unbounded_channel::<Message>();
    registry.register(1, a).unwrap();
    registry.register(2, b).unwrap();
    assert!(registry.unregister(1));
    let after_first = sorted_ids(&registry.broadcast("x"));
    assert!(!registry.unregister(1));
    let after_second = sorted_ids(&registry.broadcast("x"));
    assert_eq!(after_first, vec![2]);
    assert_eq!(after_second, after_first);
    assert_eq!(registry.len(), 1);
}

#[test]
fn an_identifier_can_be_registered_again_after_removal() {
    let mut registry = Registry::new();
    let (a, _a_rx) = unbounded_channel::<Message>();
    let (b, mut b_rx) = unbounded_channel::<Message>();
    registry.register(1, a).unwrap();
    registry.unregister(1);
    assert_eq!(registry.register(1, b), Ok(()));
    registry.broadcast("again");
    assert_eq!(next_text(&mut b_rx), Some("again".to_string()));
}

#[test]
fn register_broadcast_disconnect_leaves_the_identifier_absent() {
    let mut registry = Registry::new();
    let (other, _other_rx) = unbounded_channel::<Message>();
    registry.register(1, other).unwrap();
    let (tx, mut rx) = unbounded_channel::<Message>();
    registry.register(2, tx).unwrap();
    registry.broadcast("reload");
    registry.broadcast("reload");
    assert_eq!(next_text(&mut rx), Some("reload".to_string()));
    assert_eq!(next_text(&mut rx), Some("reload".to_string()));
    assert_eq!(next_text(&mut rx), None);
    drop(rx);
    registry.unregister(2);
    assert!(!registry.contains(2));
    assert!(registry.contains(1));
    assert_eq!(registry.len(), 1);
}

#[test]
fn broadcast_reaches_every_registered_connection_once() {
    let mut registry = Registry::new();
    let mut receivers = Vec::new();
    for id in [10u128, 20, 30] {
        let (tx, rx) = unbounded_channel::<Message>();
        registry.register(id, tx).unwrap();
        receivers.push(rx);
    }
    let report = registry.broadcast("reload");
    assert_eq!(sorted_ids(&report), vec![10, 20, 30]);
    assert!(report.iter().all(|d| d.delivered));
    for rx in receivers.iter_mut() {
        let message = rx.try_recv().expect("one message");
        assert!(message.is_text());
        assert_eq!(message.to_str(), Ok("reload"));
        assert_eq!(rx.try_recv().unwrap_err(), TryRecvError::Empty);
    }
}

#[test]
fn broadcast_sends_the_text_it_was_given() {
    let mut registry = Registry::new();
    let (tx, mut rx) = unbounded_channel::<Message>();
    registry.register(1, tx).unwrap();
    registry.broadcast("first");
    registry.broadcast("second");
    assert_eq!(next_text(&mut rx), Some("first".to_string()));
    assert_eq!(next_text(&mut rx), Some("second".to_string()));
    assert_eq!(next_text(&mut rx), None);
}

#[test]
fn broadcast_skips_a_dead_connection_and_reaches_the_rest() {
    let mut registry = Registry::new();
    let (dead, dead_rx) = unbounded_channel::<Message>();
    let (live, mut live_rx) = unbounded_channel::<Message>();
    registry.register(1, dead).unwrap();
    registry.register(2, live).unwrap();
    drop(dead_rx);
    let mut report = registry.broadcast("reload");
    report.sort_by_key(|d| d.id);
    assert_eq!(
        report,
        vec![Delivery { id: 1, delivered: false }, Delivery { id: 2, delivered: true }]
    );
    assert_eq!(next_text(&mut live_rx), Some("reload".to_string()));
    assert!(registry.contains(1));
    assert_eq!(registry.len(), 2);
}

#[test]
fn broadcast_after_a_disconnect_reaches_only_the_remaining_connection() {
    let mut registry = Registry::new();
    let (a, a_rx) = unbounded_channel::<Message>();
    let (b, mut b_rx) = unbounded_channel::<Message>();
    registry.register(1, a).unwrap();
    registry.register(2, b).unwrap();
    drop(a_rx);
    assert!(registry.unregister(1));
    let report = registry.broadcast("reload");
    assert_eq!(report, vec![Delivery { id: 2, delivered: true }]);
    assert_eq!(next_text(&mut b_rx), Some("reload".to_string()));
    assert_eq!(next_text(&mut b_rx), None);
}

#[test]
fn a_connection_registered_after_the_snapshot_waits_for_the_next_cycle() {
    let mut registry = Registry::new();
    let (early, mut early_rx) = unbounded_channel::<Message>();
    registry.register(1, early).unwrap();
    let snapshot = registry.snapshot();
    let (late, mut late_rx) = unbounded_channel::<Message>();
    registry.register(2, late).unwrap();
    let report = snapshot.deliver("reload");
    assert_eq!(report, vec![Delivery { id: 1, delivered: true }]);
    assert_eq!(next_text(&mut early_rx), Some("reload".to_string()));
    assert_eq!(next_text(&mut late_rx), None);
    assert!(registry.contains(2));
    let next = registry.broadcast("reload");
    assert_eq!(sorted_ids(&next), vec![1, 2]);
    assert_eq!(next_text(&mut late_rx), Some("reload".to_string()));
    assert_eq!(next_text(&mut late_rx), None);
}

#[test]
fn a_connection_removed_after_the_snapshot_is_skipped_without_error() {
    let mut registry = Registry::new();
    let (gone, gone_rx) = unbounded_channel::<Message>();
    let (stays, mut stays_rx) = unbounded_channel::<Message>();
    registry.register(1, gone).unwrap();
    registry.register(2, stays).unwrap();
    let snapshot = registry.snapshot();
    assert_eq!(snapshot.len(), 2);
    drop(gone_rx);
    registry.unregister(1);
    let mut report = snapshot.deliver("reload");
    report.sort_by_key(|d| d.id);
    assert_eq!(
        report,
        vec![Delivery { id: 1, delivered: false }, Delivery { id: 2, delivered: true }]
    );
    assert_eq!(next_text(&mut stays_rx), Some("reload".to_string()));
    assert!(!registry.contains(1));
}

#[test]
fn a_snapshot_holds_each_identifier_once() {
    let mut registry = Registry::new();
    let mut receivers = Vec::new();
    for id in 0u128..50 {
        let (tx, rx) = unbounded_channel::<Message>();
        registry.register(id * 3, tx).unwrap();
        receivers.push(rx);
    }
    let snapshot = registry.snapshot();
    assert_eq!(snapshot.len(), 50);
    let report = snapshot.deliver("reload");
    let expected: Vec<u128> = (0u128..50).map(|id| id * 3).collect();
    assert_eq!(sorted_ids(&report), expected);
}

#[test]
fn connect_registers_a_fresh_identifier_with_a_live_channel() {
    let mut registry = Registry::new();
    let (id, mut outbox) = registry.connect().expect("a fresh identifier");
    assert!(registry.contains(id));
    assert_eq!(registry.len(), 1);
    let report = registry.broadcast("reload");
    assert_eq!(report, vec![Delivery { id, delivered: true }]);
    assert_eq!(next_text(&mut outbox), Some("reload".to_string()));
    assert!(registry.unregister(id));
    assert_eq!(registry.len(), 0);
}

#[test]
fn connect_draws_a_new_identifier_each_time() {
    let mut registry = Registry::new();
    let (first, _first_rx) = registry.connect().expect("a fresh identifier");
    let (second, _second_rx) = registry.connect().expect("a fresh identifier");
    assert_ne!(first, second);
    assert_eq!(registry.len(), 2);
    assert_eq!(uuid::Uuid::from_u128(first).get_version_num(), 4);
    assert_eq!(uuid::Uuid::from_u128(second).get_version_num(), 4);
}

#[test]
fn a_delivery_records_whether_the_channel_took_the_message() {
    let taken: Result<(), SendError<Message>> = Ok(());
    let refused: Result<(), SendError<Message>> = Err(SendError(Message::text("reload")));
    assert_eq!(Delivery::record(5, &taken), Delivery { id: 5, delivered: true });
    assert_eq!(Delivery::record(6, &refused), Delivery { id: 6, delivered: false });
}

#[test]
fn an_empty_registry_always_accepts_a_connection() {
    let mut registry = Registry::new();
    for _ in 0..200 {
        let (id, _outbox) = registry.connect().expect("no identifier is taken");
        assert!(registry.contains(id));
        assert_eq!(registry.len(), 1);
        assert!(registry.unregister(id));
        assert_eq!(registry.len(), 0);
    }
}
