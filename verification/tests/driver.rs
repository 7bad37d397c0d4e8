use periscan::action::{Action, BackendOutcome, OpError};
use periscan::channel::{ActionQueue, SnapshotReader};
use periscan::peripheral::{PeripheralId, PeripheralInfo};
use periscan::store::{StateStore, TickPlan};

fn id(s: &str) -> PeripheralId {
    PeripheralId::new(s.to_string())
}

fn info(s: &str) -> PeripheralInfo {
    PeripheralInfo::new(id(s), None)
}

fn fresh_store() -> StateStore {
    StateStore::new(1).ok().unwrap()
}

/// Run one full tick for an action that delegates nothing to the backend.
fn tick(store: &mut StateStore, fetched: Result<Vec<PeripheralInfo>, String>) -> bool {
    match store.poll_action() {
        TickPlan::Stop => false,
        TickPlan::Run(action) => {
            assert!(!matches!(
                action,
                Some(Action::StartScan) | Some(Action::StopScan) | Some(Action::Refresh)
            ));
            store.complete_tick(action, BackendOutcome::NotNeeded, fetched);
            true
        }
    }
}

#[test]
fn store_startup_fails_without_adapters() {
    assert!(StateStore::new(0).is_err());
}

#[test]
fn store_startup_publishes_the_initial_snapshot() {
    let store = fresh_store();
    assert_eq!(store.cell.version, 0);
    assert!(store.cell.value.scan.data.is_empty());
    assert_eq!(store.cell.value.scan.current, 0);
    assert!(store.last_error.is_none());
}

#[test]
fn queue_is_fifo() {
    let mut q = ActionQueue::new(10);
    assert!(q.try_enqueue(Action::Select(id("a"))).is_none());
    assert!(q.try_enqueue(Action::Select(id("b"))).is_none());
    assert!(q.try_enqueue(Action::Select(id("c"))).is_none());
    for expected in ["a", "b", "c"] {
        match q.try_dequeue() {
            Some(Action::Select(got)) => assert_eq!(got.raw, expected),
            _ => panic!("expected a queued selection"),
        }
    }
    assert!(q.try_dequeue().is_none());
}

#[test]
fn full_queue_refuses_without_dropping() {
    let mut q = ActionQueue::new(2);
    assert!(q.try_enqueue(Action::StartScan).is_none());
    assert!(q.try_enqueue(Action::StopScan).is_none());
    assert!(matches!(q.try_enqueue(Action::Refresh), Some(Action::Refresh)));
    assert!(matches!(q.try_dequeue(), Some(Action::StartScan)));
    assert!(q.try_enqueue(Action::Refresh).is_none());
    assert!(matches!(q.try_dequeue(), Some(Action::StopScan)));
    assert!(matches!(q.try_dequeue(), Some(Action::Refresh)));
}

#[test]
fn actions_apply_in_enqueue_order() {
    let mut store = fresh_store();
    assert!(store.queue.try_enqueue(Action::Select(id("a"))).is_none());
    assert!(store.queue.try_enqueue(Action::Select(id("b"))).is_none());
    assert!(store.queue.try_enqueue(Action::Select(id("c"))).is_none());
    for _ in 0..3 {
        assert!(tick(&mut store, Ok(Vec::new())));
    }
    assert_eq!(store.state.current_peripheral_id.as_ref().unwrap().raw, "c");
    assert_eq!(store.cell.version, 3);
}

#[test]
fn exit_stops_the_driver_and_applies_nothing_further() {
    let mut store = fresh_store();
    assert!(store.queue.try_enqueue(Action::Exit).is_none());
    assert!(store.queue.try_enqueue(Action::Select(id("z"))).is_none());
    assert!(matches!(store.poll_action(), TickPlan::Stop));
    assert!(store.state.current_peripheral_id.is_none());
    assert_eq!(store.cell.version, 0);
    assert_eq!(store.queue.items.len(), 1);
    assert!(matches!(store.queue.items[0], Action::Select(_)));
}

#[test]
fn unsupported_action_is_recorded_and_the_loop_proceeds() {
    let mut store = fresh_store();
    assert!(store.queue.try_enqueue(Action::Connect(id("a"))).is_none());
    assert!(tick(&mut store, Ok(vec![info("a")])));
    match &store.last_error {
        Some((Action::Connect(target), OpError::Unsupported)) => assert_eq!(target.raw, "a"),
        _ => panic!("expected the unsupported connect to be recorded"),
    }
    assert_eq!(store.cell.version, 1);
    assert_eq!(store.state.peripherals.len(), 1);
}

#[test]
fn scan_failure_is_recorded_with_its_action() {
    let mut store = fresh_store();
    assert!(store.queue.try_enqueue(Action::StartScan).is_none());
    match store.poll_action() {
        TickPlan::Run(action) => {
            assert!(matches!(action, Some(Action::StartScan)));
            store.complete_tick(
                action,
                BackendOutcome::Scan(Err("radio off".to_string())),
                Ok(Vec::new()),
            );
        }
        TickPlan::Stop => panic!("nothing asked the driver to stop"),
    }
    match &store.last_error {
        Some((Action::StartScan, OpError::Backend(m))) => assert_eq!(m, "radio off"),
        _ => panic!("expected the scan failure to be recorded"),
    }
    assert_eq!(store.cell.version, 1);
}

#[test]
fn every_tick_refreshes_and_publishes() {
    let mut store = fresh_store();
    assert!(tick(&mut store, Ok(vec![info("a"), info("b")])));
    assert_eq!(store.cell.version, 1);
    let names: Vec<&str> =
        store.cell.value.scan.data.iter().map(|p| p.id.raw.as_str()).collect();
    assert_eq!(names, vec!["a", "b"]);
    assert!(tick(&mut store, Err("backend unreachable".to_string())));
    assert_eq!(store.cell.version, 2);
    assert_eq!(store.state.peripherals.len(), 2);
}

#[test]
fn snapshot_resolves_selection_on_the_next_tick() {
    let mut store = fresh_store();
    assert!(tick(&mut store, Ok(vec![info("p0"), info("p1"), info("p2")])));
    assert_eq!(store.cell.value.scan.current, 0);
    assert!(store.queue.try_enqueue(Action::Select(id("p1"))).is_none());
    assert!(tick(&mut store, Ok(vec![info("p0"), info("p1"), info("p2")])));
    assert_eq!(store.cell.value.scan.current, 1);
    assert!(store.queue.try_enqueue(Action::Select(id("gone"))).is_none());
    assert!(tick(&mut store, Ok(vec![info("p0"), info("p1"), info("p2")])));
    assert_eq!(store.cell.value.scan.current, 0);
    assert_eq!(store.state.current_peripheral_id.as_ref().unwrap().raw, "gone");
}

#[test]
fn reread_without_publish_returns_an_equal_value() {
    let mut store = fresh_store();
    assert!(tick(&mut store, Ok(vec![info("a")])));
    let mut reader = SnapshotReader::new();
    let (first, fresh_first) = reader.read(&store.cell);
    let first_ids: Vec<String> = first.scan.data.iter().map(|p| p.id.raw.clone()).collect();
    let first_current = first.scan.current;
    let (second, fresh_second) = reader.read(&store.cell);
    let second_ids: Vec<String> = second.scan.data.iter().map(|p| p.id.raw.clone()).collect();
    assert!(fresh_first);
    assert!(!fresh_second);
    assert_eq!(first_ids, second_ids);
    assert_eq!(first_current, second.scan.current);
}

#[test]
fn slow_readers_skip_to_the_latest_snapshot() {
    let mut store = fresh_store();
    let mut reader = SnapshotReader::new();
    assert!(tick(&mut store, Ok(vec![info("a")])));
    assert!(tick(&mut store, Ok(vec![info("b")])));
    let (latest, fresh) = reader.read(&store.cell);
    assert!(fresh);
    assert_eq!(latest.scan.data.len(), 1);
    assert_eq!(latest.scan.data[0].id.raw, "b");
}
