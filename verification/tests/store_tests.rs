use memory_monitor::alert::AlertManager;
use memory_monitor::alert::AlertRule;
use memory_monitor::alert::Notifier;
use memory_monitor::error::CollectionError;
use memory_monitor::error::NotifierError;
use memory_monitor::monitor::DetailedMetrics;
use memory_monitor::monitor::LoadAvgWrapper;
use memory_monitor::monitor::NetworkMetrics;
use memory_monitor::monitor::SystemMetrics;
use memory_monitor::state::AppState;
use memory_monitor::state::TickReport;
use memory_monitor::store::SharedStateStore;
use std::sync::atomic::AtomicUsize;
use std::sync::atomic::Ordering;
use std::sync::Arc;
use std::sync::Mutex;

fn store_sample(timestamp: i64, used: u64) -> DetailedMetrics {
    DetailedMetrics {
        basic: SystemMetrics {
            cpu_usage: 0,
            total_memory: 100,
            used_memory: used,
            available_memory: 100 - used,
            load_average: LoadAvgWrapper { one: 0, five: 0, fifteen: 0 },
        },
        network: NetworkMetrics { rx_bytes: 0, tx_bytes: 0, connections: 0 },
        processes: Vec::new(),
        temperatures: Vec::new(),
        disks: Vec::new(),
        timestamp,
    }
}

struct Counting {
    told: Arc<AtomicUsize>,
}

impl Notifier for Counting {
    fn notify(&self, _message: &str) -> Result<(), NotifierError> {
        self.told.fetch_add(1, Ordering::SeqCst);
        Ok(())
    }
}

/// A notifier that reads the store while it is being told: it would block
/// for ever if the store held its lock while the rules are evaluated.
struct Reading {
    store: SharedStateStore,
    seen: Arc<Mutex<Vec<i64>>>,
}

impl Notifier for Reading {
    fn notify(&self, _message: &str) -> Result<(), NotifierError> {
        let (latest, history) = self.store.read().expect("the sample is stored first");
        assert_eq!(history.last().map(|s| s.timestamp), Some(latest.timestamp));
        self.seen.lock().expect("not poisoned").push(latest.timestamp);
        Ok(())
    }
}

#[test]
fn store_starts_with_the_state_it_is_given() {
    let store = SharedStateStore::new(AppState::new());
    assert!(store.read().is_none());
    let mut state = AppState::new();
    state.update(Arc::new(store_sample(7, 1)));
    let store = SharedStateStore::new(state);
    let (latest, history) = store.read().expect("a sample was stored");
    assert_eq!(latest.timestamp, 7);
    assert_eq!(history.len(), 1);
}

#[test]
fn store_update_shows_in_every_handle() {
    let store = SharedStateStore::new(AppState::with_capacity(2).expect("two places"));
    let other = store.clone();
    store.update(Arc::new(store_sample(1, 1)));
    other.update(Arc::new(store_sample(2, 1)));
    store.update(Arc::new(store_sample(3, 1)));
    let (latest, history) = other.read().expect("a sample was stored");
    assert_eq!(latest.timestamp, 3);
    let stamps: Vec<i64> = history.iter().map(|s| s.timestamp).collect();
    assert_eq!(stamps, vec![2, 3]);
}

#[test]
fn store_record_keeps_the_state_on_failure() {
    let store = SharedStateStore::new(AppState::new());
    let stored = store.record(Ok(store_sample(1, 10))).expect("a sample was collected");
    assert_eq!(*stored, store_sample(1, 10));
    let before = store.read().expect("a sample was stored");
    let failed = store.record(Err(CollectionError { reason: "down".to_string() }));
    assert_eq!(failed, Err(CollectionError { reason: "down".to_string() }));
    let after = store.read().expect("a sample was stored");
    assert_eq!(after.0, before.0);
    assert_eq!(after.1, before.1);
    assert_eq!(after.1.len(), 1);
}

#[test]
fn store_tick_evaluates_rules_after_storing_and_without_the_lock() {
    let store = SharedStateStore::new(AppState::new());
    let seen = Arc::new(Mutex::new(Vec::new()));
    let mut alerts: AlertManager<Reading> = AlertManager::new();
    alerts.add_rule(AlertRule::memory_warning());
    alerts.add_notifier(Reading { store: store.clone(), seen: seen.clone() });
    for (timestamp, used) in [(1, 50), (2, 85), (3, 95), (4, 10)] {
        let report = store.tick(&alerts, Ok(store_sample(timestamp, used)));
        assert!(matches!(report, TickReport::Stored { .. }));
    }
    assert_eq!(*seen.lock().expect("not poisoned"), vec![2, 3]);
}

#[test]
fn store_tick_with_failed_collection_changes_nothing() {
    let store = SharedStateStore::new(AppState::new());
    let told = Arc::new(AtomicUsize::new(0));
    let mut alerts: AlertManager<Counting> = AlertManager::new();
    alerts.add_rule(AlertRule::memory_warning());
    alerts.add_notifier(Counting { told: told.clone() });
    let _ = store.tick(&alerts, Ok(store_sample(1, 99)));
    let _ = store.tick(&alerts, Ok(store_sample(2, 99)));
    assert_eq!(told.load(Ordering::SeqCst), 2);
    let before = store.read().expect("a sample was stored");

    let report = store.tick(&alerts, Err(CollectionError { reason: "down".to_string() }));
    assert_eq!(
        report,
        TickReport::Skipped { error: CollectionError { reason: "down".to_string() } }
    );
    let after = store.read().expect("a sample was stored");
    assert_eq!(after.0.timestamp, 2);
    assert_eq!(after.0, before.0);
    assert_eq!(after.1.len(), before.1.len());
    assert_eq!(after.1, before.1);
    assert_eq!(told.load(Ordering::SeqCst), 2);
}

#[test]
fn store_reads_are_consistent_between_interleaved_updates() {
    let store = SharedStateStore::new(AppState::with_capacity(8).expect("eight places"));
    let readers = [store.clone(), store.clone(), store.clone()];
    let mut last_seen = [-1i64; 3];
    for i in 0..500 {
        store.update(Arc::new(store_sample(i, 1)));
        for (k, reader) in readers.iter().enumerate() {
            if (i as usize + k) % 3 == 0 {
                continue;
            }
            let (latest, history) = reader.read().expect("a sample was stored");
            assert!(history.len() <= 8);
            assert!(Arc::ptr_eq(history.last().expect("not empty"), &latest));
            for pair in history.windows(2) {
                assert_eq!(pair[0].timestamp + 1, pair[1].timestamp);
            }
            assert!(latest.timestamp >= last_seen[k]);
            last_seen[k] = latest.timestamp;
        }
    }
    let (latest, history) = store.read().expect("a sample was stored");
    assert_eq!(latest.timestamp, 499);
    assert_eq!(history.len(), 8);
    assert_eq!(history[0].timestamp, 492);
}
