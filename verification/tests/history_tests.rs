use memory_monitor::history::HistoryBuffer;
use memory_monitor::history::HISTORY_SIZE;
use memory_monitor::monitor::DetailedMetrics;
use memory_monitor::monitor::DiskMetrics;
use memory_monitor::monitor::LoadAvgWrapper;
use memory_monitor::monitor::NetworkMetrics;
use memory_monitor::monitor::ProcessMetrics;
use memory_monitor::monitor::SystemMetrics;
use memory_monitor::monitor::Temperature;
use std::sync::Arc;

fn sample(timestamp: i64) -> DetailedMetrics {
    DetailedMetrics {
        basic: SystemMetrics {
            cpu_usage: 1250,
            total_memory: 100,
            used_memory: 10,
            available_memory: 90,
            load_average: LoadAvgWrapper { one: 75, five: 50, fifteen: 25 },
        },
        network: NetworkMetrics { rx_bytes: 1, tx_bytes: 2, connections: 3 },
        processes: vec![ProcessMetrics {
            pid: 7,
            name: "init".to_string(),
            cpu_usage: 10,
            memory: 4096,
        }],
        temperatures: vec![Temperature { label: "core".to_string(), value: -350 }],
        disks: vec![DiskMetrics {
            name: "sda".to_string(),
            total_space: 10,
            available_space: 5,
            read_bytes: 0,
            write_bytes: 0,
        }],
        timestamp,
    }
}

fn timestamps(samples: &Vec<Arc<DetailedMetrics>>) -> Vec<i64> {
    let mut out = Vec::new();
    for s in samples {
        out.push(s.timestamp);
    }
    out
}

#[test]
fn history_never_exceeds_capacity() {
    let mut history = HistoryBuffer::new();
    assert_eq!(history.capacity(), HISTORY_SIZE);
    assert_eq!(HISTORY_SIZE, 100);
    assert!(history.is_empty());
    for i in 0..(3 * HISTORY_SIZE as i64) {
        history.push(Arc::new(sample(i)));
        assert!(history.len() <= HISTORY_SIZE);
        assert_eq!(history.len(), std::cmp::min(HISTORY_SIZE, i as usize + 1));
    }
    assert_eq!(history.len(), HISTORY_SIZE);
    assert!(!history.is_empty());
}

#[test]
fn history_is_full_after_exactly_capacity_pushes() {
    let mut history = HistoryBuffer::with_capacity(4);
    for i in 0..3 {
        history.push(Arc::new(sample(i)));
    }
    assert_eq!(history.len(), 3);
    history.push(Arc::new(sample(3)));
    assert_eq!(history.len(), 4);
    history.push(Arc::new(sample(4)));
    assert_eq!(history.len(), 4);
}

#[test]
fn history_evicts_first_in_first_out() {
    let capacity = 5;
    let mut history = HistoryBuffer::with_capacity(capacity);
    for i in 1..=(capacity as i64 + 1) {
        history.push(Arc::new(sample(i)));
    }
    assert_eq!(timestamps(&history.snapshot()), vec![2, 3, 4, 5, 6]);
}

#[test]
fn history_default_capacity_evicts_the_oldest() {
    let mut history = HistoryBuffer::new();
    for i in 1..=101 {
        history.push(Arc::new(sample(i)));
    }
    let kept = timestamps(&history.snapshot());
    assert_eq!(kept.len(), 100);
    assert_eq!(kept[0], 2);
    assert_eq!(kept[99], 101);
    for i in 0..100 {
        assert_eq!(kept[i], i as i64 + 2);
    }
}

#[test]
fn history_orders_by_insertion_not_by_timestamp() {
    let mut history = HistoryBuffer::with_capacity(3);
    for t in [50, 10, 40, 20] {
        history.push(Arc::new(sample(t)));
    }
    assert_eq!(timestamps(&history.snapshot()), vec![10, 40, 20]);
}

#[test]
fn history_snapshot_is_an_independent_copy() {
    let mut history = HistoryBuffer::with_capacity(2);
    history.push(Arc::new(sample(1)));
    history.push(Arc::new(sample(2)));
    let before = history.snapshot();
    history.push(Arc::new(sample(3)));
    assert_eq!(timestamps(&before), vec![1, 2]);
    assert_eq!(*before[0], sample(1));
    assert_eq!(*before[1], sample(2));
    assert_eq!(timestamps(&history.snapshot()), vec![2, 3]);
}

#[test]
fn history_snapshot_copies_every_field() {
    let mut history = HistoryBuffer::with_capacity(2);
    history.push(Arc::new(sample(9)));
    let copy = history.snapshot();
    assert_eq!(copy.len(), 1);
    assert_eq!(*copy[0], sample(9));
    assert_eq!(copy[0].processes[0].name, "init");
    assert_eq!(copy[0].temperatures[0].value, -350);
    assert_eq!(copy[0].disks[0].name, "sda");
}

#[test]
fn history_newest_sample_is_the_last_pushed() {
    let mut history = HistoryBuffer::with_capacity(2);
    assert!(history.newest_sample().is_none());
    history.push(Arc::new(sample(1)));
    history.push(Arc::new(sample(2)));
    history.push(Arc::new(sample(3)));
    assert_eq!(history.newest_sample().map(|s| s.timestamp), Some(3));
}

#[test]
fn history_of_no_places_stays_empty() {
    let mut history = HistoryBuffer::with_capacity(0);
    history.push(Arc::new(sample(1)));
    history.push(Arc::new(sample(2)));
    assert_eq!(history.len(), 0);
    assert!(history.snapshot().is_empty());
    assert!(history.newest_sample().is_none());
}

#[test]
fn history_of_one_place_keeps_the_newest() {
    let mut history = HistoryBuffer::with_capacity(1);
    history.push(Arc::new(sample(1)));
    history.push(Arc::new(sample(2)));
    assert_eq!(timestamps(&history.snapshot()), vec![2]);
}

#[test]
fn history_shares_the_sample_it_was_given() {
    let mut history = HistoryBuffer::with_capacity(2);
    let given = Arc::new(sample(4));
    history.push(given.clone());
    let first = history.snapshot();
    let second = history.snapshot();
    assert!(Arc::ptr_eq(&first[0], &given));
    assert!(Arc::ptr_eq(&second[0], &given));
    assert!(Arc::ptr_eq(history.newest_sample().expect("one sample"), &given));
}

#[test]
fn sample_clone_equals_the_original() {
    let original = sample(5);
    let copy = original.clone();
    assert_eq!(copy, original);
}
