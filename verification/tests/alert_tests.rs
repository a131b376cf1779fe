use memory_monitor::alert::AlertManager;
use memory_monitor::alert::AlertMetric;
use memory_monitor::alert::AlertRule;
use memory_monitor::alert::FiredAlert;
use memory_monitor::alert::Notifier;
use memory_monitor::config::MEMORY_CRITICAL_THRESHOLD;
use memory_monitor::config::MEMORY_WARNING_THRESHOLD;
use memory_monitor::error::NotifierError;
use memory_monitor::monitor::DetailedMetrics;
use memory_monitor::monitor::LoadAvgWrapper;
use memory_monitor::monitor::NetworkMetrics;
use memory_monitor::monitor::SystemMetrics;
use std::cell::RefCell;
use std::rc::Rc;

fn usage_sample(used: u64, total: u64, cpu_usage: u32) -> DetailedMetrics {
    DetailedMetrics {
        basic: SystemMetrics {
            cpu_usage,
            total_memory: total,
            used_memory: used,
            available_memory: 0,
            load_average: LoadAvgWrapper { one: 0, five: 0, fifteen: 0 },
        },
        network: NetworkMetrics { rx_bytes: 0, tx_bytes: 0, connections: 0 },
        processes: Vec::new(),
        temperatures: Vec::new(),
        disks: Vec::new(),
        timestamp: 0,
    }
}

struct Collecting {
    seen: Rc<RefCell<Vec<String>>>,
}

impl Notifier for Collecting {
    fn notify(&self, message: &str) -> Result<(), NotifierError> {
        self.seen.borrow_mut().push(message.to_string());
        Ok(())
    }
}

struct Failing {
    calls: Rc<RefCell<usize>>,
}

impl Notifier for Failing {
    fn notify(&self, _message: &str) -> Result<(), NotifierError> {
        *self.calls.borrow_mut() += 1;
        Err(NotifierError { reason: "no route".to_string() })
    }
}

fn names(report: &Vec<FiredAlert>) -> Vec<String> {
    let mut out = Vec::new();
    for alert in report {
        out.push(alert.name.clone());
    }
    out
}

#[test]
fn default_rules_have_the_documented_thresholds() {
    assert_eq!(MEMORY_WARNING_THRESHOLD, 8000);
    assert_eq!(MEMORY_CRITICAL_THRESHOLD, 9000);
    let warning = AlertRule::memory_warning();
    assert_eq!(warning.name, "memory_warning");
    assert_eq!(warning.metric, AlertMetric::MemoryUsage);
    assert_eq!(warning.threshold, 8000);
    assert_eq!(warning.description, "Memory usage rate is high");
    let critical = AlertRule::memory_critical();
    assert_eq!(critical.name, "memory_critical");
    assert_eq!(critical.metric, AlertMetric::MemoryUsage);
    assert_eq!(critical.threshold, 9000);
    assert_eq!(critical.description, "Memory usage rate reached dangerous level");
}

#[test]
fn alerts_fire_level_triggered() {
    let seen = Rc::new(RefCell::new(Vec::new()));
    let mut manager: AlertManager<Collecting> = AlertManager::new();
    manager.add_rule(AlertRule::memory_warning());
    manager.add_rule(AlertRule::memory_critical());
    manager.add_notifier(Collecting { seen: seen.clone() });

    let mut fired = Vec::new();
    for percent in [75u64, 85, 95, 85, 70] {
        let report = manager.check_alerts(&usage_sample(percent, 100, 0));
        fired.push(names(&report));
    }
    let none: Vec<String> = Vec::new();
    assert_eq!(fired[0], none);
    assert_eq!(fired[1], vec!["memory_warning".to_string()]);
    assert_eq!(
        fired[2],
        vec!["memory_warning".to_string(), "memory_critical".to_string()]
    );
    assert_eq!(fired[3], vec!["memory_warning".to_string()]);
    assert_eq!(fired[4], none);
    assert_eq!(
        *seen.borrow(),
        vec![
            "Memory usage rate is high: 85.0%".to_string(),
            "Memory usage rate is high: 95.0%".to_string(),
            "Memory usage rate reached dangerous level: 95.0%".to_string(),
            "Memory usage rate is high: 85.0%".to_string(),
        ]
    );
}

#[test]
fn alert_fires_again_while_the_condition_holds() {
    let seen = Rc::new(RefCell::new(Vec::new()));
    let mut manager: AlertManager<Collecting> = AlertManager::new();
    manager.add_rule(AlertRule::memory_warning());
    manager.add_notifier(Collecting { seen: seen.clone() });
    for _ in 0..3 {
        let report = manager.check_alerts(&usage_sample(85, 100, 0));
        assert_eq!(report.len(), 1);
    }
    assert_eq!(seen.borrow().len(), 3);
}

#[test]
fn alert_thresholds_are_inclusive() {
    let manager_with = |rule: AlertRule| {
        let mut manager: AlertManager<Collecting> = AlertManager::new();
        manager.add_rule(rule);
        manager
    };
    let warning = manager_with(AlertRule::memory_warning());
    assert_eq!(warning.check_alerts(&usage_sample(7999, 10000, 0)).len(), 0);
    assert_eq!(warning.check_alerts(&usage_sample(8000, 10000, 0)).len(), 1);
    assert_eq!(warning.check_alerts(&usage_sample(80, 100, 0)).len(), 1);
    let critical = manager_with(AlertRule::memory_critical());
    assert_eq!(critical.check_alerts(&usage_sample(8999, 10000, 0)).len(), 0);
    assert_eq!(critical.check_alerts(&usage_sample(90, 100, 0)).len(), 1);
    assert_eq!(critical.check_alerts(&usage_sample(100, 100, 0)).len(), 1);
}

#[test]
fn failing_notifier_does_not_stop_the_next_one() {
    let seen = Rc::new(RefCell::new(Vec::new()));
    let calls = Rc::new(RefCell::new(0usize));
    let mut manager: AlertManager<Box<dyn Notifier>> = AlertManager::new();
    manager.add_rule(AlertRule::memory_warning());
    manager.add_rule(AlertRule::memory_critical());
    manager.add_notifier(Box::new(Failing { calls: calls.clone() }));
    manager.add_notifier(Box::new(Collecting { seen: seen.clone() }));
    assert_eq!(manager.rule_count(), 2);
    assert_eq!(manager.notifier_count(), 2);

    let report = manager.check_alerts(&usage_sample(95, 100, 0));
    assert_eq!(report.len(), 2);
    for alert in &report {
        assert_eq!(alert.outcomes.len(), 2);
        assert_eq!(
            alert.outcomes[0],
            Err(NotifierError { reason: "no route".to_string() })
        );
        assert_eq!(alert.outcomes[1], Ok(()));
        assert_eq!(alert.failed_notifiers(), vec![0]);
        assert!(!alert.delivered_everywhere());
    }
    assert_eq!(*calls.borrow(), 2);
    assert_eq!(
        *seen.borrow(),
        vec![
            "Memory usage rate is high: 95.0%".to_string(),
            "Memory usage rate reached dangerous level: 95.0%".to_string(),
        ]
    );
}

#[test]
fn notifiers_are_told_in_registration_order() {
    let seen = Rc::new(RefCell::new(Vec::new()));
    struct Tagged {
        tag: String,
        seen: Rc<RefCell<Vec<String>>>,
    }
    impl Notifier for Tagged {
        fn notify(&self, message: &str) -> Result<(), NotifierError> {
            self.seen.borrow_mut().push(format!("{}:{}", self.tag, message));
            Ok(())
        }
    }
    let mut manager: AlertManager<Tagged> = AlertManager::new();
    manager.add_rule(AlertRule::memory_critical());
    manager.add_rule(AlertRule::memory_warning());
    manager.add_notifier(Tagged { tag: "a".to_string(), seen: seen.clone() });
    manager.add_notifier(Tagged { tag: "b".to_string(), seen: seen.clone() });
    let report = manager.check_alerts(&usage_sample(91, 100, 0));
    assert_eq!(report.len(), 2);
    assert_eq!(report[0].rule, 0);
    assert_eq!(report[1].rule, 1);
    assert!(report[0].delivered_everywhere());
    assert_eq!(report[0].failed_notifiers(), Vec::<usize>::new());
    assert_eq!(
        *seen.borrow(),
        vec![
            "a:Memory usage rate reached dangerous level: 91.0%".to_string(),
            "b:Memory usage rate reached dangerous level: 91.0%".to_string(),
            "a:Memory usage rate is high: 91.0%".to_string(),
            "b:Memory usage rate is high: 91.0%".to_string(),
        ]
    );
}

#[test]
fn manager_without_rules_or_notifiers() {
    let empty: AlertManager<Collecting> = AlertManager::new();
    assert_eq!(empty.rule_count(), 0);
    assert_eq!(empty.notifier_count(), 0);
    assert!(empty.check_alerts(&usage_sample(99, 100, 0)).is_empty());
    assert!(empty.notify_all("anything").is_empty());

    let mut silent: AlertManager<Collecting> = AlertManager::new();
    silent.add_rule(AlertRule::memory_warning());
    let report = silent.check_alerts(&usage_sample(99, 100, 0));
    assert_eq!(report.len(), 1);
    assert_eq!(report[0].message, "Memory usage rate is high: 99.0%");
    assert!(report[0].outcomes.is_empty());
    assert!(report[0].delivered_everywhere());
}

#[test]
fn zeroed_memory_fires_nothing() {
    let mut manager: AlertManager<Collecting> = AlertManager::new();
    manager.add_rule(AlertRule::memory_warning());
    manager.add_rule(AlertRule::memory_critical());
    assert!(manager.check_alerts(&usage_sample(0, 0, 0)).is_empty());
}

#[test]
fn cpu_rule_watches_the_cpu_usage() {
    let rule = AlertRule {
        name: "cpu_busy".to_string(),
        metric: AlertMetric::CpuUsage,
        threshold: 9500,
        description: "CPU is busy".to_string(),
    };
    assert!(!rule.condition(&usage_sample(99, 100, 9499)));
    assert!(rule.condition(&usage_sample(0, 100, 9500)));
    assert_eq!(rule.message(&usage_sample(0, 100, 9876)), "CPU is busy: 98.8%");
    assert_eq!(AlertMetric::CpuUsage.value(&usage_sample(1, 2, 1234)), 1234);
    assert_eq!(AlertMetric::MemoryUsage.value(&usage_sample(1, 2, 1234)), 5000);
}

#[test]
fn rule_message_rounds_to_one_decimal() {
    let rule = AlertRule::memory_warning();
    assert_eq!(
        rule.message(&usage_sample(8544, 10000, 0)),
        "Memory usage rate is high: 85.4%"
    );
    assert_eq!(
        rule.message(&usage_sample(8546, 10000, 0)),
        "Memory usage rate is high: 85.5%"
    );
    assert_eq!(
        rule.message(&usage_sample(8545, 10000, 0)),
        "Memory usage rate is high: 85.4%"
    );
    assert_eq!(
        rule.message(&usage_sample(8555, 10000, 0)),
        "Memory usage rate is high: 85.6%"
    );
}

#[test]
fn notify_all_reports_each_outcome() {
    let seen = Rc::new(RefCell::new(Vec::new()));
    let calls = Rc::new(RefCell::new(0usize));
    let mut manager: AlertManager<Box<dyn Notifier>> = AlertManager::new();
    manager.add_notifier(Box::new(Collecting { seen: seen.clone() }));
    manager.add_notifier(Box::new(Failing { calls: calls.clone() }));
    manager.add_notifier(Box::new(Collecting { seen: seen.clone() }));
    let outcomes = manager.notify_all("hello");
    assert_eq!(outcomes.len(), 3);
    assert!(outcomes[0].is_ok());
    assert!(outcomes[1].is_err());
    assert!(outcomes[2].is_ok());
    assert_eq!(*seen.borrow(), vec!["hello".to_string(), "hello".to_string()]);
}
