use memory_monitor::cli::Args;
use memory_monitor::config::Config;
use memory_monitor::config::DisplayConfig;
use memory_monitor::config::BYTES_TO_GB;
use memory_monitor::config::UPDATE_INTERVAL;
use memory_monitor::error::MonitorError;
use memory_monitor::monitor::LoadAvgWrapper;
use memory_monitor::monitor::SystemMetrics;
use memory_monitor::storage::current_row;
use memory_monitor::storage::metrics_row;
use memory_monitor::storage::to_signed;
use memory_monitor::storage::MetricsRow;
use memory_monitor::text::decimal_string;
use memory_monitor::text::digit_str;
use memory_monitor::text::divide_round_half_even;
use memory_monitor::text::push_decimal;
use memory_monitor::text::push_decimal_two_places;
use memory_monitor::text::push_fixed_one_decimal;
use memory_monitor::text::push_fixed_two_decimals;
use memory_monitor::text::push_padded;
use memory_monitor::text::push_tenths;

fn basic(cpu_usage: u32, used: u64, total: u64) -> SystemMetrics {
    SystemMetrics {
        cpu_usage,
        total_memory: total,
        used_memory: used,
        available_memory: 0,
        load_average: LoadAvgWrapper { one: 0, five: 0, fifteen: 0 },
    }
}

#[test]
fn config_defaults() {
    let config = Config::default();
    assert_eq!(
        config,
        Config {
            update_interval: 1,
            log_level: "info".to_string(),
            log_dir: "logs".to_string(),
            max_log_size: 10485760,
            max_backup_files: 5,
            display: DisplayConfig {
                bar_width: 50,
                show_disk_info: true,
                show_system_load: true,
                refresh_rate: 1,
            },
        }
    );
    assert_eq!(DisplayConfig::default(), config.display);
    assert_eq!(UPDATE_INTERVAL, 1);
    assert_eq!(BYTES_TO_GB, 1024 * 1024 * 1024);
}

#[test]
fn args_hold_what_the_command_line_sets() {
    let args = Args {
        config: "config.json".to_string(),
        log_level: Some("debug".to_string()),
        interval: Some(5),
    };
    assert_eq!(args.config, "config.json");
    assert_eq!(args.log_level.as_deref(), Some("debug"));
    assert_eq!(args.interval, Some(5));
}

#[test]
fn error_messages_name_the_kind() {
    assert_eq!(MonitorError::Io("disk full".to_string()).message(), "IO error: disk full");
    assert_eq!(
        MonitorError::Config("bad interval".to_string()).message(),
        "Config error: bad interval"
    );
    assert_eq!(
        MonitorError::Database("locked".to_string()).message(),
        "Database error: locked"
    );
    assert_eq!(MonitorError::Logger("no dir".to_string()).message(), "Logger error: no dir");
    assert_eq!(MonitorError::Io(String::new()).message(), "IO error: ");
}

#[test]
fn signed_keeps_the_bits() {
    assert_eq!(to_signed(0), 0);
    assert_eq!(to_signed(42), 42);
    assert_eq!(to_signed(i64::MAX as u64), i64::MAX);
    assert_eq!(to_signed(i64::MAX as u64 + 1), i64::MIN);
    assert_eq!(to_signed(u64::MAX), -1);
    for value in [1u64, 1 << 40, (1 << 63) + 12345, u64::MAX - 7] {
        assert_eq!(to_signed(value), value as i64);
    }
}

#[test]
fn row_holds_the_columns() {
    assert_eq!(
        metrics_row(1700000000, &basic(1234, 8 << 30, 16 << 30)),
        MetricsRow {
            timestamp: 1700000000,
            cpu_usage: 1234,
            memory_used: 8 << 30,
            memory_total: 16 << 30,
        }
    );
    assert_eq!(
        metrics_row(-5, &basic(u32::MAX, u64::MAX, 1 << 63)),
        MetricsRow {
            timestamp: -5,
            cpu_usage: 4294967295,
            memory_used: -1,
            memory_total: i64::MIN,
        }
    );
}

#[test]
fn current_row_is_stamped_by_the_clock() {
    let first = current_row(&basic(100, 2, 3));
    let second = current_row(&basic(100, 2, 3));
    assert_eq!(first.cpu_usage, 100);
    assert_eq!(first.memory_used, 2);
    assert_eq!(first.memory_total, 3);
    // 2020-01-01 and 2200-01-01, in seconds since the epoch.
    assert!(first.timestamp > 1577836800);
    assert!(first.timestamp < 7258118400);
    assert!(second.timestamp - first.timestamp >= 0);
    assert!(second.timestamp - first.timestamp < 60);
}

#[test]
fn decimal_writes_numbers() {
    assert_eq!(decimal_string(0), "0");
    assert_eq!(decimal_string(7), "7");
    assert_eq!(decimal_string(10), "10");
    assert_eq!(decimal_string(1234567890), "1234567890");
    assert_eq!(decimal_string(u64::MAX), "18446744073709551615");
    for d in 0..10u64 {
        assert_eq!(digit_str(d), d.to_string());
    }
    let mut out = "n=".to_string();
    push_decimal(&mut out, 908);
    assert_eq!(out, "n=908");
}

#[test]
fn two_places_pad_with_a_zero() {
    for (n, expected) in [(0u64, "00"), (5, "05"), (9, "09"), (10, "10"), (59, "59"), (123, "123")] {
        let mut out = String::new();
        push_decimal_two_places(&mut out, n);
        assert_eq!(out, expected);
    }
}

#[test]
fn division_rounds_half_to_even() {
    assert_eq!(divide_round_half_even(0, 10), 0);
    assert_eq!(divide_round_half_even(4, 10), 0);
    assert_eq!(divide_round_half_even(5, 10), 0);
    assert_eq!(divide_round_half_even(6, 10), 1);
    assert_eq!(divide_round_half_even(15, 10), 2);
    assert_eq!(divide_round_half_even(25, 10), 2);
    assert_eq!(divide_round_half_even(35, 10), 4);
    assert_eq!(divide_round_half_even(7, 2), 4);
    assert_eq!(divide_round_half_even(5, 2), 2);
    assert_eq!(divide_round_half_even(7, 1), 7);
    assert_eq!(divide_round_half_even(1, 3), 0);
    assert_eq!(divide_round_half_even(2, 3), 1);
    assert_eq!(divide_round_half_even(u128::MAX, 1), u128::MAX);
    assert_eq!(divide_round_half_even(u128::MAX, 2), 1 << 127);
    assert_eq!(divide_round_half_even(u128::MAX, u128::MAX), 1);
}

#[test]
fn fixed_point_texts() {
    let two = |h: u64| {
        let mut out = String::new();
        push_fixed_two_decimals(&mut out, h);
        out
    };
    assert_eq!(two(0), "0.00");
    assert_eq!(two(5), "0.05");
    assert_eq!(two(1205), "12.05");
    assert_eq!(two(99999), "999.99");
    let one = |h: u64| {
        let mut out = String::new();
        push_fixed_one_decimal(&mut out, h);
        out
    };
    assert_eq!(one(0), "0.0");
    assert_eq!(one(4), "0.0");
    assert_eq!(one(5), "0.0");
    assert_eq!(one(6), "0.1");
    assert_eq!(one(15), "0.2");
    assert_eq!(one(8500), "85.0");
    assert_eq!(one(9995), "100.0");
    assert_eq!(one(u64::MAX), "184467440737095516.2");
    let mut out = "x".to_string();
    push_tenths(&mut out, 1234);
    assert_eq!(out, "x123.4");
}

#[test]
fn padding_fills_to_the_width() {
    let pad = |text: &str, width: usize| {
        let mut out = "[".to_string();
        push_padded(&mut out, text, width);
        out.push(']');
        out
    };
    assert_eq!(pad("ab", 5), "[ab   ]");
    assert_eq!(pad("", 3), "[   ]");
    assert_eq!(pad("abcde", 5), "[abcde]");
    assert_eq!(pad("abcdefg", 5), "[abcdefg]");
    assert_eq!(pad("ab", 0), "[ab]");
    assert_eq!(pad("äö", 4), "[äö  ]");
    assert_eq!(pad("äö", 4), format!("[{:<4}]", "äö"));
}
