//! The row that the persistence sink appends for a sample.

use vstd::prelude::*;
use crate::clock::unix_now;
use crate::monitor::SystemMetrics;

verus! {

/// One row of the metrics table, column by column.
#[derive(Debug, PartialEq, Eq, Clone, Copy)]
pub struct MetricsRow {
    /// Seconds since the Unix epoch at which the row was written.
    pub timestamp: i64,
    /// CPU usage, in hundredths of a percent.
    pub cpu_usage: i64,
    /// Memory in use, in bytes.
    pub memory_used: i64,
    /// Installed memory, in bytes.
    pub memory_total: i64,
}

/// The signed 64-bit integer with the bits of `value`: `value` itself
/// where it fits, and `value` less two to the 64th where it does not.
pub open spec fn as_signed(value: u64) -> i64 {
    if value <= i64::MAX {
        value as i64
    } else {
        (value - 0x1_0000_0000_0000_0000) as i64
    }
}

/// The signed 64-bit integer with the bits of `value`.
pub fn to_signed(value: u64) -> (signed: i64)
    ensures
        signed == as_signed(value),
{
    if value <= 0x7fff_ffff_ffff_ffff {
        value as i64
    } else {
        let low: u64 = value - 0x8000_0000_0000_0000;
        (low as i64) + i64::MIN
    }
}

/// The row for `metrics`, written at the time `timestamp`.
pub open spec fn spec_metrics_row(timestamp: i64, metrics: SystemMetrics) -> MetricsRow {
    MetricsRow {
        timestamp,
        cpu_usage: metrics.cpu_usage as i64,
        memory_used: as_signed(metrics.used_memory),
        memory_total: as_signed(metrics.total_memory),
    }
}

/// The row for `metrics`, written at the time `timestamp`.
pub fn metrics_row(timestamp: i64, metrics: &SystemMetrics) -> (row: MetricsRow)
    ensures
        row == spec_metrics_row(timestamp, *metrics),
{
    MetricsRow {
        timestamp,
        cpu_usage: metrics.cpu_usage as i64,
        memory_used: to_signed(metrics.used_memory),
        memory_total: to_signed(metrics.total_memory),
    }
}

/// The row for `metrics`, written at the time that the system clock reads.
pub fn current_row(metrics: &SystemMetrics) -> (row: MetricsRow)
    ensures
        row == spec_metrics_row(row.timestamp, *metrics),
{
    let now = unix_now();
    metrics_row(now, metrics)
}

} // verus!
