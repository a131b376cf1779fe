//! What one frame of the dashboard shows, computed from the sample in hand
//! and the recorded history. Drawing it is left to the terminal.

use vstd::prelude::*;
use vstd::string::*;
use crate::monitor::spec_memory_percentage;
use crate::monitor::calculate_memory_percentage;
use crate::monitor::DetailedMetrics;
use crate::monitor::MetricsHistory;
use crate::text::divide_round_half_even;
use crate::text::fixed_two_decimals;
use crate::text::lemma_round_half_even_bound;
use crate::text::push_fixed_two_decimals;
use crate::text::round_half_even;

verus! {

/// The content of one frame.
#[derive(Debug, PartialEq, Eq)]
pub struct DashboardFrame {
    /// CPU usage in whole percent, for the gauge.
    pub cpu_percent: u16,
    /// Share of memory in use in whole percent, for the gauge.
    pub memory_percent: u16,
    /// The lines of the network panel.
    pub network_text: String,
    /// The CPU series, for the chart.
    pub cpu_data: Vec<(u64, u32)>,
    /// The memory series, for the chart.
    pub memory_data: Vec<(u64, u64)>,
}

/// Hundredths of a percent as whole percent, the fraction dropped, and no
/// more than a gauge value can hold.
pub open spec fn whole_percent(hundredths: u64) -> u16 {
    if hundredths / 100 > u16::MAX {
        u16::MAX
    } else {
        (hundredths / 100) as u16
    }
}

/// Hundredths of a percent as whole percent, the fraction dropped.
pub fn to_whole_percent(hundredths: u64) -> (percent: u16)
    ensures
        percent == whole_percent(hundredths),
{
    let percent = hundredths / 100;
    if percent > 0xffff {
        0xffff
    } else {
        percent as u16
    }
}

/// A count of bytes in hundredths of a megabyte, rounded to the nearest, a
/// tie going to the even one.
pub open spec fn megabyte_hundredths(bytes: u64) -> nat {
    round_half_even(bytes as nat, 10000)
}

/// The lines of the network panel: bytes received and sent, in megabytes
/// with two decimals.
pub open spec fn spec_network_text(rx_bytes: u64, tx_bytes: u64) -> Seq<char> {
    "Network:\nRX: "@ + fixed_two_decimals(megabyte_hundredths(rx_bytes)) + " MB\nTX: "@
        + fixed_two_decimals(megabyte_hundredths(tx_bytes)) + " MB"@
}

/// The lines of the network panel.
pub fn network_text(rx_bytes: u64, tx_bytes: u64) -> (text: String)
    ensures
        text@ == spec_network_text(rx_bytes, tx_bytes),
{
    proof {
        lemma_round_half_even_bound(rx_bytes as nat, 10000);
        lemma_round_half_even_bound(tx_bytes as nat, 10000);
    }
    let rx = divide_round_half_even(rx_bytes as u128, 10000);
    let tx = divide_round_half_even(tx_bytes as u128, 10000);
    let mut text = String::from_str("Network:\nRX: ");
    push_fixed_two_decimals(&mut text, rx as u64);
    text.append(" MB\nTX: ");
    push_fixed_two_decimals(&mut text, tx as u64);
    text.append(" MB");
    text
}

/// The frame for `metrics` with the series of `history`: the gauges and the
/// network panel show the sample, the charts show the history.
pub fn render_frame(history: &MetricsHistory, metrics: &DetailedMetrics) -> (frame: DashboardFrame)
    ensures
        frame.cpu_percent == whole_percent(metrics@.basic.cpu_usage as u64),
        frame.memory_percent == whole_percent(
            spec_memory_percentage(metrics@.basic.used_memory, metrics@.basic.total_memory),
        ),
        frame.network_text@ == spec_network_text(
            metrics@.network.rx_bytes,
            metrics@.network.tx_bytes,
        ),
        frame.cpu_data@.len() == history.cpu_points().len(),
        forall|i: int|
            0 <= i < frame.cpu_data@.len() ==> #[trigger] frame.cpu_data@[i] == (
                i as u64,
                history.cpu_points()[i].1,
            ),
        frame.memory_data@.len() == history.memory_points().len(),
        forall|i: int|
            0 <= i < frame.memory_data@.len() ==> #[trigger] frame.memory_data@[i] == (
                i as u64,
                history.memory_points()[i].1,
            ),
{
    DashboardFrame {
        cpu_percent: to_whole_percent(metrics.basic.cpu_usage as u64),
        memory_percent: to_whole_percent(
            calculate_memory_percentage(metrics.basic.used_memory, metrics.basic.total_memory),
        ),
        network_text: network_text(metrics.network.rx_bytes, metrics.network.tx_bytes),
        cpu_data: history.get_cpu_data(),
        memory_data: history.get_memory_data(),
    }
}

} // verus!
