//! The sample: one timestamped snapshot of the host's metrics.
//!
//! Quantities that are fractional by nature are counted in hundredths: a CPU
//! usage of `1250` reads 12.50 %, a load average of `75` reads 0.75, a
//! temperature of `-350` reads -3.50 degrees.

use std::collections::VecDeque;
use vstd::prelude::*;
use vstd::std_specs::convert::FromSpecImpl;
use vstd::string::*;
use crate::clock::unix_now;
use crate::config::MEMORY_CRITICAL_THRESHOLD;
use crate::config::MEMORY_WARNING_THRESHOLD;
use crate::history::push_bounded;
use crate::history::HISTORY_SIZE;
use crate::order::lemma_insert_position;
use crate::order::sort_descending;
use crate::text::fixed_one_decimal;
use crate::text::push_fixed_one_decimal;

verus! {

/// Load averages over one, five and fifteen minutes, in hundredths.
#[derive(Debug, PartialEq, Eq, Clone, Copy)]
pub struct LoadAvgWrapper {
    pub one: u64,
    pub five: u64,
    pub fifteen: u64,
}

/// The scalar part of a sample.
#[derive(Debug, PartialEq, Eq, Clone, Copy)]
pub struct SystemMetrics {
    /// Overall CPU usage, in hundredths of a percent.
    pub cpu_usage: u32,
    /// Installed memory, in bytes.
    pub total_memory: u64,
    /// Memory in use, in bytes.
    pub used_memory: u64,
    /// Memory that can be handed out, in bytes.
    pub available_memory: u64,
    pub load_average: LoadAvgWrapper,
}

/// Traffic summed over all network interfaces.
#[derive(Debug, PartialEq, Eq, Clone, Copy)]
pub struct NetworkMetrics {
    pub rx_bytes: u64,
    pub tx_bytes: u64,
    /// Number of interfaces that were summed.
    pub connections: usize,
}

/// One running process.
#[derive(Debug, PartialEq, Eq)]
pub struct ProcessMetrics {
    pub pid: u32,
    pub name: String,
    /// CPU usage, in hundredths of a percent of one core.
    pub cpu_usage: u32,
    /// Resident memory, in bytes.
    pub memory: u64,
}

/// One temperature sensor.
#[derive(Debug, PartialEq, Eq)]
pub struct Temperature {
    pub label: String,
    /// Reading, in hundredths of a degree Celsius.
    pub value: i32,
}

/// One disk.
#[derive(Debug, PartialEq, Eq)]
pub struct DiskMetrics {
    pub name: String,
    pub total_space: u64,
    pub available_space: u64,
    pub read_bytes: u64,
    pub write_bytes: u64,
}

/// A full sample. Any of the three lists may be empty: a subsystem that
/// cannot be read contributes nothing, and that is no error.
#[derive(Debug, PartialEq, Eq)]
pub struct DetailedMetrics {
    pub basic: SystemMetrics,
    pub network: NetworkMetrics,
    pub processes: Vec<ProcessMetrics>,
    pub temperatures: Vec<Temperature>,
    pub disks: Vec<DiskMetrics>,
    /// Seconds since the Unix epoch at which the sample was taken.
    pub timestamp: i64,
}

/// What a [`ProcessMetrics`] holds, as a mathematical value.
pub struct ProcessMetricsView {
    pub pid: u32,
    pub name: Seq<char>,
    pub cpu_usage: u32,
    pub memory: u64,
}

/// What a [`Temperature`] holds, as a mathematical value.
pub struct TemperatureView {
    pub label: Seq<char>,
    pub value: i32,
}

/// What a [`DiskMetrics`] holds, as a mathematical value.
pub struct DiskMetricsView {
    pub name: Seq<char>,
    pub total_space: u64,
    pub available_space: u64,
    pub read_bytes: u64,
    pub write_bytes: u64,
}

/// What a [`DetailedMetrics`] holds, as a mathematical value.
pub struct DetailedMetricsView {
    pub basic: SystemMetrics,
    pub network: NetworkMetrics,
    pub processes: Seq<ProcessMetricsView>,
    pub temperatures: Seq<TemperatureView>,
    pub disks: Seq<DiskMetricsView>,
    pub timestamp: i64,
}

impl View for ProcessMetrics {
    type V = ProcessMetricsView;

    open spec fn view(&self) -> ProcessMetricsView {
        ProcessMetricsView {
            pid: self.pid,
            name: self.name@,
            cpu_usage: self.cpu_usage,
            memory: self.memory,
        }
    }
}

impl DeepView for ProcessMetrics {
    type V = ProcessMetricsView;

    open spec fn deep_view(&self) -> ProcessMetricsView {
        self@
    }
}

impl View for Temperature {
    type V = TemperatureView;

    open spec fn view(&self) -> TemperatureView {
        TemperatureView { label: self.label@, value: self.value }
    }
}

impl DeepView for Temperature {
    type V = TemperatureView;

    open spec fn deep_view(&self) -> TemperatureView {
        self@
    }
}

impl View for DiskMetrics {
    type V = DiskMetricsView;

    open spec fn view(&self) -> DiskMetricsView {
        DiskMetricsView {
            name: self.name@,
            total_space: self.total_space,
            available_space: self.available_space,
            read_bytes: self.read_bytes,
            write_bytes: self.write_bytes,
        }
    }
}

impl DeepView for DiskMetrics {
    type V = DiskMetricsView;

    open spec fn deep_view(&self) -> DiskMetricsView {
        self@
    }
}

impl View for DetailedMetrics {
    type V = DetailedMetricsView;

    open spec fn view(&self) -> DetailedMetricsView {
        DetailedMetricsView {
            basic: self.basic,
            network: self.network,
            processes: self.processes.deep_view(),
            temperatures: self.temperatures.deep_view(),
            disks: self.disks.deep_view(),
            timestamp: self.timestamp,
        }
    }
}

impl DeepView for DetailedMetrics {
    type V = DetailedMetricsView;

    open spec fn deep_view(&self) -> DetailedMetricsView {
        self@
    }
}

impl Clone for ProcessMetrics {
    fn clone(&self) -> (copy: Self)
        ensures
            copy@ == self@,
    {
        ProcessMetrics {
            pid: self.pid,
            name: self.name.clone(),
            cpu_usage: self.cpu_usage,
            memory: self.memory,
        }
    }
}

impl Clone for Temperature {
    fn clone(&self) -> (copy: Self)
        ensures
            copy@ == self@,
    {
        Temperature { label: self.label.clone(), value: self.value }
    }
}

impl Clone for DiskMetrics {
    fn clone(&self) -> (copy: Self)
        ensures
            copy@ == self@,
    {
        DiskMetrics {
            name: self.name.clone(),
            total_space: self.total_space,
            available_space: self.available_space,
            read_bytes: self.read_bytes,
            write_bytes: self.write_bytes,
        }
    }
}

/// Copies a list of processes, one by one.
pub fn clone_processes(list: &Vec<ProcessMetrics>) -> (copy: Vec<ProcessMetrics>)
    ensures
        copy.deep_view() == list.deep_view(),
{
    let mut copy: Vec<ProcessMetrics> = Vec::new();
    let mut i: usize = 0;
    while i < list.len()
        invariant
            i <= list@.len(),
            copy@.len() == i,
            forall|j: int| 0 <= j < i ==> (#[trigger] copy@[j])@ == list@[j]@,
        decreases list@.len() - i,
    {
        copy.push(list[i].clone());
        i = i + 1;
    }
    assert(copy.deep_view() =~= list.deep_view());
    copy
}

/// Copies a list of temperature readings, one by one.
pub fn clone_temperatures(list: &Vec<Temperature>) -> (copy: Vec<Temperature>)
    ensures
        copy.deep_view() == list.deep_view(),
{
    let mut copy: Vec<Temperature> = Vec::new();
    let mut i: usize = 0;
    while i < list.len()
        invariant
            i <= list@.len(),
            copy@.len() == i,
            forall|j: int| 0 <= j < i ==> (#[trigger] copy@[j])@ == list@[j]@,
        decreases list@.len() - i,
    {
        copy.push(list[i].clone());
        i = i + 1;
    }
    assert(copy.deep_view() =~= list.deep_view());
    copy
}

/// Copies a list of disks, one by one.
pub fn clone_disks(list: &Vec<DiskMetrics>) -> (copy: Vec<DiskMetrics>)
    ensures
        copy.deep_view() == list.deep_view(),
{
    let mut copy: Vec<DiskMetrics> = Vec::new();
    let mut i: usize = 0;
    while i < list.len()
        invariant
            i <= list@.len(),
            copy@.len() == i,
            forall|j: int| 0 <= j < i ==> (#[trigger] copy@[j])@ == list@[j]@,
        decreases list@.len() - i,
    {
        copy.push(list[i].clone());
        i = i + 1;
    }
    assert(copy.deep_view() =~= list.deep_view());
    copy
}

impl Clone for DetailedMetrics {
    fn clone(&self) -> (copy: Self)
        ensures
            copy@ == self@,
    {
        DetailedMetrics {
            basic: self.basic,
            network: self.network,
            processes: clone_processes(&self.processes),
            temperatures: clone_temperatures(&self.temperatures),
            disks: clone_disks(&self.disks),
            timestamp: self.timestamp,
        }
    }
}

/// The share of memory in use, in hundredths of a percent, rounded down.
///
/// With no memory installed the share is zero where nothing is in use and
/// beyond every threshold where something is. A share too large for the
/// result is capped at the largest value.
pub open spec fn spec_memory_percentage(used: u64, total: u64) -> u64 {
    if total == 0 {
        if used == 0 {
            0
        } else {
            u64::MAX
        }
    } else if used * 10000 / (total as int) > u64::MAX {
        u64::MAX
    } else {
        (used * 10000 / (total as int)) as u64
    }
}

/// The share of memory in use, in hundredths of a percent, rounded down.
pub fn calculate_memory_percentage(used: u64, total: u64) -> (share: u64)
    ensures
        share == spec_memory_percentage(used, total),
{
    if total == 0 {
        if used == 0 {
            0
        } else {
            u64::MAX
        }
    } else {
        let scaled: u128 = (used as u128) * 10000;
        let share: u128 = scaled / (total as u128);
        if share > u64::MAX as u128 {
            u64::MAX
        } else {
            share as u64
        }
    }
}

/// A share of at least `threshold` whole percent is the same as that many
/// hundredths of the installed memory being in use.
pub proof fn lemma_memory_percentage_threshold(used: u64, total: u64, percent: u64)
    requires
        total > 0,
        percent <= 100,
    ensures
        spec_memory_percentage(used, total) >= percent * 100 <==> used * 100 >= percent * total,
{
    let quotient = used * 10000 / (total as int);
    assert(quotient >= percent * 100 <==> used * 10000 >= percent * 100 * total) by (nonlinear_arith)
        requires
            quotient == used * 10000 / (total as int),
            total > 0,
    ;
    assert(used * 10000 >= percent * 100 * total <==> used * 100 >= percent * total)
        by (nonlinear_arith);
}

/// How the share of memory in use compares with the two thresholds. The
/// share travels with the state, in hundredths of a percent.
#[derive(Debug, PartialEq, Eq, Clone, Copy)]
pub enum MemoryUsageState {
    /// At or above [`MEMORY_CRITICAL_THRESHOLD`].
    Critical(u64),
    /// At or above [`MEMORY_WARNING_THRESHOLD`], below the critical one.
    Warning(u64),
    /// Below both.
    Normal,
}

impl From<u64> for MemoryUsageState {
    fn from(usage: u64) -> (state: Self) {
        if usage >= MEMORY_CRITICAL_THRESHOLD {
            MemoryUsageState::Critical(usage)
        } else if usage >= MEMORY_WARNING_THRESHOLD {
            MemoryUsageState::Warning(usage)
        } else {
            MemoryUsageState::Normal
        }
    }
}

impl FromSpecImpl<u64> for MemoryUsageState {
    open spec fn obeys_from_spec() -> bool {
        true
    }

    open spec fn from_spec(usage: u64) -> Self {
        memory_usage_state(usage)
    }
}

/// The state that a share of memory in use, in hundredths of a percent,
/// amounts to.
pub open spec fn memory_usage_state(usage: u64) -> MemoryUsageState {
    if usage >= MEMORY_CRITICAL_THRESHOLD {
        MemoryUsageState::Critical(usage)
    } else if usage >= MEMORY_WARNING_THRESHOLD {
        MemoryUsageState::Warning(usage)
    } else {
        MemoryUsageState::Normal
    }
}

/// How loudly a memory alert is to be logged.
#[derive(Debug, PartialEq, Eq, Clone, Copy)]
pub enum Severity {
    Warning,
    Critical,
}

/// What is to be logged about the memory in use.
#[derive(Debug, PartialEq, Eq)]
pub struct MemoryAlert {
    pub severity: Severity,
    pub message: String,
}

/// The alert that a share of memory in use calls for, if any.
pub open spec fn spec_memory_alert(usage: u64) -> Option<(Severity, Seq<char>)> {
    match memory_usage_state(usage) {
        MemoryUsageState::Critical(share) => Some(
            (
                Severity::Critical,
                "Memory usage rate reached dangerous level: "@ + fixed_one_decimal(share as nat)
                    + "%"@,
            ),
        ),
        MemoryUsageState::Warning(share) => Some(
            (
                Severity::Warning,
                "Memory usage rate is high: "@ + fixed_one_decimal(share as nat) + "%"@,
            ),
        ),
        MemoryUsageState::Normal => None,
    }
}

/// Decides what to log about a share of memory in use, given in hundredths
/// of a percent: nothing below the warning threshold, a warning from there,
/// and an error from the critical threshold.
pub fn check_memory_usage(usage_percentage: u64) -> (alert: Option<MemoryAlert>)
    ensures
        match alert {
            Some(found) => spec_memory_alert(usage_percentage) == Some(
                (found.severity, found.message@),
            ),
            None => spec_memory_alert(usage_percentage) is None,
        },
{
    match MemoryUsageState::from(usage_percentage) {
        MemoryUsageState::Critical(share) => {
            let mut message = String::from_str("Memory usage rate reached dangerous level: ");
            push_fixed_one_decimal(&mut message, share);
            message.append("%");
            Some(MemoryAlert { severity: Severity::Critical, message })
        },
        MemoryUsageState::Warning(share) => {
            let mut message = String::from_str("Memory usage rate is high: ");
            push_fixed_one_decimal(&mut message, share);
            message.append("%");
            Some(MemoryAlert { severity: Severity::Warning, message })
        },
        MemoryUsageState::Normal => None,
    }
}

/// The CPU usage and the share of memory in use of the most recent samples,
/// each with the time at which it was recorded, oldest first. No more than
/// [`HISTORY_SIZE`] points of either are kept.
#[derive(Debug)]
pub struct MetricsHistory {
    cpu_history: VecDeque<(i64, u32)>,
    memory_history: VecDeque<(i64, u64)>,
}

impl MetricsHistory {
    /// The CPU points: time of recording and usage in hundredths of a
    /// percent, oldest first.
    pub closed spec fn cpu_points(&self) -> Seq<(i64, u32)> {
        self.cpu_history@
    }

    /// The memory points: time of recording and share in use in hundredths
    /// of a percent, oldest first.
    pub closed spec fn memory_points(&self) -> Seq<(i64, u64)> {
        self.memory_history@
    }

    /// Neither series is longer than [`HISTORY_SIZE`]. This holds of every
    /// history that a program has in hand.
    #[verifier::type_invariant]
    pub closed spec fn wf(&self) -> bool {
        &&& self.cpu_history@.len() <= HISTORY_SIZE
        &&& self.memory_history@.len() <= HISTORY_SIZE
    }

    /// A well-formed history is within its bound.
    pub proof fn lemma_wf_bound(&self)
        requires
            self.wf(),
        ensures
            self.cpu_points().len() <= HISTORY_SIZE,
            self.memory_points().len() <= HISTORY_SIZE,
    {
    }

    /// `self` is `before` after `sample` was recorded at the time `now`.
    pub open spec fn recorded_from(
        &self,
        before: MetricsHistory,
        now: i64,
        sample: DetailedMetricsView,
    ) -> bool {
        &&& self.cpu_points() == push_bounded(
            before.cpu_points(),
            HISTORY_SIZE as nat,
            (now, sample.basic.cpu_usage),
        )
        &&& self.memory_points() == push_bounded(
            before.memory_points(),
            HISTORY_SIZE as nat,
            (now, spec_memory_percentage(sample.basic.used_memory, sample.basic.total_memory)),
        )
    }

    /// A history without points.
    pub fn new() -> (history: Self)
        ensures
            history.cpu_points() == Seq::<(i64, u32)>::empty(),
            history.memory_points() == Seq::<(i64, u64)>::empty(),
    {
        MetricsHistory {
            cpu_history: VecDeque::with_capacity(HISTORY_SIZE),
            memory_history: VecDeque::with_capacity(HISTORY_SIZE),
        }
    }

    /// Records the CPU usage and the share of memory in use of `metrics` as
    /// the newest points, taken at the time `now`. Where a series is full
    /// its oldest point leaves.
    pub fn record(&mut self, now: i64, metrics: &DetailedMetrics)
        ensures
            final(self).recorded_from(*old(self), now, metrics@),
    {
        broadcast use vstd::std_specs::vecdeque::group_vec_dequeue_axioms;

        proof {
            use_type_invariant(&*self);
        }
        // Each series is taken out, changed and put back, so that the
        // history is within its bound at every point.
        let mut cpu_history: VecDeque<(i64, u32)> = VecDeque::new();
        std::mem::swap(&mut self.cpu_history, &mut cpu_history);
        cpu_history.push_back((now, metrics.basic.cpu_usage));
        if cpu_history.len() > HISTORY_SIZE {
            let _ = cpu_history.pop_front();
        }
        self.cpu_history = cpu_history;

        let memory_usage = calculate_memory_percentage(
            metrics.basic.used_memory,
            metrics.basic.total_memory,
        );
        let mut memory_history: VecDeque<(i64, u64)> = VecDeque::new();
        std::mem::swap(&mut self.memory_history, &mut memory_history);
        memory_history.push_back((now, memory_usage));
        if memory_history.len() > HISTORY_SIZE {
            let _ = memory_history.pop_front();
        }
        self.memory_history = memory_history;
        proof {
            assert(self.cpu_points() =~= push_bounded(
                old(self).cpu_points(),
                HISTORY_SIZE as nat,
                (now, metrics.basic.cpu_usage),
            ));
            assert(self.memory_points() =~= push_bounded(
                old(self).memory_points(),
                HISTORY_SIZE as nat,
                (now, memory_usage),
            ));
        }
    }

    /// Records the CPU usage and the share of memory in use of `metrics` as
    /// the newest points, taken at the time that the system clock reads.
    pub fn add_metrics(&mut self, metrics: &DetailedMetrics)
        ensures
            exists|now: i64| #[trigger] final(self).recorded_from(*old(self), now, metrics@),
    {
        let now = unix_now();
        self.record(now, metrics);
    }

    /// The CPU series for plotting: each point is its position in the
    /// series and the usage in hundredths of a percent.
    pub fn get_cpu_data(&self) -> (data: Vec<(u64, u32)>)
        ensures
            data@.len() == self.cpu_points().len(),
            forall|i: int|
                0 <= i < data@.len() ==> #[trigger] data@[i] == (i as u64, self.cpu_points()[i].1),
    {
        broadcast use vstd::std_specs::vecdeque::group_vec_dequeue_axioms;

        let mut data: Vec<(u64, u32)> = Vec::new();
        let mut i: usize = 0;
        while i < self.cpu_history.len()
            invariant
                i <= self.cpu_history@.len(),
                data@.len() == i,
                forall|j: int|
                    0 <= j < i ==> #[trigger] data@[j] == (j as u64, self.cpu_history@[j].1),
            decreases self.cpu_history@.len() - i,
        {
            let point = &self.cpu_history[i];
            data.push((i as u64, point.1));
            i = i + 1;
        }
        data
    }

    /// The memory series for plotting: each point is its position in the
    /// series and the share in use in hundredths of a percent.
    pub fn get_memory_data(&self) -> (data: Vec<(u64, u64)>)
        ensures
            data@.len() == self.memory_points().len(),
            forall|i: int|
                0 <= i < data@.len() ==> #[trigger] data@[i] == (
                    i as u64,
                    self.memory_points()[i].1,
                ),
    {
        broadcast use vstd::std_specs::vecdeque::group_vec_dequeue_axioms;

        let mut data: Vec<(u64, u64)> = Vec::new();
        let mut i: usize = 0;
        while i < self.memory_history.len()
            invariant
                i <= self.memory_history@.len(),
                data@.len() == i,
                forall|j: int|
                    0 <= j < i ==> #[trigger] data@[j] == (j as u64, self.memory_history@[j].1),
            decreases self.memory_history@.len() - i,
        {
            let point = &self.memory_history[i];
            data.push((i as u64, point.1));
            i = i + 1;
        }
        data
    }
}

/// The key by which processes are ranked: the memory they hold.
pub open spec fn by_memory() -> spec_fn(ProcessMetricsView) -> int {
    |process: ProcessMetricsView| process.memory as int
}

/// The processes behind a list of references, each as the mathematical
/// value it holds.
pub open spec fn process_views(list: Seq<&ProcessMetrics>) -> Seq<ProcessMetricsView> {
    list.map_values(|process: &ProcessMetrics| process@)
}

/// The `num_processes` processes that hold the most memory, the largest
/// first; all of them where there are fewer. Processes that hold equally
/// much come in the order in which `processes` has them.
pub fn get_top_processes(processes: &Vec<ProcessMetrics>, num_processes: usize) -> (top: Vec<
    &ProcessMetrics,
>)
    ensures
        process_views(top@) == sort_descending(processes.deep_view(), by_memory()).take(
            if num_processes <= processes@.len() {
                num_processes as int
            } else {
                processes@.len() as int
            },
        ),
{
    let mut sorted: Vec<&ProcessMetrics> = Vec::new();
    let mut i: usize = 0;
    while i < processes.len()
        invariant
            i <= processes@.len(),
            sorted@.len() == i,
            process_views(sorted@) == sort_descending(
                processes.deep_view().take(i as int),
                by_memory(),
            ),
        decreases processes@.len() - i,
    {
        let process = &processes[i];
        let mut at: usize = sorted.len();
        while at > 0 && sorted[at - 1].memory < process.memory
            invariant
                at <= sorted@.len(),
                forall|j: int| at <= j < sorted@.len() ==> (#[trigger] sorted@[j]).memory
                    < process.memory,
            decreases at,
        {
            at = at - 1;
        }
        proof {
            let before = process_views(sorted@);
            let key = by_memory();
            assert forall|j: int| at <= j < before.len() implies key(#[trigger] before[j]) < key(
                process@,
            ) by {
                assert(before[j] == sorted@[j]@);
            }
            if at > 0 {
                assert(before[at - 1] == sorted@[at - 1]@);
            }
            lemma_insert_position(before, process@, key, at as int);
            let next = processes.deep_view().take(i as int + 1);
            assert(next.drop_last() =~= processes.deep_view().take(i as int));
            assert(next.last() == process@);
            assert(process_views(sorted@.insert(at as int, process)) =~= before.insert(
                at as int,
                process@,
            ));
        }
        sorted.insert(at, process);
        i = i + 1;
    }
    assert(processes.deep_view().take(i as int) =~= processes.deep_view());
    if num_processes < sorted.len() {
        sorted.truncate(num_processes);
    }
    assert(process_views(sorted@) =~= sort_descending(processes.deep_view(), by_memory()).take(
        if num_processes <= processes@.len() {
            num_processes as int
        } else {
            processes@.len() as int
        },
    ));
    sorted
}

/// The sum of the bytes received over `interfaces`, each given as the
/// bytes it received and the bytes it sent.
pub open spec fn total_received(interfaces: Seq<(u64, u64)>) -> nat
    decreases interfaces.len(),
{
    if interfaces.len() == 0 {
        0
    } else {
        total_received(interfaces.drop_last()) + interfaces.last().0 as nat
    }
}

/// The sum of the bytes sent over `interfaces`.
pub open spec fn total_transmitted(interfaces: Seq<(u64, u64)>) -> nat
    decreases interfaces.len(),
{
    if interfaces.len() == 0 {
        0
    } else {
        total_transmitted(interfaces.drop_last()) + interfaces.last().1 as nat
    }
}

/// The sums only grow as interfaces are added.
pub proof fn lemma_totals_grow(interfaces: Seq<(u64, u64)>, count: int)
    requires
        0 <= count <= interfaces.len(),
    ensures
        total_received(interfaces.take(count)) <= total_received(interfaces),
        total_transmitted(interfaces.take(count)) <= total_transmitted(interfaces),
    decreases interfaces.len(),
{
    if count < interfaces.len() {
        lemma_totals_grow(interfaces.drop_last(), count);
        assert(interfaces.drop_last().take(count) =~= interfaces.take(count));
    } else {
        assert(interfaces.take(count) =~= interfaces);
    }
}

/// Sums the traffic of the network interfaces, each given as the bytes it
/// received and the bytes it sent, and counts them. There is no result
/// where a sum does not fit the counter.
pub fn get_network_metrics(interfaces: &Vec<(u64, u64)>) -> (metrics: Option<NetworkMetrics>)
    ensures
        match metrics {
            Some(sums) => {
                &&& sums.rx_bytes == total_received(interfaces@)
                &&& sums.tx_bytes == total_transmitted(interfaces@)
                &&& sums.connections == interfaces@.len()
            },
            None => total_received(interfaces@) > u64::MAX || total_transmitted(interfaces@)
                > u64::MAX,
        },
{
    let mut rx_bytes: u64 = 0;
    let mut tx_bytes: u64 = 0;
    let mut connections: usize = 0;
    while connections < interfaces.len()
        invariant
            connections <= interfaces@.len(),
            rx_bytes == total_received(interfaces@.take(connections as int)),
            tx_bytes == total_transmitted(interfaces@.take(connections as int)),
        decreases interfaces@.len() - connections,
    {
        let (received, sent) = interfaces[connections];
        proof {
            let next = interfaces@.take(connections as int + 1);
            assert(next.drop_last() =~= interfaces@.take(connections as int));
            assert(next.last() == interfaces@[connections as int]);
            lemma_totals_grow(interfaces@, connections as int + 1);
        }
        match (rx_bytes.checked_add(received), tx_bytes.checked_add(sent)) {
            (Some(rx), Some(tx)) => {
                rx_bytes = rx;
                tx_bytes = tx;
            },
            _ => {
                return None;
            },
        }
        connections = connections + 1;
    }
    assert(interfaces@.take(connections as int) =~= interfaces@);
    Some(NetworkMetrics { rx_bytes, tx_bytes, connections })
}

} // verus!
