//! The texts that the console shows: usage bars, sizes, run times and the
//! lines of the overview.

use vstd::prelude::*;
use vstd::string::*;
use crate::config::BYTES_TO_GB;
use crate::monitor::calculate_memory_percentage;
use crate::monitor::spec_memory_percentage;
use crate::monitor::LoadAvgWrapper;
use crate::order::lemma_insert_position;
use crate::order::sort_descending;
use crate::text::decimal;
use crate::text::decimal_two_places;
use crate::text::divide_round_half_even;
use crate::text::fixed_one_decimal;
use crate::text::fixed_two_decimals;
use crate::text::lemma_round_half_even_bound;
use crate::text::padded;
use crate::text::push_decimal;
use crate::text::push_decimal_two_places;
use crate::text::push_fixed_one_decimal;
use crate::text::push_fixed_two_decimals;
use crate::text::push_padded;
use crate::text::push_tenths;
use crate::text::round_half_even;
use crate::text::tenths_text;

verus! {

/// Number of characters in a usage bar.
pub const BAR_WIDTH: u64 = 50;

/// A usage from which the bar would have to be longer than it is: 101 %,
/// in hundredths of a percent.
pub const BAR_LIMIT: u64 = 10100;

/// The number of filled places of the bar for a usage given in hundredths
/// of a percent: one place for every two percent, rounded to the nearest,
/// a half counting as a whole.
pub open spec fn bar_filled(percentage: u64) -> nat {
    ((percentage + 100) / 200) as nat
}

/// The bar for a usage: filled places first, as `=`, then blanks.
pub open spec fn spec_usage_bar(percentage: u64) -> Seq<char> {
    Seq::new(
        BAR_WIDTH as nat,
        |i: int|
            if i < bar_filled(percentage) {
                '='
            } else {
                ' '
            },
    )
}

/// Draws the bar of [`BAR_WIDTH`] places for a usage given in hundredths of
/// a percent. The usage has to stay below [`BAR_LIMIT`]: the bar has no
/// place for more.
pub fn create_usage_bar(percentage: u64) -> (bar: String)
    requires
        percentage < BAR_LIMIT,
    ensures
        bar@ == spec_usage_bar(percentage),
{
    let filled: u64 = (percentage + 100) / 200;
    let mut bar = String::new();
    let mut i: u64 = 0;
    while i < filled
        invariant
            i <= filled <= BAR_WIDTH,
            bar@ == Seq::new(i as nat, |k: int| '='),
        decreases filled - i,
    {
        proof {
            reveal_strlit("=");
        }
        bar.append("=");
        i = i + 1;
        assert(bar@ =~= Seq::new(i as nat, |k: int| '='));
    }
    while i < BAR_WIDTH
        invariant
            filled <= i <= BAR_WIDTH,
            filled == bar_filled(percentage),
            bar@ == Seq::new(
                i as nat,
                |k: int|
                    if k < filled {
                        '='
                    } else {
                        ' '
                    },
            ),
        decreases BAR_WIDTH - i,
    {
        proof {
            reveal_strlit(" ");
        }
        bar.append(" ");
        i = i + 1;
        assert(bar@ =~= Seq::new(
            i as nat,
            |k: int|
                if k < filled {
                    '='
                } else {
                    ' '
                },
        ));
    }
    assert(bar@ =~= spec_usage_bar(percentage));
    bar
}

/// A size in tenths of a gibibyte, rounded to the nearest tenth, a tie
/// going to the even one.
pub open spec fn gibibyte_tenths(bytes: u64) -> nat {
    round_half_even(bytes as nat * 10, BYTES_TO_GB as nat)
}

/// A size in gibibytes with one decimal and the unit, as in `1.5G`.
pub open spec fn spec_format_memory(bytes: u64) -> Seq<char> {
    tenths_text(gibibyte_tenths(bytes)) + seq!['G']
}

/// Writes a size in gibibytes with one decimal and the unit.
pub fn format_memory(bytes: u64) -> (text: String)
    ensures
        text@ == spec_format_memory(bytes),
{
    proof {
        reveal_strlit("G");
        lemma_round_half_even_bound(bytes as nat * 10, BYTES_TO_GB as nat);
    }
    let tenths = divide_round_half_even((bytes as u128) * 10, BYTES_TO_GB as u128);
    let mut text = String::new();
    push_tenths(&mut text, tenths as u64);
    text.append("G");
    assert(text@ =~= spec_format_memory(bytes));
    text
}

/// A run time as hours, minutes and seconds, as in `1h02m03s`.
pub open spec fn spec_format_run_time(seconds: u64) -> Seq<char> {
    decimal((seconds / 3600) as nat) + seq!['h'] + decimal_two_places(
        ((seconds % 3600) / 60) as nat,
    ) + seq!['m'] + decimal_two_places((seconds % 60) as nat) + seq!['s']
}

/// Writes a run time as hours, minutes and seconds.
pub fn format_run_time(seconds: u64) -> (text: String)
    ensures
        text@ == spec_format_run_time(seconds),
{
    proof {
        reveal_strlit("h");
        reveal_strlit("m");
        reveal_strlit("s");
    }
    let hours = seconds / 3600;
    let minutes = (seconds % 3600) / 60;
    let seconds = seconds % 60;
    let mut text = String::new();
    push_decimal(&mut text, hours);
    text.append("h");
    push_decimal_two_places(&mut text, minutes);
    text.append("m");
    push_decimal_two_places(&mut text, seconds);
    text.append("s");
    assert(text@ =~= decimal(hours as nat) + seq!['h'] + decimal_two_places(minutes as nat)
        + seq!['m'] + decimal_two_places(seconds as nat) + seq!['s']);
    text
}

/// A heading, then the usage as a bar and as a number with one decimal.
pub open spec fn usage_text(heading: Seq<char>, percentage: u64) -> Seq<char> {
    heading + "\nUsage: ["@ + spec_usage_bar(percentage) + "] "@ + fixed_one_decimal(
        percentage as nat,
    ) + "%"@
}

/// The two lines that show a usage under `heading`.
fn usage_lines(heading: &str, percentage: u64) -> (text: String)
    requires
        percentage < BAR_LIMIT,
    ensures
        text@ == usage_text(heading@, percentage),
{
    let bar = create_usage_bar(percentage);
    let mut text = String::from_str(heading);
    text.append("\nUsage: [");
    text.append(bar.as_str());
    text.append("] ");
    push_fixed_one_decimal(&mut text, percentage);
    text.append("%");
    text
}

/// The two lines that show the share of memory in use, given in
/// hundredths of a percent and below [`BAR_LIMIT`].
pub fn memory_bar_text(usage_percentage: u64) -> (text: String)
    requires
        usage_percentage < BAR_LIMIT,
    ensures
        text@ == usage_text("Memory Usage:"@, usage_percentage),
{
    usage_lines("Memory Usage:", usage_percentage)
}

/// The two lines that show the CPU usage, given in hundredths of a percent
/// and below [`BAR_LIMIT`].
pub fn cpu_usage_text(cpu_usage: u32) -> (text: String)
    requires
        cpu_usage < BAR_LIMIT,
    ensures
        text@ == usage_text("CPU Usage:"@, cpu_usage as u64),
{
    usage_lines("CPU Usage:", cpu_usage as u64)
}

/// The four lines that show the load averages, each with two decimals.
pub open spec fn spec_system_load_text(load: LoadAvgWrapper) -> Seq<char> {
    "System Load:\n1 min: "@ + fixed_two_decimals(load.one as nat) + "\n5 min: "@
        + fixed_two_decimals(load.five as nat) + "\n15 min: "@ + fixed_two_decimals(
        load.fifteen as nat,
    )
}

/// The four lines that show the load averages.
pub fn system_load_text(load_average: LoadAvgWrapper) -> (text: String)
    ensures
        text@ == spec_system_load_text(load_average),
{
    let mut text = String::from_str("System Load:\n1 min: ");
    push_fixed_two_decimals(&mut text, load_average.one);
    text.append("\n5 min: ");
    push_fixed_two_decimals(&mut text, load_average.five);
    text.append("\n15 min: ");
    push_fixed_two_decimals(&mut text, load_average.fifteen);
    text
}

/// A size in hundredths of a gibibyte, rounded to the nearest, a tie
/// going to the even one.
pub open spec fn gibibyte_hundredths(bytes: u64) -> nat {
    round_half_even(bytes as nat * 100, BYTES_TO_GB as nat)
}

/// A size in gibibytes with two decimals.
pub open spec fn spec_gibibytes_text(bytes: u64) -> Seq<char> {
    fixed_two_decimals(gibibyte_hundredths(bytes))
}

/// Writes a size in gibibytes with two decimals.
pub fn gibibytes_text(bytes: u64) -> (text: String)
    ensures
        text@ == spec_gibibytes_text(bytes),
{
    proof {
        lemma_round_half_even_bound(bytes as nat * 100, BYTES_TO_GB as nat);
    }
    let hundredths = divide_round_half_even((bytes as u128) * 100, BYTES_TO_GB as u128);
    let mut text = String::new();
    push_fixed_two_decimals(&mut text, hundredths as u64);
    assert(text@ =~= spec_gibibytes_text(bytes));
    text
}

/// The share `part` of `whole` in percent with one decimal, rounded to the
/// nearest tenth, a tie going to the even one; `NaN` where `whole` is
/// zero.
pub open spec fn spec_share_text(part: u64, whole: u64) -> Seq<char> {
    if whole == 0 {
        "NaN"@
    } else {
        tenths_text(round_half_even(part as nat * 1000, whole as nat))
    }
}

/// Writes the share `part` of `whole` in percent with one decimal.
pub fn share_text(part: u64, whole: u64) -> (text: String)
    requires
        part <= whole,
    ensures
        text@ == spec_share_text(part, whole),
{
    if whole == 0 {
        String::from_str("NaN")
    } else {
        proof {
            lemma_round_half_even_bound(part as nat * 1000, whole as nat);
            assert(part as nat * 1000 / (whole as nat) <= 1000) by (nonlinear_arith)
                requires
                    whole > 0,
                    part <= whole,
            ;
        }
        let tenths = divide_round_half_even((part as u128) * 1000, whole as u128);
        let mut text = String::new();
        push_tenths(&mut text, tenths as u64);
        assert(text@ =~= spec_share_text(part, whole));
        text
    }
}

/// The heading of the disk overview: a title, the names of the columns,
/// each padded to the width of its column, and a rule.
pub open spec fn spec_disk_info_header() -> Seq<char> {
    "Disk Usage:
"@ + padded("Device Name"@, 15) + " "@ + padded("Total"@, 10) + " "@ + padded(
        "Used"@,
        10,
    ) + " "@ + padded("Available"@, 10) + " "@ + padded("Usage"@, 10)
        + "
--------------------------------------------------------"@
}

/// The heading of the disk overview.
pub fn disk_info_header() -> (text: String)
    ensures
        text@ == spec_disk_info_header(),
{
    let mut text = String::from_str("Disk Usage:
");
    push_padded(&mut text, "Device Name", 15);
    text.append(" ");
    push_padded(&mut text, "Total", 10);
    text.append(" ");
    push_padded(&mut text, "Used", 10);
    text.append(" ");
    push_padded(&mut text, "Available", 10);
    text.append(" ");
    push_padded(&mut text, "Usage", 10);
    text.append("
--------------------------------------------------------");
    text
}

/// The line of one disk in the overview: where it is mounted, its size,
/// what is used and what is free, in gibibytes, and the used share; each
/// padded to the width of its column.
pub open spec fn spec_disk_info_line(
    mount_point: Seq<char>,
    total_space: u64,
    available_space: u64,
) -> Seq<char> {
    let used = (total_space - available_space) as u64;
    padded(mount_point, 15) + " "@ + padded(spec_gibibytes_text(total_space), 10) + " GB "@
        + padded(spec_gibibytes_text(used), 10) + " GB "@ + padded(
        spec_gibibytes_text(available_space),
        10,
    ) + " GB "@ + padded(spec_share_text(used, total_space), 10) + "%"@
}

/// The line of one disk in the overview. No more of a disk can be free
/// than the disk holds.
pub fn disk_info_line(mount_point: &str, total_space: u64, available_space: u64) -> (text: String)
    requires
        available_space <= total_space,
    ensures
        text@ == spec_disk_info_line(mount_point@, total_space, available_space),
{
    let used = total_space - available_space;
    let total_text = gibibytes_text(total_space);
    let used_text = gibibytes_text(used);
    let available_text = gibibytes_text(available_space);
    let share = share_text(used, total_space);
    let mut text = String::new();
    push_padded(&mut text, mount_point, 15);
    text.append(" ");
    push_padded(&mut text, total_text.as_str(), 10);
    text.append(" GB ");
    push_padded(&mut text, used_text.as_str(), 10);
    text.append(" GB ");
    push_padded(&mut text, available_text.as_str(), 10);
    text.append(" GB ");
    push_padded(&mut text, share.as_str(), 10);
    text.append("%");
    assert(text@ =~= spec_disk_info_line(mount_point@, total_space, available_space));
    text
}

/// What is known of a process when the table of processes is made.
#[derive(Debug, PartialEq, Eq)]
pub struct ProcessDetails {
    pub pid: u32,
    /// The user that runs the process, where known.
    pub user: Option<String>,
    /// Virtual memory, in bytes.
    pub virtual_memory: u64,
    /// Resident memory, in bytes.
    pub memory: u64,
    /// CPU usage, in hundredths of a percent of one core.
    pub cpu_usage: u32,
    pub name: String,
    /// Seconds since the process started.
    pub run_time: u64,
}

/// One row of the table of processes.
#[derive(Debug, PartialEq, Eq)]
pub struct ProcessInfo {
    pub pid: u32,
    pub user: String,
    pub virt: String,
    pub res: String,
    /// CPU usage, in hundredths of a percent of one core.
    pub cpu_usage: u32,
    /// Share of the installed memory that the process holds, in hundredths
    /// of a percent.
    pub mem_usage: u64,
    pub command: String,
    pub run_time: String,
}

/// What a [`ProcessDetails`] holds, as a mathematical value.
pub struct ProcessDetailsView {
    pub pid: u32,
    pub user: Option<Seq<char>>,
    pub virtual_memory: u64,
    pub memory: u64,
    pub cpu_usage: u32,
    pub name: Seq<char>,
    pub run_time: u64,
}

/// What a [`ProcessInfo`] holds, as a mathematical value.
pub struct ProcessInfoView {
    pub pid: u32,
    pub user: Seq<char>,
    pub virt: Seq<char>,
    pub res: Seq<char>,
    pub cpu_usage: u32,
    pub mem_usage: u64,
    pub command: Seq<char>,
    pub run_time: Seq<char>,
}

impl View for ProcessDetails {
    type V = ProcessDetailsView;

    open spec fn view(&self) -> ProcessDetailsView {
        ProcessDetailsView {
            pid: self.pid,
            user: match self.user {
                Some(user) => Some(user@),
                None => None,
            },
            virtual_memory: self.virtual_memory,
            memory: self.memory,
            cpu_usage: self.cpu_usage,
            name: self.name@,
            run_time: self.run_time,
        }
    }
}

impl DeepView for ProcessDetails {
    type V = ProcessDetailsView;

    open spec fn deep_view(&self) -> ProcessDetailsView {
        self@
    }
}

impl View for ProcessInfo {
    type V = ProcessInfoView;

    open spec fn view(&self) -> ProcessInfoView {
        ProcessInfoView {
            pid: self.pid,
            user: self.user@,
            virt: self.virt@,
            res: self.res@,
            cpu_usage: self.cpu_usage,
            mem_usage: self.mem_usage,
            command: self.command@,
            run_time: self.run_time@,
        }
    }
}

impl DeepView for ProcessInfo {
    type V = ProcessInfoView;

    open spec fn deep_view(&self) -> ProcessInfoView {
        self@
    }
}

/// The row of the table for one process, on a host with `total_memory`
/// bytes of memory.
pub open spec fn spec_process_row(details: ProcessDetailsView, total_memory: u64) -> ProcessInfoView {
    ProcessInfoView {
        pid: details.pid,
        user: match details.user {
            Some(user) => user,
            None => "Unknown"@,
        },
        virt: spec_format_memory(details.virtual_memory),
        res: spec_format_memory(details.memory),
        cpu_usage: details.cpu_usage,
        mem_usage: spec_memory_percentage(details.memory, total_memory),
        command: details.name,
        run_time: spec_format_run_time(details.run_time),
    }
}

/// The row of the table for one process.
pub fn process_row(details: &ProcessDetails, total_memory: u64) -> (row: ProcessInfo)
    ensures
        row@ == spec_process_row(details@, total_memory),
{
    ProcessInfo {
        pid: details.pid,
        user: match &details.user {
            Some(user) => user.clone(),
            None => String::from_str("Unknown"),
        },
        virt: format_memory(details.virtual_memory),
        res: format_memory(details.memory),
        cpu_usage: details.cpu_usage,
        mem_usage: calculate_memory_percentage(details.memory, total_memory),
        command: details.name.clone(),
        run_time: format_run_time(details.run_time),
    }
}

/// The rows of the table for the processes of `details`, in their order.
pub open spec fn spec_process_rows(
    details: Seq<ProcessDetailsView>,
    total_memory: u64,
) -> Seq<ProcessInfoView> {
    Seq::new(details.len(), |i: int| spec_process_row(details[i], total_memory))
}

/// The key by which the rows of the table are ordered: the CPU usage.
pub open spec fn by_cpu_usage() -> spec_fn(ProcessInfoView) -> int {
    |row: ProcessInfoView| row.cpu_usage as int
}

/// The table of processes: one row for each process, the busiest first.
/// Processes that are equally busy come in the order in which `processes`
/// has them.
pub fn process_table(processes: &Vec<ProcessDetails>, total_memory: u64) -> (table: Vec<
    ProcessInfo,
>)
    ensures
        table.deep_view() == sort_descending(
            spec_process_rows(processes.deep_view(), total_memory),
            by_cpu_usage(),
        ),
{
    let ghost rows = spec_process_rows(processes.deep_view(), total_memory);
    let mut table: Vec<ProcessInfo> = Vec::new();
    let mut i: usize = 0;
    while i < processes.len()
        invariant
            i <= processes@.len(),
            rows == spec_process_rows(processes.deep_view(), total_memory),
            table@.len() == i,
            table.deep_view() == sort_descending(rows.take(i as int), by_cpu_usage()),
        decreases processes@.len() - i,
    {
        let row = process_row(&processes[i], total_memory);
        let mut at: usize = table.len();
        while at > 0 && table[at - 1].cpu_usage < row.cpu_usage
            invariant
                at <= table@.len(),
                forall|j: int| at <= j < table@.len() ==> (#[trigger] table@[j]).cpu_usage
                    < row.cpu_usage,
            decreases at,
        {
            at = at - 1;
        }
        proof {
            let before = table.deep_view();
            let key = by_cpu_usage();
            assert forall|j: int| at <= j < before.len() implies key(#[trigger] before[j]) < key(
                row@,
            ) by {
                assert(before[j] == table@[j]@);
            }
            if at > 0 {
                assert(before[at - 1] == table@[at - 1]@);
            }
            lemma_insert_position(before, row@, key, at as int);
            let next = rows.take(i as int + 1);
            assert(next.drop_last() =~= rows.take(i as int));
            assert(next.last() == row@);
        }
        let ghost before = table.deep_view();
        table.insert(at, row);
        assert(table.deep_view() =~= before.insert(at as int, row@));
        i = i + 1;
    }
    assert(rows.take(i as int) =~= rows);
    table
}

} // verus!
