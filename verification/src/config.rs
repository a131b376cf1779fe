//! Tunable settings and the thresholds of the memory alerts.

use vstd::prelude::*;
use vstd::string::*;

verus! {

/// Share of memory in use from which a warning is due: 80 %, counted in
/// hundredths of a percent.
pub const MEMORY_WARNING_THRESHOLD: u64 = 8000;

/// Share of memory in use from which the state is critical: 90 %, counted
/// in hundredths of a percent.
pub const MEMORY_CRITICAL_THRESHOLD: u64 = 9000;

/// Number of bytes in one gibibyte.
pub const BYTES_TO_GB: u64 = 1073741824;

/// Seconds between two samples unless configured otherwise.
pub const UPDATE_INTERVAL: u64 = 1;

/// How the console overview is laid out.
#[derive(Debug, PartialEq, Eq)]
pub struct DisplayConfig {
    pub bar_width: usize,
    pub show_disk_info: bool,
    pub show_system_load: bool,
    /// Seconds between two redraws.
    pub refresh_rate: u64,
}

/// The settings of the monitor.
#[derive(Debug, PartialEq, Eq)]
pub struct Config {
    /// Seconds between two samples.
    pub update_interval: u64,
    pub log_level: String,
    pub log_dir: String,
    /// Size in bytes at which the log file is rotated.
    pub max_log_size: u64,
    pub max_backup_files: u32,
    pub display: DisplayConfig,
}

impl Default for DisplayConfig {
    fn default() -> (config: Self)
        ensures
            config.bar_width == 50,
            config.show_disk_info,
            config.show_system_load,
            config.refresh_rate == 1,
    {
        DisplayConfig { bar_width: 50, show_disk_info: true, show_system_load: true, refresh_rate: 1 }
    }
}

impl Default for Config {
    fn default() -> (config: Self)
        ensures
            config.update_interval == UPDATE_INTERVAL,
            config.log_level@ == "info"@,
            config.log_dir@ == "logs"@,
            config.max_log_size == 10 * 1024 * 1024,
            config.max_backup_files == 5,
            config.display.bar_width == 50,
            config.display.show_disk_info,
            config.display.show_system_load,
            config.display.refresh_rate == 1,
    {
        Config {
            update_interval: UPDATE_INTERVAL,
            log_level: String::from_str("info"),
            log_dir: String::from_str("logs"),
            max_log_size: 10 * 1024 * 1024,
            max_backup_files: 5,
            display: DisplayConfig::default(),
        }
    }
}

} // verus!
