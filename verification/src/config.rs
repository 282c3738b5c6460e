//! The run configuration: what a backup run reads, loaded once at process
//! start and handed down explicitly — no ambient global state.

use vstd::prelude::*;

use crate::text::str_eq_caseless;
use crate::text::eq_ignore_ascii_case;

verus! {

/// Application-wide settings.
pub struct AppConfig {
    pub log_dir: String,
}

/// How the external backup tool is invoked.
pub struct ResticConfig {
    pub exe_path: String,
    pub repo_dir: String,
    pub cache_dir: String,
    pub password_file: String,
}

/// One backup source: a logical volume and the capacity to reserve for its
/// snapshot.
pub struct SourceConfig {
    pub vg: String,
    pub lv: String,
    pub snapshot_size: String,
}

/// Everything a run needs to know.
pub struct Config {
    pub app: AppConfig,
    pub restic: ResticConfig,
    pub sources: Vec<SourceConfig>,
}

/// A write-once holder for the run configuration. It is set exactly once at
/// process start and read thereafter; setting it twice or reading it before
/// it is set is a caller error ruled out by contract.
pub struct ConfigCell {
    value: Option<Config>,
}

impl ConfigCell {
    /// Whether the configuration has been stored.
    pub closed spec fn is_set(self) -> bool {
        self.value is Some
    }

    /// The stored configuration.
    pub closed spec fn stored(self) -> Config {
        self.value.unwrap()
    }

    /// A holder with nothing stored yet.
    pub fn empty() -> (c: ConfigCell)
        ensures
            !c.is_set(),
    {
        ConfigCell { value: None }
    }
}

/// Store the run configuration. It must not have been stored before.
pub fn setup(cell: &mut ConfigCell, config: Config)
    requires
        !old(cell).is_set(),
    ensures
        final(cell).is_set(),
        final(cell).stored() == config,
{
    cell.value = Some(config);
}

/// Read the stored run configuration.
pub fn get(cell: &ConfigCell) -> (r: &Config)
    requires
        cell.is_set(),
    ensures
        *r == cell.stored(),
{
    cell.value.as_ref().unwrap()
}

/// The verbosity levels a log sink can be asked for.
#[derive(PartialEq, Eq, Structural, Clone, Copy, Debug)]
pub enum LogLevel {
    Off,
    Error,
    Warn,
    Info,
    Debug,
    Trace,
}

/// The level a user-supplied name selects, compared without regard to ASCII
/// case; `None` when the name matches no level.
pub open spec fn level_for(s: Seq<char>) -> Option<LogLevel> {
    if str_eq_caseless(s, "off"@) {
        Some(LogLevel::Off)
    } else if str_eq_caseless(s, "error"@) {
        Some(LogLevel::Error)
    } else if str_eq_caseless(s, "warn"@) {
        Some(LogLevel::Warn)
    } else if str_eq_caseless(s, "info"@) {
        Some(LogLevel::Info)
    } else if str_eq_caseless(s, "debug"@) {
        Some(LogLevel::Debug)
    } else if str_eq_caseless(s, "trace"@) {
        Some(LogLevel::Trace)
    } else {
        None
    }
}

/// Map a user-supplied log level name, caselessly, to a level.
pub fn map_log_level(user_level: &str) -> (r: Option<LogLevel>)
    ensures
        r == level_for(user_level@),
{
    if eq_ignore_ascii_case(user_level, "off") {
        Some(LogLevel::Off)
    } else if eq_ignore_ascii_case(user_level, "error") {
        Some(LogLevel::Error)
    } else if eq_ignore_ascii_case(user_level, "warn") {
        Some(LogLevel::Warn)
    } else if eq_ignore_ascii_case(user_level, "info") {
        Some(LogLevel::Info)
    } else if eq_ignore_ascii_case(user_level, "debug") {
        Some(LogLevel::Debug)
    } else if eq_ignore_ascii_case(user_level, "trace") {
        Some(LogLevel::Trace)
    } else {
        None
    }
}

} // verus!
