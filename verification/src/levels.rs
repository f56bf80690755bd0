//! What the verbosity level sets: Cargo's own verbosity, backtraces, logging.

use vstd::prelude::*;

verus! {

/// The verbosity handed to Cargo: the levels from -2 to 1 are this tool's
/// own; beyond them the excess goes to Cargo, up to Cargo's own highest
/// level (`-vv`).
pub open spec fn spec_cargo_verbosity(verbosity: int) -> int {
    if -2 <= verbosity <= 1 {
        0
    } else if verbosity > 3 {
        2
    } else if verbosity > 1 {
        verbosity - 1
    } else {
        verbosity + 2
    }
}

/// The verbosity level handed to Cargo calls.
pub fn cargo_verbosity(verbosity: i8) -> (r: i8)
    ensures
        r == spec_cargo_verbosity(verbosity as int),
{
    if -2 <= verbosity && verbosity <= 1 {
        0
    } else if verbosity > 3 {
        2
    } else if verbosity > 1 {
        verbosity - 1
    } else {
        verbosity + 2
    }
}

/// The value of `RUST_BACKTRACE` that a verbosity level asks for, if any:
/// `1` for one `-v`, `full` for more.
pub fn backtrace_setting(verbosity: i8) -> (r: Option<&'static str>)
    ensures
        verbosity <= 0 ==> r is None,
        verbosity == 1 ==> r == Some("1"),
        verbosity >= 2 ==> r == Some("full"),
{
    if verbosity <= 0 {
        None
    } else if verbosity == 1 {
        Some("1")
    } else {
        Some("full")
    }
}

/// Whether an error is to be reported at all: from `-qqq` on, only the
/// exit status tells of it.
pub fn reports_errors(verbosity: i8) -> (r: bool)
    ensures
        r == (verbosity > -3),
{
    verbosity > -3
}

/// Logging levels, from silent to most detailed.
#[derive(Clone, Copy, Debug, PartialEq, Eq, Structural)]
pub enum LogLevel {
    Off,
    Error,
    Warn,
    Info,
    Debug,
    Trace,
}

/// How the logger is set up: either this crate's messages at `level` and
/// other crates' errors only, or every crate at `level`.
#[derive(Clone, Copy, Debug, PartialEq, Eq, Structural)]
pub struct LogFilter {
    pub own_crate_only: bool,
    pub level: LogLevel,
}

/// The logger setup for a verbosity level.
pub open spec fn spec_log_filter(verbosity: int) -> LogFilter {
    if verbosity == 0 {
        LogFilter { own_crate_only: true, level: LogLevel::Info }
    } else if verbosity == 1 {
        LogFilter { own_crate_only: true, level: LogLevel::Debug }
    } else if verbosity == -1 {
        LogFilter { own_crate_only: true, level: LogLevel::Warn }
    } else if verbosity == 2 {
        LogFilter { own_crate_only: false, level: LogLevel::Debug }
    } else if verbosity > 2 {
        LogFilter { own_crate_only: false, level: LogLevel::Trace }
    } else if verbosity == -2 {
        LogFilter { own_crate_only: false, level: LogLevel::Error }
    } else {
        LogFilter { own_crate_only: false, level: LogLevel::Off }
    }
}

/// The logger setup for a verbosity level.
pub fn log_filter(verbosity: i8) -> (r: LogFilter)
    ensures
        r == spec_log_filter(verbosity as int),
{
    if verbosity == 0 {
        LogFilter { own_crate_only: true, level: LogLevel::Info }
    } else if verbosity == 1 {
        LogFilter { own_crate_only: true, level: LogLevel::Debug }
    } else if verbosity == -1 {
        LogFilter { own_crate_only: true, level: LogLevel::Warn }
    } else if verbosity == 2 {
        LogFilter { own_crate_only: false, level: LogLevel::Debug }
    } else if verbosity > 2 {
        LogFilter { own_crate_only: false, level: LogLevel::Trace }
    } else if verbosity == -2 {
        LogFilter { own_crate_only: false, level: LogLevel::Error }
    } else {
        LogFilter { own_crate_only: false, level: LogLevel::Off }
    }
}

/// The `--log-level` given to `cargo-binstall` for a verbosity level.
pub open spec fn spec_binstall_log_level(verbosity: int) -> Seq<char> {
    if verbosity <= -3 {
        "off"@
    } else if verbosity == -2 {
        "error"@
    } else if verbosity == -1 {
        "warn"@
    } else if verbosity == 0 || verbosity == 1 {
        "info"@
    } else if verbosity == 2 {
        "debug"@
    } else {
        "trace"@
    }
}

/// The `--log-level` given to `cargo-binstall` for a verbosity level.
pub fn binstall_log_level(verbosity: i8) -> (r: &'static str)
    ensures
        r@ == spec_binstall_log_level(verbosity as int),
{
    if verbosity <= -3 {
        "off"
    } else if verbosity == -2 {
        "error"
    } else if verbosity == -1 {
        "warn"
    } else if verbosity == 0 || verbosity == 1 {
        "info"
    } else if verbosity == 2 {
        "debug"
    } else {
        "trace"
    }
}

} // verus!
