//! How the boot loader's serial log is coloured.

use vstd::prelude::*;

verus! {

/// How grave a log record is.
#[derive(Clone, Copy, Debug, PartialEq, Eq, Structural)]
pub enum Level {
    Error,
    Warn,
    Info,
    Debug,
    Trace,
}

/// The terminal colour in which records of `level` are written: red for
/// errors, yellow for warnings, blue for information, green for debugging
/// and black for traces.
pub open spec fn spec_level_to_color_code(level: Level) -> u8 {
    match level {
        Level::Error => 31,
        Level::Warn => 93,
        Level::Info => 34,
        Level::Debug => 32,
        Level::Trace => 90,
    }
}

/// The terminal colour in which records of `level` are written.
#[verifier::when_used_as_spec(spec_level_to_color_code)]
pub fn level_to_color_code(level: Level) -> (code: u8)
    ensures
        code == spec_level_to_color_code(level),
{
    match level {
        Level::Error => 31,
        Level::Warn => 93,
        Level::Info => 34,
        Level::Debug => 32,
        Level::Trace => 90,
    }
}

} // verus!
