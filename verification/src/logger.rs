//! What the kernel log shows of a record besides its text.

use vstd::prelude::*;

verus! {

/// How grave a log record is.
#[derive(Clone, Copy, Debug, PartialEq, Eq, Structural)]
pub enum Level {
    Error,
    Warn,
    Info,
    Debug,
    Trace,
}

/// A colour of the terminal.
#[derive(Clone, Copy, Debug, PartialEq, Eq, Structural)]
pub enum Color {
    Red,
    BrightYellow,
    Blue,
    BrightGreen,
    BrightBlack,
    Green,
    Default,
}

/// The time since boot as the log shows it: whole seconds, and the
/// milliseconds of the second that has begun.
#[derive(Clone, Copy, Debug, PartialEq, Eq, Structural)]
pub struct Timestamp {
    pub secs: u64,
    pub millis: u64,
}

/// The milliseconds in a second.
pub const MILLIS_PER_SEC: u64 = 1000;

/// The colour of the time of a record.
pub const TIMESTAMP_COLOR: Color = Color::Green;

/// The colour of the text of a record.
pub const RECORD_COLOR: Color = Color::Default;

/// Splits the milliseconds since boot into seconds and milliseconds.
pub fn timestamp(elapsed_millis: u64) -> (r: Timestamp)
    ensures
        r.secs == elapsed_millis / MILLIS_PER_SEC,
        r.millis == elapsed_millis % MILLIS_PER_SEC,
        r.millis < MILLIS_PER_SEC,
        r.secs * MILLIS_PER_SEC + r.millis == elapsed_millis,
{
    Timestamp { secs: elapsed_millis / MILLIS_PER_SEC, millis: elapsed_millis % MILLIS_PER_SEC }
}

/// The colour in which the level of a record is shown.
pub fn level_color(level: Level) -> (r: Color)
    ensures
        r == (match level {
            Level::Error => Color::Red,
            Level::Warn => Color::BrightYellow,
            Level::Info => Color::Blue,
            Level::Debug => Color::BrightGreen,
            Level::Trace => Color::BrightBlack,
        }),
{
    match level {
        Level::Error => Color::Red,
        Level::Warn => Color::BrightYellow,
        Level::Info => Color::Blue,
        Level::Debug => Color::BrightGreen,
        Level::Trace => Color::BrightBlack,
    }
}

} // verus!
