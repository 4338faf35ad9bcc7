//! Severity levels and thresholds.
//!
//! `Level` tags a single message; `LevelFilter` is a configured threshold.
//! Both are ordered by a numeric severity index, with `LevelFilter::Off`
//! below every `Level`, so that no message passes an `Off` threshold.

use vstd::prelude::*;

verus! {

/// Severity of a single log message, from most severe to most verbose.
#[derive(Clone, Copy, Debug, PartialEq, Eq, Structural)]
pub enum Level {
    Error,
    Warn,
    Info,
    Debug,
    Trace,
}

/// A threshold on message severity: `Off` admits nothing, `Trace` everything.
#[derive(Clone, Copy, Debug, PartialEq, Eq, Structural)]
pub enum LevelFilter {
    Off,
    Error,
    Warn,
    Info,
    Debug,
    Trace,
}

/// Numeric position of a message level in the severity order.
pub open spec fn level_index(l: Level) -> nat {
    match l {
        Level::Error => 1,
        Level::Warn => 2,
        Level::Info => 3,
        Level::Debug => 4,
        Level::Trace => 5,
    }
}

/// Numeric position of a threshold in the severity order; `Off` sits below
/// every message level.
pub open spec fn filter_index(f: LevelFilter) -> nat {
    match f {
        LevelFilter::Off => 0,
        LevelFilter::Error => 1,
        LevelFilter::Warn => 2,
        LevelFilter::Info => 3,
        LevelFilter::Debug => 4,
        LevelFilter::Trace => 5,
    }
}

/// The fixed verbosity table: 0 repeated `-v` flags admit only errors, each
/// further flag admits one more level, and four or more admit everything.
pub open spec fn filter_of_count(count: nat) -> LevelFilter {
    if count == 0 {
        LevelFilter::Error
    } else if count == 1 {
        LevelFilter::Warn
    } else if count == 2 {
        LevelFilter::Info
    } else if count == 3 {
        LevelFilter::Debug
    } else {
        LevelFilter::Trace
    }
}

/// The upper-case name under which a level is printed.
pub open spec fn level_name(l: Level) -> Seq<char> {
    match l {
        Level::Error => "ERROR"@,
        Level::Warn => "WARN"@,
        Level::Info => "INFO"@,
        Level::Debug => "DEBUG"@,
        Level::Trace => "TRACE"@,
    }
}

impl Level {
    /// A message at `self` passes the threshold `f` exactly when its severity
    /// index does not exceed the threshold's.
    pub fn passes(&self, f: LevelFilter) -> (r: bool)
        ensures
            r == (level_index(*self) <= filter_index(f)),
    {
        self.index() <= f.index()
    }

    fn index(&self) -> (n: usize)
        ensures
            n == level_index(*self),
    {
        match self {
            Level::Error => 1,
            Level::Warn => 2,
            Level::Info => 3,
            Level::Debug => 4,
            Level::Trace => 5,
        }
    }

    /// The printed name of the level.
    pub fn name_str(&self) -> (r: &'static str)
        ensures
            r@ == level_name(*self),
    {
        match self {
            Level::Error => "ERROR",
            Level::Warn => "WARN",
            Level::Info => "INFO",
            Level::Debug => "DEBUG",
            Level::Trace => "TRACE",
        }
    }
}

impl LevelFilter {
    fn index(&self) -> (n: usize)
        ensures
            n == filter_index(*self),
    {
        match self {
            LevelFilter::Off => 0,
            LevelFilter::Error => 1,
            LevelFilter::Warn => 2,
            LevelFilter::Info => 3,
            LevelFilter::Debug => 4,
            LevelFilter::Trace => 5,
        }
    }
}

} // verus!
