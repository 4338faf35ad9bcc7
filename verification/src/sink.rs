//! The log sink: configuration, the enablement decision, and line rendering.
//!
//! A `StdErrLog` holds the verbosity threshold, the quiet flag, the timestamp
//! mode and the module allow-list. `log` decides whether a message may be
//! emitted and, if so, renders the single output line; writing the line to
//! the standard error stream is left to the caller.

use vstd::prelude::*;
use crate::level::Level;
use crate::level::LevelFilter;
use crate::level::level_index;
use crate::level::filter_index;
use crate::level::filter_of_count;
use crate::level::level_name;
use crate::filter::registered;
use crate::filter::includes_spec;
use crate::filter::filter_includes;
use crate::filter::register;
use crate::filter::lemma_registered_take_step;

verus! {

/// Whether, and how finely, emitted lines carry the current time.
#[derive(Clone, Copy, Debug, PartialEq, Eq, Structural)]
pub enum Timestamp {
    /// No timestamp on log messages.
    Off,
    /// Timestamp log messages at second granularity.
    Second,
}

/// The configuration of the stderr logging back-end.
#[derive(Debug)]
pub struct StdErrLog {
    verbosity: LevelFilter,
    quiet: bool,
    timestamp: Timestamp,
    modules: Vec<String>,
}

/// The single rendered output line for a message: an optional timestamp
/// segment with its separator, then the level name, a separator, and the
/// message body.
pub open spec fn line_spec(ts: Option<Seq<char>>, level: Level, message: Seq<char>) -> Seq<char> {
    match ts {
        Some(t) => t + " - "@ + level_name(level) + " - "@ + message,
        None => level_name(level) + " - "@ + message,
    }
}

/// Relies on `time::now` and the `rfc3339` formatter of its result: renders
/// the current local time at second resolution. Nothing is promised of the
/// text, since it depends on the clock.
#[verifier::external_body]
fn now_rfc3339() -> (r: String) {
    let now = time::now();
    format!("{}", now.rfc3339())
}

/// Renders one output line from an optional timestamp text, a level and a
/// message body.
fn format_line(ts: Option<&String>, level: Level, message: &str) -> (r: String)
    ensures
        r@ == line_spec(
            match ts {
                Some(t) => Some(t@),
                None => None,
            },
            level,
            message@,
        ),
{
    let mut r = String::new();
    match ts {
        Some(t) => {
            r.append(t.as_str());
            r.append(" - ");
        },
        None => {},
    }
    r.append(level.name_str());
    r.append(" - ");
    r.append(message);
    proof {
        match ts {
            Some(t) => {
                assert(r@ =~= line_spec(Some(t@), level, message@));
            },
            None => {
                assert(r@ =~= line_spec(None, level, message@));
            },
        }
    }
    r
}

impl StdErrLog {
    /// The configured verbosity threshold.
    pub closed spec fn verbosity_filter(self) -> LevelFilter {
        self.verbosity
    }

    /// Whether the quiet flag is set.
    pub closed spec fn is_quiet(self) -> bool {
        self.quiet
    }

    /// The configured timestamp mode.
    pub closed spec fn timestamp_mode(self) -> Timestamp {
        self.timestamp
    }

    /// The registered module-path prefixes.
    pub closed spec fn modules_set(self) -> Set<Seq<char>> {
        registered(self.modules@)
    }

    /// The threshold that decisions go by: `Off` when quiet is set, else the
    /// configured verbosity threshold.
    pub open spec fn effective_filter(self) -> LevelFilter {
        if self.is_quiet() {
            LevelFilter::Off
        } else {
            self.verbosity_filter()
        }
    }

    /// A message at `level` passes the effective threshold.
    pub open spec fn enabled_spec(self, level: Level) -> bool {
        level_index(level) <= filter_index(self.effective_filter())
    }

    /// A sink with the default configuration: threshold `Error`, not quiet,
    /// no timestamps, no module restriction.
    pub fn new() -> (r: StdErrLog)
        ensures
            r.verbosity_filter() == LevelFilter::Error,
            !r.is_quiet(),
            r.timestamp_mode() == Timestamp::Off,
            r.modules_set() == Set::<Seq<char>>::empty(),
    {
        let r = StdErrLog {
            verbosity: LevelFilter::Error,
            quiet: false,
            timestamp: Timestamp::Off,
            modules: Vec::new(),
        };
        proof {
            assert(registered(r.modules@) =~= Set::<Seq<char>>::empty());
        }
        r
    }

    /// Sets the verbosity threshold from a count of repeated verbosity flags;
    /// counts beyond the table clamp to the most verbose level.
    pub fn verbosity(&mut self, verbosity: usize)
        ensures
            final(self).verbosity_filter() == filter_of_count(verbosity as nat),
            final(self).is_quiet() == old(self).is_quiet(),
            final(self).timestamp_mode() == old(self).timestamp_mode(),
            final(self).modules_set() == old(self).modules_set(),
    {
        let log_lvl = match verbosity {
            0 => LevelFilter::Error,
            1 => LevelFilter::Warn,
            2 => LevelFilter::Info,
            3 => LevelFilter::Debug,
            _ => LevelFilter::Trace,
        };
        self.verbosity = log_lvl;
    }

    /// Sets the quiet flag; when set, it overrides the threshold and
    /// suppresses all output.
    pub fn quiet(&mut self, quiet: bool)
        ensures
            final(self).is_quiet() == quiet,
            final(self).verbosity_filter() == old(self).verbosity_filter(),
            final(self).timestamp_mode() == old(self).timestamp_mode(),
            final(self).modules_set() == old(self).modules_set(),
    {
        self.quiet = quiet;
    }

    /// Selects the timestamp mode of emitted lines.
    pub fn timestamp(&mut self, timestamp: Timestamp)
        ensures
            final(self).timestamp_mode() == timestamp,
            final(self).verbosity_filter() == old(self).verbosity_filter(),
            final(self).is_quiet() == old(self).is_quiet(),
            final(self).modules_set() == old(self).modules_set(),
    {
        self.timestamp = timestamp;
    }

    /// Registers one module-path prefix; registering it twice changes
    /// nothing.
    pub fn module(&mut self, module: &str)
        ensures
            final(self).modules_set() == old(self).modules_set().insert(module@),
            final(self).verbosity_filter() == old(self).verbosity_filter(),
            final(self).is_quiet() == old(self).is_quiet(),
            final(self).timestamp_mode() == old(self).timestamp_mode(),
    {
        register(&mut self.modules, module);
    }

    /// Registers every module-path prefix in `modules`.
    pub fn modules(&mut self, modules: &Vec<String>)
        ensures
            final(self).modules_set() == old(self).modules_set().union(registered(modules@)),
            final(self).verbosity_filter() == old(self).verbosity_filter(),
            final(self).is_quiet() == old(self).is_quiet(),
            final(self).timestamp_mode() == old(self).timestamp_mode(),
    {
        proof {
            assert(registered(modules@.take(0)) =~= Set::<Seq<char>>::empty());
            assert(old(self).modules_set().union(registered(modules@.take(0))) =~= old(
                self,
            ).modules_set());
        }
        let mut i: usize = 0;
        while i < modules.len()
            invariant
                i <= modules@.len(),
                self.modules_set() == old(self).modules_set().union(
                    registered(modules@.take(i as int)),
                ),
                self.verbosity_filter() == old(self).verbosity_filter(),
                self.is_quiet() == old(self).is_quiet(),
                self.timestamp_mode() == old(self).timestamp_mode(),
            decreases modules@.len() - i,
        {
            self.module(modules[i].as_str());
            proof {
                lemma_registered_take_step(modules@, i as int);
                assert(old(self).modules_set().union(registered(modules@.take(i as int))).insert(
                    modules@[i as int]@,
                ) =~= old(self).modules_set().union(
                    registered(modules@.take(i as int)).insert(modules@[i as int]@),
                ));
            }
            i += 1;
        }
        proof {
            assert(modules@.take(modules@.len() as int) =~= modules@);
        }
    }

    /// The threshold that the enablement decision goes by.
    pub fn log_level_filter(&self) -> (r: LevelFilter)
        ensures
            r == self.effective_filter(),
    {
        if self.quiet {
            LevelFilter::Off
        } else {
            self.verbosity
        }
    }

    /// Whether a message at `level` passes the effective threshold.
    pub fn enabled(&self, level: Level) -> (r: bool)
        ensures
            r == self.enabled_spec(level),
    {
        level.passes(self.log_level_filter())
    }

    /// Whether the module allow-list admits `path`.
    pub fn includes_module(&self, path: &str) -> (r: bool)
        ensures
            r == includes_spec(self.modules_set(), path@),
    {
        filter_includes(&self.modules, path)
    }

    /// Decides whether a message may be emitted and, if so, renders its
    /// output line: the message must pass the effective threshold and the
    /// module allow-list; the line carries a timestamp segment exactly when
    /// the timestamp mode says so.
    pub fn log(&self, level: Level, path: &str, message: &str) -> (line: Option<String>)
        ensures
            line is Some <==> (self.enabled_spec(level) && includes_spec(
                self.modules_set(),
                path@,
            )),
            line matches Some(l) ==> match self.timestamp_mode() {
                Timestamp::Off => l@ == line_spec(None, level, message@),
                Timestamp::Second => exists|t: Seq<char>|
                    l@ == line_spec(Some(t), level, message@),
            },
    {
        if !self.enabled(level) {
            return None;
        }
        if !self.includes_module(path) {
            return None;
        }
        match self.timestamp {
            Timestamp::Second => {
                let ts = now_rfc3339();
                let line = format_line(Some(&ts), level, message);
                proof {
                    assert(line@ == line_spec(Some(ts@), level, message@));
                }
                Some(line)
            },
            Timestamp::Off => Some(format_line(None, level, message)),
        }
    }
}

impl Clone for StdErrLog {
    /// A clone copies the whole configuration. Output handles live outside
    /// this type and are never shared, so there is nothing else to copy.
    fn clone(&self) -> (r: Self)
        ensures
            r.verbosity_filter() == self.verbosity_filter(),
            r.is_quiet() == self.is_quiet(),
            r.timestamp_mode() == self.timestamp_mode(),
            r.modules_set() == self.modules_set(),
    {
        let mut ms: Vec<String> = Vec::new();
        let mut i: usize = 0;
        while i < self.modules.len()
            invariant
                i <= self.modules@.len(),
                ms@.len() == i,
                forall|j: int| 0 <= j < i ==> #[trigger] ms@[j]@ == self.modules@[j]@,
            decreases self.modules@.len() - i,
        {
            ms.push(self.modules[i].clone());
            i += 1;
        }
        proof {
            assert(ms@.map_values(|s: String| s@) =~= self.modules@.map_values(|s: String| s@));
        }
        StdErrLog {
            verbosity: self.verbosity,
            quiet: self.quiet,
            timestamp: self.timestamp,
            modules: ms,
        }
    }
}

/// Builds a sink with the default configuration.
pub fn new() -> (r: StdErrLog)
    ensures
        r.verbosity_filter() == LevelFilter::Error,
        !r.is_quiet(),
        r.timestamp_mode() == Timestamp::Off,
        r.modules_set() == Set::<Seq<char>>::empty(),
{
    StdErrLog::new()
}

/// Setting quiet silences everything: with the quiet flag set, no level is
/// enabled, not even `Error`, whatever the configured verbosity.
pub proof fn lemma_quiet_suppresses_all(s: StdErrLog, level: Level)
    requires
        s.is_quiet(),
    ensures
        !s.enabled_spec(level),
{
}

/// The verbosity table: when quiet is not set, a sink whose threshold came
/// from a verbosity count of 0, 1, 2 or 3 has `Error`, `Warn`, `Info` or
/// `Debug` as its effective threshold, and any greater count gives `Trace` —
/// whatever the other settings are.
pub proof fn lemma_effective_threshold_table(s: StdErrLog, count: nat)
    requires
        !s.is_quiet(),
        s.verbosity_filter() == filter_of_count(count),
    ensures
        s.effective_filter() == (if count == 0 {
            LevelFilter::Error
        } else if count == 1 {
            LevelFilter::Warn
        } else if count == 2 {
            LevelFilter::Info
        } else if count == 3 {
            LevelFilter::Debug
        } else {
            LevelFilter::Trace
        }),
{
}

} // verus!
