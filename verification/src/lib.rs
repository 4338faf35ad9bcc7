//! A logging back-end that writes leveled, optionally timestamped lines to
//! the standard error stream, with UNIX-style verbosity semantics: a count of
//! `-v` flags selects the threshold, a quiet flag silences everything, and an
//! allow-list of module-path prefixes restricts which modules may emit.

mod lex;
mod level;
mod filter;
mod sink;

pub use sink::StdErrLog;
pub use sink::Timestamp;
pub use sink::new;
pub use sink::line_spec;
pub use sink::lemma_quiet_suppresses_all;
pub use sink::lemma_effective_threshold_table;
pub use filter::includes_spec;
pub use filter::is_greatest_le;
pub use filter::registered;
pub use filter::lemma_empty_filter_includes_all;
pub use filter::lemma_exact_match_included;
pub use level::Level;
pub use level::LevelFilter;
pub use level::level_index;
pub use level::filter_index;
pub use level::level_name;
pub use level::filter_of_count;
pub use lex::lex_le;
