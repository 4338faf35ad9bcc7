use stderrlog::Level;
use stderrlog::LevelFilter;
use stderrlog::StdErrLog;
use stderrlog::Timestamp;

#[test]
fn test_default_config() {
    let s = stderrlog::new();
    assert_eq!(s.log_level_filter(), LevelFilter::Error);
    assert!(s.enabled(Level::Error));
    assert!(!s.enabled(Level::Warn));
    assert!(!s.enabled(Level::Trace));
    assert!(s.includes_module("any::module"));
    assert_eq!(s.log(Level::Error, "m", "boom"), Some(String::from("ERROR - boom")));
}

#[test]
fn test_verbosity_table() {
    let table = [
        (0usize, LevelFilter::Error),
        (1, LevelFilter::Warn),
        (2, LevelFilter::Info),
        (3, LevelFilter::Debug),
        (4, LevelFilter::Trace),
        (9, LevelFilter::Trace),
    ];
    for (count, expected) in table {
        let mut s = stderrlog::new();
        s.verbosity(count);
        assert_eq!(s.log_level_filter(), expected);

        // The mapping does not depend on the order of the other setters.
        let mut t = StdErrLog::new();
        t.timestamp(Timestamp::Second);
        t.verbosity(count);
        t.quiet(false);
        t.module("a");
        assert_eq!(t.log_level_filter(), expected);
    }
}

#[test]
fn test_quiet_overrides_verbosity() {
    let mut s = stderrlog::new();
    s.verbosity(4);
    s.quiet(true);
    assert_eq!(s.log_level_filter(), LevelFilter::Off);
    assert!(!s.enabled(Level::Error));
    assert!(!s.enabled(Level::Trace));
    assert_eq!(s.log(Level::Error, "m", "x"), None);
    s.quiet(false);
    assert!(s.enabled(Level::Trace));
}

#[test]
fn test_empty_filter_includes_any_path() {
    let s = stderrlog::new();
    assert!(s.includes_module("a"));
    assert!(s.includes_module("x::y::z"));
    assert!(s.includes_module("zzz"));
}

#[test]
fn test_filter_single_registration() {
    let mut s = stderrlog::new();
    s.module("a::b");
    assert!(s.includes_module("a::b"));
    assert!(s.includes_module("a::b::c"));
    assert!(!s.includes_module("a::c"));
    assert!(!s.includes_module("a"));
}

#[test]
fn test_filter_two_registrations() {
    let mut s = stderrlog::new();
    s.module("a");
    s.module("a::b");
    assert!(s.includes_module("a::b::z"));
    assert!(!s.includes_module("z"));
    // The greatest registered entry at most "a::z" is "a::b", which is not a
    // textual prefix of it, so "a" does not get to match here.
    assert!(!s.includes_module("a::z"));
}

#[test]
fn test_filter_prefix_is_textual() {
    let mut s = stderrlog::new();
    s.module("ab");
    assert!(s.includes_module("abc"));
    assert!(s.includes_module("ab::c"));
    assert!(!s.includes_module("aa"));
}

#[test]
fn test_register_twice_is_noop() {
    let mut s = stderrlog::new();
    s.module("a::b");
    s.module("a::b");
    assert!(s.includes_module("a::b::c"));
    assert!(!s.includes_module("a"));
}

#[test]
fn test_register_many() {
    let mut s = stderrlog::new();
    s.modules(&vec![String::from("a::b"), String::from("c")]);
    assert!(s.includes_module("a::b::x"));
    assert!(s.includes_module("c::d"));
    assert!(!s.includes_module("b"));
}

#[test]
fn test_emit_info_line() {
    let mut s = stderrlog::new();
    s.verbosity(2);
    assert_eq!(
        s.log(Level::Info, "app", "starting up"),
        Some(String::from("INFO - starting up"))
    );
}

#[test]
fn test_emit_below_threshold_is_dropped() {
    let mut s = stderrlog::new();
    s.verbosity(0);
    assert_eq!(s.log(Level::Info, "app", "starting up"), None);
}

#[test]
fn test_emit_respects_module_filter() {
    let mut s = stderrlog::new();
    s.verbosity(4);
    s.module("app::net");
    assert_eq!(s.log(Level::Trace, "app::ui", "click"), None);
    assert_eq!(
        s.log(Level::Trace, "app::net::tcp", "connect"),
        Some(String::from("TRACE - connect"))
    );
}

#[test]
fn test_level_names_in_lines() {
    let mut s = stderrlog::new();
    s.verbosity(4);
    assert_eq!(s.log(Level::Error, "m", "e"), Some(String::from("ERROR - e")));
    assert_eq!(s.log(Level::Warn, "m", "w"), Some(String::from("WARN - w")));
    assert_eq!(s.log(Level::Info, "m", "i"), Some(String::from("INFO - i")));
    assert_eq!(s.log(Level::Debug, "m", "d"), Some(String::from("DEBUG - d")));
    assert_eq!(s.log(Level::Trace, "m", "t"), Some(String::from("TRACE - t")));
}

#[test]
fn test_timestamped_line_has_suffix() {
    let mut s = stderrlog::new();
    s.timestamp(Timestamp::Second);
    let line = s.log(Level::Error, "m", "x").expect("error must be enabled by default");
    assert!(line.ends_with(" - ERROR - x"));
}

#[test]
fn test_clone_copies_configuration() {
    let mut s = stderrlog::new();
    s.verbosity(2);
    s.module("app");
    let c = s.clone();
    assert_eq!(c.log_level_filter(), LevelFilter::Info);
    assert!(c.includes_module("app::db"));
    assert!(!c.includes_module("lib"));
    assert_eq!(c.log(Level::Info, "app", "go"), Some(String::from("INFO - go")));
}
