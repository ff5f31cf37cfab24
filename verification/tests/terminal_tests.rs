use poly_logger::{Level, LevelFilter, Record, Sink, TerminalLogger};

fn record(level: Level, args: &str) -> Record {
    Record::new(level, None, None, None, args.to_string())
}

#[test]
fn terminal_logger_defaults_to_stderr() {
    let t = TerminalLogger::new(LevelFilter::Info);
    assert!(!t.use_stdout);
}

#[test]
fn terminal_logger_switches_streams() {
    let mut t = TerminalLogger::new(LevelFilter::Info);
    t.use_stdout();
    assert!(t.use_stdout);
    t.use_stderr();
    assert!(!t.use_stdout);
}

#[test]
fn terminal_logger_gate_matches_threshold() {
    let t = TerminalLogger::new(LevelFilter::Debug);
    assert!(t.enabled(Level::Error));
    assert!(t.enabled(Level::Debug));
    assert!(!t.enabled(Level::Trace));
}

#[test]
fn terminal_logger_builder_chains() {
    let mut t = TerminalLogger::new(LevelFilter::Warn);
    t.timestamp_format("%X").msg_format("{level}: {args}").use_stdout();
    assert!(t.use_stdout);
    assert!(t.log_formatter.use_strfmt);
}

#[test]
fn terminal_logger_emits_below_gate_without_writing() {
    let mut t = TerminalLogger::new(LevelFilter::Error);
    let ok = t.emit(&record(Level::Info, "invisible"));
    assert!(ok);
    assert!(t.flush());
}

#[test]
fn level_filter_conversion_round_trip() {
    assert!(Level::Error.to_level_filter() == LevelFilter::Error);
    assert!(Level::Warn.to_level_filter() == LevelFilter::Warn);
    assert!(Level::Info.to_level_filter() == LevelFilter::Info);
    assert!(Level::Debug.to_level_filter() == LevelFilter::Debug);
    assert!(Level::Trace.to_level_filter() == LevelFilter::Trace);
}
