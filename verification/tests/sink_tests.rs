use poly_logger::{
    FileLogger, GenLogger, Level, LevelFilter, Record, RecordingClock, Sink, StderrLogger,
    StdoutLogger, StringWriter,
};

fn record(level: Level, file: Option<&str>, line: Option<u32>, args: &str) -> Record {
    Record::new(level, file.map(|f| f.to_string()), line, None, args.to_string())
}

fn quiet_logger(
    filter: LevelFilter,
    writer: StringWriter,
) -> GenLogger<StringWriter, RecordingClock> {
    let mut g = GenLogger::with_clock(filter, writer, RecordingClock::new("TS".to_string()));
    g.timestamp_format("");
    g
}

#[test]
fn file_logger_it_works() {
    assert_eq!(2 + 2, 4);
}

#[test]
fn threshold_info_admits_up_to_info() {
    let g = quiet_logger(LevelFilter::Info, StringWriter::new());
    assert!(g.enabled(Level::Error));
    assert!(g.enabled(Level::Warn));
    assert!(g.enabled(Level::Info));
    assert!(!g.enabled(Level::Debug));
    assert!(!g.enabled(Level::Trace));
}

#[test]
fn threshold_off_admits_nothing() {
    let g = quiet_logger(LevelFilter::Off, StringWriter::new());
    assert!(!g.enabled(Level::Error));
    assert!(!g.enabled(Level::Trace));
}

#[test]
fn threshold_trace_admits_everything() {
    let g = quiet_logger(LevelFilter::Trace, StringWriter::new());
    assert!(g.enabled(Level::Error));
    assert!(g.enabled(Level::Warn));
    assert!(g.enabled(Level::Info));
    assert!(g.enabled(Level::Debug));
    assert!(g.enabled(Level::Trace));
}

#[test]
fn emit_writes_line_with_newline() {
    let mut g = quiet_logger(LevelFilter::Info, StringWriter::new());
    let ok = g.emit(&record(Level::Info, Some("a.rs"), Some(1), "hello"));
    assert!(ok);
    assert_eq!(g.writer.text, "[] INFO [a.rs:1] hello\n");
}

#[test]
fn emit_below_gate_writes_nothing() {
    let mut g = quiet_logger(LevelFilter::Warn, StringWriter::new());
    let ok = g.emit(&record(Level::Debug, None, None, "quiet"));
    assert!(ok);
    assert_eq!(g.writer.text, "");
}

#[test]
fn custom_template_through_sink() {
    let mut g = quiet_logger(LevelFilter::Debug, StringWriter::new());
    g.msg_format("{args}");
    g.emit(&record(Level::Debug, Some("x.rs"), Some(2), "bare"));
    assert_eq!(g.writer.text, "bare\n");
}

#[test]
fn bad_template_falls_back_to_default_layout() {
    let mut g = quiet_logger(LevelFilter::Info, StringWriter::new());
    g.msg_format("{foo} {baz}");
    let r = record(Level::Info, Some("f.rs"), Some(5), "kept");
    g.emit(&r);
    let expected = g.log_formatter.default_msg(&r, "");
    assert_eq!(g.writer.text, format!("{}\n", expected));
    assert_eq!(g.writer.text, "[] INFO [f.rs:5] kept\n");
}

#[test]
fn append_keeps_prior_contents() {
    let pre = StringWriter::with_text("A\n".to_string());
    let mut builder = FileLogger::new(LevelFilter::Info);
    builder.timestamp_format("").truncate(false).filename("./test.log");
    let mut g = builder.create(pre);
    g.emit(&record(Level::Info, Some("b.rs"), Some(2), "B"));
    assert_eq!(g.writer.text, "A\n[] INFO [b.rs:2] B\n");
}

#[test]
fn truncated_target_holds_only_the_new_line() {
    let mut builder = FileLogger::new(LevelFilter::Info);
    builder.timestamp_format("").truncate(true).filename("./test.log");
    assert!(builder.truncate);
    let mut g = builder.create(StringWriter::new());
    g.emit(&record(Level::Info, Some("b.rs"), Some(2), "B"));
    assert_eq!(g.writer.text, "[] INFO [b.rs:2] B\n");
}

#[test]
fn file_logger_builder_accumulates_options() {
    let mut b = FileLogger::new(LevelFilter::Debug);
    b.timestamp_format("%F %X")
        .msg_format("{level} - {args}")
        .truncate(false)
        .filename("/tmp/test.log");
    assert_eq!(b.filename, Some("/tmp/test.log"));
    assert!(!b.truncate);
    let mut g = b.create(StringWriter::new());
    g.timestamp_format("");
    g.emit(&record(Level::Warn, None, None, "styled"));
    assert_eq!(g.writer.text, "WARN - styled\n");
}

#[test]
fn emit_queries_clock_once_per_record() {
    let writer = StringWriter::new();
    let clock = RecordingClock::new("CLK".to_string());
    let mut g = GenLogger::with_clock(LevelFilter::Info, writer, clock);
    g.timestamp_format("%X");
    g.emit(&record(Level::Info, None, None, "one"));
    g.emit(&record(Level::Info, None, None, "two"));
    assert_eq!(g.clock.query_count(), 2);
    assert_eq!(g.writer.text, "[CLK] INFO [<no_file>:0] one\n[CLK] INFO [<no_file>:0] two\n");
}

#[test]
fn emit_with_empty_pattern_never_queries_clock() {
    let mut g = quiet_logger(LevelFilter::Trace, StringWriter::new());
    g.emit(&record(Level::Trace, None, None, "a"));
    g.emit(&record(Level::Debug, None, None, "b"));
    assert_eq!(g.clock.query_count(), 0);
}

#[test]
fn gated_out_record_does_not_query_clock() {
    let writer = StringWriter::new();
    let clock = RecordingClock::new("CLK".to_string());
    let mut g = GenLogger::with_clock(LevelFilter::Error, writer, clock);
    g.timestamp_format("%X");
    g.emit(&record(Level::Info, None, None, "skipped"));
    assert_eq!(g.clock.query_count(), 0);
}

#[test]
fn repeated_emits_are_byte_identical_without_timestamp() {
    let mut g = quiet_logger(LevelFilter::Info, StringWriter::new());
    let r = record(Level::Info, Some("d.rs"), Some(3), "same");
    g.emit(&r);
    g.emit(&r);
    let lines: Vec<&str> = g.writer.text.lines().collect();
    assert_eq!(lines.len(), 2);
    assert_eq!(lines[0], lines[1]);
}

#[test]
fn sink_log_respects_gate_like_emit() {
    let mut g = quiet_logger(LevelFilter::Warn, StringWriter::new());
    let ok = g.log(&record(Level::Error, None, None, "in"));
    assert!(ok);
    let ok2 = g.log(&record(Level::Info, None, None, "out"));
    assert!(ok2);
    assert_eq!(g.writer.text, "[] ERROR [<no_file>:0] in\n");
    assert!(g.flush());
}

#[test]
fn real_clock_produces_a_timestamped_line() {
    let mut g = GenLogger::new(LevelFilter::Info, StringWriter::new());
    g.emit(&record(Level::Info, Some("t.rs"), Some(1), "stamped"));
    let text = &g.writer.text;
    assert!(text.starts_with("["));
    assert!(text.contains("] INFO [t.rs:1] stamped\n"));
    assert!(!text.starts_with("[]"));
}

#[test]
fn terminal_factories_gate_correctly() {
    let out = StdoutLogger::new(LevelFilter::Warn);
    assert!(out.enabled(Level::Error));
    assert!(out.enabled(Level::Warn));
    assert!(!out.enabled(Level::Info));
    let err = StderrLogger::new(LevelFilter::Trace);
    assert!(err.enabled(Level::Trace));
}

#[test]
fn stderr_logger_emits_without_failing() {
    let mut e = StderrLogger::new(LevelFilter::Info);
    e.timestamp_format("");
    assert!(e.emit(&record(Level::Info, None, None, "a line for the error stream")));
    assert!(e.flush());
}
