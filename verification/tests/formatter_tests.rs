use poly_logger::{FormatError, Level, LogFormatter, Record, RecordingClock};

fn record(level: Level, file: Option<&str>, line: Option<u32>, args: &str) -> Record {
    Record::new(level, file.map(|f| f.to_string()), line, None, args.to_string())
}

#[test]
fn log_formatter_it_works() {
    assert_eq!(2 + 2, 4);
}

#[test]
fn default_layout_exact() {
    let f = LogFormatter::new();
    let r = record(Level::Info, Some("a.rs"), Some(7), "hi");
    let line = f.default_msg(&r, "");
    assert_eq!(line, "[] INFO [a.rs:7] hi");
}

#[test]
fn default_layout_missing_file_and_line() {
    let f = LogFormatter::new();
    let r = record(Level::Warn, None, None, "boom");
    let line = f.default_msg(&r, "");
    assert_eq!(line, "[] WARN [<no_file>:0] boom");
}

#[test]
fn default_layout_timestamp_text() {
    let f = LogFormatter::new();
    let r = record(Level::Error, Some("m.rs"), Some(1), "x");
    let line = f.default_msg(&r, "2020-01-01");
    assert_eq!(line, "[2020-01-01] ERROR [m.rs:1] x");
}

#[test]
fn default_path_never_fails() {
    let f = LogFormatter::new();
    let r = record(Level::Trace, None, None, "t");
    let m = f.msg_with_timestamp(&r, "ts");
    assert_eq!(m.unwrap(), "[ts] TRACE [<no_file>:0] t");
}

#[test]
fn args_template_renders_exactly_the_body() {
    let mut f = LogFormatter::new();
    f.msg_format("{args}");
    let r = record(Level::Debug, Some("x.rs"), Some(3), "only the body");
    let m = f.msg_with_timestamp(&r, "whatever");
    assert_eq!(m.unwrap(), "only the body");
}

#[test]
fn custom_template_all_placeholders() {
    let mut f = LogFormatter::new();
    f.msg_format("{level} [{timestamp} {file}:{line}] - {args}");
    let r = record(Level::Info, Some("examples/stdout.rs"), Some(14), "msg here");
    let m = f.msg_with_timestamp(&r, "20:52:57");
    assert_eq!(m.unwrap(), "INFO [20:52:57 examples/stdout.rs:14] - msg here");
}

#[test]
fn unknown_placeholder_is_a_key_error() {
    let mut f = LogFormatter::new();
    f.msg_format("{foo} {baz}");
    let r = record(Level::Info, None, None, "m");
    match f.msg_with_timestamp(&r, "") {
        Err(FormatError::KeyError(k)) => assert_eq!(k, "foo"),
        other => panic!("expected a key error, got {:?}", other),
    }
}

#[test]
fn unterminated_placeholder_is_invalid() {
    let mut f = LogFormatter::new();
    f.msg_format("{args");
    let r = record(Level::Info, None, None, "m");
    assert!(matches!(f.msg_with_timestamp(&r, ""), Err(FormatError::Invalid)));
}

#[test]
fn stray_closing_brace_is_invalid() {
    let mut f = LogFormatter::new();
    f.msg_format("a}b");
    let r = record(Level::Info, None, None, "m");
    assert!(matches!(f.msg_with_timestamp(&r, ""), Err(FormatError::Invalid)));
}

#[test]
fn brace_inside_placeholder_is_invalid() {
    let mut f = LogFormatter::new();
    f.msg_format("{a{b}");
    let r = record(Level::Info, None, None, "m");
    assert!(matches!(f.msg_with_timestamp(&r, ""), Err(FormatError::Invalid)));
}

#[test]
fn doubled_braces_are_literals() {
    let mut f = LogFormatter::new();
    f.msg_format("{{args}} {args}");
    let r = record(Level::Info, None, None, "body");
    let m = f.msg_with_timestamp(&r, "");
    assert_eq!(m.unwrap(), "{args} body");
}

#[test]
fn rendering_is_deterministic() {
    let mut f = LogFormatter::new();
    f.msg_format("{level}:{line}:{args}");
    let r1 = record(Level::Warn, Some("w.rs"), Some(9), "same");
    let r2 = record(Level::Warn, Some("w.rs"), Some(9), "same");
    let a = f.msg_with_timestamp(&r1, "T").unwrap();
    let b = f.msg_with_timestamp(&r2, "T").unwrap();
    assert_eq!(a, b);
    let g = LogFormatter::new();
    let c = g.default_msg(&r1, "T");
    let d = g.default_msg(&r2, "T");
    assert_eq!(c, d);
}

#[test]
fn large_line_number_renders_in_decimal() {
    let f = LogFormatter::new();
    let r = record(Level::Info, Some("f.rs"), Some(4294967295), "m");
    let line = f.default_msg(&r, "");
    assert_eq!(line, "[] INFO [f.rs:4294967295] m");
}

#[test]
fn empty_pattern_never_queries_the_clock() {
    let mut f = LogFormatter::new();
    f.timestamp_format("");
    let mut clock = RecordingClock::new("NOW".to_string());
    let r = record(Level::Info, None, None, "m");
    let m = f.msg(&r, &mut clock);
    assert!(m.is_ok());
    assert_eq!(clock.query_count(), 0);
}

#[test]
fn nonempty_pattern_queries_the_clock_once_per_render() {
    let mut f = LogFormatter::new();
    f.timestamp_format("%X");
    let mut clock = RecordingClock::new("12:00:00".to_string());
    let r = record(Level::Info, Some("c.rs"), Some(2), "m");
    let m = f.msg(&r, &mut clock).unwrap();
    assert_eq!(clock.query_count(), 1);
    assert_eq!(clock.patterns[0], "%X");
    assert_eq!(m, "[12:00:00] INFO [c.rs:2] m");
    let _ = f.msg(&r, &mut clock);
    assert_eq!(clock.query_count(), 2);
}

#[test]
fn line_and_file_accessors() {
    let f = LogFormatter::new();
    let with = record(Level::Info, Some("here.rs"), Some(42), "m");
    let without = record(Level::Info, None, None, "m");
    assert_eq!(f.line(&with), 42);
    assert_eq!(f.line(&without), 0);
    assert_eq!(f.file(&with), "here.rs");
    assert_eq!(f.file(&without), "<no_file>");
}
