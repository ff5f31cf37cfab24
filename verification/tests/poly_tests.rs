use std::sync::Arc;
use std::sync::Mutex;
use vstd::prelude::nat;

use poly_logger::{
    GenLogger, Level, LevelFilter, PolyLogger, Record, RecordingClock, Sink, StringWriter,
    TerminalLogger,
};

fn record(level: Level, args: &str) -> Record {
    Record::new(level, None, None, None, args.to_string())
}

/// A test sink that gates on its own threshold and records every message
/// it accepts in shared storage, so the fan-out stays observable after
/// the sink moves into a composite.
struct SpySink {
    filter: LevelFilter,
    seen: Arc<Mutex<Vec<String>>>,
    forwarded: Arc<Mutex<u32>>,
}

impl Sink for SpySink {
    fn spec_enabled(&self, _l: Level) -> bool {
        unreachable!()
    }

    fn emit_count(&self) -> nat {
        unreachable!()
    }

    fn enabled(&self, l: Level) -> bool {
        l.rank() <= self.filter.rank()
    }

    fn log(&mut self, record: &Record) -> bool {
        *self.forwarded.lock().unwrap() += 1;
        if self.enabled(record.level) {
            self.seen.lock().unwrap().push(record.args.clone());
        }
        true
    }

    fn flush(&mut self) -> bool {
        true
    }
}

fn spy(filter: LevelFilter) -> (SpySink, Arc<Mutex<Vec<String>>>, Arc<Mutex<u32>>) {
    let seen = Arc::new(Mutex::new(Vec::new()));
    let forwarded = Arc::new(Mutex::new(0));
    (SpySink { filter, seen: seen.clone(), forwarded: forwarded.clone() }, seen, forwarded)
}

#[test]
fn terminal_logger_it_works() {
    assert_eq!(2 + 2, 4);
}

#[test]
fn empty_composite_starts_at_error() {
    let p = PolyLogger::new();
    assert!(p.max_level() == Level::Error);
    assert_eq!(p.len(), 0);
}

#[test]
fn max_level_tracks_loosest_threshold_seen() {
    let mut p = PolyLogger::new();
    p.add(TerminalLogger::new(LevelFilter::Warn));
    assert!(p.max_level() == Level::Warn);
    p.add(TerminalLogger::new(LevelFilter::Info));
    assert!(p.max_level() == Level::Info);
    p.add(TerminalLogger::new(LevelFilter::Trace));
    assert!(p.max_level() == Level::Trace);
}

#[test]
fn max_level_never_goes_down() {
    let mut p = PolyLogger::new();
    p.add(TerminalLogger::new(LevelFilter::Debug));
    assert!(p.max_level() == Level::Debug);
    p.add(TerminalLogger::new(LevelFilter::Warn));
    assert!(p.max_level() == Level::Debug);
    p.add(TerminalLogger::new(LevelFilter::Error));
    assert!(p.max_level() == Level::Debug);
}

#[test]
fn composite_gate_follows_cached_max_level() {
    let mut p = PolyLogger::new();
    p.add(TerminalLogger::new(LevelFilter::Info));
    assert!(p.enabled(Level::Error));
    assert!(p.enabled(Level::Info));
    assert!(!p.enabled(Level::Debug));
}

#[test]
fn debug_record_reaches_only_the_trace_child() {
    let mut p = PolyLogger::new();
    let (s1, seen1, fwd1) = spy(LevelFilter::Error);
    let (s2, seen2, fwd2) = spy(LevelFilter::Info);
    let (s3, seen3, fwd3) = spy(LevelFilter::Trace);
    p.add(s1);
    p.add(s2);
    p.add(s3);
    assert!(p.max_level() == Level::Trace);
    p.log(&record(Level::Debug, "only the loosest"));
    assert_eq!(*fwd1.lock().unwrap(), 1);
    assert_eq!(*fwd2.lock().unwrap(), 1);
    assert_eq!(*fwd3.lock().unwrap(), 1);
    assert!(seen1.lock().unwrap().is_empty());
    assert!(seen2.lock().unwrap().is_empty());
    assert_eq!(*seen3.lock().unwrap(), vec!["only the loosest".to_string()]);
}

#[test]
fn composite_forwards_to_every_child_in_order() {
    let mut p = PolyLogger::new();
    let (s1, seen1, _) = spy(LevelFilter::Trace);
    let (s2, seen2, _) = spy(LevelFilter::Trace);
    p.add(s1);
    p.add(s2);
    p.log(&record(Level::Info, "both"));
    p.log(&record(Level::Error, "again"));
    assert_eq!(*seen1.lock().unwrap(), vec!["both".to_string(), "again".to_string()]);
    assert_eq!(*seen2.lock().unwrap(), vec!["both".to_string(), "again".to_string()]);
}

#[test]
fn composite_nests_inside_another_composite() {
    let mut inner = PolyLogger::new();
    let (s, seen, _) = spy(LevelFilter::Debug);
    inner.add(s);
    let mut outer = PolyLogger::new();
    outer.add(inner);
    assert!(outer.max_level() == Level::Debug);
    outer.log(&record(Level::Debug, "nested"));
    assert_eq!(*seen.lock().unwrap(), vec!["nested".to_string()]);
}

#[test]
fn flush_reaches_every_child_and_drops_nothing() {
    let mut p = PolyLogger::new();
    let (s1, seen1, _) = spy(LevelFilter::Trace);
    p.add(s1);
    p.log(&record(Level::Info, "kept"));
    assert!(p.flush());
    assert_eq!(*seen1.lock().unwrap(), vec!["kept".to_string()]);
}

#[test]
fn gen_logger_works_as_composite_child() {
    let mut child = GenLogger::with_clock(
        LevelFilter::Info,
        StringWriter::new(),
        RecordingClock::new("T".to_string()),
    );
    child.timestamp_format("").msg_format("{args}");
    let mut p = PolyLogger::new();
    p.add(child);
    assert!(p.max_level() == Level::Info);
    p.log(&record(Level::Info, "through the composite"));
    p.log(&record(Level::Debug, "dropped by the child"));
}
