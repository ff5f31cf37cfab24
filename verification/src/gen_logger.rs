//! A generic logger: one severity gate, one formatter, one write target.
//!
//! `GenLogger` renders each accepted record through its [`LogFormatter`]
//! and writes the line plus a newline to the [`Writer`] it owns. A
//! template error is never fatal: the logger reports it on the
//! diagnostic side channel and falls back to the default layout for that
//! one record.

use vstd::prelude::*;
use crate::clock::Clock;
use crate::clock::SystemClock;
use crate::level::Level;
use crate::level::LevelFilter;
use crate::level::enabled_for;
use crate::level::spec_level_enabled;
use crate::log_formatter::LogFormatter;
use crate::log_formatter::spec_rendered_line;
use crate::record::Record;
use crate::sink::Sink;
use crate::template::FormatError;
use crate::writer::Writer;
use crate::writer::diag_line;
use vstd::string::StringExecFns;

verus! {

/// A logger over any write target `S` and any time source `C`.
pub struct GenLogger<S: Writer + Send, C: Clock + Send> {
    /// The loosest severity this logger accepts.
    pub level_filter: LevelFilter,
    /// How accepted records are rendered.
    pub log_formatter: LogFormatter,
    /// The owned write target.
    pub writer: S,
    /// The time source consulted for `{timestamp}`.
    pub clock: C,
    /// Ghost count of the records written so far.
    pub emitted: Ghost<nat>,
}

/// The timestamp text an emission used: the empty string when the
/// pattern is off, else the newest entry of the clock's history.
pub open spec fn spec_emit_ts<C: Clock>(f: LogFormatter, clock_after: C) -> Seq<char> {
    if f.timestamp_format@.len() == 0 {
        Seq::<char>::empty()
    } else {
        clock_after.outputs().last()
    }
}

impl<S: Writer + Send> GenLogger<S, SystemClock> {
    /// A logger over `writer` gated at `level_filter`, with the default
    /// formatter and the real clock.
    pub fn new(level_filter: LevelFilter, writer: S) -> (g: GenLogger<S, SystemClock>)
        ensures
            g.level_filter == level_filter,
            g.writer == writer,
            g.log_formatter.timestamp_format@ == "%+"@,
            !g.log_formatter.use_strfmt,
            g.emit_count() == 0,
    {
        GenLogger {
            level_filter,
            log_formatter: LogFormatter::new(),
            writer,
            clock: SystemClock::new(),
            emitted: Ghost(0nat),
        }
    }
}

impl<S: Writer + Send, C: Clock + Send> GenLogger<S, C> {
    /// A logger over `writer` gated at `level_filter`, consulting the
    /// given time source.
    pub fn with_clock(level_filter: LevelFilter, writer: S, clock: C) -> (g: GenLogger<S, C>)
        ensures
            g.level_filter == level_filter,
            g.writer == writer,
            g.clock == clock,
            g.log_formatter.timestamp_format@ == "%+"@,
            !g.log_formatter.use_strfmt,
            g.emit_count() == 0,
    {
        GenLogger { level_filter, log_formatter: LogFormatter::new(), writer, clock, emitted: Ghost(0nat) }
    }

    /// Sets the strftime-style timestamp pattern of the owned formatter;
    /// the empty pattern turns timestamps off.
    pub fn timestamp_format(&mut self, format: &'static str) -> (r: &mut Self)
        ensures
            *r == (GenLogger {
                log_formatter: LogFormatter {
                    timestamp_format: format,
                    msg_format: old(self).log_formatter.msg_format,
                    use_strfmt: old(self).log_formatter.use_strfmt,
                },
                ..*old(self)
            }),
            *final(self) == *final(r),
    {
        self.log_formatter.timestamp_format(format);
        self
    }

    /// Sets a custom message template on the owned formatter.
    pub fn msg_format(&mut self, format: &'static str) -> (r: &mut Self)
        ensures
            *r == (GenLogger {
                log_formatter: LogFormatter {
                    timestamp_format: old(self).log_formatter.timestamp_format,
                    msg_format: format,
                    use_strfmt: true,
                },
                ..*old(self)
            }),
            *final(self) == *final(r),
    {
        self.log_formatter.msg_format(format);
        self
    }

    /// Replaces the owned formatter, touching nothing else.
    pub fn set_log_formatter(&mut self, f: LogFormatter)
        ensures
            *final(self) == (GenLogger { log_formatter: f, ..*old(self) }),
            final(self).emit_count() == old(self).emit_count(),
    {
        self.log_formatter = f;
    }

    /// Writes one record. Below this logger's threshold nothing at all happens.
    /// Otherwise the record is rendered — with a template error reported
    /// on the side channel and the default layout standing in — and the
    /// line plus a newline goes to the writer: on success the writer's
    /// text grows by exactly that line and the emission count by one.
    /// The clock is consulted exactly once, or never when the timestamp
    /// pattern is empty.
    pub fn emit(&mut self, record: &Record) -> (ok: bool)
        ensures
            final(self).level_filter == old(self).level_filter,
            final(self).log_formatter == old(self).log_formatter,
            !spec_level_enabled(record.level, old(self).level_filter) ==> ok && *final(self)
                == *old(self),
            spec_level_enabled(record.level, old(self).level_filter) ==> {
                let f = old(self).log_formatter;
                let ts = spec_emit_ts(f, final(self).clock);
                &&& (f.timestamp_format@.len() == 0 ==> final(self).clock == old(self).clock)
                &&& (f.timestamp_format@.len() > 0 ==> final(self).clock.outputs() == old(
                    self,
                ).clock.outputs().push(ts))
                &&& (ok ==> final(self).writer.contents() == old(self).writer.contents()
                    + spec_rendered_line(f, record@, ts) + "\n"@)
                &&& (ok ==> final(self).emit_count() == old(self).emit_count() + 1)
                &&& (!ok ==> final(self).emit_count() == old(self).emit_count())
            },
    {
        if !enabled_for(record.level, self.level_filter) {
            return true;
        }
        let f = self.log_formatter;
        let ts = f.timestamp(&mut self.clock);
        let mut line = match f.msg_with_timestamp(record, ts.as_str()) {
            Ok(m) => m,
            Err(e) => {
                match &e {
                    FormatError::KeyError(k) => {
                        let msg: &'static str = "Invalid log format: unknown placeholder ";
                        let mut d = msg.to_owned();
                        d.append(k.as_str());
                        diag_line(d.as_str());
                    },
                    FormatError::Invalid => {
                        diag_line("Invalid log format: malformed template");
                    },
                }
                f.default_msg(record, ts.as_str())
            },
        };
        line.append("\n");
        proof {
            assert(line@ =~= spec_rendered_line(f, record@, ts@) + "\n"@);
        }
        let ok = self.writer.write_str(line.as_str());
        if ok {
            proof {
                self.emitted@ = self.emitted@ + 1;
            }
            proof {
                assert(final(self).writer.contents() =~= old(self).writer.contents()
                    + spec_rendered_line(f, record@, ts@) + "\n"@);
            }
        }
        ok
    }
}

impl<S: Writer + Send, C: Clock + Send> Sink for GenLogger<S, C> {
    open spec fn spec_enabled(&self, l: Level) -> bool {
        spec_level_enabled(l, self.level_filter)
    }

    closed spec fn emit_count(&self) -> nat {
        self.emitted@
    }

    fn enabled(&self, l: Level) -> (r: bool) {
        enabled_for(l, self.level_filter)
    }

    fn log(&mut self, record: &Record) -> (ok: bool) {
        self.emit(record)
    }

    fn flush(&mut self) -> (ok: bool) {
        self.writer.flush()
    }
}

} // verus!
