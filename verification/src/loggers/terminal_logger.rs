//! A logger for the process's terminal streams.
//!
//! `TerminalLogger` writes to standard error by default and can be
//! switched to standard output. It renders records exactly as
//! [`GenLogger`](crate::gen_logger::GenLogger) does: a template error is
//! reported on the side channel and the default layout stands in for
//! that one record.

use vstd::prelude::*;
use crate::clock::Clock;
use crate::clock::SystemClock;
use crate::gen_logger::spec_emit_ts;
use crate::level::Level;
use crate::level::LevelFilter;
use crate::level::enabled_for;
use crate::level::spec_level_enabled;
use crate::log_formatter::LogFormatter;
use crate::log_formatter::spec_rendered_line;
use crate::record::Record;
use crate::sink::Sink;
use crate::template::FormatError;
use crate::writer::StderrWriter;
use crate::writer::StdoutWriter;
use crate::writer::Writer;
use crate::writer::diag_line;
use vstd::string::StringExecFns;

verus! {

/// A logger that writes to standard error, or to standard output when
/// so switched.
pub struct TerminalLogger {
    /// The loosest severity this logger accepts.
    pub level_filter: LevelFilter,
    /// How accepted records are rendered.
    pub log_formatter: LogFormatter,
    /// Whether lines go to standard output instead of standard error.
    pub use_stdout: bool,
    /// The standard output target.
    pub out: StdoutWriter,
    /// The standard error target.
    pub err: StderrWriter,
    /// The time source consulted for `{timestamp}`.
    pub clock: SystemClock,
    /// Ghost count of the records written so far.
    pub emitted: Ghost<nat>,
}

impl TerminalLogger {
    /// A terminal logger gated at `level_filter`, aimed at standard
    /// error, with the default formatter.
    pub fn new(level_filter: LevelFilter) -> (t: TerminalLogger)
        ensures
            t.level_filter == level_filter,
            !t.use_stdout,
            t.log_formatter.timestamp_format@ == "%+"@,
            !t.log_formatter.use_strfmt,
            t.emit_count() == 0,
    {
        TerminalLogger {
            level_filter,
            log_formatter: LogFormatter::new(),
            use_stdout: false,
            out: StdoutWriter::new(),
            err: StderrWriter::new(),
            clock: SystemClock::new(),
            emitted: Ghost(0nat),
        }
    }

    /// Sets the strftime-style timestamp pattern of the owned formatter;
    /// the empty pattern turns timestamps off.
    pub fn timestamp_format(&mut self, format: &'static str) -> (r: &mut Self)
        ensures
            *r == (TerminalLogger {
                log_formatter: LogFormatter {
                    timestamp_format: format,
                    msg_format: old(self).log_formatter.msg_format,
                    use_strfmt: old(self).log_formatter.use_strfmt,
                },
                ..*old(self)
            }),
            *final(self) == *final(r),
    {
        self.log_formatter.timestamp_format(format);
        self
    }

    /// Sets a custom message template on the owned formatter.
    pub fn msg_format(&mut self, format: &'static str) -> (r: &mut Self)
        ensures
            *r == (TerminalLogger {
                log_formatter: LogFormatter {
                    timestamp_format: old(self).log_formatter.timestamp_format,
                    msg_format: format,
                    use_strfmt: true,
                },
                ..*old(self)
            }),
            *final(self) == *final(r),
    {
        self.log_formatter.msg_format(format);
        self
    }

    /// Aims this logger at standard output.
    pub fn use_stdout(&mut self) -> (r: &mut Self)
        ensures
            *r == (TerminalLogger { use_stdout: true, ..*old(self) }),
            *final(self) == *final(r),
    {
        self.use_stdout = true;
        self
    }

    /// Aims this logger at standard error (the default).
    pub fn use_stderr(&mut self) -> (r: &mut Self)
        ensures
            *r == (TerminalLogger { use_stdout: false, ..*old(self) }),
            *final(self) == *final(r),
    {
        self.use_stdout = false;
        self
    }

    /// Writes one record to the chosen terminal stream. Below the threshold
    /// nothing at all happens. Otherwise the record is rendered — with a
    /// template error reported on the side channel and the default
    /// layout standing in — and the line plus a newline goes to the
    /// chosen stream; the other stream is untouched. The clock is
    /// consulted exactly once, or never when the timestamp pattern is
    /// empty.
    pub fn emit(&mut self, record: &Record) -> (ok: bool)
        ensures
            final(self).level_filter == old(self).level_filter,
            final(self).log_formatter == old(self).log_formatter,
            final(self).use_stdout == old(self).use_stdout,
            !spec_level_enabled(record.level, old(self).level_filter) ==> ok && *final(self)
                == *old(self),
            spec_level_enabled(record.level, old(self).level_filter) ==> {
                let f = old(self).log_formatter;
                let ts = spec_emit_ts(f, final(self).clock);
                &&& (f.timestamp_format@.len() == 0 ==> final(self).clock == old(self).clock)
                &&& (f.timestamp_format@.len() > 0 ==> final(self).clock.outputs() == old(
                    self,
                ).clock.outputs().push(ts))
                &&& (ok && old(self).use_stdout ==> final(self).out.contents() == old(
                    self,
                ).out.contents() + spec_rendered_line(f, record@, ts) + "\n"@ && final(self).err
                    == old(self).err)
                &&& (ok && !old(self).use_stdout ==> final(self).err.contents() == old(
                    self,
                ).err.contents() + spec_rendered_line(f, record@, ts) + "\n"@ && final(self).out
                    == old(self).out)
                &&& (ok ==> final(self).emit_count() == old(self).emit_count() + 1)
                &&& (!ok ==> final(self).emit_count() == old(self).emit_count())
            },
    {
        if !enabled_for(record.level, self.level_filter) {
            return true;
        }
        let f = self.log_formatter;
        let ts = f.timestamp(&mut self.clock);
        let mut line = match f.msg_with_timestamp(record, ts.as_str()) {
            Ok(m) => m,
            Err(e) => {
                match &e {
                    FormatError::KeyError(k) => {
                        let msg: &'static str = "Invalid log format: unknown placeholder ";
                        let mut d = msg.to_owned();
                        d.append(k.as_str());
                        diag_line(d.as_str());
                    },
                    FormatError::Invalid => {
                        diag_line("Invalid log format: malformed template");
                    },
                }
                f.default_msg(record, ts.as_str())
            },
        };
        line.append("\n");
        proof {
            assert(line@ =~= spec_rendered_line(f, record@, ts@) + "\n"@);
        }
        let ok = if self.use_stdout {
            self.out.write_str(line.as_str())
        } else {
            self.err.write_str(line.as_str())
        };
        if ok {
            proof {
                self.emitted@ = self.emitted@ + 1;
            }
        }
        ok
    }
}

impl Sink for TerminalLogger {
    open spec fn spec_enabled(&self, l: Level) -> bool {
        spec_level_enabled(l, self.level_filter)
    }

    closed spec fn emit_count(&self) -> nat {
        self.emitted@
    }

    fn enabled(&self, l: Level) -> (r: bool) {
        enabled_for(l, self.level_filter)
    }

    fn log(&mut self, record: &Record) -> (ok: bool) {
        self.emit(record)
    }

    fn flush(&mut self) -> (ok: bool) {
        true
    }
}

} // verus!
