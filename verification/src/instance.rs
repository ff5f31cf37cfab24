//! Ready-made logger instances: terminal factories and the file builder.
//!
//! `StdoutLogger` and `StderrLogger` are only ways to instantiate a
//! [`GenLogger`] aimed at the respective terminal stream. `FileLogger`
//! is a builder: it accumulates threshold, format and file options as
//! plain values, and `create` then yields the usable [`GenLogger`] over
//! a write target that the caller has already opened for the configured
//! file — opening the file and creating its parent directories is the
//! caller's fallible step, outside this crate's verified core.

use vstd::prelude::*;
use crate::clock::SystemClock;
use crate::gen_logger::GenLogger;
use crate::level::LevelFilter;
use crate::log_formatter::LogFormatter;
use crate::sink::Sink;
use crate::writer::StderrWriter;
use crate::writer::StdoutWriter;
use crate::writer::Writer;

verus! {

/// Instantiates a [`GenLogger`] that writes to standard output.
pub struct StdoutLogger {}

impl StdoutLogger {
    /// A logger over standard output gated at `level_filter`.
    pub fn new(level_filter: LevelFilter) -> (g: GenLogger<StdoutWriter, SystemClock>)
        ensures
            g.level_filter == level_filter,
            g.writer.contents() == Seq::<char>::empty(),
            g.log_formatter.timestamp_format@ == "%+"@,
            !g.log_formatter.use_strfmt,
            g.emit_count() == 0,
    {
        GenLogger::new(level_filter, StdoutWriter::new())
    }
}

/// Instantiates a [`GenLogger`] that writes to standard error.
pub struct StderrLogger {}

impl StderrLogger {
    /// A logger over standard error gated at `level_filter`.
    pub fn new(level_filter: LevelFilter) -> (g: GenLogger<StderrWriter, SystemClock>)
        ensures
            g.level_filter == level_filter,
            g.writer.contents() == Seq::<char>::empty(),
            g.log_formatter.timestamp_format@ == "%+"@,
            !g.log_formatter.use_strfmt,
            g.emit_count() == 0,
    {
        GenLogger::new(level_filter, StderrWriter::new())
    }
}

/// A builder for a file-backed logger: accumulates the threshold, the
/// format options, the file name and the truncate flag, all as plain
/// values; `create` then yields the usable logger.
pub struct FileLogger {
    /// The loosest severity the built logger will accept.
    pub level_filter: LevelFilter,
    /// Whether the log file's prior contents are to be discarded; the
    /// default is to append.
    pub truncate: bool,
    /// The log file's path, once set.
    pub filename: Option<&'static str>,
    /// How the built logger will render records.
    pub log_formatter: LogFormatter,
}

impl FileLogger {
    /// A file logger builder gated at `level_filter`, appending, with no
    /// file name yet and the default formatter.
    pub fn new(level_filter: LevelFilter) -> (f: FileLogger)
        ensures
            f.level_filter == level_filter,
            !f.truncate,
            f.filename is None,
            f.log_formatter.timestamp_format@ == "%+"@,
            !f.log_formatter.use_strfmt,
    {
        FileLogger { level_filter, truncate: false, filename: None, log_formatter: LogFormatter::new() }
    }

    /// Sets the strftime-style timestamp pattern for the built logger;
    /// the empty pattern turns timestamps off.
    pub fn timestamp_format(&mut self, format: &'static str) -> (r: &mut Self)
        ensures
            *r == (FileLogger {
                log_formatter: LogFormatter {
                    timestamp_format: format,
                    msg_format: old(self).log_formatter.msg_format,
                    use_strfmt: old(self).log_formatter.use_strfmt,
                },
                ..*old(self)
            }),
            *final(self) == *final(r),
    {
        self.log_formatter.timestamp_format(format);
        self
    }

    /// Sets a custom message template for the built logger.
    pub fn msg_format(&mut self, format: &'static str) -> (r: &mut Self)
        ensures
            *r == (FileLogger {
                log_formatter: LogFormatter {
                    timestamp_format: old(self).log_formatter.timestamp_format,
                    msg_format: format,
                    use_strfmt: true,
                },
                ..*old(self)
            }),
            *final(self) == *final(r),
    {
        self.log_formatter.msg_format(format);
        self
    }

    /// Chooses whether the log file is truncated before the first write;
    /// the default is to append.
    pub fn truncate(&mut self, truncate: bool) -> (r: &mut Self)
        ensures
            *r == (FileLogger { truncate, ..*old(self) }),
            *final(self) == *final(r),
    {
        self.truncate = truncate;
        self
    }

    /// Sets the log file's path.
    pub fn filename(&mut self, filename: &'static str) -> (r: &mut Self)
        ensures
            *r == (FileLogger { filename: Some(filename), ..*old(self) }),
            *final(self) == *final(r),
    {
        self.filename = Some(filename);
        self
    }

    /// Materializes the logger over `writer`, which the caller has
    /// opened for the configured file — created together with its
    /// missing parent directories, truncated when `truncate` was chosen
    /// and appended to otherwise. A builder with no file name set has
    /// nothing to open, so it cannot be materialized.
    pub fn create<S: Writer + Send>(&self, writer: S) -> (g: GenLogger<S, SystemClock>)
        requires
            self.filename is Some,
        ensures
            g.level_filter == self.level_filter,
            g.log_formatter == self.log_formatter,
            g.writer == writer,
            g.emit_count() == 0,
    {
        let mut g = GenLogger::new(self.level_filter, writer);
        g.set_log_formatter(self.log_formatter);
        g
    }
}

} // verus!
