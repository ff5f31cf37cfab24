//! A pluggable logging facade with a verified core.
//!
//! One [`PolyLogger`] fans every record out to any number of child
//! sinks — terminal, file-backed, or user-supplied — each with its own
//! severity threshold and message format. The message-template language,
//! the severity gates, the composite's cached `max_level`, and the
//! fallback to the default layout on a template error are all stated in
//! contracts and proved.
//!
//! [`GenLogger`] is the generic logger over any [`Writer`] target and
//! any [`Clock`] time source; [`StdoutLogger`], [`StderrLogger`] and the
//! [`FileLogger`] builder instantiate it for the usual targets, and
//! [`TerminalLogger`] drives the terminal streams directly. Every sink
//! offers the [`Sink`] capability — `enabled`, `log`, `flush` — and a
//! [`PolyLogger`] accepts anything that offers it, itself included.

use vstd::prelude::*;

mod clock;
mod gen_logger;
mod instance;
mod level;
mod log_formatter;
mod loggers;
mod poly_logger;
mod record;
mod sink;
mod template;
mod text;
mod writer;

pub use clock::Clock;
pub use clock::RecordingClock;
pub use clock::SystemClock;
pub use gen_logger::GenLogger;
pub use instance::FileLogger;
pub use instance::StderrLogger;
pub use instance::StdoutLogger;
pub use level::Level;
pub use level::LevelFilter;
pub use log_formatter::LogFormatter;
pub use loggers::TerminalLogger;
pub use poly_logger::PolyLogger;
pub use record::Record;
pub use record::RecordView;
pub use sink::Sink;
pub use template::FormatError;
pub use template::SubstVars;
pub use writer::StderrWriter;
pub use writer::StdoutWriter;
pub use writer::StringWriter;
pub use writer::Writer;

verus! {

} // verus!
