// The terminal logger lives in its own submodule so clients can also
// reach it as poly_logger::loggers::TerminalLogger.
pub mod terminal_logger;

pub use terminal_logger::TerminalLogger;
