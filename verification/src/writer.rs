//! Write targets that rendered log lines go to.
//!
//! A [`Writer`] owns one byte-stream destination. Its spec `contents()`
//! is the text successfully handed to the destination so far, so a
//! sink's contract can say exactly which line a record added. The
//! in-memory [`StringWriter`] is fully verified; the terminal writers
//! reach the process streams through thin trusted calls.

use vstd::prelude::*;
use std::io::Write;
use vstd::string::StringExecFns;

verus! {

/// One exclusively-owned write target. `contents()` is every character
/// successfully written so far, in order.
pub trait Writer {
    /// The text this target has accepted so far.
    spec fn contents(&self) -> Seq<char>;

    /// Appends `s` to the target. On success the accepted text grows by
    /// exactly `s`; on failure the target reports `false` and nothing is
    /// claimed of what it holds.
    fn write_str(&mut self, s: &str) -> (ok: bool)
        ensures
            ok ==> final(self).contents() == old(self).contents() + s@,
    ;

    /// Pushes buffered output down to the destination; never alters the
    /// accepted text.
    fn flush(&mut self) -> (ok: bool)
        ensures
            final(self).contents() == old(self).contents(),
    ;
}

/// An in-memory target: everything written is kept in one owned string.
pub struct StringWriter {
    /// All text written so far.
    pub text: String,
}

impl StringWriter {
    /// An empty in-memory target.
    pub fn new() -> (w: StringWriter)
        ensures
            w.contents() == Seq::<char>::empty(),
    {
        StringWriter { text: String::new() }
    }

    /// An in-memory target that already holds `text`, as a file opened
    /// for appending would.
    pub fn with_text(text: String) -> (w: StringWriter)
        ensures
            w.contents() == text@,
    {
        StringWriter { text }
    }
}

impl Writer for StringWriter {
    open spec fn contents(&self) -> Seq<char> {
        self.text@
    }

    fn write_str(&mut self, s: &str) -> (ok: bool) {
        self.text.append(s);
        true
    }

    fn flush(&mut self) -> (ok: bool) {
        true
    }
}

/// Relies on `std::io::Stdout::write_all`: hands the bytes of `s` to the
/// standard output stream and reports whether that succeeded.
#[verifier::external_body]
fn stdout_write(s: &str) -> bool {
    std::io::stdout().write_all(s.as_bytes()).is_ok()
}

/// Relies on `std::io::Stdout::flush`: asks the standard output stream to
/// flush its buffer and reports whether that succeeded.
#[verifier::external_body]
fn stdout_flush() -> bool {
    std::io::stdout().flush().is_ok()
}

/// Relies on `std::io::Stderr::write_all`: hands the bytes of `s` to the
/// standard error stream and reports whether that succeeded.
#[verifier::external_body]
fn stderr_write(s: &str) -> bool {
    std::io::stderr().write_all(s.as_bytes()).is_ok()
}

/// Relies on `std::io::Stderr::flush`: asks the standard error stream to
/// flush its buffer and reports whether that succeeded.
#[verifier::external_body]
fn stderr_flush() -> bool {
    std::io::stderr().flush().is_ok()
}

/// Relies on `writeln!` to `std::io::stderr`: puts one diagnostic line on
/// the error stream, the side channel for format trouble; any write error
/// is ignored.
#[verifier::external_body]
pub(crate) fn diag_line(s: &str) {
    let _ = writeln!(std::io::stderr(), "{}", s);
}

/// The process's standard output stream as a write target.
pub struct StdoutWriter {
    written: Ghost<Seq<char>>,
}

impl StdoutWriter {
    /// A handle to standard output with an empty written-text history.
    pub fn new() -> (w: StdoutWriter)
        ensures
            w.contents() == Seq::<char>::empty(),
    {
        StdoutWriter { written: Ghost(Seq::empty()) }
    }
}

impl Writer for StdoutWriter {
    closed spec fn contents(&self) -> Seq<char> {
        self.written@
    }

    fn write_str(&mut self, s: &str) -> (ok: bool) {
        let ok = stdout_write(s);
        if ok {
            proof {
                self.written@ = self.written@ + s@;
            }
        }
        ok
    }

    fn flush(&mut self) -> (ok: bool) {
        stdout_flush()
    }
}

/// The process's standard error stream as a write target.
pub struct StderrWriter {
    written: Ghost<Seq<char>>,
}

impl StderrWriter {
    /// A handle to standard error with an empty written-text history.
    pub fn new() -> (w: StderrWriter)
        ensures
            w.contents() == Seq::<char>::empty(),
    {
        StderrWriter { written: Ghost(Seq::empty()) }
    }
}

impl Writer for StderrWriter {
    closed spec fn contents(&self) -> Seq<char> {
        self.written@
    }

    fn write_str(&mut self, s: &str) -> (ok: bool) {
        let ok = stderr_write(s);
        if ok {
            proof {
                self.written@ = self.written@ + s@;
            }
        }
        ok
    }

    fn flush(&mut self) -> (ok: bool) {
        stderr_flush()
    }
}

} // verus!
