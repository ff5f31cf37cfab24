//! The capability every log destination offers.
//!
//! A sink decides whether a record's severity passes its own gate,
//! writes the records that do, and flushes buffered output on demand.
//! The spec methods give each sink a gate predicate and a count of
//! records it has written, so that a dispatcher forwarding to unknown
//! sinks can still reason about what each of them did.

use vstd::prelude::*;
use crate::level::Level;
use crate::record::Record;

verus! {

/// One log destination: a severity gate, a write operation, and a flush.
///
/// The contract of [`Sink::log`] is the heart of the capability: a sink
/// checks its own filter, so a message under the threshold changes nothing, and
/// an accepted record raises the emission count by exactly one when the
/// write succeeds. Neither operation ever moves the threshold itself.
///
/// A sink can be sent to the thread that drives the process-wide log
/// facade, so the capability asks for [`Send`].
pub trait Sink: Send {
    /// Whether this sink accepts records at severity `l`.
    spec fn spec_enabled(&self, l: Level) -> bool;

    /// How many records this sink has written so far.
    spec fn emit_count(&self) -> nat;

    /// Decides admission: true iff a record at severity `l` would be
    /// accepted.
    fn enabled(&self, l: Level) -> (r: bool)
        ensures
            r == self.spec_enabled(l),
    ;

    /// Writes `record` if its severity passes this sink's gate, else does
    /// nothing. Returns false only when the sink tried to write and its
    /// target failed.
    fn log(&mut self, record: &Record) -> (ok: bool)
        ensures
            forall|l: Level| final(self).spec_enabled(l) == old(self).spec_enabled(l),
            !old(self).spec_enabled(record.level) ==> final(self).emit_count() == old(
                self,
            ).emit_count(),
            old(self).spec_enabled(record.level) && ok ==> final(self).emit_count() == old(
                self,
            ).emit_count() + 1,
            old(self).spec_enabled(record.level) && !ok ==> final(self).emit_count() == old(
                self,
            ).emit_count(),
    ;

    /// Pushes buffered output down to the target; writes no record.
    fn flush(&mut self) -> (ok: bool)
        ensures
            forall|l: Level| final(self).spec_enabled(l) == old(self).spec_enabled(l),
            final(self).emit_count() == old(self).emit_count(),
    ;
}

} // verus!
