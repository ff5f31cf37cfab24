//! Time sources for timestamping log records.
//!
//! A [`Clock`] hands out the current time already rendered through a
//! strftime-style pattern. The spec records every string a clock has
//! handed out, so a caller's contract can say how often the clock was
//! consulted — in particular that an empty timestamp pattern never
//! consults it.

use vstd::prelude::*;
use std::fmt::Write;

verus! {

/// A source of rendered timestamps. `outputs()` is the history of every
/// string the clock has handed out, most recent last; its length is the
/// number of times the clock was consulted.
pub trait Clock {
    /// Every string this clock has handed out so far, in order.
    spec fn outputs(&self) -> Seq<Seq<char>>;

    /// Renders the current moment through the strftime-style `pattern`
    /// and records the result in the history.
    fn now_formatted(&mut self, pattern: &str) -> (r: String)
        ensures
            final(self).outputs() == old(self).outputs().push(r@),
    ;
}

/// The real clock: renders the current local time.
pub struct SystemClock {
    history: Ghost<Seq<Seq<char>>>,
}

impl SystemClock {
    /// A fresh clock with an empty history.
    pub fn new() -> (c: SystemClock)
        ensures
            c.outputs() == Seq::<Seq<char>>::empty(),
    {
        SystemClock { history: Ghost(Seq::empty()) }
    }
}

/// Relies on `chrono::Local::now` and `chrono::DateTime::format` to render
/// the current local time through `pattern`; on a pattern the formatter
/// rejects, the rendering error is swallowed and the empty string stands
/// in. The text depends on the moment of the call, so nothing is claimed
/// about it.
#[verifier::external_body]
fn chrono_now_formatted(pattern: &str) -> String {
    let mut s = String::new();
    match write!(s, "{}", chrono::Local::now().format(pattern)) {
        Ok(()) => s,
        Err(_) => String::new(),
    }
}

impl Clock for SystemClock {
    closed spec fn outputs(&self) -> Seq<Seq<char>> {
        self.history@
    }

    fn now_formatted(&mut self, pattern: &str) -> (r: String) {
        let r = chrono_now_formatted(pattern);
        proof {
            self.history@ = self.history@.push(r@);
        }
        r
    }
}

/// A scripted clock for exercising timestamp handling: it answers every
/// query with the same fixed `reply` and keeps the pattern of each query.
pub struct RecordingClock {
    /// The pattern of each query made so far, in order.
    pub patterns: Vec<String>,
    /// The answer this clock gives to every query.
    pub reply: String,
}

impl RecordingClock {
    /// A fresh scripted clock that will answer every query with `reply`.
    pub fn new(reply: String) -> (c: RecordingClock)
        ensures
            c.outputs() == Seq::<Seq<char>>::empty(),
            c.patterns@ == Seq::<String>::empty(),
            c.reply == reply,
    {
        RecordingClock { patterns: Vec::new(), reply }
    }

    /// How many times this clock has been consulted.
    pub fn query_count(&self) -> (n: usize)
        ensures
            n == self.outputs().len(),
    {
        proof {
            assert(self.outputs().len() == self.patterns@.len());
        }
        self.patterns.len()
    }
}

impl Clock for RecordingClock {
    open spec fn outputs(&self) -> Seq<Seq<char>> {
        Seq::new(self.patterns@.len(), |i: int| self.reply@)
    }

    fn now_formatted(&mut self, pattern: &str) -> (r: String) {
        self.patterns.push(pattern.to_owned());
        let r = self.reply.clone();
        proof {
            assert(self.outputs() =~= old(self).outputs().push(r@));
        }
        r
    }
}

} // verus!
