//! The composite dispatcher: one sink that fans out to many.
//!
//! A `PolyLogger` owns an ordered collection of child sinks and forwards
//! every record to all of them, in insertion order; each child then
//! applies its own gate. The composite keeps a cached `max_level`: the
//! loosest severity any child was seen to accept when it was added. The
//! invariant the probing in [`PolyLogger::add`] buys is that whenever a
//! child accepts a severity, the composite's own gate accepts it too —
//! so the composite gate is a safe fast path, never the authority.

use vstd::prelude::*;
use crate::level::Level;
use crate::level::LevelFilter;
use crate::level::filter_rank;
use crate::level::level_rank;
use crate::level::spec_level_enabled;
use crate::record::Record;
use crate::sink::Sink;

verus! {

/// One probing step: the cached level `m` is raised to `l` when `l` is
/// looser than `m` and the probed child accepts records at `l` (`e`).
pub open spec fn probe_step(m: Level, l: Level, e: bool) -> Level {
    if level_rank(l) > level_rank(m) && e {
        l
    } else {
        m
    }
}

/// What the cached level becomes when a child accepting severities per
/// `ew, ei, ed, et` (at Warn, Info, Debug, Trace) is probed against `m`:
/// the four levels are tried from severe to verbose, each raising the
/// cache when accepted.
pub open spec fn spec_probe(m: Level, ew: bool, ei: bool, ed: bool, et: bool) -> Level {
    probe_step(
        probe_step(probe_step(probe_step(m, Level::Warn, ew), Level::Info, ei), Level::Debug, ed),
        Level::Trace,
        et,
    )
}

/// The level a threshold-gated child raises the cache to: the child's
/// own threshold when it is looser than the cache, else the cache.
pub open spec fn spec_loosest(m: Level, t: LevelFilter) -> Level {
    if filter_rank(t) > level_rank(m) {
        match t {
            LevelFilter::Warn => Level::Warn,
            LevelFilter::Info => Level::Info,
            LevelFilter::Debug => Level::Debug,
            LevelFilter::Trace => Level::Trace,
            _ => m,
        }
    } else {
        m
    }
}

/// Law: probing a child whose gate is the threshold `t` — as every sink
/// of this crate's own kinds is — raises the cache `m` to exactly the
/// loosest of the two. So after each `add` the cached `max_level` equals
/// the loosest threshold seen so far, and it never goes down.
pub proof fn lemma_probe_finds_threshold(m: Level, t: LevelFilter)
    ensures
        spec_probe(
            m,
            spec_level_enabled(Level::Warn, t),
            spec_level_enabled(Level::Info, t),
            spec_level_enabled(Level::Debug, t),
            spec_level_enabled(Level::Trace, t),
        ) == spec_loosest(m, t),
        level_rank(spec_loosest(m, t)) >= level_rank(m),
{
}

/// A sink that owns an ordered collection of child sinks and forwards
/// every record to all of them.
pub struct PolyLogger {
    loggers: Vec<Box<dyn Sink>>,
    max_level: Level,
    dispatched: Ghost<nat>,
}

impl PolyLogger {
    /// The children, in insertion order (which is fan-out order).
    pub closed spec fn spec_loggers(&self) -> Seq<Box<dyn Sink>> {
        self.loggers@
    }

    /// The cached loosest severity any child was seen to accept.
    pub closed spec fn spec_max_level(&self) -> Level {
        self.max_level
    }

    /// How many records this composite has forwarded while its own gate
    /// was open.
    pub closed spec fn spec_dispatched(&self) -> nat {
        self.dispatched@
    }

    /// Every severity some child accepts, the composite's cached gate
    /// accepts as well. `Error` is accepted by the cache always, and the
    /// probing in [`PolyLogger::add`] covers the four other severities.
    /// Every composite satisfies this; constructors and methods state it
    /// of their results so that callers can appeal to
    /// [`PolyLogger::lemma_gate_covers_children`].
    #[verifier::type_invariant]
    pub closed spec fn wf(&self) -> bool {
        forall|i: int, l: Level|
            0 <= i < self.loggers@.len() && #[trigger] self.loggers@[i].spec_enabled(l)
                ==> level_rank(l) <= level_rank(self.max_level)
    }

    /// An empty composite: no children, cache at the most severe level.
    pub fn new() -> (p: PolyLogger)
        ensures
            p.spec_loggers() == Seq::<Box<dyn Sink>>::empty(),
            p.spec_max_level() == Level::Error,
            p.spec_dispatched() == 0,
            p.wf(),
    {
        let p = PolyLogger { loggers: Vec::new(), max_level: Level::Error, dispatched: Ghost(0nat) };
        proof {
            use_type_invariant(&p);
        }
        p
    }

    /// The cached loosest severity among the children added so far.
    pub fn max_level(&self) -> (l: Level)
        ensures
            l == self.spec_max_level(),
    {
        self.max_level
    }

    /// How many children this composite holds.
    pub fn len(&self) -> (n: usize)
        ensures
            n == self.spec_loggers().len(),
    {
        self.loggers.len()
    }

    /// Law: the composite gate covers every child's gate — a record some
    /// child would accept always passes the composite's `max_level` gate,
    /// so gating on the cache can only skip records no child wants.
    pub proof fn lemma_gate_covers_children(&self, i: int, l: Level)
        requires
            self.wf(),
            0 <= i < self.spec_loggers().len(),
            self.spec_loggers()[i].spec_enabled(l),
        ensures
            level_rank(l) <= level_rank(self.spec_max_level()),
    {
    }

    /// Law: the cached fast path is safe — a severity the composite's
    /// own `max_level` gate rejects is one that no child accepts, so
    /// skipping the fan-out for it can never lose a record. Together
    /// with [`PolyLogger::dispatch`]'s per-child contract this is the
    /// double gating: the cache only skips work, each child stays the
    /// authority over what it writes.
    pub proof fn lemma_fast_path_is_safe(&self, l: Level)
        requires
            self.wf(),
            level_rank(l) > level_rank(self.spec_max_level()),
        ensures
            forall|i: int|
                0 <= i < self.spec_loggers().len() ==> !(#[trigger] self.spec_loggers()[
                    i
                ].spec_enabled(l)),
    {
    }

    /// Adds a child sink. The child is probed at Warn, Info, Debug and
    /// Trace — severe to verbose — through nothing but its own `enabled`
    /// gate, and the cached `max_level` is raised to the loosest severity
    /// it accepted; the cache never goes down. The child is then appended
    /// to the fan-out order.
    pub fn add<T: Sink + 'static>(&mut self, logger: T)
        ensures
            final(self).spec_loggers().len() == old(self).spec_loggers().len() + 1,
            forall|i: int|
                0 <= i < old(self).spec_loggers().len() ==> final(self).spec_loggers()[i] == old(self).spec_loggers()[i],
            final(self).spec_max_level() == {
                let c = final(self).spec_loggers()[old(self).spec_loggers().len() as int];
                spec_probe(
                    old(self).spec_max_level(),
                    c.spec_enabled(Level::Warn),
                    c.spec_enabled(Level::Info),
                    c.spec_enabled(Level::Debug),
                    c.spec_enabled(Level::Trace),
                )
            },
            level_rank(final(self).spec_max_level()) >= level_rank(old(self).spec_max_level()),
            final(self).spec_dispatched() == old(self).spec_dispatched(),
            final(self).wf(),
    {
        proof {
            use_type_invariant(&*self);
        }
        let ghost v0 = self.loggers@;
        let mut ls: Vec<Box<dyn Sink>> = Vec::new();
        core::mem::swap(&mut ls, &mut self.loggers);
        let b: Box<dyn Sink> = Box::new(logger);
        ls.push(b);
        proof {
            vstd::seq::axiom_seq_push_len::<Box<dyn Sink>>(v0, b);
            assert forall|i: int| 0 <= i < v0.len() implies ls@[i] == v0[i] by {
                vstd::seq::axiom_seq_push_index_different::<Box<dyn Sink>>(v0, b, i);
            }
        }
        let idx = ls.len() - 1;
        let ew = ls[idx].enabled(Level::Warn);
        let ei = ls[idx].enabled(Level::Info);
        let ed = ls[idx].enabled(Level::Debug);
        let et = ls[idx].enabled(Level::Trace);
        if Level::Warn.rank() > self.max_level.rank() && ew {
            self.max_level = Level::Warn;
        }
        if Level::Info.rank() > self.max_level.rank() && ei {
            self.max_level = Level::Info;
        }
        if Level::Debug.rank() > self.max_level.rank() && ed {
            self.max_level = Level::Debug;
        }
        if Level::Trace.rank() > self.max_level.rank() && et {
            self.max_level = Level::Trace;
        }
        proof {
            assert forall|i: int, l: Level|
                0 <= i < ls@.len() && #[trigger] ls@[i].spec_enabled(l) implies level_rank(l)
                <= level_rank(self.max_level) by {
                if i < v0.len() {
                    assert(ls@[i] == v0[i]);
                } else {
                    if l == Level::Warn || l == Level::Info || l == Level::Debug || l
                        == Level::Trace {
                    } else {
                        assert(l == Level::Error);
                    }
                }
            }
        }
        self.loggers = ls;
    }

    /// Forwards `record` to every child, in insertion order, whatever the
    /// composite's own gate says. Each child applies its own gate: a
    /// child that does not accept the record's severity writes nothing,
    /// one that does writes one more record unless its target failed. No
    /// child's gate moves, and a failing child never stops its siblings.
    pub fn dispatch(&mut self, record: &Record)
        ensures
            final(self).spec_max_level() == old(self).spec_max_level(),
            final(self).spec_dispatched() == old(self).spec_dispatched(),
            final(self).spec_loggers().len() == old(self).spec_loggers().len(),
            forall|i: int, l: Level|
                0 <= i < old(self).spec_loggers().len() ==> #[trigger] final(self).spec_loggers()[i].spec_enabled(l) == old(self).spec_loggers()[i].spec_enabled(l),
            forall|i: int|
                0 <= i < old(self).spec_loggers().len() && !old(self).spec_loggers()[i].spec_enabled(record.level) ==> #[trigger] final(self).spec_loggers()[i].emit_count() == old(self).spec_loggers()[i].emit_count(),
            forall|i: int|
                0 <= i < old(self).spec_loggers().len() && old(self).spec_loggers()[i].spec_enabled(
                    record.level,
                ) ==> #[trigger] final(self).spec_loggers()[i].emit_count() == old(self).spec_loggers()[i].emit_count() + 1 || final(self).spec_loggers()[i].emit_count()
                    == old(self).spec_loggers()[i].emit_count(),
            final(self).wf(),
    {
        proof {
            use_type_invariant(&*self);
        }
        let mut ls: Vec<Box<dyn Sink>> = Vec::new();
        core::mem::swap(&mut ls, &mut self.loggers);
        let n = ls.len();
        let mut i: usize = 0;
        while i < n
            invariant
                i <= n,
                ls@.len() == n,
                forall|j: int, l: Level|
                    0 <= j < n ==> #[trigger] ls@[j].spec_enabled(l) == old(self).loggers@[j].spec_enabled(l),
                forall|j: int|
                    i <= j < n ==> ls@[j] == old(self).loggers@[j],
                forall|j: int|
                    0 <= j < i && !old(self).loggers@[j].spec_enabled(record.level)
                        ==> #[trigger] ls@[j].emit_count() == old(self).loggers@[j].emit_count(),
                forall|j: int|
                    0 <= j < i && old(self).loggers@[j].spec_enabled(record.level)
                        ==> #[trigger] ls@[j].emit_count() == old(self).loggers@[j].emit_count() + 1 || ls@[j].emit_count() == old(self).loggers@[j].emit_count(),
            decreases n - i,
        {
            let _ok = ls[i].log(record);
            i = i + 1;
        }
        self.loggers = ls;
        proof {
            use_type_invariant(&*self);
        }
    }

    /// Asks every child to flush, in insertion order; a child's failure
    /// never stops its siblings. No child writes or drops a record.
    pub fn flush_all(&mut self)
        ensures
            final(self).spec_max_level() == old(self).spec_max_level(),
            final(self).spec_dispatched() == old(self).spec_dispatched(),
            final(self).spec_loggers().len() == old(self).spec_loggers().len(),
            forall|i: int, l: Level|
                0 <= i < old(self).spec_loggers().len() ==> #[trigger] final(self).spec_loggers()[i].spec_enabled(l) == old(self).spec_loggers()[i].spec_enabled(l),
            forall|i: int|
                0 <= i < old(self).spec_loggers().len() ==> #[trigger] final(self).spec_loggers()[i].emit_count() == old(self).spec_loggers()[i].emit_count(),
            final(self).wf(),
    {
        proof {
            use_type_invariant(&*self);
        }
        let mut ls: Vec<Box<dyn Sink>> = Vec::new();
        core::mem::swap(&mut ls, &mut self.loggers);
        let n = ls.len();
        let mut i: usize = 0;
        while i < n
            invariant
                i <= n,
                ls@.len() == n,
                forall|j: int, l: Level|
                    0 <= j < n ==> #[trigger] ls@[j].spec_enabled(l) == old(self).loggers@[j].spec_enabled(l),
                forall|j: int|
                    i <= j < n ==> ls@[j] == old(self).loggers@[j],
                forall|j: int|
                    0 <= j < i ==> #[trigger] ls@[j].emit_count() == old(self).loggers@[j].emit_count(),
            decreases n - i,
        {
            let _ok = ls[i].flush();
            i = i + 1;
        }
        self.loggers = ls;
        proof {
            use_type_invariant(&*self);
        }
    }
}

impl Sink for PolyLogger {
    /// The composite gate: the cached `max_level`, as a threshold.
    open spec fn spec_enabled(&self, l: Level) -> bool {
        level_rank(l) <= level_rank(self.spec_max_level())
    }

    /// Records forwarded while the composite gate was open; each child
    /// keeps its own count of what it actually wrote.
    open spec fn emit_count(&self) -> nat {
        self.spec_dispatched()
    }

    fn enabled(&self, l: Level) -> (r: bool) {
        l.rank() <= self.max_level.rank()
    }

    fn log(&mut self, record: &Record) -> (ok: bool) {
        let en = self.enabled(record.level);
        self.dispatch(record);
        if en {
            proof {
                use_type_invariant(&*self);
                self.dispatched = Ghost(self.dispatched@ + 1);
            }
        }
        true
    }

    fn flush(&mut self) -> (ok: bool) {
        self.flush_all();
        true
    }
}

} // verus!
