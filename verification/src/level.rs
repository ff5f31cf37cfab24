//! Log severity levels and filter thresholds.
//!
//! `Level` orders severities `Error < Warn < Info < Debug < Trace`:
//! a smaller rank means a more severe message. A `LevelFilter` is a
//! threshold; a record at severity `s` passes a threshold `t` exactly
//! when `s` is at least as severe as `t` allows, that is when
//! `rank(s) <= rank(t)`.

use vstd::prelude::*;

verus! {

/// Severity of one log record, most severe first.
#[derive(Clone, Copy, PartialEq, Eq, Structural, Debug)]
pub enum Level {
    Error,
    Warn,
    Info,
    Debug,
    Trace,
}

/// Threshold a sink or logger accepts records at; `Off` accepts none.
#[derive(Clone, Copy, PartialEq, Eq, Structural, Debug)]
pub enum LevelFilter {
    Off,
    Error,
    Warn,
    Info,
    Debug,
    Trace,
}

/// Numeric rank of a severity: `Error` is 1 and `Trace` is 5.
pub open spec fn level_rank(l: Level) -> int {
    match l {
        Level::Error => 1,
        Level::Warn => 2,
        Level::Info => 3,
        Level::Debug => 4,
        Level::Trace => 5,
    }
}

/// Numeric rank of a threshold: `Off` is 0, so that no severity passes it.
pub open spec fn filter_rank(f: LevelFilter) -> int {
    match f {
        LevelFilter::Off => 0,
        LevelFilter::Error => 1,
        LevelFilter::Warn => 2,
        LevelFilter::Info => 3,
        LevelFilter::Debug => 4,
        LevelFilter::Trace => 5,
    }
}

/// A record at severity `l` passes threshold `f` iff its rank is at
/// most the threshold's rank.
pub open spec fn spec_level_enabled(l: Level, f: LevelFilter) -> bool {
    level_rank(l) <= filter_rank(f)
}

impl Level {
    /// Rank of this severity as a runtime value.
    pub fn rank(self) -> (r: u8)
        ensures
            r as int == level_rank(self),
    {
        match self {
            Level::Error => 1,
            Level::Warn => 2,
            Level::Info => 3,
            Level::Debug => 4,
            Level::Trace => 5,
        }
    }

    /// The threshold that admits exactly the severities up to `self`.
    pub fn to_level_filter(self) -> (f: LevelFilter)
        ensures
            filter_rank(f) == level_rank(self),
            forall|l: Level| spec_level_enabled(l, f) == (level_rank(l) <= level_rank(self)),
    {
        match self {
            Level::Error => LevelFilter::Error,
            Level::Warn => LevelFilter::Warn,
            Level::Info => LevelFilter::Info,
            Level::Debug => LevelFilter::Debug,
            Level::Trace => LevelFilter::Trace,
        }
    }
}

impl LevelFilter {
    /// Rank of this threshold as a runtime value.
    pub fn rank(self) -> (r: u8)
        ensures
            r as int == filter_rank(self),
    {
        match self {
            LevelFilter::Off => 0,
            LevelFilter::Error => 1,
            LevelFilter::Warn => 2,
            LevelFilter::Info => 3,
            LevelFilter::Debug => 4,
            LevelFilter::Trace => 5,
        }
    }
}

/// Decides whether a record at severity `l` passes threshold `f`:
/// true iff `l` is within the threshold, that is `rank(l) <= rank(f)`.
pub fn enabled_for(l: Level, f: LevelFilter) -> (r: bool)
    ensures
        r == spec_level_enabled(l, f),
{
    l.rank() <= f.rank()
}

} // verus!
