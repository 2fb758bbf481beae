//! Severity levels for spans.

use vstd::prelude::*;

verus! {

/// Severity of a span, totally ordered as
/// `Trace < Debug < Info < Warn < Error`.  A span is emitted only when its
/// level is at least the emitter's configured minimum level.
#[derive(Clone, Copy, Debug, PartialEq, Eq, PartialOrd, Ord, Structural)]
pub enum Level {
    Trace,
    Debug,
    Info,
    Warn,
    Error,
}

impl Level {
    /// Rank of a level in the total order.
    pub open spec fn severity(self) -> int {
        match self {
            Level::Trace => 0,
            Level::Debug => 1,
            Level::Info => 2,
            Level::Warn => 3,
            Level::Error => 4,
        }
    }

    /// Executable rank, agreeing with [`Level::severity`].
    pub fn rank(self) -> (r: u8)
        ensures
            r as int == self.severity(),
        opens_invariants none
        no_unwind
    {
        match self {
            Level::Trace => 0,
            Level::Debug => 1,
            Level::Info => 2,
            Level::Warn => 3,
            Level::Error => 4,
        }
    }

    /// Decides emission: `self` is at least the minimum level `min`.
    pub fn at_least(self, min: Level) -> (r: bool)
        ensures
            r == (min.severity() <= self.severity()),
        opens_invariants none
        no_unwind
    {
        self.rank() >= min.rank()
    }
}

} // verus!
