//! Severity levels and their ordering.
//!
//! Severities are totally ordered from most to least severe:
//! `Error > Warn > Info > Debug > Trace` in urgency. The routing and
//! threshold decisions both compare against this ordering.

use vstd::prelude::*;

verus! {

/// A log event's severity level, ordered from most severe (`Error`)
/// to least severe (`Trace`).
#[derive(Clone, Copy, Debug, PartialEq, Eq)]
pub enum Severity {
    Error,
    Warn,
    Info,
    Debug,
    Trace,
}

impl Severity {
    /// Position of the severity in the order, with the most severe
    /// (`Error`) at rank 0 and the least severe (`Trace`) at rank 4.
    pub open spec fn rank(self) -> int {
        match self {
            Severity::Error => 0,
            Severity::Warn => 1,
            Severity::Info => 2,
            Severity::Debug => 3,
            Severity::Trace => 4,
        }
    }

    /// Executable rank, for comparing two severities.
    pub fn ordinal(self) -> (r: u8)
        ensures
            r as int == self.rank(),
    {
        match self {
            Severity::Error => 0,
            Severity::Warn => 1,
            Severity::Info => 2,
            Severity::Debug => 3,
            Severity::Trace => 4,
        }
    }
}

/// `s` is at least as severe as `t`: the relation that both the
/// threshold check and the routing rule compare by.
pub open spec fn at_least_as_severe(s: Severity, t: Severity) -> bool {
    s.rank() <= t.rank()
}

} // verus!
