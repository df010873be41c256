//! The leveled diagnostics filter.
//!
//! The engine emits diagnostics from the capture thread through a single
//! process-wide sink. The sink itself is a callback the embedding driver
//! holds and invokes — it must be callable concurrently with capture and
//! must not panic across the callback boundary — while the decision of
//! which messages reach it is made here: a message passes exactly when its
//! level is at or above the configured threshold.

use vstd::prelude::*;

verus! {

/// Severity of one diagnostic message; totally ordered,
/// `debug < info < warn < error`.
#[derive(Clone, Copy, Debug, PartialEq, Eq, Structural, Hash)]
pub enum log_level {
    debug,
    info,
    warn,
    error,
}

impl log_level {
    /// The rank of this level in the total order, `1` through `4`; also its
    /// wire value on the native boundary.
    pub open spec fn spec_severity(self) -> int {
        match self {
            log_level::debug => 1,
            log_level::info => 2,
            log_level::warn => 3,
            log_level::error => 4,
        }
    }

    /// The rank of this level in the total order.
    pub fn severity(&self) -> (r: u32)
        ensures
            r == self.spec_severity(),
    {
        match self {
            log_level::debug => 1,
            log_level::info => 2,
            log_level::warn => 3,
            log_level::error => 4,
        }
    }
}

/// The ranks order the levels totally and strictly:
/// `debug < info < warn < error`, and two levels of equal rank are the same
/// level.
pub proof fn lemma_levels_totally_ordered(a: log_level, b: log_level)
    ensures
        log_level::debug.spec_severity() < log_level::info.spec_severity()
            < log_level::warn.spec_severity() < log_level::error.spec_severity(),
        a.spec_severity() == b.spec_severity() ==> a == b,
{
}

/// The diagnostics filter in front of the process-wide sink. Installing a
/// new configuration replaces the previous one; messages strictly below the
/// threshold never reach the sink.
#[derive(Clone, Copy, Debug, PartialEq, Eq, Structural, Hash)]
pub struct logger {
    /// Messages strictly below this level are suppressed.
    pub threshold: log_level,
}

impl logger {
    /// A filter passing every message at or above `threshold`.
    pub fn new(threshold: log_level) -> (l: logger)
        ensures
            l.threshold == threshold,
    {
        logger { threshold }
    }

    /// Whether a message at `level` reaches the sink: exactly when `level`
    /// ranks at or above the threshold.
    pub fn passes(&self, level: &log_level) -> (r: bool)
        ensures
            r == (level.spec_severity() >= self.threshold.spec_severity()),
    {
        level.severity() >= self.threshold.severity()
    }
}

} // verus!
