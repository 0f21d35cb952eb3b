//! Severity levels, ordered from most to least severe, and the fixed
//! severity gate used by the console path.

use vstd::prelude::*;

verus! {

/// Severity of a log record, most to least severe: `Error`, `Warn`, `Info`,
/// `Debug`, `Trace`.
#[derive(Clone, Copy, Debug, PartialEq, Eq, Structural)]
pub enum Level {
    Error,
    Warn,
    Info,
    Debug,
    Trace,
}

/// Rank of a level: 0 for the most severe (`Error`), growing as severity
/// falls. A smaller rank means a more severe level.
pub open spec fn severity_rank(l: Level) -> nat {
    match l {
        Level::Error => 0,
        Level::Warn => 1,
        Level::Info => 2,
        Level::Debug => 3,
        Level::Trace => 4,
    }
}

/// The fixed console severity gate: a record is of interest exactly when its
/// severity is at or above `Debug`, i.e. anything but `Trace`.
pub open spec fn passes_severity_gate(l: Level) -> bool {
    severity_rank(l) <= severity_rank(Level::Debug)
}

impl Level {
    /// Whether this level passes the fixed console severity gate.
    pub fn at_least_debug(&self) -> (r: bool)
        ensures
            r == passes_severity_gate(*self),
    {
        match self {
            Level::Trace => false,
            _ => true,
        }
    }
}

/// The text under which a level is printed on the console line.
pub open spec fn level_text(l: Level) -> Seq<char> {
    match l {
        Level::Error => "ERROR"@,
        Level::Warn => "WARN"@,
        Level::Info => "INFO"@,
        Level::Debug => "DEBUG"@,
        Level::Trace => "TRACE"@,
    }
}

impl Level {
    /// The printable name of this level, upper-case.
    pub fn name(&self) -> (r: &'static str)
        ensures
            r@ == level_text(*self),
    {
        match self {
            Level::Error => "ERROR",
            Level::Warn => "WARN",
            Level::Info => "INFO",
            Level::Debug => "DEBUG",
            Level::Trace => "TRACE",
        }
    }
}

} // verus!
