//! The log record: one structured emission from the logging facade.

use vstd::prelude::*;

use crate::level::Level;

verus! {

/// One structured log emission: a severity level, a target (category) string,
/// an optional originating-module path, and the rendered message text.
///
/// A record is constructed by the caller and consumed synchronously by the
/// bridge; it is never queued or persisted.
pub struct LogRecord {
    /// Severity of the record.
    pub level: Level,
    /// Target (category) string, used for routing decisions.
    pub target: String,
    /// Originating-module path, absent when the emitter supplied none.
    pub module: Option<String>,
    /// The fully rendered message text.
    pub message: String,
}

} // verus!
