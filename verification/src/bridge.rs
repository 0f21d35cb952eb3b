//! The filter/format bridge: decides, per record, which sinks receive a
//! write, renders the console line, and decides when the collector is
//! flushed.

use vstd::prelude::*;

use crate::clock::UtcTimestamp;
use crate::clock::now_utc;
use crate::level::Level;
use crate::level::passes_severity_gate;
use crate::record::LogRecord;
use crate::render::console_line_text;
use crate::render::format_console_line;
use crate::text::is_prefix_of;
use crate::text::str_equal;
use crate::text::str_has_prefix;

verus! {

/// The bridge's own reserved target identifier: records emitted under this
/// target, or under a module below it, are never forwarded to the collector,
/// so that the bridge's own diagnostics cannot be re-forwarded recursively.
pub open spec fn self_ident() -> Seq<char> {
    "oneds_telemetry"@
}

/// The reserved identifier followed by the namespace separator.
pub open spec fn self_ident_prefix() -> Seq<char> {
    "oneds_telemetry::"@
}

/// Whether a target names the bridge itself: exactly the reserved
/// identifier, or anything below it in the module namespace.
pub open spec fn is_self_target(t: Seq<char>) -> bool {
    t == self_ident() || is_prefix_of(self_ident_prefix(), t)
}

/// Whether `target` names the bridge itself.
pub fn target_is_self(target: &str) -> (r: bool)
    ensures
        r == is_self_target(target@),
{
    if str_equal(target, "oneds_telemetry") {
        true
    } else {
        str_has_prefix(target, "oneds_telemetry::")
    }
}

/// Whether the console path fires for a record of level `l` under bridge
/// state `b`: the console flag is on and the severity is at or above
/// `Debug`.
pub open spec fn console_fires(b: TelemetryCollectorLogBridge, l: Level) -> bool {
    b.console_enabled && passes_severity_gate(l)
}

/// Whether the collector path fires for a record with target `t` under
/// bridge state `b`: the collector flag is on and the target does not name
/// the bridge itself.
pub open spec fn collector_fires(b: TelemetryCollectorLogBridge, t: Seq<char>) -> bool {
    b.collector_enabled && !is_self_target(t)
}

/// Whether the flush operation reaches the collector under bridge state
/// `b`: exactly when the collector flag is on.
pub open spec fn flush_fires(b: TelemetryCollectorLogBridge) -> bool {
    b.collector_enabled
}

/// What the bridge asks its surroundings to do with one record: at most one
/// console line and at most one collector message, so no sink can receive
/// the same record twice.
pub struct LogActions {
    /// The rendered console line, when the console path fires.
    pub console_line: Option<String>,
    /// The plain message text for the collector, when the collector path
    /// fires.
    pub collector_message: Option<String>,
}

/// The filter/format bridge. The two flags are independent and start
/// enabled; each may be toggled at any time between records.
pub struct TelemetryCollectorLogBridge {
    /// Whether qualifying records are printed to the console.
    pub console_enabled: bool,
    /// Whether qualifying records are forwarded to the telemetry collector.
    pub collector_enabled: bool,
}

impl TelemetryCollectorLogBridge {
    /// A bridge with both sinks enabled, the state at process start.
    pub fn new() -> (r: Self)
        ensures
            r.console_enabled,
            r.collector_enabled,
    {
        TelemetryCollectorLogBridge { console_enabled: true, collector_enabled: true }
    }

    /// Toggles the console flag; the collector flag is untouched.
    pub fn set_console_enabled(&mut self, on: bool)
        ensures
            final(self).console_enabled == on,
            final(self).collector_enabled == old(self).collector_enabled,
    {
        self.console_enabled = on;
    }

    /// Toggles the collector flag; the console flag is untouched.
    pub fn set_collector_enabled(&mut self, on: bool)
        ensures
            final(self).collector_enabled == on,
            final(self).console_enabled == old(self).console_enabled,
    {
        self.collector_enabled = on;
    }

    /// The severity-interest predicate handed to the logging facade: the
    /// bridge is interested exactly in records at or above `Debug`, whatever
    /// the flags say.
    pub fn enabled(&self, level: Level) -> (r: bool)
        ensures
            r == passes_severity_gate(level),
    {
        level.at_least_debug()
    }

    /// Routes one record at the given clock reading: the console path fires
    /// exactly when the console flag is on and the severity gate passes, and
    /// then carries the rendered line; the collector path fires exactly when
    /// the collector flag is on and the target does not name the bridge
    /// itself, and then carries the message text unchanged.
    ///
    /// A record whose console path fires must carry a module path: the
    /// console layout has no rendering for an absent one.
    pub fn route(&self, record: &LogRecord, now: &UtcTimestamp) -> (r: LogActions)
        requires
            now.wf(),
            console_fires(*self, record.level) ==> record.module is Some,
        ensures
            r.console_line is Some <==> console_fires(*self, record.level),
            r.console_line is Some ==> r.console_line->0@ == console_line_text(
                *now,
                record.target@,
                record.module->0@,
                record.level,
                record.message@,
            ),
            r.collector_message is Some <==> collector_fires(*self, record.target@),
            r.collector_message is Some ==> r.collector_message->0@ == record.message@,
    {
        let console_line = if self.console_enabled && record.level.at_least_debug() {
            Some(format_console_line(now, record))
        } else {
            None
        };
        let collector_message = if self.collector_enabled && !target_is_self(
            record.target.as_str(),
        ) {
            Some(record.message.clone())
        } else {
            None
        };
        LogActions { console_line, collector_message }
    }

    /// Handles one record at the current UTC time: as `route`, with the
    /// clock read inside. The console line, when present, follows the fixed
    /// layout for some well-formed clock reading; the collector decision and
    /// its message text do not depend on the clock at all.
    pub fn log(&self, record: &LogRecord) -> (r: LogActions)
        requires
            console_fires(*self, record.level) ==> record.module is Some,
        ensures
            r.console_line is Some <==> console_fires(*self, record.level),
            r.console_line is Some ==> exists|ts: UtcTimestamp|
                ts.wf() && r.console_line->0@ == console_line_text(
                    ts,
                    record.target@,
                    record.module->0@,
                    record.level,
                    record.message@,
                ),
            r.collector_message is Some <==> collector_fires(*self, record.target@),
            r.collector_message is Some ==> r.collector_message->0@ == record.message@,
    {
        let now = now_utc();
        let r = self.route(record, &now);
        proof {
            if r.console_line is Some {
                assert(now.wf() && r.console_line->0@ == console_line_text(
                    now,
                    record.target@,
                    record.module->0@,
                    record.level,
                    record.message@,
                ));
            }
        }
        r
    }

    /// Decides the flush action: when the collector flag is on, exactly one
    /// non-final flush (the `false` is the collector's `final` parameter);
    /// when it is off, no external call at all.
    pub fn flush(&self) -> (r: Option<bool>)
        ensures
            r is Some <==> flush_fires(*self),
            r == if self.collector_enabled {
                Some(false)
            } else {
                None::<bool>
            },
    {
        if self.collector_enabled {
            Some(false)
        } else {
            None
        }
    }
}

/// Law: a `Trace` record never reaches the console, whatever the flags.
pub proof fn lemma_trace_never_on_console(b: TelemetryCollectorLogBridge)
    ensures
        !console_fires(b, Level::Trace),
{
}

/// Law: a record whose target names the bridge itself is never forwarded to
/// the collector, whatever the flags.
pub proof fn lemma_self_target_never_forwarded(b: TelemetryCollectorLogBridge, t: Seq<char>)
    requires
        is_self_target(t),
    ensures
        !collector_fires(b, t),
{
}

/// Law: with the console flag off, no record of any level reaches the
/// console.
pub proof fn lemma_console_disabled_suppresses(b: TelemetryCollectorLogBridge)
    requires
        !b.console_enabled,
    ensures
        forall|l: Level| !console_fires(b, l),
{
}

/// Law: with the collector flag off, no record of any target is forwarded,
/// and no flush call is made.
pub proof fn lemma_collector_disabled_suppresses(b: TelemetryCollectorLogBridge)
    requires
        !b.collector_enabled,
    ensures
        forall|t: Seq<char>| !collector_fires(b, t),
        !flush_fires(b),
{
}

} // verus!

