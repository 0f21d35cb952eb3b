use oneds_telemetry::Level;
use oneds_telemetry::LogRecord;
use oneds_telemetry::TelemetryCollectorLogBridge;
use oneds_telemetry::UtcTimestamp;
use oneds_telemetry::bridge::target_is_self;

fn record(level: Level, target: &str, module: Option<&str>, message: &str) -> LogRecord {
    LogRecord {
        level,
        target: String::from(target),
        module: module.map(String::from),
        message: String::from(message),
    }
}

fn noon() -> UtcTimestamp {
    UtcTimestamp { year: 2026, month: 10, day: 9, hour: 12, minute: 34, second: 56, nanos: 789 }
}

#[test]
fn new_starts_enabled() {
    let b = TelemetryCollectorLogBridge::new();
    assert!(b.console_enabled);
    assert!(b.collector_enabled);
}

#[test]
fn info_record_routes_to_both() {
    let b = TelemetryCollectorLogBridge::new();
    let r = b.route(&record(Level::Info, "app", Some("app::main"), "started"), &noon());
    assert_eq!(
        r.console_line.as_deref(),
        Some("[2026-10-09 12:34:56.789] app <app::main> - INFO: started")
    );
    assert_eq!(r.collector_message.as_deref(), Some("started"));
}

#[test]
fn every_gated_level_prints_one_line() {
    let b = TelemetryCollectorLogBridge::new();
    for level in [Level::Error, Level::Warn, Level::Info, Level::Debug] {
        let r = b.route(&record(level, "app", Some("app::main"), "m"), &noon());
        assert!(r.console_line.is_some());
    }
}

#[test]
fn trace_never_printed() {
    let b = TelemetryCollectorLogBridge::new();
    let r = b.route(&record(Level::Trace, "app", Some("app::main"), "m"), &noon());
    assert!(r.console_line.is_none());
    assert_eq!(r.collector_message.as_deref(), Some("m"));
}

#[test]
fn console_toggle_suppresses_and_restores() {
    let mut b = TelemetryCollectorLogBridge::new();
    b.set_console_enabled(false);
    let r = b.route(&record(Level::Error, "app", Some("app::main"), "m"), &noon());
    assert!(r.console_line.is_none());
    assert!(r.collector_message.is_some());
    b.set_console_enabled(true);
    let r = b.route(&record(Level::Error, "app", Some("app::main"), "m"), &noon());
    assert!(r.console_line.is_some());
}

#[test]
fn collector_toggle_suppresses_and_restores() {
    let mut b = TelemetryCollectorLogBridge::new();
    b.set_collector_enabled(false);
    let r = b.route(&record(Level::Info, "app", Some("app::main"), "m"), &noon());
    assert!(r.collector_message.is_none());
    assert!(r.console_line.is_some());
    assert_eq!(b.flush(), None);
    b.set_collector_enabled(true);
    let r = b.route(&record(Level::Info, "app", Some("app::main"), "m"), &noon());
    assert_eq!(r.collector_message.as_deref(), Some("m"));
    assert_eq!(b.flush(), Some(false));
}

#[test]
fn self_target_never_forwarded() {
    let b = TelemetryCollectorLogBridge::new();
    let r = b.route(&record(Level::Info, "oneds_telemetry", Some("m"), "m"), &noon());
    assert!(r.collector_message.is_none());
    assert!(r.console_line.is_some());
    let r = b.route(&record(Level::Info, "oneds_telemetry::inner::deep", Some("m"), "m"), &noon());
    assert!(r.collector_message.is_none());
}

#[test]
fn near_self_targets_are_forwarded() {
    let b = TelemetryCollectorLogBridge::new();
    for target in ["oneds_telemetry2", "oneds_telemetr", "oneds_telemetry:", "app"] {
        let r = b.route(&record(Level::Info, target, Some("m"), "m"), &noon());
        assert_eq!(r.collector_message.as_deref(), Some("m"), "target {target}");
    }
}

#[test]
fn target_is_self_matches_ident_and_namespace() {
    assert!(target_is_self("oneds_telemetry"));
    assert!(target_is_self("oneds_telemetry::appender"));
    assert!(!target_is_self("oneds_telemetry2"));
    assert!(!target_is_self(""));
    assert!(!target_is_self("app"));
}

#[test]
fn collector_message_is_plain_text() {
    let b = TelemetryCollectorLogBridge::new();
    let r = b.route(&record(Level::Error, "app", Some("app::main"), "boom"), &noon());
    // No severity, timestamp or target prefix on the forwarded text.
    assert_eq!(r.collector_message.as_deref(), Some("boom"));
    let r = b.route(&record(Level::Trace, "app", None, ""), &noon());
    assert_eq!(r.collector_message.as_deref(), Some(""));
}

#[test]
fn flush_is_nonfinal_when_enabled() {
    let b = TelemetryCollectorLogBridge::new();
    assert_eq!(b.flush(), Some(false));
}

#[test]
fn severity_gate_is_fixed() {
    let b = TelemetryCollectorLogBridge::new();
    assert!(b.enabled(Level::Error));
    assert!(b.enabled(Level::Warn));
    assert!(b.enabled(Level::Info));
    assert!(b.enabled(Level::Debug));
    assert!(!b.enabled(Level::Trace));
}

#[test]
fn log_reads_the_clock() {
    let b = TelemetryCollectorLogBridge::new();
    let r = b.log(&record(Level::Info, "app", Some("app::main"), "hello"));
    let line = r.console_line.expect("console path fires");
    assert!(line.starts_with('['));
    assert!(line.ends_with("] app <app::main> - INFO: hello"));
    assert_eq!(r.collector_message.as_deref(), Some("hello"));
}
