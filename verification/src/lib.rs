//! A log-record bridge: routes structured log records to a console sink and
//! an external telemetry collector, with a fixed severity gate for the console
//! path and a self-target filter for the collector path.

pub mod bridge;
pub mod clock;
pub mod level;
pub mod record;
pub mod render;
pub mod text;

pub use bridge::LogActions;
pub use bridge::TelemetryCollectorLogBridge;
pub use clock::UtcTimestamp;
pub use level::Level;
pub use record::LogRecord;
