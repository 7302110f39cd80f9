//! Fixed parameters of the gateway.

use vstd::prelude::*;

verus! {

/// Name under which the gateway presents itself.
pub const APP_NAME: &'static str = "sunspec_gateway";

/// Capacity of the channels between workers and supervisor.
pub const MPSC_BUFFER_SIZE: usize = 1024;

/// Pause of a device worker between two passes over its schedule, in seconds.
pub const MINIMUM_QUERY_INTERVAL_SECS: u16 = 5;

/// Number of history rows kept per point.
pub const CULL_HISTORY_ROWS: u8 = 200;

/// Deviation multiplier used where a point configures none.
pub const CHECK_DEVIATIONS_COUNT: u16 = 10;

/// Shortest interval, in seconds, at which a point is read. A shorter
/// configured interval is raised to this value, so that jitter cannot
/// saturate the device bus.
pub const LOWER_LIMIT_INTERVAL: u64 = 10;

/// Identifier of the model that carries a device's identity.
pub const COMMON_MODEL_ID: u16 = 1;

/// Display precision suggested where a point configures none.
pub const DEFAULT_DISPLAY_PRECISION: u8 = 4;

/// Keep-alive of the telemetry bus connection, in seconds.
pub const MQTT_KEEPALIVE_TIME: u64 = 5;

/// Capacity of the request channel of the telemetry bus client.
pub const MQTT_THREAD_CHANNEL_CAPACITY: usize = 10;

/// Topic pattern on which inbound writes arrive.
pub const MQTT_INBOUND_CONTROL_TOPIC: &'static str = "sunspec_gateway/input/#";

/// Pause of the sink adapter between two passes, in milliseconds.
pub const MQTT_POLL_INTERVAL_MILLIS: u64 = 100;

/// Pause of the supervisor between two ticks, in milliseconds.
pub const GENERIC_WAIT_MILLIS: u64 = 250;

/// Time a worker leaves for its reconnect request to be received before it
/// ends, in milliseconds.
pub const MQTT_PROCESSING_PAD_MILLIS: u64 = 2000;

/// Age, in seconds, beyond which an unreported point is called stale.
pub const STALE_AFTER_SECS: i64 = 1800;

/// Time, in seconds, a lost device waits in the retry queue.
pub const RETRY_COOLDOWN_SECS: i64 = 30;

/// Seconds within which one publish must complete.
pub const PUBLISH_TIMEOUT_SECS: u64 = 3;

/// Seconds after which telemetry of a point expires downstream.
pub const EXPIRES_AFTER_SECS: u64 = 300;

} // verus!
