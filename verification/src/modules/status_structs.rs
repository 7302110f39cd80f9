//! What the gateway reports of its own condition.

use vstd::prelude::*;

verus! {

/// The condition of one device.
#[derive(Clone, Debug)]
pub struct DeviceStatus {
    pub name: String,
    pub connected: bool,
    /// When the device last answered, in seconds since the epoch.
    pub last_seen: i64,
    pub last_error: Option<String>,
}

/// The condition of the gateway.
#[derive(Clone, Debug, Default)]
pub struct SystemStatus {
    pub mqtt_connected: bool,
    pub mqtt_enabled: bool,
    pub mqtt_last_error: Option<String>,
    pub devices: Vec<DeviceStatus>,
}

} // verus!
