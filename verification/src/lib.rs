//! Polling and reconnection engine of a gateway that bridges register-oriented
//! devices to a publish/subscribe telemetry bus.
//!
//! The crate holds the decisions of the gateway: which point is due, what a
//! read result leads to, which inbound write is forwarded, how telemetry is
//! shaped, and when a lost device is tried again. Transport, storage and the
//! runtime live with the caller, which hands plain values in and performs the
//! actions that come back.

pub mod auth;
pub mod config_structs;
pub mod consts;
pub mod date_serializer;
pub mod gateway_error;
pub mod inbound;
pub mod ipc;
pub mod modules;
pub mod monitored_point;
pub mod mqtt_poll;
pub mod payload;
pub mod pwrcell_unit;
pub mod scaled;
pub mod state_mgmt;
pub mod sunspec_poll;
pub mod sunspec_unit;
pub mod supervisor;
pub mod text;
pub mod topics;
