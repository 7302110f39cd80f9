//! What the gateway offers to an operator: the points that may be set by
//! hand, the classes of device on the dashboard, and its own condition.

pub mod controls;
pub mod dashboard;
pub mod points;
pub mod status_structs;
pub mod users;
