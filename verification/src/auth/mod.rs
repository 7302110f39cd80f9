//! Who may use the gateway's interface, and how a refusal is reported.

pub mod error_handler;
pub mod token_extractor;
pub mod token_management;
