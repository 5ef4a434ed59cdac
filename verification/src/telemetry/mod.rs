//! Telemetry records emitted by the sign-in and profile-selection steps.

pub mod event;
pub mod metric;
pub mod outcome;
pub mod tool_use;
