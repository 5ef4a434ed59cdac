//! Interactive sign-in for a command-line chat client: choosing the grant
//! method, driving the browser and device-code flows, selecting a working
//! profile, and the telemetry records those steps produce.

pub mod auth;
pub mod cli;
pub mod telemetry;
