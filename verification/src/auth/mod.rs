//! Sign-in: method choice, the two grant flows, and profile selection.

pub mod arn;
pub mod device;
pub mod device_laws;
pub mod login;
pub mod login_laws;
pub mod model;
pub mod orchestrator;
pub mod pkce;
pub mod profile;
pub mod profile_laws;
