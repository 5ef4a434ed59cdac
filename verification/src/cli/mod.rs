//! The commands of the client that deal with the user's session.

pub mod agent;
pub mod json;
pub mod user;
