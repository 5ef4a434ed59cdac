//! Names used in an agent's configuration.

pub mod wrapper_types;
