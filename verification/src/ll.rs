//! Low-level vocabulary shared with the platform.

pub mod types;
