//! The People API.
pub mod v2;
