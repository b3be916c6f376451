//! The Groups API.
pub mod v2;
