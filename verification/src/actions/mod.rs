//! What the service does with its data.
pub mod data;
