//! Preparing records for storage.
pub mod planning_center_access_tokens;
