//! Loading, looking up, storing and drawing from the service's records.
pub mod get;
pub mod load;
pub mod save;
pub mod ticketing;
