//! The OAuth link between the service and Planning Center accounts.
pub mod endpoints;
pub mod model;
