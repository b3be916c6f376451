//! The service's HTTP interface: request bodies and the decisions behind
//! its endpoints and webhooks.
pub mod endpoints;
pub mod requests;
pub mod webhooks;
