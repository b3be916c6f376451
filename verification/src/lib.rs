//! Ticket-based grouping of volunteers into Planning Center service groups.
//!
//! The library holds the data model, the identifier derivations, the
//! token encryption round trip, the webhook and OAuth decision logic and
//! the weighted lottery that assigns users to the open positions of a group.
use vstd::prelude::*;

pub mod actions;
pub mod api;
pub mod commands;
pub mod crypto;
pub mod date_time;
pub mod ids;
pub mod model;
pub mod oauth;
pub mod planning_center;
pub mod text;

verus! {

/// Settings the service is started with.
#[derive(Clone)]
pub struct ApplicationConfiguration {
    pub domain: String,
    pub planning_center_id: String,
    pub planning_center_secret: String,
    pub encryption_key: String,
}

} // verus!
