//! Lookups: what a query for one record answers, given the rows it returned.
pub mod account;
pub mod group;
pub mod planning_center_access_tokens;
pub mod user;
