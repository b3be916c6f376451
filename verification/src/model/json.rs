//! Records of the JSON import.
use vstd::prelude::*;

verus! {

/// A user record.
#[derive(Debug)]
pub struct User {
    pub planning_center_id: Option<i32>,
    pub first_name: String,
    pub last_name: String,
    pub groups: Vec<String>,
}

/// A group record.
#[derive(Debug)]
pub struct Group {
    pub planning_center_id: Option<i32>,
    pub name: String,
    pub required: i8,
}

} // verus!
