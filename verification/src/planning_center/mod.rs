//! Records of the Planning Center API.
use vstd::prelude::*;

pub mod group;
pub mod oauth;
pub mod people;
pub mod services;

verus! {

/// An error body of the API.
#[derive(Debug)]
pub struct PlanningCenterError {
    pub error: String,
    pub error_description: String,
}

/// Paging and inclusion facts of a response.
pub struct Meta {
    pub total_count: Option<i32>,
    pub count: Option<i32>,
    pub can_include: Vec<String>,
    pub can_order_by: Option<Vec<String>>,
    pub parent: Data,
}

/// A relationship to one record.
pub struct Type {
    pub data: Data,
}

/// A relationship to several records.
pub struct TypeVec {
    pub data: Vec<Data>,
}

/// A reference to a record: its id and type.
pub struct Data {
    pub id: String,
    pub _type: String,
}

} // verus!
