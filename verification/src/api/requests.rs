//! Request bodies.
use vstd::prelude::*;

verus! {

/// Body of an assignment request: the service dates, as
/// `%Y-%m-%d %H:%M:%S` texts.
pub struct GenerateAssignmentRequests {
    pub dates: Vec<String>,
}

} // verus!
