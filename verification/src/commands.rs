//! The command line of the service.
use vstd::prelude::*;

verus! {

/// Parsed command-line arguments.
pub struct Arguments {
    pub command: Commands,
}

/// What the service is asked to do.
pub enum Commands {
    /// Serve the HTTP interface.
    Api,
    /// Load data from a file and insert its contents into the database.
    Update { path: String },
    /// Generate group assignments for a group between two dates on a schedule.
    Assign { group_id: String, start_date: String, end_date: String, cron: String },
}

} // verus!
