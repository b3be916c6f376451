//! The assignment endpoint's reading of its request.
use vstd::prelude::*;

use crate::api::requests::GenerateAssignmentRequests;
use crate::date_time::{parse_date_time, spec_parse_date_time, Timestamp};

verus! {

/// The format service dates are written in.
pub const DATE_FORMAT: &'static str = "%Y-%m-%d %H:%M:%S";

/// Whether a timestamp is what `text` parses to in the service-date format.
pub open spec fn parses_to(text: Seq<char>, t: Timestamp) -> bool {
    spec_parse_date_time(text, DATE_FORMAT@) == Some((t.secs, t.nanos))
}

/// Reads the requested dates, in order; `None` when one of them is not a
/// date-time in the service-date format.
pub fn parse_request_dates(request: &GenerateAssignmentRequests) -> (dates: Option<Vec<Timestamp>>)
    ensures
        dates is Some <==> forall|i: int| 0 <= i < request.dates.len() ==> (#[trigger] spec_parse_date_time(request.dates@[i]@, DATE_FORMAT@)) is Some,
        dates matches Some(ds) ==> ds.len() == request.dates.len() && forall|i: int| 0 <= i < ds.len()
            ==> parses_to(request.dates@[i]@, #[trigger] ds@[i]) && ds@[i].is_valid(),
{
    let mut dates: Vec<Timestamp> = Vec::new();
    let mut i: usize = 0;
    while i < request.dates.len()
        invariant
            i <= request.dates.len(),
            dates.len() == i,
            forall|k: int| 0 <= k < i ==> (#[trigger] spec_parse_date_time(request.dates@[k]@, DATE_FORMAT@)) is Some,
            forall|k: int| 0 <= k < i ==> parses_to(request.dates@[k]@, #[trigger] dates@[k]) && dates@[k].is_valid(),
        decreases request.dates.len() - i,
    {
        match parse_date_time(request.dates[i].as_str(), DATE_FORMAT) {
            Some(t) => dates.push(t),
            None => return None,
        }
        i = i + 1;
    }
    Some(dates)
}

} // verus!
