//! Imports from a spreadsheet (`.xlsx`) or a JSON file.
use vstd::prelude::*;

use crate::text::split_on;

pub mod group;
pub mod group_assignment;
pub mod user;

verus! {

/// The kinds of file an import reads.
pub enum SourceFormat {
    Excel,
    Json,
}

/// The extension of a path: the text after its last `.` (all of it when
/// there is none).
pub open spec fn extension(path: Seq<char>) -> Seq<char> {
    split_on(path, '.').last()
}

/// The kind of file an extension names: `xlsx` or `json`.
pub open spec fn format_of(extension: Seq<char>) -> Option<SourceFormat> {
    if extension == "xlsx"@ {
        Some(SourceFormat::Excel)
    } else if extension == "json"@ {
        Some(SourceFormat::Json)
    } else {
        None
    }
}

/// Decides the kind of file from the path's extension; any other extension
/// is not supported.
pub fn source_format(path: &str) -> (format: Option<SourceFormat>)
    ensures
        format == format_of(extension(path@)),
{
    let n = path.unicode_len();
    let mut start: usize = 0;
    let mut i: usize = 0;
    assert(path@.take(0) =~= Seq::<char>::empty());
    assert(path@.subrange(0, 0) =~= Seq::<char>::empty());
    while i < n
        invariant
            n == path@.len(),
            start <= i <= n,
            split_on(path@.take(i as int), '.').len() >= 1,
            split_on(path@.take(i as int), '.').last() == path@.subrange(start as int, i as int),
        decreases n - i,
    {
        let c = path.get_char(i);
        assert(path@.take(i + 1).drop_last() =~= path@.take(i as int));
        if c == '.' {
            start = i + 1;
            assert(path@.subrange(start as int, start as int) =~= Seq::<char>::empty());
        } else {
            assert(path@.subrange(start as int, i + 1) =~= path@.subrange(start as int, i as int).push(c));
        }
        i = i + 1;
    }
    assert(path@.take(n as int) =~= path@);
    let ext = String::from_str(path.substring_char(start, n));
    let xlsx = String::from_str("xlsx");
    let json = String::from_str("json");
    if ext == xlsx {
        Some(SourceFormat::Excel)
    } else if ext == json {
        Some(SourceFormat::Json)
    } else {
        None
    }
}

} // verus!
