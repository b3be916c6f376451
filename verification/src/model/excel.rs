//! Rows of the spreadsheet import.
use vstd::prelude::*;

use crate::text::{split_on, trim, trimmed_substring};

verus! {

/// A user row: the `groups` cell lists group names separated by commas.
#[derive(Debug)]
pub struct User {
    pub first_name: String,
    pub last_name: String,
    pub groups: Vec<String>,
}

/// A group row.
#[derive(Debug)]
pub struct Group {
    pub name: String,
    pub positions: i32,
}

/// The group names of a `groups` cell: the text split at every comma, each
/// piece trimmed of white space (empty pieces are kept).
pub fn deserialize_as_vec(text: &str) -> (names: Vec<String>)
    ensures
        names@.map_values(|name: String| name@) == split_on(text@, ',').map_values(|piece: Seq<char>| trim(piece)),
{
    let n = text.unicode_len();
    let mut names: Vec<String> = Vec::new();
    let ghost mut done: Seq<Seq<char>> = Seq::empty();
    let mut start: usize = 0;
    let mut i: usize = 0;
    assert(text@.take(0) =~= Seq::<char>::empty());
    assert(text@.subrange(0, 0) =~= Seq::<char>::empty());
    assert(done.push(Seq::<char>::empty()) =~= seq![Seq::<char>::empty()]);
    while i < n
        invariant
            n == text@.len(),
            start <= i <= n,
            split_on(text@.take(i as int), ',') == done.push(text@.subrange(start as int, i as int)),
            names@.map_values(|name: String| name@) == done.map_values(|piece: Seq<char>| trim(piece)),
        decreases n - i,
    {
        let c = text.get_char(i);
        let ghost prefix = text@.take(i + 1);
        assert(prefix.drop_last() =~= text@.take(i as int));
        if c == ',' {
            let name = trimmed_substring(text, start, i);
            proof {
                let piece = text@.subrange(start as int, i as int);
                assert(names@.push(name).map_values(|name: String| name@) =~= done.map_values(|piece: Seq<char>| trim(piece)).push(trim(piece)));
                assert(done.push(piece).map_values(|piece: Seq<char>| trim(piece)) =~= done.map_values(|piece: Seq<char>| trim(piece)).push(trim(piece)));
                done = done.push(piece);
                assert(text@.subrange(i + 1, i + 1) =~= Seq::<char>::empty());
            }
            names.push(name);
            start = i + 1;
        } else {
            proof {
                let pieces = split_on(text@.take(i as int), ',');
                assert(text@.subrange(start as int, i + 1) =~= text@.subrange(start as int, i as int).push(c));
                assert(pieces.update(pieces.len() - 1, pieces.last().push(c)) =~= done.push(text@.subrange(start as int, i + 1)));
            }
        }
        i = i + 1;
    }
    assert(text@.take(n as int) =~= text@);
    let last = trimmed_substring(text, start, n);
    proof {
        let piece = text@.subrange(start as int, n as int);
        assert(names@.push(last).map_values(|name: String| name@) =~= done.map_values(|piece: Seq<char>| trim(piece)).push(trim(piece)));
        assert(done.push(piece).map_values(|piece: Seq<char>| trim(piece)) =~= done.map_values(|piece: Seq<char>| trim(piece)).push(trim(piece)));
    }
    names.push(last);
    names
}

} // verus!
