//! Mathematical model of lines, batches and match results.
use vstd::prelude::*;

use crate::matcher::line_matches;

verus! {

/// The character sequences of a vector of lines.
pub open spec fn lines_of(v: Seq<String>) -> Seq<Seq<char>> {
    v.map_values(|s: String| s@)
}

/// The character sequences of a vector of batches.
pub open spec fn batches_of(v: Seq<Vec<String>>) -> Seq<Seq<Seq<char>>> {
    v.map_values(|b: Vec<String>| lines_of(b@))
}

/// All batches joined in order.
pub open spec fn concat_all(batches: Seq<Seq<Seq<char>>>) -> Seq<Seq<char>>
    decreases batches.len(),
{
    if batches.len() == 0 {
        Seq::empty()
    } else {
        concat_all(batches.drop_last()) + batches.last()
    }
}

/// The lines that match, in the order they were given.
pub open spec fn matching(lines: Seq<Seq<char>>, pattern: Seq<char>, case_insensitive: bool) -> Seq<
    Seq<char>,
>
    decreases lines.len(),
{
    if lines.len() == 0 {
        Seq::empty()
    } else {
        let rest = matching(lines.drop_last(), pattern, case_insensitive);
        if line_matches(lines.last(), pattern, case_insensitive) {
            rest.push(lines.last())
        } else {
            rest
        }
    }
}

/// What the workers send for a sequence of batches: the matches of each batch,
/// in batch order, leaving out batches without a match.
pub open spec fn worker_results(
    batches: Seq<Seq<Seq<char>>>,
    pattern: Seq<char>,
    case_insensitive: bool,
) -> Seq<Seq<Seq<char>>>
    decreases batches.len(),
{
    if batches.len() == 0 {
        Seq::empty()
    } else {
        let rest = worker_results(batches.drop_last(), pattern, case_insensitive);
        let found = matching(batches.last(), pattern, case_insensitive);
        if found.len() > 0 {
            rest.push(found)
        } else {
            rest
        }
    }
}

} // verus!
