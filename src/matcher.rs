//! Substring matching of one line against a pattern.
use vstd::prelude::*;

verus! {

/// `pat` occurs in `text` as a contiguous run of characters.
pub open spec fn contains_seq(text: Seq<char>, pat: Seq<char>) -> bool {
    exists|i: int|
        0 <= i && i + pat.len() <= text.len() && #[trigger] text.subrange(i, i + pat.len()) == pat
}

/// The lowercase form of a string, as the standard library computes it.
pub uninterp spec fn lower_of(s: Seq<char>) -> Seq<char>;

/// The match decision for one line: in case-insensitive mode the lowercased
/// line is searched for the pattern, which is expected to be lowercased
/// already; otherwise the line itself is searched.
pub open spec fn line_matches(line: Seq<char>, pattern: Seq<char>, case_insensitive: bool) -> bool {
    if case_insensitive {
        contains_seq(lower_of(line), pattern)
    } else {
        contains_seq(line, pattern)
    }
}

/// Relies on `str::to_lowercase`: the lowercase form depends on the characters alone.
#[verifier::external_body]
pub(crate) fn lowercase(s: &str) -> (r: String)
    ensures
        r@ == lower_of(s@),
{
    s.to_lowercase()
}

/// Relies on `str::contains` with a `&str` pattern: true exactly when `pat`
/// occurs in `s` as a contiguous run of characters (UTF-8 is self-synchronizing,
/// so a byte-level occurrence is a character-level one).
#[verifier::external_body]
fn str_contains(s: &str, pat: &str) -> (r: bool)
    ensures
        r == contains_seq(s@, pat@),
{
    s.contains(pat)
}

/// Searches an already lowercased line for a lowercased pattern.
pub fn matches_folded(folded_line: &str, pattern: &str) -> (r: bool)
    ensures
        r == contains_seq(folded_line@, pattern@),
{
    str_contains(folded_line, pattern)
}

/// The match decision for one line (see `line_matches`).
pub fn pattern_matches(line: &str, pattern: &str, case_insensitive: bool) -> (r: bool)
    ensures
        r == line_matches(line@, pattern@, case_insensitive),
{
    if case_insensitive {
        let folded = lowercase(line);
        matches_folded(folded.as_str(), pattern)
    } else {
        str_contains(line, pattern)
    }
}

} // verus!
