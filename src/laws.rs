//! What holds of the search engine across calls and across execution modes.
use vstd::prelude::*;
use vstd::seq_lib::lemma_multiset_commutative;

use crate::matcher::{contains_seq, line_matches, lower_of};
use crate::model::{concat_all, matching, worker_results};

verus! {

broadcast use vstd::seq_lib::group_to_multiset_ensures, vstd::multiset::group_multiset_axioms;

/// Matching distributes over joining: the matches of `a + b` are those of `a`
/// followed by those of `b`.
pub proof fn lemma_matching_concat(
    a: Seq<Seq<char>>,
    b: Seq<Seq<char>>,
    pattern: Seq<char>,
    case_insensitive: bool,
)
    ensures
        matching(a + b, pattern, case_insensitive) == matching(a, pattern, case_insensitive)
            + matching(b, pattern, case_insensitive),
    decreases b.len(),
{
    if b.len() == 0 {
        assert(a + b =~= a);
        assert(matching(a, pattern, case_insensitive) + matching(b, pattern, case_insensitive)
            =~= matching(a, pattern, case_insensitive));
    } else {
        lemma_matching_concat(a, b.drop_last(), pattern, case_insensitive);
        assert((a + b).drop_last() =~= a + b.drop_last());
        assert((a + b).last() == b.last());
        let left = matching(a, pattern, case_insensitive);
        let right = matching(b.drop_last(), pattern, case_insensitive);
        assert((left + right).push(b.last()) =~= left + right.push(b.last()));
    }
}

/// The workers' results, joined in the order of the batches, are exactly the
/// matches of the lines that the batches hold.
pub proof fn lemma_worker_results_concat(
    batches: Seq<Seq<Seq<char>>>,
    pattern: Seq<char>,
    case_insensitive: bool,
)
    ensures
        concat_all(worker_results(batches, pattern, case_insensitive)) == matching(
            concat_all(batches),
            pattern,
            case_insensitive,
        ),
    decreases batches.len(),
{
    if batches.len() > 0 {
        let rest = worker_results(batches.drop_last(), pattern, case_insensitive);
        let found = matching(batches.last(), pattern, case_insensitive);
        lemma_worker_results_concat(batches.drop_last(), pattern, case_insensitive);
        lemma_matching_concat(
            concat_all(batches.drop_last()),
            batches.last(),
            pattern,
            case_insensitive,
        );
        if found.len() > 0 {
            assert(rest.push(found).drop_last() =~= rest);
        } else {
            assert(concat_all(rest) + found =~= concat_all(rest));
        }
    }
}

/// Taking one batch out of a sequence of batches takes its lines out of the
/// joined lines, counted as a multiset.
proof fn lemma_concat_remove(batches: Seq<Seq<Seq<char>>>, j: int)
    requires
        0 <= j < batches.len(),
    ensures
        concat_all(batches).to_multiset() == concat_all(batches.remove(j)).to_multiset().add(
            batches[j].to_multiset(),
        ),
    decreases batches.len(),
{
    let rest = batches.drop_last();
    lemma_multiset_commutative(concat_all(rest), batches.last());
    if j == batches.len() - 1 {
        assert(batches.remove(j) =~= rest);
    } else {
        lemma_concat_remove(rest, j);
        let removed = batches.remove(j);
        assert(removed.drop_last() =~= rest.remove(j));
        assert(removed.last() == batches.last());
        lemma_multiset_commutative(concat_all(rest.remove(j)), batches.last());
        assert(concat_all(batches).to_multiset() =~= concat_all(removed).to_multiset().add(
            batches[j].to_multiset(),
        ));
    }
}

/// Joining batches yields the same multiset of lines whatever order the
/// batches come in.
pub proof fn lemma_concat_permutation(s: Seq<Seq<Seq<char>>>, t: Seq<Seq<Seq<char>>>)
    requires
        s.to_multiset() == t.to_multiset(),
    ensures
        concat_all(s).to_multiset() == concat_all(t).to_multiset(),
    decreases s.len(),
{
    if s.len() == 0 {
        assert(s.to_multiset().len() == 0);
        assert(t.len() == t.to_multiset().len());
        assert(concat_all(s).to_multiset() =~= concat_all(t).to_multiset());
    } else {
        let x = s.last();
        let rest = s.drop_last();
        assert(s =~= rest.push(x));
        assert(s.to_multiset().count(x) > 0);
        assert(t.contains(x));
        let j = choose|j: int| 0 <= j < t.len() && t[j] == x;
        assert(rest.to_multiset() =~= s.to_multiset().remove(x));
        assert(t.remove(j).to_multiset() == t.to_multiset().remove(x));
        lemma_concat_permutation(rest, t.remove(j));
        lemma_concat_remove(t, j);
        lemma_multiset_commutative(concat_all(rest), x);
    }
}

/// The parallel path agrees with the sequential one: whatever the batches the
/// lines were cut into, and whatever order the workers' results arrive in,
/// the lines collected are the sequential matches, counted as a multiset.
pub proof fn lemma_parallel_matches_sequential(
    lines: Seq<Seq<char>>,
    batches: Seq<Seq<Seq<char>>>,
    results: Seq<Seq<Seq<char>>>,
    pattern: Seq<char>,
    case_insensitive: bool,
)
    requires
        concat_all(batches) == lines,
        results.to_multiset() == worker_results(batches, pattern, case_insensitive).to_multiset(),
    ensures
        concat_all(results).to_multiset() == matching(
            lines,
            pattern,
            case_insensitive,
        ).to_multiset(),
{
    lemma_worker_results_concat(batches, pattern, case_insensitive);
    lemma_concat_permutation(results, worker_results(batches, pattern, case_insensitive));
}

/// The chunk size does not change what is found: two runs over the same lines,
/// cut into batches in two ways and collected in any order, find the same
/// multiset of lines.
pub proof fn lemma_chunking_preserves_matches(
    lines: Seq<Seq<char>>,
    batches1: Seq<Seq<Seq<char>>>,
    results1: Seq<Seq<Seq<char>>>,
    batches2: Seq<Seq<Seq<char>>>,
    results2: Seq<Seq<Seq<char>>>,
    pattern: Seq<char>,
    case_insensitive: bool,
)
    requires
        concat_all(batches1) == lines,
        concat_all(batches2) == lines,
        results1.to_multiset() == worker_results(batches1, pattern, case_insensitive).to_multiset(),
        results2.to_multiset() == worker_results(batches2, pattern, case_insensitive).to_multiset(),
    ensures
        concat_all(results1).to_multiset() == concat_all(results2).to_multiset(),
{
    lemma_parallel_matches_sequential(lines, batches1, results1, pattern, case_insensitive);
    lemma_parallel_matches_sequential(lines, batches2, results2, pattern, case_insensitive);
}

/// No line, no match; and a pattern equal to a whole line finds that line, in
/// both modes (in case-insensitive mode the stored pattern is the lowercase form).
pub proof fn lemma_edge_cases(line: Seq<char>)
    ensures
        matching(Seq::empty(), line, false) == Seq::<Seq<char>>::empty(),
        matching(Seq::empty(), line, true) == Seq::<Seq<char>>::empty(),
        matching(seq![line], line, false) == seq![line],
        matching(seq![line], lower_of(line), true) == seq![line],
{
    let zero: int = 0;
    assert(line.subrange(zero, zero + line.len()) =~= line);
    assert(contains_seq(line, line));
    let folded = lower_of(line);
    assert(folded.subrange(zero, zero + folded.len()) =~= folded);
    assert(contains_seq(folded, folded));
    assert(seq![line].last() == line);
    assert(line_matches(line, folded, true));
    assert(matching(seq![line].drop_last(), folded, true) == Seq::<Seq<char>>::empty());
    assert(seq![line].drop_last() =~= Seq::<Seq<char>>::empty());
    assert(Seq::<Seq<char>>::empty().push(line) =~= seq![line]);
}

/// Lowercasing what is already lowercase changes no decision: for a lowercase
/// pattern, matching against its lowercase form decides as matching against
/// the pattern itself, and for a lowercase line the case-insensitive decision
/// is the case-sensitive one.
pub proof fn lemma_lowercase_idempotent_decision(line: Seq<char>, pattern: Seq<char>)
    requires
        lower_of(line) == line,
        lower_of(pattern) == pattern,
    ensures
        line_matches(line, lower_of(pattern), true) == line_matches(line, pattern, true),
        line_matches(line, pattern, true) == line_matches(line, pattern, false),
        line_matches(line, pattern, false) == contains_seq(line, pattern),
{
}

} // verus!
