use vstd::prelude::*;

use crate::lines::spec_lines;
use crate::matcher::line_matches;
use crate::matcher::match_pred;
use crate::matcher::spec_search;
use crate::text::contains_seq;
use crate::text::folded;
use crate::text::lemma_folded_id;
use crate::text::lemma_folded_subrange;
use crate::text::matches_at;

verus! {

/// Filtering keeps a sequence unchanged when the predicate holds of
/// every element.
proof fn lemma_filter_all(s: Seq<Seq<char>>, pred: spec_fn(Seq<char>) -> bool)
    requires
        forall|i: int| 0 <= i < s.len() ==> pred(#[trigger] s[i]),
    ensures
        s.filter(pred) == s,
    decreases s.len(),
{
    reveal(Seq::filter);
    if s.len() == 0 {
        assert(s.filter(pred) =~= s);
    } else {
        lemma_filter_all(s.drop_last(), pred);
        assert(s.drop_last().filter(pred).push(s.last()) =~= s);
    }
}

/// Every element of a filtered sequence is an element of the original.
proof fn lemma_filter_elem(s: Seq<Seq<char>>, pred: spec_fn(Seq<char>) -> bool, i: int)
    requires
        0 <= i < s.filter(pred).len(),
    ensures
        s.contains(s.filter(pred)[i]),
    decreases s.len(),
{
    reveal(Seq::filter);
    if s.len() > 0 {
        let f = s.filter(pred);
        let fd = s.drop_last().filter(pred);
        if pred(s.last()) && i == fd.len() {
            assert(f[i] == s.last());
            assert(s[s.len() - 1] == s.last());
        } else {
            lemma_filter_elem(s.drop_last(), pred, i);
            let j = choose|j: int| 0 <= j < s.drop_last().len() && s.drop_last()[j] == fd[i];
            assert(s[j] == fd[i]);
        }
    }
}

/// Case-sensitive search is sound and complete: every line it returns
/// is a line of the contents and contains the query as a literal
/// substring, and every line of the contents that contains the query is
/// returned. Together with the `ensures` of `search`, which pins the
/// result to a filter of the lines, this gives the result in original
/// order with no omissions or additions.
pub proof fn lemma_search_exact(query: Seq<char>, contents: Seq<char>)
    ensures
        forall|i: int|
            0 <= i < spec_search(query, contents, false).len() ==> spec_lines(contents).contains(
                #[trigger] spec_search(query, contents, false)[i],
            ) && contains_seq(spec_search(query, contents, false)[i], query),
        forall|i: int|
            0 <= i < spec_lines(contents).len() && contains_seq(
                #[trigger] spec_lines(contents)[i],
                query,
            ) ==> spec_search(query, contents, false).contains(spec_lines(contents)[i]),
{
    let lines = spec_lines(contents);
    let pred = match_pred(query, false);
    let out = spec_search(query, contents, false);
    lemma_folded_id(query);
    assert forall|i: int| 0 <= i < out.len() implies lines.contains(#[trigger] out[i])
        && contains_seq(out[i], query) by {
        lines.lemma_filter_pred(pred, i);
        lemma_folded_id(out[i]);
        lemma_filter_elem(lines, pred, i);
    }
    assert forall|i: int|
        0 <= i < lines.len() && contains_seq(#[trigger] lines[i], query) implies out.contains(
        lines[i],
    ) by {
        lemma_folded_id(lines[i]);
        lines.lemma_filter_contains(pred, i);
    }
}

/// Case-insensitive search returns a superset of the case-sensitive
/// search for the same query and contents: every line the case-sensitive
/// search returns, the case-insensitive search returns as well.
pub proof fn lemma_case_insensitive_superset(
    query: Seq<char>,
    contents: Seq<char>,
    line: Seq<char>,
)
    requires
        spec_search(query, contents, false).contains(line),
    ensures
        spec_search(query, contents, true).contains(line),
{
    let lines = spec_lines(contents);
    let out = spec_search(query, contents, false);
    let j = choose|j: int| 0 <= j < out.len() && out[j] == line;
    lines.lemma_filter_pred(match_pred(query, false), j);
    assert(line_matches(line, query, false));
    lemma_folded_id(line);
    lemma_folded_id(query);
    let i = choose|i: int| #[trigger] matches_at(line, query, i);
    lemma_folded_subrange(line, true, i, i + query.len());
    assert(folded(line, true).len() == line.len());
    assert(folded(query, true).len() == query.len());
    assert(matches_at(folded(line, true), folded(query, true), i));
    assert(line_matches(line, query, true));
    lemma_filter_elem(lines, match_pred(query, false), j);
    let t = choose|t: int| 0 <= t < lines.len() && lines[t] == line;
    lines.lemma_filter_contains(match_pred(query, true), t);
}

/// Searching twice with identical inputs yields identical output
/// sequences: the result is a function of the query, the contents, and
/// the case mode alone.
pub proof fn lemma_search_deterministic(
    query: Seq<char>,
    contents: Seq<char>,
    ignore_case: bool,
    r1: Seq<Seq<char>>,
    r2: Seq<Seq<char>>,
)
    requires
        r1 == spec_search(query, contents, ignore_case),
        r2 == spec_search(query, contents, ignore_case),
    ensures
        r1 == r2,
{
}

/// Empty contents yield an empty result for any query and case mode.
pub proof fn lemma_empty_contents(query: Seq<char>, ignore_case: bool)
    ensures
        spec_search(query, Seq::empty(), ignore_case) == Seq::<Seq<char>>::empty(),
{
    reveal(Seq::filter);
    assert(spec_lines(Seq::empty()) =~= Seq::<Seq<char>>::empty());
    assert(spec_search(query, Seq::empty(), ignore_case) =~= Seq::<Seq<char>>::empty());
}

/// An empty query matches every line: the search returns exactly the
/// lines of the contents.
pub proof fn lemma_empty_query(contents: Seq<char>, ignore_case: bool)
    ensures
        spec_search(Seq::empty(), contents, ignore_case) == spec_lines(contents),
{
    let lines = spec_lines(contents);
    let pred = match_pred(Seq::empty(), ignore_case);
    assert forall|i: int| 0 <= i < lines.len() implies pred(#[trigger] lines[i]) by {
        let line = lines[i];
        assert(folded(Seq::empty(), ignore_case) =~= Seq::<char>::empty());
        assert(folded(line, ignore_case).subrange(0, 0) =~= Seq::<char>::empty());
        assert(matches_at(folded(line, ignore_case), folded(Seq::empty(), ignore_case), 0));
    }
    lemma_filter_all(lines, pred);
}

} // verus!
