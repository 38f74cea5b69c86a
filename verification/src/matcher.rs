use vstd::prelude::*;

use crate::lines::spec_lines;
use crate::lines::split_lines;
use crate::text::contains_folded;
use crate::text::contains_seq;
use crate::text::folded;

verus! {

/// A line matches the query when it contains the query as a literal
/// substring, after folding both to lowercase when `ignore_case` is set.
pub open spec fn line_matches(line: Seq<char>, query: Seq<char>, ignore_case: bool) -> bool {
    contains_seq(folded(line, ignore_case), folded(query, ignore_case))
}

/// The matching predicate for a fixed query and case mode.
pub open spec fn match_pred(query: Seq<char>, ignore_case: bool) -> spec_fn(Seq<char>) -> bool {
    |line: Seq<char>| line_matches(line, query, ignore_case)
}

/// The lines of `contents` that match `query` under the given case mode,
/// in original order, duplicates preserved.
pub open spec fn spec_search(query: Seq<char>, contents: Seq<char>, ignore_case: bool) -> Seq<
    Seq<char>,
> {
    spec_lines(contents).filter(match_pred(query, ignore_case))
}

/// Returns every line of `contents` that contains `query` under the
/// requested case mode, in original file order.
pub fn search_matching<'a>(query: &str, contents: &'a str, ignore_case: bool) -> (r: Vec<
    &'a str,
>)
    ensures
        r.deep_view() == spec_search(query@, contents@, ignore_case),
{
    let lines = split_lines(contents);
    let ghost pred = match_pred(query@, ignore_case);
    let mut out: Vec<&'a str> = Vec::new();
    let mut i: usize = 0;
    proof {
        assert(lines.deep_view().take(0) =~= Seq::<Seq<char>>::empty());
        reveal(Seq::filter);
    }
    while i < lines.len()
        invariant
            lines.deep_view() == spec_lines(contents@),
            i <= lines@.len(),
            out.deep_view() == lines.deep_view().take(i as int).filter(pred),
            pred == match_pred(query@, ignore_case),
        decreases lines@.len() - i,
    {
        let line = lines[i];
        let ghost taken = lines.deep_view().take(i as int);
        proof {
            assert(lines.deep_view()[i as int] == line@);
            assert(lines.deep_view().take(i + 1) =~= taken.push(line@));
            taken.lemma_filter_push(line@, pred);
        }
        if contains_folded(line, query, ignore_case) {
            let ghost old_dv = out.deep_view();
            out.push(line);
            proof {
                assert(out.deep_view() =~= old_dv.push(line@));
            }
        }
        i = i + 1;
    }
    proof {
        assert(lines.deep_view().take(lines@.len() as int) =~= lines.deep_view());
    }
    out
}

/// Case-sensitive search: returns the lines of `contents` that contain
/// `query` as a literal substring, in original file order.
pub fn search<'a>(query: &str, contents: &'a str) -> (r: Vec<&'a str>)
    ensures
        r.deep_view() == spec_search(query@, contents@, false),
{
    search_matching(query, contents, false)
}

/// Case-insensitive search: as `search`, but both the query and each
/// line are folded to lowercase before the containment test.
pub fn search_case_insensitive<'a>(query: &str, contents: &'a str) -> (r: Vec<&'a str>)
    ensures
        r.deep_view() == spec_search(query@, contents@, true),
{
    search_matching(query, contents, true)
}

} // verus!
