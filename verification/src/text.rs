use vstd::prelude::*;

verus! {

/// Simple lowercase folding of a single character: the ASCII uppercase
/// letters map to their lowercase counterparts, every other character is
/// unchanged. This is deliberately not full Unicode case folding.
pub open spec fn lower_char(c: char) -> char {
    if 'A' as u32 <= c as u32 && c as u32 <= 'Z' as u32 {
        (((c as u32) + 32) as u8) as char
    } else {
        c
    }
}

/// Character under the active case mode: folded to lowercase when
/// `ignore_case` is set, unchanged otherwise.
pub open spec fn fold_char(c: char, ignore_case: bool) -> char {
    if ignore_case {
        lower_char(c)
    } else {
        c
    }
}

/// A character sequence under the active case mode.
pub open spec fn folded(s: Seq<char>, ignore_case: bool) -> Seq<char> {
    s.map_values(|c: char| fold_char(c, ignore_case))
}

/// The needle occurs in the haystack starting at position `i`.
pub open spec fn matches_at(hay: Seq<char>, needle: Seq<char>, i: int) -> bool {
    0 <= i && i + needle.len() <= hay.len() && hay.subrange(i, i + needle.len()) == needle
}

/// The needle occurs somewhere in the haystack as a contiguous
/// subsequence. An empty needle occurs in every haystack.
pub open spec fn contains_seq(hay: Seq<char>, needle: Seq<char>) -> bool {
    exists|i: int| #[trigger] matches_at(hay, needle, i)
}

/// Executable simple lowercase folding, matching `fold_char`.
pub fn fold_char_exec(c: char, ignore_case: bool) -> (r: char)
    ensures
        r == fold_char(c, ignore_case),
{
    let u: u32 = c as u32;
    if ignore_case && 'A' as u32 <= u && u <= 'Z' as u32 {
        (u + 32) as u8 as char
    } else {
        c
    }
}

/// Folding with the case mode off leaves a sequence unchanged.
pub proof fn lemma_folded_id(s: Seq<char>)
    ensures
        folded(s, false) == s,
{
    assert(folded(s, false) =~= s);
}

/// Folding commutes with taking a subrange.
pub proof fn lemma_folded_subrange(s: Seq<char>, ignore_case: bool, a: int, b: int)
    requires
        0 <= a <= b <= s.len(),
    ensures
        folded(s, ignore_case).subrange(a, b) == folded(s.subrange(a, b), ignore_case),
{
    assert(folded(s, ignore_case).subrange(a, b) =~= folded(s.subrange(a, b), ignore_case));
}

/// Character-for-character equality of two string slices under the
/// active case mode.
pub fn str_eq_folded(a: &str, b: &str, ignore_case: bool) -> (r: bool)
    ensures
        r == (folded(a@, ignore_case) == folded(b@, ignore_case)),
{
    let n = a.unicode_len();
    if n != b.unicode_len() {
        proof {
            assert(folded(a@, ignore_case).len() == a@.len());
            assert(folded(b@, ignore_case).len() == b@.len());
        }
        return false;
    }
    let mut i: usize = 0;
    while i < n
        invariant
            n == a@.len() == b@.len(),
            i <= n,
            forall|j: int| 0 <= j < i ==> fold_char(a@[j], ignore_case) == fold_char(
                b@[j],
                ignore_case,
            ),
        decreases n - i,
    {
        let x = fold_char_exec(a.get_char(i), ignore_case);
        let y = fold_char_exec(b.get_char(i), ignore_case);
        if x != y {
            proof {
                assert(folded(a@, ignore_case)[i as int] != folded(b@, ignore_case)[i as int]);
            }
            return false;
        }
        i = i + 1;
    }
    proof {
        assert(folded(a@, ignore_case) =~= folded(b@, ignore_case));
    }
    true
}

/// Exact equality of two string slices.
pub fn str_eq(a: &str, b: &str) -> (r: bool)
    ensures
        r == (a@ == b@),
{
    proof {
        lemma_folded_id(a@);
        lemma_folded_id(b@);
    }
    str_eq_folded(a, b, false)
}

/// Tests whether `needle` occurs in `hay` as a literal substring under
/// the active case mode, by checking every candidate position.
pub fn contains_folded(hay: &str, needle: &str, ignore_case: bool) -> (r: bool)
    ensures
        r == contains_seq(folded(hay@, ignore_case), folded(needle@, ignore_case)),
{
    let ghost gh = folded(hay@, ignore_case);
    let ghost gn = folded(needle@, ignore_case);
    let h = hay.unicode_len();
    let m = needle.unicode_len();
    if m > h {
        proof {
            assert(forall|i: int| !matches_at(gh, gn, i));
        }
        return false;
    }
    if m == 0 {
        proof {
            assert(gh.subrange(0, 0) =~= gn);
            assert(matches_at(gh, gn, 0));
        }
        return true;
    }
    let mut i: usize = 0;
    while i <= h - m
        invariant
            1 <= m <= h,
            h == gh.len() == hay@.len(),
            m == gn.len() == needle@.len(),
            gh == folded(hay@, ignore_case),
            gn == folded(needle@, ignore_case),
            i <= h - m + 1,
            forall|k: int| 0 <= k < i ==> !matches_at(gh, gn, k),
        decreases h - m - i + 1,
    {
        let mut j: usize = 0;
        let mut mismatch = false;
        while j < m && !mismatch
            invariant
                1 <= m <= h,
                h == gh.len() == hay@.len(),
                m == gn.len() == needle@.len(),
                gh == folded(hay@, ignore_case),
                gn == folded(needle@, ignore_case),
                i <= h - m,
                j <= m,
                !mismatch ==> forall|t: int| 0 <= t < j ==> gh[i + t] == gn[t],
                mismatch ==> !matches_at(gh, gn, i as int),
            decreases m - j + (if mismatch { 0int } else { 1int }),
        {
            let a = fold_char_exec(hay.get_char(i + j), ignore_case);
            let b = fold_char_exec(needle.get_char(j), ignore_case);
            if a != b {
                proof {
                    assert(gh[i + j] != gn[j as int]);
                    if matches_at(gh, gn, i as int) {
                        assert(gh.subrange(i as int, i + m)[j as int] == gh[i + j]);
                    }
                }
                mismatch = true;
            } else {
                j = j + 1;
            }
        }
        if !mismatch {
            proof {
                assert(gh.subrange(i as int, i + m) =~= gn);
                assert(matches_at(gh, gn, i as int));
            }
            return true;
        }
        i = i + 1;
    }
    proof {
        assert forall|k: int| !matches_at(gh, gn, k) by {
            if matches_at(gh, gn, k) {
                assert(0 <= k && k + m <= h);
            }
        }
    }
    false
}

} // verus!
