use vstd::prelude::*;

verus! {

/// Drops a single trailing carriage return, so that a `"\r\n"` line
/// ending leaves no `'\r'` on the line it terminates.
pub open spec fn strip_cr(l: Seq<char>) -> Seq<char> {
    if l.len() > 0 && l[l.len() - 1] == '\r' {
        l.drop_last()
    } else {
        l
    }
}

/// The lines of `rest`, given that `cur` holds the text of the current
/// line read so far. A `'\n'` ends the current line (after `strip_cr`);
/// text left over at the end forms a final line, so a trailing newline
/// produces no empty final line.
pub open spec fn lines_acc(rest: Seq<char>, cur: Seq<char>) -> Seq<Seq<char>>
    decreases rest.len(),
{
    if rest.len() == 0 {
        if cur.len() == 0 {
            Seq::empty()
        } else {
            seq![cur]
        }
    } else if rest[0] == '\n' {
        seq![strip_cr(cur)] + lines_acc(rest.skip(1), Seq::empty())
    } else {
        lines_acc(rest.skip(1), cur.push(rest[0]))
    }
}

/// The lines of a text: split on `'\n'`, with `"\r\n"` treated as a
/// single line ending and no final empty line for a trailing newline.
pub open spec fn spec_lines(s: Seq<char>) -> Seq<Seq<char>> {
    lines_acc(s, Seq::empty())
}

/// Splits the contents into lines, as borrowed slices in original order.
pub fn split_lines<'a>(contents: &'a str) -> (r: Vec<&'a str>)
    ensures
        r.deep_view() == spec_lines(contents@),
{
    let n = contents.unicode_len();
    let mut out: Vec<&'a str> = Vec::new();
    let mut start: usize = 0;
    let mut i: usize = 0;
    proof {
        assert(contents@.skip(0) =~= contents@);
        assert(contents@.subrange(0, 0) =~= Seq::<char>::empty());
        assert(out.deep_view() =~= Seq::<Seq<char>>::empty());
        assert(Seq::<Seq<char>>::empty() + lines_acc(contents@, Seq::<char>::empty())
            =~= lines_acc(contents@, Seq::<char>::empty()));
    }
    while i < n
        invariant
            0 <= start <= i <= n == contents@.len(),
            forall|j: int| start <= j < i ==> contents@[j] != '\n',
            spec_lines(contents@) == out.deep_view() + lines_acc(
                contents@.skip(i as int),
                contents@.subrange(start as int, i as int),
            ),
        decreases n - i,
    {
        let c = contents.get_char(i);
        proof {
            assert(contents@.skip(i as int)[0] == contents@[i as int]);
            assert(contents@.skip(i as int).skip(1) =~= contents@.skip(i + 1));
        }
        if c == '\n' {
            let end = if i > start && contents.get_char(i - 1) == '\r' {
                i - 1
            } else {
                i
            };
            let line = contents.substring_char(start, end);
            let ghost old_dv = out.deep_view();
            proof {
                assert(line@ =~= strip_cr(contents@.subrange(start as int, i as int)));
                assert((old_dv + seq![line@]) + lines_acc(contents@.skip(i + 1), Seq::empty())
                    =~= old_dv + (seq![strip_cr(contents@.subrange(start as int, i as int))]
                    + lines_acc(contents@.skip(i + 1), Seq::empty())));
            }
            out.push(line);
            start = i + 1;
            proof {
                assert(out.deep_view() =~= old_dv + seq![line@]);
                assert(contents@.subrange(i + 1, i + 1) =~= Seq::<char>::empty());
            }
        } else {
            proof {
                assert(contents@.subrange(start as int, i as int).push(contents@[i as int])
                    =~= contents@.subrange(start as int, i + 1));
            }
        }
        i = i + 1;
    }
    if start < n {
        let line = contents.substring_char(start, n);
        let ghost old_dv = out.deep_view();
        proof {
            assert(line@ =~= contents@.subrange(start as int, n as int));
            assert(contents@.skip(n as int).len() == 0);
        }
        out.push(line);
        proof {
            assert(out.deep_view() =~= old_dv + seq![line@]);
        }
    } else {
        proof {
            assert(contents@.skip(n as int).len() == 0);
            assert(out.deep_view() + Seq::<Seq<char>>::empty() =~= out.deep_view());
        }
    }
    out
}

} // verus!
