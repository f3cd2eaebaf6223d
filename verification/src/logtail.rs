use vstd::prelude::*;
use vstd::string::*;
use crate::strutil::push_char;

verus! {

/// A text split at every newline: n newline characters give n + 1 segments,
/// in their original order.
pub open spec fn spec_split_nl(s: Seq<char>) -> Seq<Seq<char>>
    decreases s.len(),
{
    if s.len() == 0 {
        seq![Seq::<char>::empty()]
    } else if s.last() == '\n' {
        spec_split_nl(s.drop_last()).push(Seq::empty())
    } else {
        let p = spec_split_nl(s.drop_last());
        p.update(p.len() - 1, p.last().push(s.last()))
    }
}

/// A split always yields at least one segment.
pub proof fn lemma_split_nl_nonempty(s: Seq<char>)
    ensures
        spec_split_nl(s).len() >= 1,
    decreases s.len(),
{
    if s.len() == 0 {
    } else {
        lemma_split_nl_nonempty(s.drop_last());
    }
}

/// A raw segment as a log line: a carriage return that stood directly before
/// the newline is not part of the line.
pub open spec fn spec_strip_cr(line: Seq<char>) -> Seq<char> {
    if line.len() > 0 && line.last() == '\r' {
        line.drop_last()
    } else {
        line
    }
}

/// The lines of a log text: split at newlines, where a final newline closes
/// the last line rather than opening an empty one, and a carriage return
/// that stood directly before a newline is not part of the line it closed.
pub open spec fn spec_lines(s: Seq<char>) -> Seq<Seq<char>> {
    let raw = spec_split_nl(s);
    if s.len() == 0 || s.last() == '\n' {
        raw.drop_last().map_values(|l: Seq<char>| spec_strip_cr(l))
    } else {
        raw.drop_last().map_values(|l: Seq<char>| spec_strip_cr(l)).push(raw.last())
    }
}

/// Splits a log text into its lines, exactly as `spec_lines` reads it.
pub fn split_log_lines(content: &str) -> (r: Vec<String>)
    ensures
        r@.map_values(|l: String| l@) == spec_lines(content@),
{
    let len = content.unicode_len();
    let mut segs: Vec<String> = Vec::new();
    let mut cur = String::new();
    let mut i: usize = 0;
    while i < len
        invariant
            i <= len,
            len == content@.len(),
            segs@.map_values(|l: String| l@).push(cur@) == spec_split_nl(content@.take(i as int)),
        decreases len - i,
    {
        let c = content.get_char(i);
        proof {
            assert(content@.take(i as int + 1).drop_last() =~= content@.take(i as int));
            assert(content@.take(i as int + 1).last() == content@[i as int]);
            lemma_split_nl_nonempty(content@.take(i as int));
        }
        let ghost old_cur = cur@;
        if c == '\n' {
            segs.push(cur);
            cur = String::new();
            proof {
                assert(segs@.map_values(|l: String| l@).push(cur@) =~= spec_split_nl(
                    content@.take(i as int + 1),
                ));
            }
        } else {
            push_char(&mut cur, c);
            proof {
                let p = spec_split_nl(content@.take(i as int));
                assert(p.last() == old_cur);
                assert(segs@.map_values(|l: String| l@).push(cur@) =~= p.update(
                    p.len() - 1,
                    p.last().push(c),
                ));
            }
        }
        i = i + 1;
    }
    proof {
        assert(content@.take(len as int) =~= content@);
        assert(segs@.map_values(|l: String| l@) =~= spec_split_nl(content@).drop_last());
    }
    // `segs` now holds every newline-terminated segment; strip their
    // carriage returns. `cur`, the unterminated rest, keeps its characters.
    let ghost raw_views = segs@.map_values(|l: String| l@);
    let m = segs.len();
    let mut j: usize = 0;
    while j < m
        invariant
            j <= m,
            m == segs@.len(),
            raw_views.len() == m,
            forall|k: int| 0 <= k < j ==> #[trigger] segs@[k]@ == spec_strip_cr(raw_views[k]),
            forall|k: int| j <= k < m ==> #[trigger] segs@[k]@ == raw_views[k],
        decreases m - j,
    {
        let ln = segs[j].as_str().unicode_len();
        if ln > 0 {
            let c = segs[j].as_str().get_char(ln - 1);
            if c == '\r' {
                let t = String::from_str(segs[j].as_str().substring_char(0, ln - 1));
                proof {
                    assert(t@ =~= raw_views[j as int].drop_last());
                }
                segs[j] = t;
            }
        }
        j = j + 1;
    }
    proof {
        assert(segs@.map_values(|l: String| l@) =~= raw_views.map_values(
            |l: Seq<char>| spec_strip_cr(l),
        ));
    }
    if len > 0 {
        let last = content.get_char(len - 1);
        if last != '\n' {
            proof {
                lemma_split_nl_nonempty(content@);
                assert(spec_split_nl(content@).last() == cur@);
            }
            segs.push(cur);
        }
    }
    proof {
        assert(segs@.map_values(|l: String| l@) =~= spec_lines(content@));
    }
    segs
}

/// The window a tail query returns: the whole sequence when it has at most
/// `n` items, its last `n` items otherwise, order kept.
pub open spec fn spec_last_n(lines: Seq<Seq<char>>, n: int) -> Seq<Seq<char>> {
    if n >= lines.len() {
        lines
    } else {
        lines.subrange(lines.len() - n, lines.len() as int)
    }
}

/// Returns up to the last `n` lines of the given log text, oldest first.
/// The caller reads the persisted log file fresh and hands its content in.
pub fn read_last_log_lines(content: &str, n: usize) -> (r: Vec<String>)
    ensures
        r@.map_values(|l: String| l@) == spec_last_n(spec_lines(content@), n as int),
{
    let lines = split_log_lines(content);
    let ghost lv = lines@.map_values(|l: String| l@);
    if lines.len() <= n {
        lines
    } else {
        let start = lines.len() - n;
        let mut out: Vec<String> = Vec::new();
        let mut j = start;
        while j < lines.len()
            invariant
                start <= j <= lines@.len(),
                n < lines@.len(),
                start == lines@.len() - n,
                lv == lines@.map_values(|l: String| l@),
                lv.len() == lines@.len(),
                out@.map_values(|l: String| l@) == lv.subrange(start as int, j as int),
            decreases lines@.len() - j,
        {
            let line = lines[j].clone();
            let ghost old_out = out@;
            out.push(line);
            proof {
                assert(line == lines@[j as int]);
                assert(line@ == lv[j as int]);
                let f = |l: String| l@;
                assert(old_out.map_values(f).len() == old_out.len());
                assert(old_out.len() == j - start);
                assert(out@.len() == j - start + 1);
                assert(out@.map_values(f).len() == out@.len());
                assert forall|k: int| 0 <= k < out@.len() implies #[trigger] out@.map_values(f)[k]
                    == lv.subrange(start as int, j as int + 1)[k] by {
                    if k < old_out.len() {
                        assert(out@[k] == old_out[k]);
                        assert(old_out.map_values(f)[k] == f(old_out[k]));
                    } else {
                        assert(out@[k] == line);
                    }
                }
                assert(out@.map_values(f) =~= lv.subrange(start as int, j as int + 1));
            }
            j = j + 1;
        }
        proof {
            assert(lv.subrange(start as int, lv.len() as int) =~= spec_last_n(lv, n as int));
        }
        out
    }
}

/// A tail query returns at most `n` lines, exactly the youngest
/// `min(n, total)` of them, in their original chronological order.
pub proof fn lemma_last_n_window(lines: Seq<Seq<char>>, n: int)
    requires
        n >= 0,
    ensures
        spec_last_n(lines, n).len() <= n,
        spec_last_n(lines, n).len() == if n <= lines.len() {
            n
        } else {
            lines.len() as int
        },
        forall|i: int|
            0 <= i < spec_last_n(lines, n).len() ==> spec_last_n(lines, n)[i] == lines[lines.len()
                - spec_last_n(lines, n).len() + i],
{
}

/// Reading the tail twice from the same persisted content, with no write in
/// between, yields the same lines: the query is a function of the content.
pub proof fn lemma_tail_read_idempotent(
    content: Seq<char>,
    n: int,
    r1: Seq<Seq<char>>,
    r2: Seq<Seq<char>>,
)
    requires
        r1 == spec_last_n(spec_lines(content), n),
        r2 == spec_last_n(spec_lines(content), n),
    ensures
        r1 == r2,
{
}

} // verus!
