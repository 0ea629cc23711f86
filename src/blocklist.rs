use vstd::prelude::*;

use crate::text::{chars_of, string_from_chars, trim, trim_chars};

verus! {

broadcast use Seq::lemma_push_to_set_commute;

/// The pieces of `s` between line feeds; there is always at least one.
pub open spec fn split_nl(s: Seq<char>) -> Seq<Seq<char>>
    decreases s.len(),
{
    if s.len() == 0 {
        seq![Seq::empty()]
    } else {
        let p = split_nl(s.drop_last());
        if s.last() == '\n' {
            p.push(Seq::empty())
        } else {
            p.update(p.len() - 1, p.last().push(s.last()))
        }
    }
}

/// A line that was ended by a line feed loses a carriage return before it.
pub open spec fn strip_cr(l: Seq<char>) -> Seq<char> {
    if l.len() > 0 && l.last() == '\r' {
        l.drop_last()
    } else {
        l
    }
}

/// The lines of a text: split at `\n` or `\r\n`, terminators removed, and the
/// final terminator optional (an empty text has no lines).
pub open spec fn lines_of(s: Seq<char>) -> Seq<Seq<char>> {
    let p = split_nl(s);
    let ended = p.drop_last().map_values(|l: Seq<char>| strip_cr(l));
    if p.last().len() == 0 {
        ended
    } else {
        ended.push(p.last())
    }
}

/// The entries a blocklist text names: each of its lines, trimmed.
pub open spec fn entries_of(s: Seq<char>) -> Set<Seq<char>> {
    lines_of(s).map_values(|l: Seq<char>| trim(l)).to_set()
}

/// The character sequences of a list of strings.
pub open spec fn views(v: Seq<String>) -> Seq<Seq<char>> {
    v.map_values(|x: String| x@)
}

proof fn lemma_split_nl_nonempty(s: Seq<char>)
    ensures
        split_nl(s).len() >= 1,
    decreases s.len(),
{
    if s.len() > 0 {
        lemma_split_nl_nonempty(s.drop_last());
    }
}

/// Adds `x` to `v` unless an equal string is already there.
fn insert_unique(v: &mut Vec<String>, x: String)
    requires
        views(old(v)@).no_duplicates(),
    ensures
        views(final(v)@).no_duplicates(),
        views(final(v)@).to_set() == views(old(v)@).to_set().insert(x@),
{
    let mut i: usize = 0;
    while i < v.len()
        invariant
            0 <= i <= v@.len(),
            v@ == old(v)@,
            views(v@).no_duplicates(),
            forall|j: int| 0 <= j < i ==> v@[j]@ != x@,
        decreases v@.len() - i,
    {
        if v[i] == x {
            assert(views(v@)[i as int] == x@);
            assert(views(v@).to_set() =~= views(v@).to_set().insert(x@));
            return;
        }
        i = i + 1;
    }
    let ghost before = v@;
    v.push(x);
    assert(views(v@) =~= views(before).push(x@));
}

/// Builds the distinct entries of a blocklist text.
pub fn parse_blocklist(content: &str) -> (r: Vec<String>)
    ensures
        views(r@).no_duplicates(),
        views(r@).to_set() == entries_of(content@),
{
    let cs = chars_of(content);
    let n = cs.len();
    let mut out: Vec<String> = Vec::new();
    let mut cur: Vec<char> = Vec::new();
    let ghost mut done: Seq<Seq<char>> = Seq::empty();
    let mut i: usize = 0;
    assert(cs@.take(0) =~= Seq::<char>::empty());
    assert(views(out@) =~= Seq::<Seq<char>>::empty());
    while i < n
        invariant
            i <= n,
            n == cs@.len(),
            cs@ == content@,
            split_nl(cs@.take(i as int)) == done.push(cur@),
            views(out@).no_duplicates(),
            views(out@).to_set() == done.map_values(|l: Seq<char>| trim(strip_cr(l))).to_set(),
        decreases n - i,
    {
        let c = cs[i];
        assert(cs@.take(i + 1).drop_last() =~= cs@.take(i as int));
        let ghost before = done.map_values(|l: Seq<char>| trim(strip_cr(l)));
        if c == '\n' {
            let ghost line = cur@;
            let k = cur.len();
            if k > 0 && cur[k - 1] == '\r' {
                cur.pop();
                assert(cur@ =~= line.drop_last());
            }
            let t = trim_chars(&cur);
            insert_unique(&mut out, string_from_chars(&t));
            proof {
                done = done.push(line);
                assert(done.map_values(|l: Seq<char>| trim(strip_cr(l))) =~= before.push(
                    trim(strip_cr(line)),
                ));
            }
            cur = Vec::new();
        } else {
            proof {
                lemma_split_nl_nonempty(cs@.take(i as int));
            }
            cur.push(c);
        }
        i = i + 1;
    }
    assert(cs@.take(n as int) =~= cs@);
    let ghost ended = done.map_values(|l: Seq<char>| strip_cr(l));
    assert(done.push(cur@).drop_last() =~= done);
    assert(ended.map_values(|l: Seq<char>| trim(l)) =~= done.map_values(
        |l: Seq<char>| trim(strip_cr(l)),
    ));
    if cur.len() > 0 {
        let t = trim_chars(&cur);
        insert_unique(&mut out, string_from_chars(&t));
        assert(ended.push(cur@).map_values(|l: Seq<char>| trim(l)) =~= ended.map_values(
            |l: Seq<char>| trim(l),
        ).push(trim(cur@)));
    }
    out
}

} // verus!
