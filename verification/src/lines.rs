//! Splitting text into pieces and lines, as `str::split` with one character
//! and `str::lines` do.
use vstd::prelude::*;

verus! {

/// The pieces of `s` between occurrences of `c` (what `str::split(c)` yields;
/// always at least one piece).
pub open spec fn split_on(s: Seq<char>, c: char) -> Seq<Seq<char>>
    decreases s.len(),
{
    if s.len() == 0 {
        seq![Seq::empty()]
    } else {
        let prev = split_on(s.drop_last(), c);
        if s.last() == c {
            prev.push(Seq::empty())
        } else {
            prev.update(prev.len() - 1, prev.last().push(s.last()))
        }
    }
}

/// `split_on` always yields at least one piece.
pub proof fn lemma_split_on_len(s: Seq<char>, c: char)
    ensures
        split_on(s, c).len() >= 1,
    decreases s.len(),
{
    if s.len() > 0 {
        lemma_split_on_len(s.drop_last(), c);
    }
}

/// Splits `s` at every `c`.
pub fn split_char(s: &[char], c: char) -> (r: Vec<Vec<char>>)
    ensures
        r@.map_values(|v: Vec<char>| v@) == split_on(s@, c),
{
    let mut out: Vec<Vec<char>> = Vec::new();
    let mut cur: Vec<char> = Vec::new();
    let mut i: usize = 0;
    assert(s@.take(0) =~= Seq::<char>::empty());
    while i < s.len()
        invariant
            i <= s@.len(),
            out@.map_values(|v: Vec<char>| v@).push(cur@) == split_on(s@.take(i as int), c),
        decreases s@.len() - i,
    {
        let ghost before = out@.map_values(|v: Vec<char>| v@).push(cur@);
        assert(s@.take(i + 1).drop_last() =~= s@.take(i as int));
        assert(s@.take(i + 1).last() == s@[i as int]);
        proof {
            lemma_split_on_len(s@.take(i as int), c);
        }
        if s[i] == c {
            let done = cur;
            out.push(done);
            cur = Vec::new();
            assert(out@.map_values(|v: Vec<char>| v@).push(cur@) =~= before.push(Seq::empty()));
        } else {
            cur.push(s[i]);
            assert(out@.map_values(|v: Vec<char>| v@).push(cur@) =~= before.update(
                before.len() - 1,
                before.last().push(s@[i as int]),
            ));
        }
        i = i + 1;
    }
    out.push(cur);
    assert(s@.take(s@.len() as int) =~= s@);
    out
}


/// A line without its trailing carriage return.
pub open spec fn strip_cr(l: Seq<char>) -> Seq<char> {
    if l.len() > 0 && l.last() == '\r' {
        l.drop_last()
    } else {
        l
    }
}

/// The lines of a text (what `str::lines` yields): the pieces between
/// `\n`, with no final empty piece after a closing `\n`; a piece that a
/// `\n` ends loses one trailing `\r`.
#[verifier::opaque]
pub open spec fn lines_of(s: Seq<char>) -> Seq<Seq<char>> {
    if s.len() == 0 {
        Seq::empty()
    } else {
        let closed = s.last() == '\n';
        let p = split_on(if closed { s.drop_last() } else { s }, '\n');
        Seq::new(p.len(), |i: int| if closed || i + 1 < p.len() { strip_cr(p[i]) } else { p[i] })
    }
}

/// Splits a text into lines.
pub fn lines_exec(s: &[char]) -> (r: Vec<Vec<char>>)
    ensures
        r@.map_values(|v: Vec<char>| v@) == lines_of(s@),
{
    reveal(lines_of);
    if s.len() == 0 {
        let r: Vec<Vec<char>> = Vec::new();
        assert(r@.map_values(|v: Vec<char>| v@) =~= lines_of(s@));
        return r;
    }
    let closed = s[s.len() - 1] == '\n';
    let pieces = if closed {
        assert(s@.subrange(0, s@.len() - 1) =~= s@.drop_last());
        split_char(&s[0..s.len() - 1], '\n')
    } else {
        split_char(s, '\n')
    };
    let ghost pv = pieces@.map_values(|v: Vec<char>| v@);
    let ghost want = lines_of(s@);
    assert(want.len() == pv.len());
    let mut out: Vec<Vec<char>> = Vec::new();
    let mut i: usize = 0;
    while i < pieces.len()
        invariant
            i <= pieces@.len(),
            pv == pieces@.map_values(|v: Vec<char>| v@),
            want.len() == pv.len(),
            forall|j: int|
                0 <= j < pv.len() ==> #[trigger] want[j] == (if closed || j + 1 < pv.len() {
                    strip_cr(pv[j])
                } else {
                    pv[j]
                }),
            out@.map_values(|v: Vec<char>| v@) == want.take(i as int),
        decreases pieces@.len() - i,
    {
        let ghost before = out@.map_values(|v: Vec<char>| v@);
        let mut line: Vec<char> = pieces[i].clone();
        assert(line@ == pv[i as int]);
        if closed || i + 1 < pieces.len() {
            if line.len() > 0 && line[line.len() - 1] == '\r' {
                line.pop();
            }
        }
        assert(line@ == want[i as int]);
        out.push(line);
        assert(out@.map_values(|v: Vec<char>| v@) =~= before.push(want[i as int]));
        assert(want.take(i + 1) =~= want.take(i as int).push(want[i as int]));
        i = i + 1;
    }
    assert(want.take(pieces@.len() as int) =~= want);
    out
}

} // verus!
