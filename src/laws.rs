use vstd::prelude::*;
use crate::markup::{Marking, Pattern, dedupe_of, prefix_of, suffix_of};
use crate::generate::{excluded, emitted, opens, closes, piece, render, line, sweep, bold_lines, views};

verus! {

/// No character of `s` is excluded from marking.
pub open spec fn all_boldable(s: Seq<char>) -> bool {
    forall|k: int| 0 <= k < s.len() ==> !excluded(#[trigger] s[k])
}

/// The position that a one-sided pattern marks in step `i`.
pub open spec fn single_position(n: int, p: Pattern, i: int) -> int {
    if p == Pattern::Left {
        i
    } else {
        n - 1 - i
    }
}

/// `s` with `pre` inserted before position `q` and `suf` after it.
pub open spec fn wrap_at(s: Seq<char>, pre: Seq<char>, suf: Seq<char>, q: int) -> Seq<char> {
    s.subrange(0, q) + pre + seq![s[q]] + suf + s.subrange(q + 1, s.len() as int)
}

proof fn lemma_sweep_all(s: Seq<char>, d: bool, pre: Seq<char>, suf: Seq<char>, p: Pattern, k: int)
    requires
        p == Pattern::Left || p == Pattern::Right,
        all_boldable(s),
        0 <= k <= s.len(),
    ensures
        sweep(s, d, pre, suf, p, k).len() == k,
        forall|i: int| 0 <= i < k ==> #[trigger] sweep(s, d, pre, suf, p, k)[i] == line(s, d, pre, suf, p, i),
    decreases k,
{
    if k > 0 {
        lemma_sweep_all(s, d, pre, suf, p, k - 1);
        assert(emitted(s, p, k - 1));
    }
}

proof fn lemma_render_single(s: Seq<char>, d: bool, pre: Seq<char>, suf: Seq<char>, p: Pattern, i: int, k: int)
    requires
        p == Pattern::Left || p == Pattern::Right,
        0 <= i < s.len(),
        0 <= k <= s.len(),
    ensures
        ({
            let q = single_position(s.len() as int, p, i);
            render(s, d, pre, suf, p, i, k) == if k <= q {
                s.subrange(0, k)
            } else {
                s.subrange(0, q) + pre + seq![s[q]] + suf + s.subrange(q + 1, k)
            }
        }),
    decreases k,
{
    let q = single_position(s.len() as int, p, i);
    if k > 0 {
        lemma_render_single(s, d, pre, suf, p, i, k - 1);
        let pc = piece(s, d, pre, suf, p, i, k - 1);
        if k - 1 == q {
            assert(pc == pre + seq![s[q]] + suf);
            assert(render(s, d, pre, suf, p, i, k) =~= s.subrange(0, q) + pre + seq![s[q]] + suf
                + s.subrange(q + 1, k));
        } else {
            assert(pc =~= seq![s[k - 1]]);
            if k <= q {
                assert(render(s, d, pre, suf, p, i, k) =~= s.subrange(0, k));
            } else {
                assert(render(s, d, pre, suf, p, i, k) =~= s.subrange(0, q) + pre + seq![s[q]] + suf
                    + s.subrange(q + 1, k));
            }
        }
    }
}

/// Under `Left` or `Right`, a text with no excluded character gives exactly
/// one line per character.
pub proof fn lemma_one_line_per_char(s: Seq<char>, m: Marking, p: Pattern)
    requires
        p == Pattern::Left || p == Pattern::Right,
        all_boldable(s),
    ensures
        bold_lines(s, m, p).len() == s.len(),
{
    lemma_sweep_all(s, dedupe_of(m), prefix_of(m), suffix_of(m), p, s.len() as int);
}

/// Under `Left` or `Right`, for a text with no excluded character, line `i`
/// is the text with the one character at `i` (`Left`) or at `n - 1 - i`
/// (`Right`) wrapped in the prefix and the suffix.
pub proof fn lemma_marked_position(s: Seq<char>, m: Marking, p: Pattern)
    requires
        p == Pattern::Left || p == Pattern::Right,
        all_boldable(s),
    ensures
        forall|i: int|
            0 <= i < s.len() ==> #[trigger] bold_lines(s, m, p)[i] == wrap_at(
                s,
                prefix_of(m),
                suffix_of(m),
                single_position(s.len() as int, p, i),
            ),
{
    let n = s.len() as int;
    let (d, pre, suf) = (dedupe_of(m), prefix_of(m), suffix_of(m));
    lemma_sweep_all(s, d, pre, suf, p, n);
    assert forall|i: int| 0 <= i < n implies #[trigger] bold_lines(s, m, p)[i] == wrap_at(
        s,
        pre,
        suf,
        single_position(n, p, i),
    ) by {
        lemma_render_single(s, d, pre, suf, p, i, n);
    }
}

/// An empty text gives no lines, whatever the markup and pattern.
pub proof fn lemma_empty_text(m: Marking, p: Pattern)
    ensures
        bold_lines(Seq::empty(), m, p) == Seq::<Seq<char>>::empty(),
{
}

/// Two runs on the same text, markup and pattern give the same lines.
pub proof fn lemma_deterministic(input: String, m: Marking, p: Pattern, a: Seq<String>, b: Seq<String>)
    requires
        views(a) == bold_lines(input@, m, p),
        views(b) == bold_lines(input@, m, p),
    ensures
        views(a) == views(b),
{
}

/// `a` is a prefix of `b`.
pub open spec fn starts_with(b: Seq<char>, a: Seq<char>) -> bool {
    a.len() <= b.len() && b.subrange(0, a.len() as int) == a
}

/// Removes every prefix and suffix from `t`, scanning from the left: where
/// the prefix starts it is dropped, else where the suffix starts it is
/// dropped, else one character is kept.
pub open spec fn strip(t: Seq<char>, pre: Seq<char>, suf: Seq<char>) -> Seq<char>
    decreases t.len(),
{
    if t.len() == 0 {
        Seq::empty()
    } else if pre.len() > 0 && starts_with(t, pre) {
        strip(t.subrange(pre.len() as int, t.len() as int), pre, suf)
    } else if suf.len() > 0 && starts_with(t, suf) {
        strip(t.subrange(suf.len() as int, t.len() as int), pre, suf)
    } else {
        seq![t[0]] + strip(t.subrange(1, t.len() as int), pre, suf)
    }
}

/// The prefix and suffix can be told apart from each other and from the
/// text: both are non-empty, they are equal or neither begins the other,
/// and no character of the text begins either of them.
pub open spec fn unambiguous(s: Seq<char>, pre: Seq<char>, suf: Seq<char>) -> bool {
    &&& pre.len() > 0
    &&& suf.len() > 0
    &&& (pre == suf || (!starts_with(pre, suf) && !starts_with(suf, pre)))
    &&& forall|k: int| 0 <= k < s.len() ==> #[trigger] s[k] != pre[0] && s[k] != suf[0]
}

proof fn lemma_strip_piece(
    s: Seq<char>,
    d: bool,
    pre: Seq<char>,
    suf: Seq<char>,
    p: Pattern,
    i: int,
    j: int,
    t: Seq<char>,
)
    requires
        unambiguous(s, pre, suf),
        0 <= j < s.len(),
    ensures
        strip(piece(s, d, pre, suf, p, i, j) + t, pre, suf) == seq![s[j]] + strip(t, pre, suf),
{
    let c = s[j];
    let n = s.len() as int;
    // the suffix and what follows
    let st = suf + t;
    if closes(n, d, p, i, j) {
        assert(st.subrange(0, suf.len() as int) =~= suf);
        if pre != suf && starts_with(st, pre) {
            if pre.len() <= suf.len() {
                assert(suf.subrange(0, pre.len() as int) =~= st.subrange(0, pre.len() as int));
            } else {
                assert(pre.subrange(0, suf.len() as int) =~= st.subrange(0, suf.len() as int));
            }
        }
        assert(st.subrange(suf.len() as int, st.len() as int) =~= t);
        assert(strip(st, pre, suf) == strip(t, pre, suf));
    }
    let rest = if closes(n, d, p, i, j) { st } else { t };
    let ct = seq![c] + rest;
    assert(ct[0] == c);
    if pre.len() <= ct.len() {
        assert(ct.subrange(0, pre.len() as int)[0] == c);
    }
    if suf.len() <= ct.len() {
        assert(ct.subrange(0, suf.len() as int)[0] == c);
    }
    assert(ct.subrange(1, ct.len() as int) =~= rest);
    assert(strip(ct, pre, suf) == seq![c] + strip(t, pre, suf));
    if opens(n, d, p, i, j) {
        let pt = pre + ct;
        assert(pt.subrange(0, pre.len() as int) =~= pre);
        assert(pt.subrange(pre.len() as int, pt.len() as int) =~= ct);
        assert(piece(s, d, pre, suf, p, i, j) + t =~= pt);
    } else {
        assert(piece(s, d, pre, suf, p, i, j) + t =~= ct);
    }
}

proof fn lemma_strip_render(
    s: Seq<char>,
    d: bool,
    pre: Seq<char>,
    suf: Seq<char>,
    p: Pattern,
    i: int,
    k: int,
    t: Seq<char>,
)
    requires
        unambiguous(s, pre, suf),
        0 <= k <= s.len(),
    ensures
        strip(render(s, d, pre, suf, p, i, k) + t, pre, suf) == s.subrange(0, k) + strip(t, pre, suf),
    decreases k,
{
    if k == 0 {
        assert(render(s, d, pre, suf, p, i, k) + t =~= t);
        assert(s.subrange(0, k) + strip(t, pre, suf) =~= strip(t, pre, suf));
    } else {
        let x = piece(s, d, pre, suf, p, i, k - 1) + t;
        lemma_strip_render(s, d, pre, suf, p, i, k - 1, x);
        lemma_strip_piece(s, d, pre, suf, p, i, k - 1, t);
        assert(render(s, d, pre, suf, p, i, k) + t =~= render(s, d, pre, suf, p, i, k - 1) + x);
        assert(s.subrange(0, k - 1) + (seq![s[k - 1]] + strip(t, pre, suf)) =~= s.subrange(0, k)
            + strip(t, pre, suf));
    }
}

proof fn lemma_sweep_lines(s: Seq<char>, d: bool, pre: Seq<char>, suf: Seq<char>, p: Pattern, k: int)
    requires
        0 <= k <= s.len(),
    ensures
        forall|x: int|
            0 <= x < sweep(s, d, pre, suf, p, k).len() ==> exists|i: int|
                0 <= i < k && #[trigger] sweep(s, d, pre, suf, p, k)[x] == line(s, d, pre, suf, p, i),
    decreases k,
{
    if k > 0 {
        lemma_sweep_lines(s, d, pre, suf, p, k - 1);
        let prev = sweep(s, d, pre, suf, p, k - 1);
        assert forall|x: int| 0 <= x < sweep(s, d, pre, suf, p, k).len() implies exists|i: int|
            0 <= i < k && #[trigger] sweep(s, d, pre, suf, p, k)[x] == line(s, d, pre, suf, p, i) by {
            if x < prev.len() {
                assert(sweep(s, d, pre, suf, p, k)[x] == prev[x]);
                let i = choose|i: int| 0 <= i < k - 1 && prev[x] == line(s, d, pre, suf, p, i);
                assert(sweep(s, d, pre, suf, p, k)[x] == line(s, d, pre, suf, p, i));
            } else {
                assert(sweep(s, d, pre, suf, p, k)[x] == line(s, d, pre, suf, p, k - 1));
            }
        }
    }
}

/// Where the prefix and suffix are unambiguous, stripping them from any
/// generated line gives back the text.
pub proof fn lemma_strip_round_trip(s: Seq<char>, m: Marking, p: Pattern)
    requires
        unambiguous(s, prefix_of(m), suffix_of(m)),
    ensures
        forall|x: int|
            0 <= x < bold_lines(s, m, p).len() ==> strip(
                #[trigger] bold_lines(s, m, p)[x],
                prefix_of(m),
                suffix_of(m),
            ) == s,
{
    let n = s.len() as int;
    let (d, pre, suf) = (dedupe_of(m), prefix_of(m), suffix_of(m));
    lemma_sweep_lines(s, d, pre, suf, p, n);
    assert forall|x: int| 0 <= x < bold_lines(s, m, p).len() implies strip(
        #[trigger] bold_lines(s, m, p)[x],
        pre,
        suf,
    ) == s by {
        let i = choose|i: int| 0 <= i < n && bold_lines(s, m, p)[x] == line(s, d, pre, suf, p, i);
        lemma_strip_render(s, d, pre, suf, p, i, n, Seq::empty());
        assert(line(s, d, pre, suf, p, i) + Seq::<char>::empty() =~= line(s, d, pre, suf, p, i));
        assert(s.subrange(0, n) + strip(Seq::empty(), pre, suf) =~= s);
    }
}

} // verus!
