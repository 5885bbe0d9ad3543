use vstd::prelude::*;
use vstd::string::{StrSliceExecFns, StringExecFns};
use crate::markup::{Marking, Pattern, dedupe_of, prefix_of, suffix_of, leftwise, rightwise};

verus! {

/// The characters that are never marked: space, apostrophe and period.
pub open spec fn excluded(c: char) -> bool {
    c == ' ' || c == '\'' || c == '.'
}

/// Sweep step `i` is dropped as a whole when a position that the pattern
/// marks in it holds an excluded character.
pub open spec fn char_skipped(s: Seq<char>, p: Pattern, i: int) -> bool {
    ||| leftwise(p) && excluded(s[i])
    ||| rightwise(p) && excluded(s[s.len() - 1 - i])
}

/// In step `i` the position from the left, `i`, and the one from the right,
/// `n - 1 - i`, are neighbours.
pub open spec fn adjacent(n: int, i: int) -> bool {
    i + 1 == n - 1 - i || (n - 1 - i) + 1 == i
}

/// Whether step `i` yields a line. Under `Cross` the two adjacent steps of an
/// even-length text mark the same pair of characters; only the first of them
/// yields a line, so the second one (`2 * i == n`) never does.
pub open spec fn emitted(s: Seq<char>, p: Pattern, i: int) -> bool {
    &&& !char_skipped(s, p, i)
    &&& !(p == Pattern::Cross && 2 * i == s.len())
}

/// Position `j` is marked in step `i`.
pub open spec fn marked(n: int, p: Pattern, i: int, j: int) -> bool {
    (leftwise(p) && j == i) || (rightwise(p) && j == n - 1 - i)
}

/// In step `i` the two marked neighbours share one prefix and one suffix.
pub open spec fn merged(n: int, d: bool, p: Pattern, i: int) -> bool {
    leftwise(p) && rightwise(p) && adjacent(n, i) && d
}

/// A prefix stands before position `j` in step `i`: it is marked, and it is not
/// the higher of two merged neighbours.
pub open spec fn opens(n: int, d: bool, p: Pattern, i: int, j: int) -> bool {
    marked(n, p, i, j) && !(merged(n, d, p, i) && j == if i > n - 1 - i { i } else { n - 1 - i })
}

/// A suffix stands after position `j` in step `i`: it is marked, and it is not
/// the lower of two merged neighbours.
pub open spec fn closes(n: int, d: bool, p: Pattern, i: int, j: int) -> bool {
    marked(n, p, i, j) && !(merged(n, d, p, i) && j == if i < n - 1 - i { i } else { n - 1 - i })
}

/// What position `j` of the text becomes in the line of step `i`.
pub open spec fn piece(
    s: Seq<char>,
    d: bool,
    pre: Seq<char>,
    suf: Seq<char>,
    p: Pattern,
    i: int,
    j: int,
) -> Seq<char> {
    (if opens(s.len() as int, d, p, i, j) { pre } else { Seq::empty() }) + seq![s[j]] + (if closes(
        s.len() as int,
        d,
        p,
        i,
        j,
    ) {
        suf
    } else {
        Seq::empty()
    })
}

/// The pieces of the first `k` positions of the line of step `i`, in order.
pub open spec fn render(
    s: Seq<char>,
    d: bool,
    pre: Seq<char>,
    suf: Seq<char>,
    p: Pattern,
    i: int,
    k: int,
) -> Seq<char>
    decreases k,
{
    if k <= 0 {
        Seq::empty()
    } else {
        render(s, d, pre, suf, p, i, k - 1) + piece(s, d, pre, suf, p, i, k - 1)
    }
}

/// The line of step `i`.
pub open spec fn line(s: Seq<char>, d: bool, pre: Seq<char>, suf: Seq<char>, p: Pattern, i: int) -> Seq<char> {
    render(s, d, pre, suf, p, i, s.len() as int)
}

/// The lines of the first `k` steps, in order of the step.
pub open spec fn sweep(
    s: Seq<char>,
    d: bool,
    pre: Seq<char>,
    suf: Seq<char>,
    p: Pattern,
    k: int,
) -> Seq<Seq<char>>
    decreases k,
{
    if k <= 0 {
        Seq::empty()
    } else if emitted(s, p, k - 1) {
        sweep(s, d, pre, suf, p, k - 1).push(line(s, d, pre, suf, p, k - 1))
    } else {
        sweep(s, d, pre, suf, p, k - 1)
    }
}

/// All lines generated for text `s` with markup `m` and pattern `p`.
pub open spec fn bold_lines(s: Seq<char>, m: Marking, p: Pattern) -> Seq<Seq<char>> {
    sweep(s, dedupe_of(m), prefix_of(m), suffix_of(m), p, s.len() as int)
}

/// The views of a vector of strings.
pub open spec fn views(v: Seq<String>) -> Seq<Seq<char>> {
    v.map_values(|x: String| x@)
}

/// Whether `c` may be marked.
pub fn should_bold(c: char) -> (r: bool)
    ensures
        r == !excluded(c),
{
    !(c == ' ' || c == '\'' || c == '.')
}

/// The text cut into one-character slices.
fn char_cells<'a>(text: &'a str) -> (r: Vec<&'a str>)
    ensures
        r@.len() == text@.len(),
        forall|k: int| 0 <= k < r@.len() ==> (#[trigger] r@[k])@ == seq![text@[k]],
{
    let n = text.unicode_len();
    let mut cells: Vec<&'a str> = Vec::new();
    let mut j: usize = 0;
    while j < n
        invariant
            n == text@.len(),
            j <= n,
            cells@.len() == j,
            forall|k: int| 0 <= k < j ==> (#[trigger] cells@[k])@ == seq![text@[k]],
        decreases n - j,
    {
        let c = text.substring_char(j, j + 1);
        assert(c@ =~= seq![text@[j as int]]);
        cells.push(c);
        j += 1;
    }
    cells
}

/// The line of step `i`, built one position at a time.
fn render_line(
    cells: &Vec<&str>,
    i: usize,
    pattern: Pattern,
    merge: bool,
    prefix: &str,
    suffix: &str,
    Ghost(s): Ghost<Seq<char>>,
    Ghost(d): Ghost<bool>,
) -> (r: String)
    requires
        cells@.len() == s.len(),
        forall|k: int| 0 <= k < cells@.len() ==> (#[trigger] cells@[k])@ == seq![s[k]],
        i < s.len(),
        merge == merged(s.len() as int, d, pattern, i as int),
    ensures
        r@ == line(s, d, prefix@, suffix@, pattern, i as int),
{
    let (leftwise, rightwise) = pattern.vars();
    let n = cells.len();
    let right = n - i - 1;
    let mut line = String::new();
    let mut j: usize = 0;
    while j < n
        invariant
            n == s.len(),
            cells@.len() == n,
            forall|k: int| 0 <= k < n ==> (#[trigger] cells@[k])@ == seq![s[k]],
            i < n,
            right == n - i - 1,
            leftwise == crate::markup::leftwise(pattern),
            rightwise == crate::markup::rightwise(pattern),
            merge == merged(n as int, d, pattern, i as int),
            j <= n,
            line@ == render(s, d, prefix@, suffix@, pattern, i as int, j as int),
        decreases n - j,
    {
        let ghost before = line@;
        let ghost pc = piece(s, d, prefix@, suffix@, pattern, i as int, j as int);
        let c = cells[j];
        let leftchar = leftwise && i == j;
        let rightchar = rightwise && right == j;
        if leftchar || rightchar {
            if merge {
                if (i < right && rightchar) || (i > right && leftchar) {
                    // the higher of two merged neighbours
                    line.append(c);
                    line.append(suffix);
                    assert(line@ =~= before + pc);
                } else {
                    // the lower of two merged neighbours
                    line.append(prefix);
                    line.append(c);
                    assert(line@ =~= before + pc);
                }
            } else {
                line.append(prefix);
                line.append(c);
                line.append(suffix);
                assert(line@ =~= before + pc);
            }
        } else {
            line.append(c);
            assert(line@ =~= before + pc);
        }
        j += 1;
    }
    line
}

/// Does the bold line generation.
///
/// Returns the lines, one per sweep step that yields one, in order of the
/// step; joining them is left to the caller.
pub fn boldline(input: String, marking: Marking, pattern: Pattern) -> (r: Vec<String>)
    ensures
        views(r@) == bold_lines(input@, marking, pattern),
{
    let ghost s = input@;
    let ghost m = marking;
    let (leftwise, rightwise) = pattern.vars();
    let both = leftwise && rightwise;
    let (dedupe, prefix, suffix) = marking.vars();
    let text = input.as_str();
    let cells = char_cells(text);
    let n = cells.len();
    let mut output: Vec<String> = Vec::new();
    // whether the last step that passed the character check had neighbouring marks
    let mut was_next_to_last_iter = false;
    let mut left: usize = 0;
    while left < n
        invariant
            s == text@,
            n == s.len(),
            cells@.len() == n,
            forall|k: int| 0 <= k < n ==> (#[trigger] cells@[k])@ == seq![s[k]],
            leftwise == crate::markup::leftwise(pattern),
            rightwise == crate::markup::rightwise(pattern),
            both == (pattern == Pattern::Cross),
            dedupe == dedupe_of(m),
            prefix@ == prefix_of(m),
            suffix@ == suffix_of(m),
            left <= n,
            views(output@) == sweep(s, dedupe, prefix@, suffix@, pattern, left as int),
            2 * left + 2 <= n ==> !was_next_to_last_iter,
            2 * left == n && n > 0 ==> was_next_to_last_iter == !char_skipped(
                s,
                pattern,
                left - 1,
            ),
        decreases n - left,
    {
        let right = n - left - 1;
        let ghost before = output@;
        let skip_char = (leftwise && !should_bold(text.get_char(left))) || (rightwise
            && !should_bold(text.get_char(right)));
        if !skip_char {
            let next_to_eachother = left + 1 == right || right + 1 == left;
            if !next_to_eachother {
                was_next_to_last_iter = false;
            }
            // under Cross the second of two adjacent steps repeats the first
            let repeated = next_to_eachother && was_next_to_last_iter && both;
            if !repeated {
                if next_to_eachother {
                    was_next_to_last_iter = true;
                }
                let merge = both && next_to_eachother && dedupe;
                let line = render_line(
                    &cells,
                    left,
                    pattern,
                    merge,
                    prefix.as_str(),
                    suffix.as_str(),
                    Ghost(s),
                    Ghost(dedupe),
                );
                output.push(line);
                assert(views(output@) =~= views(before).push(line@));
            }
        }
        left += 1;
    }
    output
}

} // verus!
