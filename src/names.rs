use vstd::prelude::*;
use vstd::string::StrSliceExecFns;
use crate::markup::{Marking, Pattern};

verus! {

/// Character `c` lowercases to `a`, where `a` is an ASCII character: `c` is
/// `a`, or `a` is a lower-case ASCII letter and `c` is its upper-case form,
/// or `a` is `k` and `c` is the Kelvin sign (U+212A), the one non-ASCII
/// character whose lower case is a single ASCII letter.
pub open spec fn same_letter(c: char, a: char) -> bool {
    ||| c == a
    ||| 97 <= (a as u32) <= 122 && (c as u32) + 32 == (a as u32)
    ||| (a as u32) == 107 && (c as u32) == 0x212A
}

/// `name` lowercases to the ASCII `alias`, character by character.
pub open spec fn name_is(name: Seq<char>, alias: Seq<char>) -> bool {
    &&& name.len() == alias.len()
    &&& forall|k: int| 0 <= k < name.len() ==> #[trigger] same_letter(name[k], alias[k])
}

/// The markup that a user-facing name selects.
pub open spec fn marking_named(name: Seq<char>) -> Option<Marking> {
    if name_is(name, "ansibold"@) || name_is(name, "ansi"@) || name_is(name, "terminal"@)
        || name_is(name, "t"@) {
        Some(Marking::ANSIBold)
    } else if name_is(name, "htmlbold"@) || name_is(name, "html"@) || name_is(name, "h"@) {
        Some(Marking::HTMLBold)
    } else if name_is(name, "markdownbold"@) || name_is(name, "markdown"@) || name_is(name, "md"@)
        || name_is(name, "gfm"@) || name_is(name, "reddit"@) {
        Some(Marking::MarkdownBold)
    } else if name_is(name, "bbcodebold"@) || name_is(name, "bbcode"@) || name_is(name, "bb"@) {
        Some(Marking::BBCodeBold)
    } else {
        None
    }
}

/// The pattern that a user-facing name selects.
pub open spec fn pattern_named(name: Seq<char>) -> Option<Pattern> {
    if name_is(name, "l"@) || name_is(name, "left"@) {
        Some(Pattern::Left)
    } else if name_is(name, "r"@) || name_is(name, "right"@) {
        Some(Pattern::Right)
    } else if name_is(name, "x"@) || name_is(name, "c"@) || name_is(name, "cross"@) {
        Some(Pattern::Cross)
    } else {
        None
    }
}

/// What stands between two lines of output: a line break tag for HTML, the
/// hard-break convention (two spaces) for Markdown, else a bare newline.
pub open spec fn separator_of(m: Marking) -> Seq<char> {
    match m {
        Marking::HTMLBold => "<br/>\n"@,
        Marking::MarkdownBold => "  \n"@,
        _ => "\n"@,
    }
}

/// Whether `name` lowercases to the ASCII `alias`.
pub fn matches_name(name: &str, alias: &str) -> (r: bool)
    ensures
        r == name_is(name@, alias@),
{
    let n = name.unicode_len();
    if n != alias.unicode_len() {
        return false;
    }
    let mut j: usize = 0;
    while j < n
        invariant
            n == name@.len(),
            n == alias@.len(),
            j <= n,
            forall|k: int| 0 <= k < j ==> #[trigger] same_letter(name@[k], alias@[k]),
        decreases n - j,
    {
        let c = name.get_char(j);
        let a = alias.get_char(j);
        let lower = 97 <= (a as u32) && (a as u32) <= 122;
        let kelvin = (a as u32) == 107 && (c as u32) == 0x212A;
        if !(c == a || (lower && (c as u32) + 32 == (a as u32)) || kelvin) {
            assert(!same_letter(name@[j as int], alias@[j as int]));
            return false;
        }
        j += 1;
    }
    true
}

/// Looks up a markup by name (`ansi`, `html`, `md`, `bb`, ...).
pub fn parse_marking(input: &str) -> (r: Option<Marking>)
    ensures
        r == marking_named(input@),
{
    if matches_name(input, "ansibold") || matches_name(input, "ansi") || matches_name(
        input,
        "terminal",
    ) || matches_name(input, "t") {
        Some(Marking::ANSIBold)
    } else if matches_name(input, "htmlbold") || matches_name(input, "html") || matches_name(
        input,
        "h",
    ) {
        Some(Marking::HTMLBold)
    } else if matches_name(input, "markdownbold") || matches_name(input, "markdown")
        || matches_name(input, "md") || matches_name(input, "gfm") || matches_name(
        input,
        "reddit",
    ) {
        Some(Marking::MarkdownBold)
    } else if matches_name(input, "bbcodebold") || matches_name(input, "bbcode") || matches_name(
        input,
        "bb",
    ) {
        Some(Marking::BBCodeBold)
    } else {
        None
    }
}

/// Looks up a pattern by name (`l`, `left`, `r`, `right`, `x`, `c`, `cross`).
pub fn parse_pattern(input: &str) -> (r: Option<Pattern>)
    ensures
        r == pattern_named(input@),
{
    if matches_name(input, "l") || matches_name(input, "left") {
        Some(Pattern::Left)
    } else if matches_name(input, "r") || matches_name(input, "right") {
        Some(Pattern::Right)
    } else if matches_name(input, "x") || matches_name(input, "c") || matches_name(input, "cross") {
        Some(Pattern::Cross)
    } else {
        None
    }
}

/// The text to join the lines for `marking` with.
pub fn separator(marking: &Marking) -> (r: &'static str)
    ensures
        r@ == separator_of(*marking),
{
    match marking {
        Marking::HTMLBold => "<br/>\n",
        Marking::MarkdownBold => "  \n",
        _ => "\n",
    }
}

} // verus!
