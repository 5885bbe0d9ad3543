use vstd::prelude::*;
use vstd::string::StringExecFns;

verus! {

/// The markup to use.
///
/// `Marking::custom` builds one from a dedupe flag, a prefix and a suffix.
#[derive(Debug, PartialEq, Eq, Clone)]
pub enum Marking {
    /// ANSI terminal escapes
    ANSIBold,
    /// Markdown `**c**`
    MarkdownBold,
    /// BBCode `[b]c[/b]`
    BBCodeBold,
    /// HTML `<b>c</b>`
    HTMLBold,
    /// A custom markup: dedupe, prefix, suffix
    Custom(bool, String, String),
}

/// Whether two marked neighbours under `Pattern::Cross` share one prefix and one suffix.
pub open spec fn dedupe_of(m: Marking) -> bool {
    match m {
        Marking::ANSIBold => false,
        Marking::MarkdownBold => true,
        Marking::BBCodeBold => true,
        Marking::HTMLBold => true,
        Marking::Custom(d, _, _) => d,
    }
}

/// The text written before a marked character.
pub open spec fn prefix_of(m: Marking) -> Seq<char> {
    match m {
        Marking::ANSIBold => "\x1B[1m"@,
        Marking::MarkdownBold => "**"@,
        Marking::BBCodeBold => "[b]"@,
        Marking::HTMLBold => "<b>"@,
        Marking::Custom(_, p, _) => p@,
    }
}

/// The text written after a marked character.
pub open spec fn suffix_of(m: Marking) -> Seq<char> {
    match m {
        Marking::ANSIBold => "\x1B[0m"@,
        Marking::MarkdownBold => "**"@,
        Marking::BBCodeBold => "[/b]"@,
        Marking::HTMLBold => "</b>"@,
        Marking::Custom(_, _, s) => s@,
    }
}

impl Marking {
    /// Creates a custom markup from dedupe, prefix and suffix.
    ///
    /// Dedupe says whether two neighbouring marks under `Pattern::Cross` are
    /// merged: with it `bol<b>dl</b>ine`, without it `bol<b>d</b><b>l</b>ine`.
    pub fn custom(dedupe: bool, prefix: String, suffix: String) -> (r: Self)
        ensures
            r == Marking::Custom(dedupe, prefix, suffix),
            dedupe_of(r) == dedupe,
            prefix_of(r) == prefix@,
            suffix_of(r) == suffix@,
    {
        Marking::Custom(dedupe, prefix, suffix)
    }

    /// The dedupe flag, prefix and suffix of this markup.
    pub fn vars(self) -> (r: (bool, String, String))
        ensures
            r.0 == dedupe_of(self),
            r.1@ == prefix_of(self),
            r.2@ == suffix_of(self),
    {
        match self {
            Marking::ANSIBold => (false, String::from_str("\x1B[1m"), String::from_str("\x1B[0m")),
            Marking::MarkdownBold => (true, String::from_str("**"), String::from_str("**")),
            Marking::BBCodeBold => (true, String::from_str("[b]"), String::from_str("[/b]")),
            Marking::HTMLBold => (true, String::from_str("<b>"), String::from_str("</b>")),
            Marking::Custom(d, p, s) => (d, p, s),
        }
    }
}

/// The direction(s) in which the mark sweeps.
#[derive(Debug, PartialEq, Eq, Clone, Copy, Structural)]
pub enum Pattern {
    /// A line going left to right
    Left,
    /// A line going right to left
    Right,
    /// Left and Right combined
    Cross,
}

/// Whether the pattern marks the position counted from the left.
pub open spec fn leftwise(p: Pattern) -> bool {
    p == Pattern::Left || p == Pattern::Cross
}

/// Whether the pattern marks the position counted from the right.
pub open spec fn rightwise(p: Pattern) -> bool {
    p == Pattern::Right || p == Pattern::Cross
}

impl Pattern {
    /// (leftwise, rightwise)
    pub fn vars(self) -> (r: (bool, bool))
        ensures
            r.0 == leftwise(self),
            r.1 == rightwise(self),
    {
        match self {
            Pattern::Left => (true, false),
            Pattern::Right => (false, true),
            Pattern::Cross => (true, true),
        }
    }
}

} // verus!
