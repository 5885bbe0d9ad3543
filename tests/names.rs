use boldline::names::{matches_name, parse_marking, parse_pattern, separator};
use boldline::{Marking, Pattern};

#[test]
fn markup_names() {
    for name in ["ansibold", "ansi", "terminal", "t"] {
        assert_eq!(parse_marking(name), Some(Marking::ANSIBold));
    }
    for name in ["htmlbold", "html", "h"] {
        assert_eq!(parse_marking(name), Some(Marking::HTMLBold));
    }
    for name in ["markdownbold", "markdown", "md", "gfm", "reddit"] {
        assert_eq!(parse_marking(name), Some(Marking::MarkdownBold));
    }
    for name in ["bbcodebold", "bbcode", "bb"] {
        assert_eq!(parse_marking(name), Some(Marking::BBCodeBold));
    }
    assert_eq!(parse_marking("HTML"), Some(Marking::HTMLBold));
    assert_eq!(parse_marking("xml"), None);
    assert_eq!(parse_marking(""), None);
}

#[test]
fn markup_names_fold_unicode_case() {
    assert_eq!(parse_marking("mar\u{212A}down"), Some(Marking::MarkdownBold));
    assert_eq!(parse_marking("MAR\u{212A}DOWNBOLD"), Some(Marking::MarkdownBold));
    assert_eq!(parse_marking("Markdown"), Some(Marking::MarkdownBold));
    assert!(matches_name("\u{212A}", "k"));
    assert!(!matches_name("\u{212A}", "K"));
    assert_eq!(parse_marking("m\u{e0}rkdown"), None);
}

#[test]
fn pattern_names() {
    assert_eq!(parse_pattern("l"), Some(Pattern::Left));
    assert_eq!(parse_pattern("left"), Some(Pattern::Left));
    assert_eq!(parse_pattern("r"), Some(Pattern::Right));
    assert_eq!(parse_pattern("Right"), Some(Pattern::Right));
    assert_eq!(parse_pattern("x"), Some(Pattern::Cross));
    assert_eq!(parse_pattern("c"), Some(Pattern::Cross));
    assert_eq!(parse_pattern("CROSS"), Some(Pattern::Cross));
    assert_eq!(parse_pattern("up"), None);
}

#[test]
fn name_matching_ignores_case() {
    assert!(matches_name("LeFt", "left"));
    assert!(!matches_name("lef", "left"));
    assert!(!matches_name("left!", "left"));
    assert!(matches_name("", ""));
    assert!(!matches_name("l3ft", "left"));
}

#[test]
fn line_separators() {
    assert_eq!(separator(&Marking::HTMLBold), "<br/>\n");
    assert_eq!(separator(&Marking::MarkdownBold), "  \n");
    assert_eq!(separator(&Marking::ANSIBold), "\n");
    assert_eq!(separator(&Marking::BBCodeBold), "\n");
    assert_eq!(separator(&Marking::custom(true, String::new(), String::new())), "\n");
}
