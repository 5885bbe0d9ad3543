use boldline::{boldline, Marking, Pattern};

fn run(input: &str, marking: Marking, pattern: Pattern) -> Vec<String> {
    boldline(input.to_string(), marking, pattern)
}

fn html() -> Marking {
    Marking::HTMLBold
}

#[test]
fn left_sweep_marks_each_position_in_turn() {
    let out = run("boldline", html(), Pattern::Left);
    assert_eq!(
        out,
        vec![
            "<b>b</b>oldline",
            "b<b>o</b>ldline",
            "bo<b>l</b>dline",
            "bol<b>d</b>line",
            "bold<b>l</b>ine",
            "boldl<b>i</b>ne",
            "boldli<b>n</b>e",
            "boldlin<b>e</b>",
        ]
    );
}

#[test]
fn right_sweep_marks_from_the_end() {
    let out = run("boldline", html(), Pattern::Right);
    assert_eq!(
        out,
        vec![
            "boldlin<b>e</b>",
            "boldli<b>n</b>e",
            "boldl<b>i</b>ne",
            "bold<b>l</b>ine",
            "bol<b>d</b>line",
            "bo<b>l</b>dline",
            "b<b>o</b>ldline",
            "<b>b</b>oldline",
        ]
    );
}

#[test]
fn one_line_per_character_without_excluded_ones() {
    for pattern in [Pattern::Left, Pattern::Right] {
        assert_eq!(run("abcdefg", html(), pattern).len(), 7);
        assert_eq!(run("x", Marking::ANSIBold, pattern).len(), 1);
    }
}

#[test]
fn left_marks_index_i_and_right_marks_mirror() {
    let text = "wxyz";
    let left = run(text, Marking::MarkdownBold, Pattern::Left);
    let right = run(text, Marking::MarkdownBold, Pattern::Right);
    let chars: Vec<char> = text.chars().collect();
    for i in 0..chars.len() {
        let wrap = |q: usize| {
            let before: String = chars[..q].iter().collect();
            let after: String = chars[q + 1..].iter().collect();
            format!("{}**{}**{}", before, chars[q], after)
        };
        assert_eq!(left[i], wrap(i));
        assert_eq!(right[i], wrap(chars.len() - 1 - i));
    }
}

#[test]
fn space_step_is_skipped() {
    let out = run("a b", html(), Pattern::Left);
    assert_eq!(out, vec!["<b>a</b> b", "a <b>b</b>"]);
}

#[test]
fn apostrophe_and_period_are_skipped() {
    assert_eq!(
        run("it's", html(), Pattern::Left),
        vec!["<b>i</b>t's", "i<b>t</b>'s", "it'<b>s</b>"]
    );
    assert_eq!(
        run("ab c", html(), Pattern::Right),
        vec!["ab <b>c</b>", "a<b>b</b> c", "<b>a</b>b c"]
    );
    assert_eq!(
        run("a.b", html(), Pattern::Cross),
        vec!["<b>a</b>.<b>b</b>", "<b>a</b>.<b>b</b>"]
    );
}

#[test]
fn cross_step_is_dropped_when_either_side_is_excluded() {
    assert_eq!(
        run("ab.c", html(), Pattern::Cross),
        vec!["<b>a</b>b.<b>c</b>", "<b>a</b>b.<b>c</b>"]
    );
}

#[test]
fn cross_collapses_the_middle_pair() {
    let out = run("boldline", html(), Pattern::Cross);
    assert_eq!(
        out,
        vec![
            "<b>b</b>oldlin<b>e</b>",
            "b<b>o</b>ldli<b>n</b>e",
            "bo<b>l</b>dl<b>i</b>ne",
            "bol<b>dl</b>ine",
            "bo<b>l</b>dl<b>i</b>ne",
            "b<b>o</b>ldli<b>n</b>e",
            "<b>b</b>oldlin<b>e</b>",
        ]
    );
}

#[test]
fn cross_without_dedupe_wraps_the_pair_apart() {
    let custom = Marking::custom(false, "<b>".to_string(), "</b>".to_string());
    let plain = run("boldline", custom, Pattern::Cross);
    let merged = run("boldline", html(), Pattern::Cross);
    assert_eq!(plain.len(), 7);
    for i in 0..7 {
        if i == 3 {
            assert_eq!(plain[i], "bol<b>d</b><b>l</b>ine");
            assert_eq!(merged[i], "bol<b>dl</b>ine");
        } else {
            assert_eq!(plain[i], merged[i]);
        }
    }
}

#[test]
fn cross_on_odd_length_wraps_middle_once() {
    assert_eq!(
        run("abc", html(), Pattern::Cross),
        vec!["<b>a</b>b<b>c</b>", "a<b>b</b>c", "<b>a</b>b<b>c</b>"]
    );
}

#[test]
fn cross_on_two_characters() {
    assert_eq!(run("ab", Marking::BBCodeBold, Pattern::Cross), vec!["[b]ab[/b]"]);
    assert_eq!(
        run("ab", Marking::ANSIBold, Pattern::Cross),
        vec!["\x1B[1ma\x1B[0m\x1B[1mb\x1B[0m"]
    );
}

#[test]
fn empty_input_gives_no_lines() {
    for marking in [Marking::ANSIBold, Marking::MarkdownBold, Marking::BBCodeBold, html()] {
        for pattern in [Pattern::Left, Pattern::Right, Pattern::Cross] {
            assert!(run("", marking.clone(), pattern).is_empty());
        }
    }
}

#[test]
fn builtin_markups_wrap_as_named() {
    assert_eq!(run("ab", Marking::MarkdownBold, Pattern::Left), vec!["**a**b", "a**b**"]);
    assert_eq!(run("ab", Marking::BBCodeBold, Pattern::Left), vec!["[b]a[/b]b", "a[b]b[/b]"]);
    assert_eq!(
        run("ab", Marking::ANSIBold, Pattern::Right),
        vec!["a\x1B[1mb\x1B[0m", "\x1B[1ma\x1B[0mb"]
    );
}

#[test]
fn positions_are_characters() {
    assert_eq!(run("añb", html(), Pattern::Left), vec!["<b>a</b>ñb", "a<b>ñ</b>b", "añ<b>b</b>"]);
}

#[test]
fn stripping_the_markup_restores_the_text() {
    for pattern in [Pattern::Left, Pattern::Right, Pattern::Cross] {
        for line in run("boldline", html(), pattern) {
            assert_eq!(line.replace("<b>", "").replace("</b>", ""), "boldline");
        }
        for line in run("bold line", Marking::MarkdownBold, pattern) {
            assert_eq!(line.replace("**", ""), "bold line");
        }
    }
}

#[test]
fn repeated_calls_agree() {
    for pattern in [Pattern::Left, Pattern::Right, Pattern::Cross] {
        let a = run("it's bold.", html(), pattern);
        let b = run("it's bold.", html(), pattern);
        assert_eq!(a, b);
    }
}

#[test]
fn custom_markup_keeps_its_parts() {
    let m = Marking::custom(true, "(".to_string(), ")".to_string());
    assert_eq!(m, Marking::Custom(true, "(".to_string(), ")".to_string()));
    assert_eq!(m.clone().vars(), (true, "(".to_string(), ")".to_string()));
    assert_eq!(run("abcd", m, Pattern::Cross), vec!["(a)bc(d)", "a(bc)d", "(a)bc(d)"]);
}

#[test]
fn markup_and_pattern_parts() {
    assert_eq!(Marking::HTMLBold.vars(), (true, "<b>".to_string(), "</b>".to_string()));
    assert_eq!(Marking::ANSIBold.vars(), (false, "\x1B[1m".to_string(), "\x1B[0m".to_string()));
    assert_eq!(Pattern::Left.vars(), (true, false));
    assert_eq!(Pattern::Right.vars(), (false, true));
    assert_eq!(Pattern::Cross.vars(), (true, true));
}
