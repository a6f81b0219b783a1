use script_var::text::trim_newlines;

#[test]
fn trim_strips_newlines_at_both_ends() {
    assert_eq!(trim_newlines("\n\nfoo\n"), "foo");
}

#[test]
fn trim_strips_a_single_trailing_newline() {
    assert_eq!(trim_newlines("hello\n"), "hello");
}

#[test]
fn trim_keeps_other_white_space() {
    assert_eq!(trim_newlines(" foo \t\n"), " foo \t");
    assert_eq!(trim_newlines("\n foo"), " foo");
    assert_eq!(trim_newlines("foo\r\n"), "foo\r");
}

#[test]
fn trim_keeps_newlines_inside() {
    assert_eq!(trim_newlines("\none\n\ntwo\n\n"), "one\n\ntwo");
}

#[test]
fn trim_of_newlines_alone_is_empty() {
    assert_eq!(trim_newlines("\n"), "");
    assert_eq!(trim_newlines("\n\n\n"), "");
}

#[test]
fn trim_of_empty_text_is_empty() {
    assert_eq!(trim_newlines(""), "");
}

#[test]
fn trim_leaves_text_without_outer_newlines() {
    assert_eq!(trim_newlines("a\nb"), "a\nb");
    assert_eq!(trim_newlines("x"), "x");
}

#[test]
fn trim_counts_characters_not_bytes() {
    assert_eq!(trim_newlines("\n\u{e9}t\u{e9} \u{1f600}\n\n"), "\u{e9}t\u{e9} \u{1f600}");
}

#[test]
fn trim_twice_is_trim_once() {
    for text in ["", "\n", "\na\n", "a\n\nb\n", " \n", "\n\n \n\n"] {
        let once = trim_newlines(text);
        assert_eq!(trim_newlines(once), once);
    }
}

#[test]
fn trim_agrees_with_the_standard_library() {
    for text in ["", "\n", "\na\n", "a\n\nb\n", " \n", "\n\n \n\n", "\r\n", "\u{2028}\n"] {
        assert_eq!(trim_newlines(text), text.trim_matches('\n'));
    }
}
