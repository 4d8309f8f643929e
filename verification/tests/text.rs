use zed_xmake::text::{bracket_list, lines, same_text};

fn owned(texts: &[&str]) -> Vec<String> {
    texts.iter().map(|text| text.to_string()).collect()
}

#[test]
fn empty_text_has_no_lines() {
    assert_eq!(lines(""), owned(&[]));
}

#[test]
fn last_line_needs_no_ending() {
    assert_eq!(lines("one"), owned(&["one"]));
    assert_eq!(lines("one\n"), owned(&["one"]));
    assert_eq!(lines("one\ntwo"), owned(&["one", "two"]));
    assert_eq!(lines("\n\n"), owned(&["", ""]));
}

#[test]
fn carriage_returns_end_a_line_only_before_a_feed() {
    assert_eq!(lines("foo\nbar\n\r\nbaz\r"), owned(&["foo", "bar", "", "baz\r"]));
    assert_eq!(lines("a\rb\r\nc"), owned(&["a\rb", "c"]));
    assert_eq!(lines("a\r\r\n"), owned(&["a\r"]));
}

#[test]
fn lines_are_those_of_str() {
    for text in ["", "x", "\r", "\r\n", "\n\r", "a\r\n\nb\r", "h\u{e9}\n\u{1f600}\r\nz"] {
        let expected: Vec<String> = text.lines().map(|line| line.to_string()).collect();
        assert_eq!(lines(text), expected);
    }
}

#[test]
fn lists_are_shown_in_brackets() {
    assert_eq!(bracket_list(&owned(&[])), "[]");
    assert_eq!(bracket_list(&owned(&["a"])), "[a]");
    assert_eq!(bracket_list(&owned(&["a", "b", "c"])), "[a, b, c]");
}

#[test]
fn texts_are_compared() {
    assert!(same_text("xmake", "xmake"));
    assert!(!same_text("xmake", "XMake"));
    assert!(same_text("", ""));
}

#[test]
fn lines_of_whole_lines_come_first() {
    for (first, second) in [("", "a\nb"), ("a\r\n\n", "\nb"), ("a\n", "")] {
        let mut expected = lines(first);
        expected.extend(lines(second));
        assert_eq!(lines(&format!("{}{}", first, second)), expected);
    }
}
