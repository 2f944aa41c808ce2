use yakou::diagnostic::line::Line;
use yakou::diagnostic::source::{RangeError, Source};

fn texts(source: &Source) -> Vec<String> {
    let mut found = Vec::new();
    for line in &source.lines {
        found.push(line.chars.clone());
    }
    found
}

#[test]
fn from_string_splits_at_line_feeds() {
    let source = Source::from_string("one\ntwo\n\nfour".to_string());
    assert_eq!(texts(&source), vec!["one", "two", "", "four"]);
    assert_eq!(source.line_count(), 4);
}

#[test]
fn from_string_numbers_lines_from_zero() {
    let source = Source::from_string("one\nthree\n".to_string());
    assert_eq!(source.lines[0].line_number, 0);
    assert_eq!(source.lines[1].line_number, 1);
    assert_eq!(source.lines[0].offset, 0);
    assert_eq!(source.lines[1].offset, 0);
    assert_eq!(source.lines[0].length, 3);
    assert_eq!(source.lines[1].length, 5);
}

#[test]
fn from_string_ignores_one_final_line_ending() {
    assert_eq!(texts(&Source::from_string("one\ntwo\n".to_string())), vec!["one", "two"]);
    assert_eq!(texts(&Source::from_string("one\ntwo".to_string())), vec!["one", "two"]);
    assert_eq!(texts(&Source::from_string("one\n\n".to_string())), vec!["one", ""]);
    assert_eq!(texts(&Source::from_string("\n".to_string())), vec![""]);
    assert_eq!(Source::from_string(String::new()).line_count(), 0);
}

#[test]
fn from_string_takes_carriage_return_as_part_of_the_ending() {
    let source = Source::from_string("one\r\ntwo\r\nlast\r".to_string());
    assert_eq!(texts(&source), vec!["one", "two", "last\r"]);
    let inner = Source::from_string("a\rb\n\r\n".to_string());
    assert_eq!(texts(&inner), vec!["a\rb", ""]);
}

#[test]
fn from_string_agrees_with_std_lines() {
    for text in ["", "\n", "a", "a\n", "a\r\n", "a\r", "\r\n\r\n", "x\n\ny\r\n\rz", "\r", "ab\r\r\n"] {
        let expected: Vec<String> = text.lines().map(|line| line.to_string()).collect();
        assert_eq!(texts(&Source::from_string(text.to_string())), expected);
    }
}

#[test]
fn from_string_counts_the_length_in_bytes() {
    let source = Source::from_string("h\u{e9}llo\n\u{4e16}\u{754c}\n".to_string());
    assert_eq!(source.lines[0].length, 6);
    assert_eq!(source.lines[1].length, 6);
    assert_eq!(source.lines[0].chars, "h\u{e9}llo");
}

#[test]
fn sub_list_includes_both_ends() {
    let source = Source::from_string("a\nb\nc\nd\n".to_string());
    let lines = source.sub_list(1, 2).unwrap();
    assert_eq!(lines.len(), 2);
    assert_eq!(lines[0].chars, "b");
    assert_eq!(lines[1].chars, "c");
    assert_eq!(lines[0].line_number, 1);
    let one = source.sub_list(3, 3).unwrap();
    assert_eq!(one.len(), 1);
    assert_eq!(one[0].chars, "d");
    assert_eq!(source.sub_list(0, 3).unwrap().len(), 4);
}

#[test]
fn sub_list_of_a_reversed_range_is_empty() {
    let source = Source::from_string("a\nb\nc\nd\n".to_string());
    assert_eq!(source.sub_list(2, 1).unwrap().len(), 0);
}

#[test]
fn sub_list_beyond_the_source_is_a_range_error() {
    let source = Source::from_string("a\nb\nc\nd\n".to_string());
    assert_eq!(source.sub_list(1, 4).unwrap_err(), RangeError { from: 1, to: 4, line_count: 4 });
    assert_eq!(source.sub_list(4, 4).unwrap_err(), RangeError { from: 4, to: 4, line_count: 4 });
    assert_eq!(source.sub_list(9, 0).unwrap_err(), RangeError { from: 9, to: 0, line_count: 4 });
    let empty = Source::new(Vec::new());
    assert_eq!(empty.sub_list(0, 0).unwrap_err(), RangeError { from: 0, to: 0, line_count: 0 });
}

#[test]
fn new_keeps_the_lines_it_is_given() {
    let source = Source::new(vec![Line::new(7, 0, 1, "x".to_string())]);
    assert_eq!(source.line_count(), 1);
    assert_eq!(source.lines[0].line_number, 7);
    assert_eq!(source.clone().lines[0].chars, "x");
}
