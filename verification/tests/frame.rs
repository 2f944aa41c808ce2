use yakou::diagnostic::char_set::CharacterSet;
use yakou::diagnostic::label::Label;
use yakou::diagnostic::layout::{push_footer, push_header, push_location};
use yakou::diagnostic::paint::paint;
use yakou::diagnostic::position::Position;
use yakou::diagnostic::render::{render, RenderOptions};
use yakou::diagnostic::report::Report;
use yakou::diagnostic::report_builder::FileReportBuilder;
use yakou::diagnostic::source::Source;
use yakou::diagnostic::span::Span;

#[test]
fn location_row_puts_the_corner_one_column_right_of_the_bars() {
    let mut cells = Vec::new();
    push_location(&mut cells, "Unknown", Position::new(1, 0), &CharacterSet::unicode(), 1);
    assert_eq!(paint(&cells, false), "  ╭─[Unknown:1:0]\n");
    assert_eq!(
        paint(&cells, true),
        "\u{1b}[90m  ╭─[\u{1b}[0mUnknown:1:0\u{1b}[90m]\u{1b}[0m\n"
    );
}

#[test]
fn location_row_grows_with_the_width_of_the_line_numbers() {
    let mut cells = Vec::new();
    push_location(&mut cells, "a.yk", Position::new(120, 37), &CharacterSet::ascii(), 3);
    assert_eq!(paint(&cells, false), "    ,-[a.yk:120:37]\n");
}

#[test]
fn footer_row_ends_below_the_top_corner() {
    let mut cells = Vec::new();
    push_footer(&mut cells, &CharacterSet::unicode(), 1);
    assert_eq!(paint(&cells, false), "──╯\n");
    let mut wide = Vec::new();
    push_footer(&mut wide, &CharacterSet::ascii(), 3);
    assert_eq!(paint(&wide, false), "----'\n");
    assert_eq!(paint(&wide, true), "\u{1b}[90m----'\u{1b}[0m\n");
}

#[test]
fn header_row_colors_the_tag_only() {
    let mut cells = Vec::new();
    push_header(&mut cells, &Report::error(Span::range(0, 0), "went wrong".to_string()));
    assert_eq!(paint(&cells, false), "[error] went wrong\n");
    assert_eq!(paint(&cells, true), "\u{1b}[31m[error] \u{1b}[0mwent wrong\n");
}

#[test]
fn frame_of_a_source_given_as_text_names_it_unknown() {
    let text = FileReportBuilder::source("first\nsecond\n".to_string())
        .color(false)
        .error(Span::single_line(1, 0, 6), "msg".to_string())
        .build()
        .print_source()
        .unwrap()
        .unwrap();
    assert_eq!(text, "[error] msg\n  ╭─[Unknown:1:0]\n1│second\n──╯\n");
}

#[test]
fn line_numbers_of_three_digits_widen_every_row() {
    let mut text = String::new();
    for number in 0..101 {
        text.push_str(&format!("line {}\n", number));
    }
    let source = Source::from_string(text);
    assert_eq!(source.line_count(), 101);
    let mut report = Report::error(Span::range(99, 100), "msg".to_string());
    report.add_label(Label::new(Span::single_line(100, 0, 4), "last".to_string()));
    let shown =
        render(&report, &source, "big", &RenderOptions::plain(CharacterSet::ascii())).unwrap();
    assert_eq!(
        shown,
        "[error] msg\n    ,-[big:99:0]\n 99|line 99\n100|line 100\n   *^^|^\n   *  `--- last\n----'\n"
    );
    let narrow = Report::error(Span::range(9, 10), "msg".to_string());
    let shown =
        render(&narrow, &source, "big", &RenderOptions::plain(CharacterSet::ascii())).unwrap();
    assert_eq!(shown, "[error] msg\n   ,-[big:9:0]\n 9|line 9\n10|line 10\n---'\n");
}
