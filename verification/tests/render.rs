use yakou::diagnostic::char_set::CharacterSet;
use yakou::diagnostic::color::{AnsiColor, Color};
use yakou::diagnostic::label::Label;
use yakou::diagnostic::layout::layout;
use yakou::diagnostic::render::{render, RenderOptions};
use yakou::diagnostic::report::Report;
use yakou::diagnostic::source::{RangeError, Source};
use yakou::diagnostic::span::Span;

fn sample() -> Source {
    Source::from_string(
        "zero line\nhello world\nsecond line\nthird\nfourth\nfifth\nsixth\nseventh\neighth\nninth\ntenth\neleventh\n"
            .to_string(),
    )
}

fn plain(report: &Report) -> String {
    render(report, &sample(), "test.yk", &RenderOptions::plain(CharacterSet::ascii())).unwrap()
}

fn rows(text: &str) -> Vec<String> {
    text.lines().map(|row| row.to_string()).collect()
}

#[test]
fn single_line_label_gets_underline_and_elbow() {
    let mut report = Report::error(Span::single_line(1, 0, 6), "msg".to_string());
    report.add_label(Label::new(Span::single_line(1, 0, 6), "test".to_string()));
    let text = plain(&report);
    assert_eq!(
        text,
        "[error] msg\n  ,-[test.yk:1:0]\n1|hello world\n *^^^|^^\n *   `---- test\n--'\n"
    );
    let rows = rows(&text);
    assert_eq!(rows[3].trim_start_matches(" *").chars().count(), 6);
    assert!(rows[4].ends_with("test"));
}

#[test]
fn report_without_labels_shows_its_lines_bare() {
    let report = Report::warning(Span::single_line(1, 0, 0), "msg".to_string());
    assert_eq!(plain(&report), "[warning] msg\n  ,-[test.yk:1:0]\n1|hello world\n--'\n");
    let wide = Report::warning(Span::range(1, 4), "msg".to_string());
    assert_eq!(
        plain(&wide),
        "[warning] msg\n  ,-[test.yk:1:0]\n1|hello world\n2|second line\n3|third\n4|fourth\n--'\n"
    );
}

#[test]
fn rightmost_label_gets_its_message_first() {
    let mut report = Report::error(Span::single_line(1, 0, 11), "msg".to_string());
    report.add_label(Label::new(Span::single_line(1, 6, 11), "right".to_string()));
    let mut left = Label::new(Span::single_line(1, 0, 4), "left".to_string());
    left.set_hint(Some("look".to_string()));
    report.add_label(left);
    assert_eq!(
        plain(&report),
        "[error] msg\n  ,-[test.yk:1:0]\n1|hello world\n *^^|^  ^^|^^\n *  |     `---- right\n *  |\n *  `---------- left\n *             !hint: look\n--'\n"
    );
}

#[test]
fn multi_line_label_keeps_its_lane_beside_a_single_line_label() {
    let mut report = Report::error(Span::range(2, 5), "msg".to_string());
    let mut outer = Label::new(Span::multiple_line(2, 0, 5, 3), "outer".to_string());
    outer.set_hint(Some("close it".to_string()));
    report.add_label(outer);
    report.add_label(Label::new(Span::single_line(3, 1, 3), "inner".to_string()));
    let text = plain(&report);
    assert_eq!(
        text,
        "[error] msg\n  ,-[test.yk:2:0]\n2|,--> second line\n3||    third\n *|     ^|\n *|      `-- inner\n4||    fourth\n5||--> fifth\n *|    \n *`--------- outer\n *          !hint: close it\n--'\n"
    );
    let rows = rows(&text);
    assert!(rows[2].starts_with("2|,"));
    assert!(rows[3].starts_with("3||"));
    assert!(rows[4].starts_with(" *|"));
    assert!(rows[5].starts_with(" *|"));
    assert!(rows[6].starts_with("4||"));
    assert!(rows[7].starts_with("5||-->"));
}

#[test]
fn lines_between_labels_collapse_into_one_ellipsis() {
    let mut report = Report::error(Span::range(1, 10), "msg".to_string());
    report.add_label(Label::new(Span::single_line(1, 0, 5), "first".to_string()));
    report.add_label(Label::new(Span::single_line(10, 0, 5), "last".to_string()));
    assert_eq!(
        plain(&report),
        "[error] msg\n   ,-[test.yk:1:0]\n 1|hello world\n  *^^|^^\n  *  `---- first\n 2|second line\n  :\n 9|ninth\n10|tenth\n  *^^|^^\n  *  `---- last\n---'\n"
    );
}

#[test]
fn a_gap_of_any_length_gives_exactly_one_ellipsis_row() {
    for last in [2usize, 3, 4, 5, 8, 9] {
        let mut report = Report::error(Span::range(0, last), "msg".to_string());
        report.add_label(Label::new(Span::single_line(0, 0, 4), "first".to_string()));
        let text = plain(&report);
        assert_eq!(
            text,
            "[error] msg\n  ,-[test.yk:0:0]\n0|zero line\n *^^|^\n *  `--- first\n1|hello world\n :\n--'\n"
        );
    }
    let mut report = Report::error(Span::range(0, 11), "msg".to_string());
    report.add_label(Label::new(Span::single_line(0, 0, 4), "first".to_string()));
    let text = plain(&report);
    let rows = rows(&text);
    assert_eq!(rows.iter().filter(|row| row.as_str() == "  :").count(), 1);
    assert_eq!(rows.len(), 8);
}

#[test]
fn a_gap_of_one_line_gives_one_ellipsis_row() {
    let mut report = Report::error(Span::range(0, 2), "msg".to_string());
    report.add_label(Label::new(Span::single_line(0, 0, 4), "first".to_string()));
    assert_eq!(
        plain(&report),
        "[error] msg\n  ,-[test.yk:0:0]\n0|zero line\n *^^|^\n *  `--- first\n1|hello world\n :\n--'\n"
    );
}

#[test]
fn two_labels_that_end_on_one_line_close_one_after_the_other() {
    let mut report = Report::error(Span::range(1, 4), "msg".to_string());
    report.add_label(Label::new(Span::multiple_line(1, 0, 4, 2), "a".to_string()));
    report.add_label(Label::new(Span::multiple_line(2, 3, 4, 4), "b".to_string()));
    assert_eq!(
        plain(&report),
        "[error] msg\n  ,-[test.yk:1:0]\n1|,----> hello world\n2|| ,--> second line\n3|| |    third\n4||----> fourth\n *| |    \n *`------------ a\n *  |    \n *  `---------- b\n--'\n"
    );
}

#[test]
fn colors_switch_on_and_off_around_styled_text() {
    let mut report = Report::error(Span::single_line(1, 0, 11), "msg".to_string());
    let mut label = Label::new(Span::single_line(1, 0, 5), "greeting".to_string());
    label.set_format(Some(Color::Ansi(AnsiColor::BrightCyan)));
    report.add_label(label);
    report.add_label(Label::new(Span::single_line(1, 6, 11), "planet".to_string()));
    let text =
        render(&report, &sample(), "test.yk", &RenderOptions::new(CharacterSet::unicode())).unwrap();
    assert_eq!(
        text,
        "\u{1b}[31m[error] \u{1b}[0mmsg\n\u{1b}[90m  ╭─[\u{1b}[0mtest.yk:1:0\u{1b}[90m]\u{1b}[0m\n\u{1b}[90m1│\u{1b}[0m\u{1b}[96mhello\u{1b}[0m \u{1b}[92mworld\u{1b}[0m\n\u{1b}[90m ·\u{1b}[0m\u{1b}[96m──┬──\u{1b}[0m \u{1b}[92m──┬──\u{1b}[0m\n\u{1b}[90m ·\u{1b}[0m  \u{1b}[96m│\u{1b}[0m     \u{1b}[92m╰────\u{1b}[0m planet\n\u{1b}[90m ·\u{1b}[0m  \u{1b}[96m│\u{1b}[0m\n\u{1b}[90m ·\u{1b}[0m  \u{1b}[96m╰──────────\u{1b}[0m greeting\n\u{1b}[90m──╯\u{1b}[0m\n"
    );
}

#[test]
fn warning_tag_is_yellow() {
    let report = Report::warning(Span::single_line(0, 0, 0), "careful".to_string());
    let text =
        render(&report, &sample(), "w", &RenderOptions::new(CharacterSet::ascii())).unwrap();
    assert_eq!(
        text,
        "\u{1b}[33m[warning] \u{1b}[0mcareful\n\u{1b}[90m  ,-[\u{1b}[0mw:0:0\u{1b}[90m]\u{1b}[0m\n\u{1b}[90m0|\u{1b}[0mzero line\n\u{1b}[90m--'\u{1b}[0m\n"
    );
}

#[test]
fn palette_rotates_over_labels_without_color() {
    let mut report = Report::error(Span::single_line(1, 0, 11), "msg".to_string());
    report.add_label(Label::new(Span::single_line(1, 0, 1), "a".to_string()));
    report.add_label(Label::new(Span::single_line(1, 2, 3), "b".to_string()));
    report.add_label(Label::new(Span::single_line(1, 4, 5), "c".to_string()));
    let options = RenderOptions {
        glyph_set: CharacterSet::ascii(),
        color_enabled: true,
        palette: vec![Color::Ansi256(200), Color::Rgb(1, 2, 3)],
    };
    let text = render(&report, &sample(), "p", &options).unwrap();
    let rows = rows(&text);
    assert_eq!(
        rows[2],
        "\u{1b}[90m1|\u{1b}[0m\u{1b}[38;5;200mh\u{1b}[0me\u{1b}[38;2;1;2;3ml\u{1b}[0ml\u{1b}[38;5;200mo\u{1b}[0m world"
    );
}

#[test]
fn labels_are_drawn_by_start_column_and_equal_columns_keep_their_order() {
    let mut report = Report::error(Span::single_line(1, 0, 11), "msg".to_string());
    report.add_label(Label::new(Span::single_line(1, 6, 8), "third".to_string()));
    report.add_label(Label::new(Span::single_line(1, 0, 2), "first".to_string()));
    report.add_label(Label::new(Span::single_line(1, 0, 4), "second".to_string()));
    let text = plain(&report);
    let rows = rows(&text);
    assert!(rows[4].ends_with(" third"));
    assert!(rows[6].ends_with(" second"));
    assert!(rows[8].ends_with(" first"));
    assert_eq!(rows.len(), 10);
}

#[test]
fn label_that_ends_before_it_starts_loses_its_underline_but_keeps_its_message() {
    let mut report = Report::error(Span::single_line(1, 0, 11), "msg".to_string());
    report.add_label(Label::new(Span::single_line(1, 7, 2), "broken".to_string()));
    assert_eq!(
        plain(&report),
        "[error] msg\n  ,-[test.yk:1:0]\n1|hello world\n *\n *       ` broken\n--'\n"
    );
}

#[test]
fn label_without_width_gets_an_empty_underline() {
    let mut report = Report::error(Span::single_line(1, 0, 11), "msg".to_string());
    report.add_label(Label::new(Span::single_line(1, 4, 4), "here".to_string()));
    assert_eq!(
        plain(&report),
        "[error] msg\n  ,-[test.yk:1:0]\n1|hello world\n *    \n *    `- here\n--'\n"
    );
}

#[test]
fn label_of_width_one_is_a_single_under_bar() {
    let mut report = Report::error(Span::single_line(1, 0, 11), "msg".to_string());
    report.add_label(Label::new(Span::single_line(1, 4, 5), "o".to_string()));
    assert_eq!(
        plain(&report),
        "[error] msg\n  ,-[test.yk:1:0]\n1|hello world\n *    |\n *    `-- o\n--'\n"
    );
}

#[test]
fn overlapping_labels_are_drawn_without_failing() {
    let mut report = Report::error(Span::single_line(1, 0, 11), "msg".to_string());
    report.add_label(Label::new(Span::single_line(1, 0, 8), "wide".to_string()));
    report.add_label(Label::new(Span::single_line(1, 2, 4), "narrow".to_string()));
    assert_eq!(
        plain(&report),
        "[error] msg\n  ,-[test.yk:1:0]\n1|hello world\n *^^^^|^^^^|\n *    |`---- narrow\n *    |\n *    `----- wide\n--'\n"
    );
}

#[test]
fn dominant_label_colors_the_text_it_covers() {
    let mut report = Report::error(Span::range(1, 3), "msg".to_string());
    let mut outer = Label::new(Span::multiple_line(1, 6, 3, 2), "outer".to_string());
    outer.set_format(Some(Color::Ansi(AnsiColor::Green)));
    report.add_label(outer);
    let mut inner = Label::new(Span::single_line(2, 0, 6), "inner".to_string());
    inner.set_format(Some(Color::Ansi(AnsiColor::Blue)));
    report.add_label(inner);
    let text =
        render(&report, &sample(), "d", &RenderOptions::new(CharacterSet::ascii())).unwrap();
    assert_eq!(
        text,
        "\u{1b}[31m[error] \u{1b}[0mmsg\n\u{1b}[90m  ,-[\u{1b}[0md:1:0\u{1b}[90m]\u{1b}[0m\n\u{1b}[90m1|\u{1b}[0m\u{1b}[32m,-->\u{1b}[0m hello \u{1b}[32mworld\u{1b}[0m\n\u{1b}[90m2|\u{1b}[0m\u{1b}[32m| \u{1b}[0m   \u{1b}[34msecond\u{1b}[0m\u{1b}[32m line\u{1b}[0m\n\u{1b}[90m *\u{1b}[0m\u{1b}[32m| \u{1b}[0m   \u{1b}[34m^^^|^^\u{1b}[0m\n\u{1b}[90m *\u{1b}[0m\u{1b}[32m| \u{1b}[0m      \u{1b}[34m`----\u{1b}[0m inner\n\u{1b}[90m3|\u{1b}[0m\u{1b}[32m|-->\u{1b}[0m \u{1b}[32mthird\u{1b}[0m\n\u{1b}[90m *\u{1b}[0m\u{1b}[32m| \u{1b}[0m   \n\u{1b}[90m *\u{1b}[0m\u{1b}[32m`--------\u{1b}[0m outer\n\u{1b}[90m--'\u{1b}[0m\n"
    );
}

#[test]
fn multi_line_label_that_starts_above_the_lines_shown_is_open_from_the_first_row() {
    let mut report = Report::error(Span::range(3, 4), "msg".to_string());
    report.add_label(Label::new(Span::multiple_line(1, 0, 4, 2), "late".to_string()));
    assert_eq!(
        plain(&report),
        "[error] msg\n  ,-[test.yk:3:0]\n3||    third\n4||--> fourth\n *|    \n *`-------- late\n--'\n"
    );
}

#[test]
fn range_beyond_the_source_is_an_error_and_nothing_is_drawn() {
    let report = Report::error(Span::range(3, 12), "msg".to_string());
    let options = RenderOptions::plain(CharacterSet::ascii());
    assert_eq!(
        render(&report, &sample(), "test.yk", &options),
        Err(RangeError { from: 3, to: 12, line_count: 12 })
    );
    assert_eq!(
        layout(&report, &sample(), "test.yk", CharacterSet::ascii(), &Vec::new()).unwrap_err(),
        RangeError { from: 3, to: 12, line_count: 12 }
    );
    let start = Report::error(Span::range(12, 1), "msg".to_string());
    assert_eq!(
        render(&start, &sample(), "test.yk", &options),
        Err(RangeError { from: 12, to: 1, line_count: 12 })
    );
}

#[test]
fn reversed_range_shows_no_line() {
    let report = Report::error(Span::range(5, 2), "msg".to_string());
    assert_eq!(plain(&report), "[error] msg\n  ,-[test.yk:5:0]\n--'\n");
}

#[test]
fn layout_gives_every_cell_its_color() {
    let mut report = Report::error(Span::single_line(1, 0, 5), "m".to_string());
    let mut label = Label::new(Span::single_line(1, 0, 5), "x".to_string());
    label.set_format(Some(Color::Rgb(9, 8, 7)));
    report.add_label(label);
    let cells = layout(&report, &sample(), "n", CharacterSet::ascii(), &Vec::new()).unwrap();
    let red = Some(Color::Ansi(AnsiColor::Red));
    assert_eq!(cells[0].glyph, '[');
    assert_eq!(cells[0].color, red);
    assert_eq!(cells[8].glyph, 'm');
    assert_eq!(cells[8].color, None);
    assert_eq!(cells[9].glyph, '\n');
    let text: String = cells.iter().map(|cell| cell.glyph).collect();
    assert_eq!(text, "[error] m\n  ,-[n:1:0]\n1|hello world\n *^^|^^\n *  `---- x\n--'\n");
    let line = text.find("hello").unwrap();
    assert_eq!(cells[line].color, Some(Color::Rgb(9, 8, 7)));
    assert_eq!(cells[line + 4].color, Some(Color::Rgb(9, 8, 7)));
    assert_eq!(cells[line + 5].color, None);
}
