use yakou::diagnostic::char_set::CharacterSet;
use yakou::diagnostic::label::Label;
use yakou::diagnostic::line::Line;
use yakou::diagnostic::render::{render, RenderOptions};
use yakou::diagnostic::report::Report;
use yakou::diagnostic::source::Source;
use yakou::diagnostic::span::Span;

fn sample() -> Source {
    Source::from_string("alpha\nbeta\ngamma\ndelta\nepsilon\nzeta\neta\ntheta\n".to_string())
}

fn ascii(report: &Report) -> String {
    render(report, &sample(), "s", &RenderOptions::plain(CharacterSet::ascii())).unwrap()
}

fn unicode(report: &Report) -> String {
    render(report, &sample(), "s", &RenderOptions::plain(CharacterSet::unicode())).unwrap()
}

#[test]
fn unicode_glyphs_frame_a_multi_line_label() {
    let mut report = Report::error(Span::range(2, 5), "msg".to_string());
    report.add_label(Label::new(Span::multiple_line(2, 0, 5, 3), "outer".to_string()));
    report.add_label(Label::new(Span::single_line(3, 1, 3), "inner".to_string()));
    assert_eq!(
        unicode(&report),
        "[error] msg\n  ╭─[s:2:0]\n2│╭──▶ gamma\n3││    delta\n ·│     ─┬\n ·│      ╰── inner\n4││    epsilon\n5│├──▶ zeta\n ·│    \n ·╰───────── outer\n──╯\n"
    );
}

#[test]
fn label_outside_the_lines_shown_leaves_an_ellipsis() {
    let mut report = Report::error(Span::range(1, 2), "msg".to_string());
    report.add_label(Label::new(Span::multiple_line(6, 0, 7, 2), "far".to_string()));
    assert_eq!(
        ascii(&report),
        "[error] msg\n  ,-[s:1:0]\n :     \n--'\n"
    );
}

#[test]
fn multi_line_label_that_ends_before_it_starts_is_never_open() {
    let mut report = Report::error(Span::range(1, 3), "msg".to_string());
    report.add_label(Label::new(Span::multiple_line(3, 0, 1, 2), "backwards".to_string()));
    assert_eq!(
        ascii(&report),
        "[error] msg\n  ,-[s:1:0]\n1|     beta\n2|     gamma\n3|     delta\n--'\n"
    );
}

#[test]
fn line_numbers_are_right_aligned_in_the_gutter() {
    let mut lines = Vec::new();
    for number in [8usize, 9, 10, 11] {
        lines.push(Line::new(number, 0, 1, "x".to_string()));
    }
    let source = Source::new(lines);
    let report = Report::warning(Span::range(0, 3), "msg".to_string());
    let text = render(&report, &source, "s", &RenderOptions::plain(CharacterSet::ascii())).unwrap();
    assert_eq!(text, "[warning] msg\n  ,-[s:0:0]\n8|x\n9|x\n10|x\n11|x\n--'\n");
    let wide = Report::warning(Span::range(0, 10), "msg".to_string());
    let source = Source::from_string("a\nb\nc\nd\ne\nf\ng\nh\ni\nj\nk\n".to_string());
    let text = render(&wide, &source, "s", &RenderOptions::plain(CharacterSet::ascii())).unwrap();
    assert!(text.contains("\n 9|j\n10|k\n"));
    assert!(text.starts_with("[warning] msg\n   ,-[s:0:0]\n 0|a\n"));
    assert!(text.ends_with("\n---'\n"));
}

#[test]
fn label_on_the_first_line_has_no_line_before_it() {
    let mut report = Report::error(Span::range(0, 3), "msg".to_string());
    report.add_label(Label::new(Span::single_line(0, 1, 4), "lph".to_string()));
    assert_eq!(
        ascii(&report),
        "[error] msg\n  ,-[s:0:0]\n0|alpha\n * ^|^\n *  `--- lph\n1|beta\n :\n--'\n"
    );
}

#[test]
fn hint_of_a_multi_line_label_follows_its_message() {
    let mut report = Report::error(Span::range(0, 1), "msg".to_string());
    let mut label = Label::new(Span::multiple_line(0, 2, 1, 4), "both".to_string());
    label.set_hint(Some("join them".to_string()));
    report.add_label(label);
    assert_eq!(
        ascii(&report),
        "[error] msg\n  ,-[s:0:0]\n0|,--> alpha\n1||--> beta\n *|    \n *`---------- both\n *           !hint: join them\n--'\n"
    );
}

#[test]
fn text_with_wide_characters_is_counted_in_characters() {
    let source = Source::from_string("h\u{e9}llo w\u{f6}rld\n".to_string());
    let mut report = Report::error(Span::single_line(0, 6, 11), "msg".to_string());
    report.add_label(Label::new(Span::single_line(0, 6, 11), "w".to_string()));
    let text = render(&report, &source, "s", &RenderOptions::plain(CharacterSet::ascii())).unwrap();
    assert_eq!(
        text,
        "[error] msg\n  ,-[s:0:6]\n0|héllo wörld\n *      ^^|^^\n *        `---- w\n--'\n"
    );
}

#[test]
fn empty_line_is_shown_empty() {
    let source = Source::from_string("a\n\nb\n".to_string());
    let mut report = Report::error(Span::range(0, 2), "msg".to_string());
    report.add_label(Label::new(Span::single_line(1, 0, 0), "blank".to_string()));
    let text = render(&report, &source, "s", &RenderOptions::plain(CharacterSet::ascii())).unwrap();
    assert_eq!(
        text,
        "[error] msg\n  ,-[s:0:0]\n0|a\n1|\n *\n *`- blank\n2|b\n--'\n"
    );
}

fn strip(text: &str) -> String {
    let mut plain = String::new();
    let mut inside = false;
    for glyph in text.chars() {
        if inside {
            if glyph == 'm' {
                inside = false;
            }
        } else if glyph == '\u{1b}' {
            inside = true;
        } else {
            plain.push(glyph);
        }
    }
    plain
}

fn busy() -> Report {
    let mut report = Report::error(Span::range(0, 7), "busy".to_string());
    let mut outer = Label::new(Span::multiple_line(1, 2, 6, 1), "outer".to_string());
    outer.set_hint(Some("outer hint".to_string()));
    report.add_label(outer);
    report.add_label(Label::new(Span::multiple_line(2, 0, 6, 3), "second".to_string()));
    report.add_label(Label::new(Span::single_line(2, 1, 4), "amm".to_string()));
    let mut hinted = Label::new(Span::single_line(2, 0, 1), "g".to_string());
    hinted.set_hint(Some("first letter".to_string()));
    report.add_label(hinted);
    report.add_label(Label::new(Span::single_line(6, 0, 3), "eta".to_string()));
    report
}

#[test]
fn colors_change_nothing_but_the_escape_sequences() {
    let report = busy();
    let colored =
        render(&report, &sample(), "s", &RenderOptions::new(CharacterSet::unicode())).unwrap();
    assert_ne!(colored, unicode(&report));
    assert_eq!(strip(&colored), unicode(&report));
}

#[test]
fn every_row_of_a_busy_report_is_drawn() {
    assert_eq!(
        ascii(&busy()),
        "[error] busy\n  ,-[s:0:0]\n0|       alpha\n1|  ,--> beta\n2|,----> gamma\n *| |    |^|^\n *| |    | `--- amm\n *| |    |\n *| |    `----- g\n *| |          !hint: first letter\n3|| |    delta\n4|| |    epsilon\n5|| |    zeta\n6||----> eta\n *| |    ^|^\n *| |     `--- eta\n *| |    \n *`----------- second\n *  |    \n *  `--------- outer\n *            !hint: outer hint\n7|       theta\n--'\n"
    );
}

#[test]
fn label_right_of_the_text_is_still_underlined() {
    let mut report = Report::error(Span::single_line(0, 0, 5), "msg".to_string());
    report.add_label(Label::new(Span::single_line(0, 7, 9), "beyond".to_string()));
    assert_eq!(
        ascii(&report),
        "[error] msg\n  ,-[s:0:0]\n0|alpha\n *       ^|\n *        `-- beyond\n--'\n"
    );
}
