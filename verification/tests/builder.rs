use yakou::diagnostic::char_set::CharacterSet;
use yakou::diagnostic::color::{AnsiColor, Color};
use yakou::diagnostic::label::Label;
use yakou::diagnostic::render::{default_palette, RenderOptions};
use yakou::diagnostic::report::{Report, ReportType};
use yakou::diagnostic::report_builder::{FileReportBuilder, LabelBuilder, ReportBuilder};
use yakou::diagnostic::source::{RangeError, Source};
use yakou::diagnostic::span::Span;

#[test]
fn label_new_has_no_hint_and_no_color() {
    let label = Label::new(Span::single_line(1, 2, 3), "m".to_string());
    assert_eq!(label.format, None);
    assert_eq!(label.hint, None);
    assert_eq!(label.message, "m");
    assert_eq!(label.span, Span::single_line(1, 2, 3));
    assert!(!label.is_multiline());
    assert!(label.is_in(1));
    assert!(!label.is_in(2));
    assert!(Label::new(Span::range(1, 3), String::new()).is_multiline());
}

#[test]
fn label_setters_change_one_field_and_return_a_copy() {
    let mut label = Label::new(Span::single_line(1, 2, 3), "m".to_string());
    let copy = label.set_hint(Some("h".to_string()));
    assert_eq!(copy, label);
    assert_eq!(label.hint, Some("h".to_string()));
    let copy = label.set_format(Some(Color::Ansi256(3)));
    assert_eq!(copy, label);
    assert_eq!(label.format, Some(Color::Ansi256(3)));
    assert_eq!(label.hint, Some("h".to_string()));
    label.set_hint(None);
    assert_eq!(label.hint, None);
    assert_eq!(label.message, "m");
}

#[test]
fn report_constructors_set_tag_and_kind() {
    let error = Report::error(Span::range(1, 2), "bad".to_string());
    assert_eq!(error.tag, "error");
    assert_eq!(error.report_type, ReportType::Error);
    assert_eq!(error.message, "bad");
    assert_eq!(error.common_span, Span::range(1, 2));
    assert!(error.labels.is_empty());
    let warning = Report::warning(Span::range(1, 2), "hm".to_string());
    assert_eq!(warning.tag, "warning");
    assert_eq!(warning.report_type, ReportType::Warning);
    let bare = Report::new(None, Span::range(0, 0), ReportType::Warning, "x".to_string());
    assert_eq!(bare.tag, "");
    let tagged = Report::new(Some("E7".to_string()), Span::range(0, 0), ReportType::Error, "x".to_string());
    assert_eq!(tagged.tag, "E7");
}

#[test]
fn add_label_appends() {
    let mut report = Report::error(Span::range(1, 2), "bad".to_string());
    report.add_label(Label::new(Span::single_line(1, 0, 1), "a".to_string()));
    report.add_label(Label::new(Span::single_line(2, 0, 1), "b".to_string()));
    assert_eq!(report.labels.len(), 2);
    assert_eq!(report.labels[0].message, "a");
    assert_eq!(report.labels[1].message, "b");
    assert_eq!(report.clone().labels, report.labels);
}

#[test]
fn file_builder_starts_with_unicode_and_colors() {
    let builder = FileReportBuilder::new_file("src/main.yk");
    assert_eq!(builder.file_path, Some("src/main.yk".to_string()));
    assert_eq!(builder.source_name, "src/main.yk");
    assert_eq!(builder.source, None);
    assert!(builder.enable_color);
    assert_eq!(builder.character_set, CharacterSet::unicode());
    assert_eq!(builder.palette, default_palette());
    assert!(builder.reports.is_empty());
    assert!(builder.source_lines().is_none());
    assert!(builder.print_source().is_none());
    assert_eq!(FileReportBuilder::source_file("a").source_name, "a");
}

#[test]
fn source_builder_ends_its_text_with_a_line_feed() {
    assert_eq!(FileReportBuilder::new_source("a\nb".to_string()).source, Some("a\nb\n".to_string()));
    assert_eq!(FileReportBuilder::new_source("a\nb\n".to_string()).source, Some("a\nb\n".to_string()));
    assert_eq!(FileReportBuilder::source(String::new()).source, Some("\n".to_string()));
    let builder = FileReportBuilder::source("x".to_string());
    assert_eq!(builder.source_name, "Unknown");
    assert_eq!(builder.file_path, None);
    assert_eq!(builder.source_lines().unwrap().line_count(), 1);
}

#[test]
fn builders_collect_labels_and_reports() {
    let builder = FileReportBuilder::source("let a = 1;\nlet b = a;\n".to_string())
        .character_set(CharacterSet::ascii())
        .color(false)
        .source_name("demo".to_string())
        .error(Span::single_line(1, 0, 9), "unused".to_string())
        .tag("E01".to_string())
        .label(Span::single_line(1, 4, 5), "never read".to_string())
        .color(Color::Ansi(AnsiColor::BrightCyan))
        .hint("remove it".to_string())
        .build()
        .label(Span::single_line(1, 8, 9), "copied here".to_string())
        .build()
        .build();
    assert_eq!(builder.reports.len(), 1);
    let report = &builder.reports[0];
    assert_eq!(report.tag, "E01");
    assert_eq!(report.labels.len(), 2);
    assert_eq!(report.labels[0].format, Some(Color::Ansi(AnsiColor::BrightCyan)));
    assert_eq!(report.labels[0].hint, Some("remove it".to_string()));
    assert_eq!(report.labels[1].message, "copied here");
    assert_eq!(
        builder.print_source().unwrap().unwrap(),
        "[E01] unused\n  ,-[demo:1:0]\n1|let b = a;\n *    |   |\n *    |   `-- copied here\n *    |\n *    `------ never read\n *           !hint: remove it\n--'\n"
    );
}

#[test]
fn print_renders_every_report_in_order() {
    let source = Source::from_string("one\ntwo\nthree\n".to_string());
    let builder = FileReportBuilder::new_file("f.yk")
        .character_set(CharacterSet::ascii())
        .palette(Vec::new())
        .color(false)
        .warning(Span::single_line(0, 0, 0), "first".to_string())
        .build()
        .error(Span::single_line(2, 0, 0), "second".to_string())
        .build();
    assert_eq!(
        builder.print(&source).unwrap(),
        "[warning] first\n  ,-[f.yk:0:0]\n0|one\n--'\n[error] second\n  ,-[f.yk:2:0]\n2|three\n--'\n"
    );
    assert_eq!(FileReportBuilder::new_file("f.yk").print(&source).unwrap(), "");
}

#[test]
fn print_fails_with_the_first_report_out_of_range() {
    let source = Source::from_string("one\ntwo\nthree\n".to_string());
    let builder = FileReportBuilder::new_file("f.yk")
        .error(Span::single_line(0, 0, 0), "fine".to_string())
        .build()
        .error(Span::range(1, 3), "too far".to_string())
        .build()
        .error(Span::range(7, 9), "further".to_string())
        .build();
    assert_eq!(builder.print(&source), Err(RangeError { from: 1, to: 3, line_count: 3 }));
}

#[test]
fn nested_builders_keep_their_parents() {
    let parent = FileReportBuilder::new_file("p");
    let report = ReportBuilder::new(parent.clone(), Report::warning(Span::range(0, 0), "w".to_string()));
    assert_eq!(report.parent_builder.source_name, "p");
    assert_eq!(report.report.message, "w");
    let label = LabelBuilder::new(&report, Label::new(Span::range(0, 0), "l".to_string()));
    assert_eq!(label.parent_builder.report.message, "w");
    assert_eq!(label.label.message, "l");
    assert_eq!(label.clone().label, label.label);
}

#[test]
fn options_choose_colors_and_palette() {
    let colored = RenderOptions::new(CharacterSet::ascii());
    assert!(colored.color_enabled);
    assert_eq!(colored.palette.len(), 7);
    assert_eq!(colored.palette[0], Color::Ansi(AnsiColor::BrightRed));
    assert_eq!(colored.palette[6], Color::Ansi(AnsiColor::BrightWhite));
    let plain = RenderOptions::plain(CharacterSet::unicode());
    assert!(!plain.color_enabled);
    assert!(plain.palette.is_empty());
    assert_eq!(plain.clone().glyph_set, CharacterSet::unicode());
}
