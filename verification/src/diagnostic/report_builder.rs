//! Builders that put reports together step by step, and render what they
//! hold.

use super::cell::{glyph_at, to_chars};
use super::char_set::CharacterSet;
use super::color::Color;
use super::label::{copy_text, Label};
use super::line::LineView;
use super::render::{
    copy_palette, default_palette, render, spec_default_palette, spec_render, RenderOptions,
};
use super::report::{spec_views, Report, ReportView};
use super::source::{spec_source, spec_sub_list, RangeError, Source};
use super::span::Span;
use vstd::prelude::*;
use vstd::string::StringExecFns;

verus! {

/// The reports on one source, how the source is named, and how the reports
/// are drawn. The source is either a file, known by its path, or a text that
/// the builder holds.
#[derive(Debug)]
pub struct FileReportBuilder {
    pub file_path: Option<String>,
    pub source_name: String,
    pub source: Option<String>,
    pub enable_color: bool,
    pub character_set: CharacterSet,
    pub palette: Vec<Color>,
    pub reports: Vec<Report>,
}

/// A report in the making, and the builder it goes to.
#[derive(Debug)]
pub struct ReportBuilder {
    pub parent_builder: FileReportBuilder,
    pub report: Report,
}

/// A label in the making, and the builder of the report it goes to.
#[derive(Debug)]
pub struct LabelBuilder {
    pub parent_builder: ReportBuilder,
    pub label: Label,
}

/// What a `FileReportBuilder` holds.
pub struct FileReportBuilderView {
    pub file_path: Option<Seq<char>>,
    pub source_name: Seq<char>,
    pub source: Option<Seq<char>>,
    pub enable_color: bool,
    pub character_set: CharacterSet,
    pub palette: Seq<Color>,
    pub reports: Seq<ReportView>,
}

/// What a `ReportBuilder` holds.
pub struct ReportBuilderView {
    pub parent_builder: FileReportBuilderView,
    pub report: ReportView,
}

/// What a `LabelBuilder` holds.
pub struct LabelBuilderView {
    pub parent_builder: ReportBuilderView,
    pub label: Label,
}

/// The characters of an optional text.
pub open spec fn spec_optional(text: Option<String>) -> Option<Seq<char>> {
    match text {
        Some(inner) => Some(inner@),
        None => None,
    }
}

/// A text that ends in a line feed: the text itself where it does, else the
/// text and a line feed.
pub open spec fn spec_terminated(text: Seq<char>) -> Seq<char> {
    if text.len() > 0 && text.last() == '\n' {
        text
    } else {
        text.push('\n')
    }
}

/// The name of a source that was given as a text.
pub open spec fn spec_unknown() -> Seq<char> {
    seq!['U', 'n', 'k', 'n', 'o', 'w', 'n']
}

/// Whether the source holds the first and the last line of a report.
pub open spec fn spec_in_range(report: ReportView, count: int) -> bool {
    report.common_span.start_position.line < count && report.common_span.end_position.line < count
}

/// The index of the first report from `at` on that names a line which the
/// source does not hold, or the number of reports where there is none.
pub open spec fn spec_first_failing(reports: Seq<ReportView>, count: int, at: int) -> int
    decreases reports.len() - at,
{
    if at < 0 || at >= reports.len() {
        reports.len() as int
    } else if !spec_in_range(reports[at], count) {
        at
    } else {
        spec_first_failing(reports, count, at + 1)
    }
}

/// The texts of the reports from `at` on, one after the other.
pub open spec fn spec_print(builder: FileReportBuilderView, lines: Seq<LineView>, at: int) -> Seq<char>
    decreases builder.reports.len() - at,
{
    if at < 0 || at >= builder.reports.len() {
        Seq::empty()
    } else {
        spec_render(
            builder.reports[at],
            spec_sub_list(
                lines,
                builder.reports[at].common_span.start_position.line as int,
                builder.reports[at].common_span.end_position.line as int,
            ),
            builder.source_name,
            builder.character_set,
            builder.enable_color,
            builder.palette,
        ) + spec_print(builder, lines, at + 1)
    }
}

/// What printing the reports of a builder over the given lines gives: the
/// texts of all reports, where the lines hold what every report names; else
/// the error of the first report that names a line which they do not hold.
pub open spec fn spec_printed(
    builder: FileReportBuilderView,
    lines: Seq<LineView>,
    text: Result<String, RangeError>,
) -> bool {
    let failing = spec_first_failing(builder.reports, lines.len() as int, 0);
    match text {
        Ok(shown) => failing == builder.reports.len() && shown@ == spec_print(builder, lines, 0),
        Err(error) => {
            &&& 0 <= failing < builder.reports.len()
            &&& error == (RangeError {
                from: builder.reports[failing].common_span.start_position.line,
                to: builder.reports[failing].common_span.end_position.line,
                line_count: lines.len() as usize,
            })
        },
    }
}

impl View for FileReportBuilder {
    type V = FileReportBuilderView;

    open spec fn view(&self) -> FileReportBuilderView {
        FileReportBuilderView {
            file_path: spec_optional(self.file_path),
            source_name: self.source_name@,
            source: spec_optional(self.source),
            enable_color: self.enable_color,
            character_set: self.character_set,
            palette: self.palette@,
            reports: spec_views(self.reports@),
        }
    }
}

impl View for ReportBuilder {
    type V = ReportBuilderView;

    open spec fn view(&self) -> ReportBuilderView {
        ReportBuilderView { parent_builder: self.parent_builder@, report: self.report@ }
    }
}

impl View for LabelBuilder {
    type V = LabelBuilderView;

    open spec fn view(&self) -> LabelBuilderView {
        LabelBuilderView { parent_builder: self.parent_builder@, label: self.label }
    }
}

/// A copy of a list of reports.
pub fn copy_reports(reports: &Vec<Report>) -> (copy: Vec<Report>)
    ensures
        spec_views(copy@) == spec_views(reports@),
{
    let mut copy: Vec<Report> = Vec::new();
    let mut at: usize = 0;
    while at < reports.len()
        invariant
            at <= reports.len(),
            copy@.len() == at,
            forall|i: int| 0 <= i < at ==> (#[trigger] copy@[i])@ == reports@[i]@,
        decreases reports.len() - at,
    {
        copy.push(reports[at].clone());
        at += 1;
    }
    assert(spec_views(copy@) =~= spec_views(reports@));
    copy
}

impl Clone for FileReportBuilder {
    fn clone(&self) -> (copy: Self)
        ensures
            copy@ == self@,
    {
        FileReportBuilder {
            file_path: copy_text(&self.file_path),
            source_name: self.source_name.clone(),
            source: copy_text(&self.source),
            enable_color: self.enable_color,
            character_set: self.character_set,
            palette: copy_palette(&self.palette),
            reports: copy_reports(&self.reports),
        }
    }
}

impl Clone for ReportBuilder {
    fn clone(&self) -> (copy: Self)
        ensures
            copy@ == self@,
    {
        ReportBuilder { parent_builder: self.parent_builder.clone(), report: self.report.clone() }
    }
}

impl Clone for LabelBuilder {
    fn clone(&self) -> (copy: Self)
        ensures
            copy@ == self@,
    {
        LabelBuilder { parent_builder: self.parent_builder.clone(), label: self.label.clone() }
    }
}

impl FileReportBuilder {
    /// A builder for the file at the given path, which also names the
    /// source. Unicode glyphs, colours on, the default palette, no reports.
    pub fn new_file(source_file: &str) -> (builder: FileReportBuilder)
        ensures
            builder@ == (FileReportBuilderView {
                file_path: Some(source_file@),
                source_name: source_file@,
                source: None,
                enable_color: true,
                character_set: CharacterSet::spec_unicode(),
                palette: spec_default_palette(),
                reports: Seq::empty(),
            }),
    {
        let builder = FileReportBuilder {
            file_path: Some(String::from_str(source_file)),
            source_name: String::from_str(source_file),
            source: None,
            enable_color: true,
            character_set: CharacterSet::unicode(),
            palette: default_palette(),
            reports: Vec::new(),
        };
        assert(builder@.reports =~= Seq::empty());
        builder
    }

    /// A builder for a source given as a text, named `Unknown`. The text gets
    /// a line feed at its end where it has none.
    pub fn new_source(source: String) -> (builder: FileReportBuilder)
        ensures
            builder@ == (FileReportBuilderView {
                file_path: None,
                source_name: spec_unknown(),
                source: Some(spec_terminated(source@)),
                enable_color: true,
                character_set: CharacterSet::spec_unicode(),
                palette: spec_default_palette(),
                reports: Seq::empty(),
            }),
    {
        let chars = to_chars(source.as_str());
        let count: usize = chars.len();
        let mut text = source;
        if !(count > 0 && glyph_at(&chars, count - 1) == '\n') {
            text.push('\n');
        }
        proof {
            reveal_strlit("Unknown");
            assert("Unknown"@ =~= spec_unknown());
        }
        let builder = FileReportBuilder {
            file_path: None,
            source_name: String::from_str("Unknown"),
            source: Some(text),
            enable_color: true,
            character_set: CharacterSet::unicode(),
            palette: default_palette(),
            reports: Vec::new(),
        };
        assert(builder@.reports =~= Seq::empty());
        builder
    }

    /// The same as `new_file`.
    pub fn source_file(source_file: &str) -> (builder: FileReportBuilder)
        ensures
            builder@ == (FileReportBuilderView {
                file_path: Some(source_file@),
                source_name: source_file@,
                source: None,
                enable_color: true,
                character_set: CharacterSet::spec_unicode(),
                palette: spec_default_palette(),
                reports: Seq::empty(),
            }),
    {
        FileReportBuilder::new_file(source_file)
    }

    /// The same as `new_source`.
    pub fn source(source: String) -> (builder: FileReportBuilder)
        ensures
            builder@ == (FileReportBuilderView {
                file_path: None,
                source_name: spec_unknown(),
                source: Some(spec_terminated(source@)),
                enable_color: true,
                character_set: CharacterSet::spec_unicode(),
                palette: spec_default_palette(),
                reports: Seq::empty(),
            }),
    {
        FileReportBuilder::new_source(source)
    }

    /// The lines of the text that the builder holds; `None` where its source
    /// is a file.
    pub fn source_lines(&self) -> (lines: Option<Source>)
        ensures
            match lines {
                Some(split) => self@.source is Some && split.wf() && split@ == spec_source(
                    self@.source->0,
                ),
                None => self@.source is None,
            },
    {
        match &self.source {
            Some(text) => Some(Source::from_string(text.clone())),
            None => None,
        }
    }

    /// Renders the reports of the builder over the lines of the source, in
    /// the order in which they were built, one after the other. Fails, with
    /// no text, where a report names a line that the source does not hold:
    /// the error is that of the first such report.
    pub fn print(&self, source: &Source) -> (text: Result<String, RangeError>)
        ensures
            spec_printed(self@, source@, text),
    {
        let ghost count = source@.len() as int;
        let mut text = String::new();
        let mut at: usize = 0;
        assert(text@ + spec_print(self@, source@, 0) =~= spec_print(self@, source@, 0));
        while at < self.reports.len()
            invariant
                at <= self.reports.len(),
                count == source@.len(),
                self@.reports.len() == self.reports@.len(),
                spec_first_failing(self@.reports, count, at as int) == spec_first_failing(
                    self@.reports,
                    count,
                    0,
                ),
                text@ + spec_print(self@, source@, at as int) == spec_print(
                    self@,
                    source@,
                    0,
                ),
            decreases self.reports.len() - at,
        {
            let ghost before = text@;
            let ghost rest = spec_print(self@, source@, at as int);
            assert(self@.reports[at as int] == self.reports@[at as int]@);
            let options = RenderOptions {
                glyph_set: self.character_set,
                color_enabled: self.enable_color,
                palette: copy_palette(&self.palette),
            };
            match render(&self.reports[at], source, self.source_name.as_str(), &options) {
                Ok(shown) => {
                    text.append(shown.as_str());
                    assert(text@ + spec_print(self@, source@, at + 1) =~= before + rest);
                },
                Err(error) => {
                    return Err(error);
                },
            }
            at += 1;
        }
        Ok(text)
    }

    /// Renders the reports over the lines of the text that the builder
    /// holds; `None` where its source is a file.
    pub fn print_source(&self) -> (text: Option<Result<String, RangeError>>)
        ensures
            match text {
                Some(printed) => self@.source is Some && spec_printed(
                    self@,
                    spec_source(self@.source->0),
                    printed,
                ),
                None => self@.source is None,
            },
    {
        match self.source_lines() {
            Some(lines) => {
                Some(self.print(&lines))
            },
            None => None,
        }
    }

    /// Starts an error report on this source.
    pub fn error(&mut self, span: Span, message: String) -> (builder: ReportBuilder)
        ensures
            final(self)@ == old(self)@,
            builder@ == (ReportBuilderView {
                parent_builder: old(self)@,
                report: ReportView {
                    tag: "error"@,
                    common_span: span,
                    labels: Seq::<Label>::empty(),
                    report_type: super::report::ReportType::Error,
                    message: message@,
                },
            }),
    {
        ReportBuilder::new(self.clone(), Report::error(span, message))
    }

    /// Starts a warning on this source.
    pub fn warning(&mut self, span: Span, message: String) -> (builder: ReportBuilder)
        ensures
            final(self)@ == old(self)@,
            builder@ == (ReportBuilderView {
                parent_builder: old(self)@,
                report: ReportView {
                    tag: "warning"@,
                    common_span: span,
                    labels: Seq::<Label>::empty(),
                    report_type: super::report::ReportType::Warning,
                    message: message@,
                },
            }),
    {
        ReportBuilder::new(self.clone(), Report::warning(span, message))
    }

    /// Names the source, and returns a copy of the builder.
    pub fn source_name(&mut self, source_name: String) -> (builder: FileReportBuilder)
        ensures
            final(self)@ == (FileReportBuilderView { source_name: source_name@, ..old(self)@ }),
            builder@ == final(self)@,
    {
        self.source_name = source_name;
        self.clone()
    }

    /// Chooses the glyphs, and returns a copy of the builder.
    pub fn character_set(&mut self, character_set: CharacterSet) -> (builder: FileReportBuilder)
        ensures
            final(self)@ == (FileReportBuilderView { character_set, ..old(self)@ }),
            builder@ == final(self)@,
    {
        self.character_set = character_set;
        self.clone()
    }

    /// Switches the colours on or off, and returns a copy of the builder.
    pub fn color(&mut self, enable_color: bool) -> (builder: FileReportBuilder)
        ensures
            final(self)@ == (FileReportBuilderView { enable_color, ..old(self)@ }),
            builder@ == final(self)@,
    {
        self.enable_color = enable_color;
        self.clone()
    }

    /// Sets the colours for labels that have none of their own, and returns
    /// a copy of the builder.
    pub fn palette(&mut self, palette: Vec<Color>) -> (builder: FileReportBuilder)
        ensures
            final(self)@ == (FileReportBuilderView { palette: palette@, ..old(self)@ }),
            builder@ == final(self)@,
    {
        self.palette = palette;
        self.clone()
    }
}

impl ReportBuilder {
    pub fn new(parent_builder: FileReportBuilder, report: Report) -> (builder: ReportBuilder)
        ensures
            builder.parent_builder == parent_builder,
            builder.report == report,
    {
        ReportBuilder { parent_builder, report }
    }

    /// Sets the tag of the report, and returns a copy of the builder.
    pub fn tag(&mut self, tag: String) -> (builder: ReportBuilder)
        ensures
            final(self)@ == (ReportBuilderView {
                report: ReportView { tag: tag@, ..old(self)@.report },
                ..old(self)@
            }),
            builder@ == final(self)@,
    {
        self.report.tag = tag;
        self.clone()
    }

    /// Starts a label of the report.
    pub fn label(&mut self, span: Span, message: String) -> (builder: LabelBuilder)
        ensures
            final(self)@ == old(self)@,
            builder@ == (LabelBuilderView {
                parent_builder: old(self)@,
                label: Label { format: None, span, message, hint: None },
            }),
    {
        LabelBuilder::new(self, Label::new(span, message))
    }

    /// Adds the report to the builder of the source, behind the reports that
    /// it holds, and returns a copy of that builder.
    pub fn build(&mut self) -> (builder: FileReportBuilder)
        ensures
            final(self)@ == (ReportBuilderView {
                parent_builder: FileReportBuilderView {
                    reports: old(self)@.parent_builder.reports.push(old(self)@.report),
                    ..old(self)@.parent_builder
                },
                ..old(self)@
            }),
            builder@ == final(self)@.parent_builder,
    {
        let ghost before = self.parent_builder.reports@;
        let report = self.report.clone();
        self.parent_builder.reports.push(report);
        assert(spec_views(self.parent_builder.reports@) =~= spec_views(before).push(report@));
        self.parent_builder.clone()
    }
}

impl LabelBuilder {
    pub fn new(parent_builder: &ReportBuilder, label: Label) -> (builder: LabelBuilder)
        ensures
            builder@ == (LabelBuilderView { parent_builder: parent_builder@, label }),
    {
        LabelBuilder { parent_builder: parent_builder.clone(), label }
    }

    /// Gives the label a colour, and returns a copy of the builder.
    pub fn color(&mut self, color: Color) -> (builder: LabelBuilder)
        ensures
            final(self)@ == (LabelBuilderView {
                label: Label { format: Some(color), ..old(self)@.label },
                ..old(self)@
            }),
            builder@ == final(self)@,
    {
        self.label.format = Some(color);
        self.clone()
    }

    /// Gives the label a hint, and returns a copy of the builder.
    pub fn hint(&mut self, hint: String) -> (builder: LabelBuilder)
        ensures
            final(self)@ == (LabelBuilderView {
                label: Label { hint: Some(hint), ..old(self)@.label },
                ..old(self)@
            }),
            builder@ == final(self)@,
    {
        self.label.hint = Some(hint);
        self.clone()
    }

    /// Adds the label to the report, behind the labels that it has, and
    /// returns a copy of the builder of the report.
    pub fn build(&mut self) -> (builder: ReportBuilder)
        ensures
            final(self)@ == (LabelBuilderView {
                parent_builder: ReportBuilderView {
                    report: ReportView {
                        labels: old(self)@.parent_builder.report.labels.push(old(self)@.label),
                        ..old(self)@.parent_builder.report
                    },
                    ..old(self)@.parent_builder
                },
                ..old(self)@
            }),
            builder@ == final(self)@.parent_builder,
    {
        let label = self.label.clone();
        self.parent_builder.report.labels.push(label);
        self.parent_builder.clone()
    }
}

} // verus!
