//! A report as the text that a terminal shows.

use super::char_set::CharacterSet;
use super::color::{AnsiColor, Color};
use super::layout::{layout, spec_layout};
use super::line::LineView;
use super::paint::{paint, spec_paint};
use super::report::{Report, ReportView};
use super::source::{spec_sub_list, RangeError, Source};
use vstd::prelude::*;

verus! {

/// How a report is drawn: with which glyphs, with or without colours, and
/// with which colours for the labels that have none of their own.
#[derive(Debug)]
pub struct RenderOptions {
    pub glyph_set: CharacterSet,
    pub color_enabled: bool,
    pub palette: Vec<Color>,
}

/// The palette that is used where none is given: the bright colours but
/// black.
pub open spec fn spec_default_palette() -> Seq<Color> {
    seq![
        Color::Ansi(AnsiColor::BrightRed),
        Color::Ansi(AnsiColor::BrightGreen),
        Color::Ansi(AnsiColor::BrightYellow),
        Color::Ansi(AnsiColor::BrightBlue),
        Color::Ansi(AnsiColor::BrightMagenta),
        Color::Ansi(AnsiColor::BrightCyan),
        Color::Ansi(AnsiColor::BrightWhite),
    ]
}

/// The text of a report over the given lines.
pub open spec fn spec_render(
    report: ReportView,
    lines: Seq<LineView>,
    name: Seq<char>,
    glyphs: CharacterSet,
    colors: bool,
    palette: Seq<Color>,
) -> Seq<char> {
    spec_paint(spec_layout(report, lines, name, glyphs, palette), colors)
}

/// The palette that is used where none is given.
pub fn default_palette() -> (palette: Vec<Color>)
    ensures
        palette@ == spec_default_palette(),
{
    let mut palette: Vec<Color> = Vec::new();
    palette.push(Color::Ansi(AnsiColor::BrightRed));
    palette.push(Color::Ansi(AnsiColor::BrightGreen));
    palette.push(Color::Ansi(AnsiColor::BrightYellow));
    palette.push(Color::Ansi(AnsiColor::BrightBlue));
    palette.push(Color::Ansi(AnsiColor::BrightMagenta));
    palette.push(Color::Ansi(AnsiColor::BrightCyan));
    palette.push(Color::Ansi(AnsiColor::BrightWhite));
    assert(palette@ =~= spec_default_palette());
    palette
}

/// A copy of a palette.
pub fn copy_palette(palette: &Vec<Color>) -> (copy: Vec<Color>)
    ensures
        copy@ == palette@,
{
    let mut copy: Vec<Color> = Vec::new();
    let mut at: usize = 0;
    while at < palette.len()
        invariant
            at <= palette.len(),
            copy@ == palette@.take(at as int),
        decreases palette.len() - at,
    {
        copy.push(palette[at]);
        assert(palette@.take(at + 1) =~= palette@.take(at as int).push(palette@[at as int]));
        at += 1;
    }
    assert(palette@.take(at as int) =~= palette@);
    copy
}

impl Clone for RenderOptions {
    fn clone(&self) -> (copy: Self)
        ensures
            copy.glyph_set == self.glyph_set,
            copy.color_enabled == self.color_enabled,
            copy.palette@ == self.palette@,
    {
        RenderOptions {
            glyph_set: self.glyph_set,
            color_enabled: self.color_enabled,
            palette: copy_palette(&self.palette),
        }
    }
}

impl RenderOptions {
    /// Colours on, with the default palette.
    pub fn new(glyph_set: CharacterSet) -> (options: RenderOptions)
        ensures
            options.glyph_set == glyph_set,
            options.color_enabled,
            options.palette@ == spec_default_palette(),
    {
        RenderOptions { glyph_set, color_enabled: true, palette: default_palette() }
    }

    /// Colours off.
    pub fn plain(glyph_set: CharacterSet) -> (options: RenderOptions)
        ensures
            options.glyph_set == glyph_set,
            !options.color_enabled,
            options.palette@ == Seq::<Color>::empty(),
    {
        RenderOptions { glyph_set, color_enabled: false, palette: Vec::new() }
    }
}

/// Renders a report over the lines of the source that its span names: the
/// text of all its rows, each ended by a line feed. Fails, with no text at
/// all, where the source does not hold the first or the last of those lines;
/// a span that is malformed in any other way is drawn as far as it can be.
pub fn render(report: &Report, source: &Source, name: &str, options: &RenderOptions) -> (text:
    Result<String, RangeError>)
    ensures
        match text {
            Ok(shown) => {
                &&& report.common_span.start_position.line < source@.len()
                &&& report.common_span.end_position.line < source@.len()
                &&& shown@ == spec_render(
                    report@,
                    spec_sub_list(
                        source@,
                        report.common_span.start_position.line as int,
                        report.common_span.end_position.line as int,
                    ),
                    name@,
                    options.glyph_set,
                    options.color_enabled,
                    options.palette@,
                )
            },
            Err(error) => {
                &&& (report.common_span.start_position.line >= source@.len()
                    || report.common_span.end_position.line >= source@.len())
                &&& error == (RangeError {
                    from: report.common_span.start_position.line,
                    to: report.common_span.end_position.line,
                    line_count: source@.len() as usize,
                })
            },
        },
{
    match layout(report, source, name, options.glyph_set, &options.palette) {
        Ok(cells) => Ok(paint(&cells, options.color_enabled)),
        Err(error) => Err(error),
    }
}

} // verus!
