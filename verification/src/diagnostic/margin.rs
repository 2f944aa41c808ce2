//! The left margin of a row: the line number and the lanes of the labels
//! that run over several lines.

use super::cell::{
    lemma_repeat_step, push_chars, push_glyph, push_repeat, spec_blank, spec_cell, spec_repeat,
    spec_styled, Cell,
};
use super::char_set::CharacterSet;
use super::color::{AnsiColor, Color};
use super::decimal::{
    decimal, digit_count, lemma_decimal_len, lemma_digit_count_monotonic, spec_decimal,
    spec_digit_count,
};
use super::label::Label;
use super::span::Span;
use vstd::prelude::*;

verus! {

/// The colour of the frame: line numbers, bars and corners of the margin.
pub open spec fn spec_frame_color() -> Option<Color> {
    Some(Color::Ansi(AnsiColor::BrightBlack))
}

/// The colour of hints.
pub open spec fn spec_hint_color() -> Option<Color> {
    Some(Color::Ansi(AnsiColor::BrightBlue))
}

pub fn frame_color() -> (color: Option<Color>)
    ensures
        color == spec_frame_color(),
{
    Some(Color::Ansi(AnsiColor::BrightBlack))
}

pub fn hint_color() -> (color: Option<Color>)
    ensures
        color == spec_hint_color(),
{
    Some(Color::Ansi(AnsiColor::BrightBlue))
}

/// The larger of the two line numbers of a span.
pub open spec fn spec_larger_line(span: Span) -> nat {
    if span.start_position.line >= span.end_position.line {
        span.start_position.line as nat
    } else {
        span.end_position.line as nat
    }
}

/// The width of the line numbers: the number of decimal digits of the larger
/// line number of the span.
pub open spec fn spec_gutter_width(span: Span) -> nat {
    spec_digit_count(spec_larger_line(span))
}

/// The margin of a row that shows a line: the number, right-aligned in the
/// width, and the bar.
pub open spec fn spec_number_gutter(number: nat, width: int, glyphs: CharacterSet) -> Seq<Cell> {
    spec_repeat(' ', width - spec_digit_count(number), spec_frame_color()) + spec_styled(
        spec_decimal(number),
        spec_frame_color(),
    ) + seq![spec_cell(glyphs.vertical_bar, spec_frame_color())]
}

/// The margin of a row that shows no line: blanks in place of the number,
/// and the given glyph in place of the bar.
pub open spec fn spec_blank_gutter(width: int, glyph: char) -> Seq<Cell> {
    spec_repeat(' ', width, spec_frame_color()) + seq![spec_cell(glyph, spec_frame_color())]
}

/// The width is at least one, it is the digit count of each of the two line
/// numbers or more, and it is the digit count of one of them.
pub proof fn lemma_gutter_width(span: Span)
    ensures
        spec_gutter_width(span) >= 1,
        spec_gutter_width(span) >= spec_digit_count(span.start_position.line as nat),
        spec_gutter_width(span) >= spec_digit_count(span.end_position.line as nat),
        spec_gutter_width(span) == spec_digit_count(span.start_position.line as nat)
            || spec_gutter_width(span) == spec_digit_count(span.end_position.line as nat),
{
    lemma_digit_count_monotonic(span.start_position.line as nat, spec_larger_line(span));
    lemma_digit_count_monotonic(span.end_position.line as nat, spec_larger_line(span));
}

/// The width of the line numbers for a span.
pub fn gutter_width(span: &Span) -> (width: usize)
    ensures
        width == spec_gutter_width(*span),
        width >= 1,
{
    if span.start_position.line >= span.end_position.line {
        digit_count(span.start_position.line)
    } else {
        digit_count(span.end_position.line)
    }
}

/// Adds the margin of a row that shows a line.
pub fn push_number_gutter(row: &mut Vec<Cell>, number: usize, width: usize, glyphs: &CharacterSet)
    ensures
        final(row)@ == old(row)@ + spec_number_gutter(number as nat, width as int, *glyphs),
{
    let digits = decimal(number);
    proof {
        lemma_decimal_len(number as nat);
    }
    if digits.len() < width {
        push_repeat(row, ' ', width - digits.len(), frame_color());
    } else {
        proof {
            lemma_repeat_step(' ', 0, spec_frame_color());
            assert(spec_repeat(' ', width - digits.len(), spec_frame_color())
                =~= Seq::<Cell>::empty());
        }
    }
    push_chars(row, &digits, frame_color());
    push_glyph(row, glyphs.vertical_bar, frame_color());
    assert(row@ =~= old(row)@ + spec_number_gutter(number as nat, width as int, *glyphs));
}

/// Adds the margin of a row that shows no line.
pub fn push_blank_gutter(row: &mut Vec<Cell>, width: usize, glyph: char)
    ensures
        final(row)@ == old(row)@ + spec_blank_gutter(width as int, glyph),
{
    push_repeat(row, ' ', width, frame_color());
    push_glyph(row, glyph, frame_color());
    assert(row@ =~= old(row)@ + spec_blank_gutter(width as int, glyph));
}

/// How the lanes of one row are drawn.
#[derive(Debug, Clone, Copy, PartialEq, Eq, Structural)]
pub struct Lanes {
    /// The number of the line that the row belongs to.
    pub number: usize,
    /// Whether the row shows the line itself: only there a corner marks the
    /// start or the end of a label.
    pub real: bool,
    /// Lanes before this index are closed where their label ends on the line.
    pub closed: usize,
    /// The lane whose label is being closed on this row, if any.
    pub terminated: Option<usize>,
    /// The glyph of a lane that runs on.
    pub bar: char,
}

/// A lane is open on the rows of the lines that its label holds. It opens
/// with the first of those lines, before the row of that line is drawn, so
/// that the margin of that row shows it already; and it stays open until the
/// label is closed below its last line.
pub open spec fn spec_lane_open(multi: Seq<Label>, lanes: Lanes, lane: int) -> bool {
    &&& multi[lane].span.spec_is_in(lanes.number as int)
    &&& !(lane < lanes.closed && multi[lane].span.end_position.line == lanes.number)
}

/// A corner, the bar that leads from it over the lanes to its right, the
/// arrow, and a blank.
pub open spec fn spec_corner(
    multi: Seq<Label>,
    glyphs: CharacterSet,
    lane: int,
    corner: char,
) -> Seq<Cell> {
    let color = multi[lane].format;
    seq![spec_cell(corner, color)] + spec_repeat(
        glyphs.horizontal_bar,
        2 * (multi.len() - lane),
        color,
    ) + seq![spec_cell(glyphs.right_arrow, color)] + spec_blank(1)
}

/// The lanes from `lane` on. A closed lane is two blanks. The first open lane
/// whose label starts or ends on a shown line gets a corner and an arrow that
/// covers the lanes to its right; the lane that is being closed gets the
/// bottom corner and a bar over the rest of the margin; every other open lane
/// is its bar and a blank. Three blanks follow the last lane.
pub open spec fn spec_lanes_from(
    multi: Seq<Label>,
    glyphs: CharacterSet,
    lanes: Lanes,
    lane: int,
) -> Seq<Cell>
    decreases multi.len() - lane,
{
    if lane < 0 || lane >= multi.len() {
        spec_blank(3)
    } else if !spec_lane_open(multi, lanes, lane) {
        spec_blank(2) + spec_lanes_from(multi, glyphs, lanes, lane + 1)
    } else if lanes.real && multi[lane].span.start_position.line == lanes.number {
        spec_corner(multi, glyphs, lane, glyphs.left_top)
    } else if lanes.real && multi[lane].span.end_position.line == lanes.number {
        spec_corner(multi, glyphs, lane, glyphs.left_cross)
    } else if lanes.terminated == Some(lane as usize) {
        seq![spec_cell(glyphs.left_bottom, multi[lane].format)] + spec_repeat(
            glyphs.horizontal_bar,
            2 * (multi.len() - lane) + 2,
            multi[lane].format,
        )
    } else {
        seq![spec_cell(lanes.bar, multi[lane].format), spec_cell(' ', multi[lane].format)]
            + spec_lanes_from(multi, glyphs, lanes, lane + 1)
    }
}

/// The lanes of a row. Without labels that run over several lines there are
/// no lanes and the margin ends at the bar of the line numbers.
pub open spec fn spec_occupancy(multi: Seq<Label>, glyphs: CharacterSet, lanes: Lanes) -> Seq<
    Cell,
> {
    if multi.len() == 0 {
        Seq::empty()
    } else {
        spec_lanes_from(multi, glyphs, lanes, 0)
    }
}

/// Every drawing of the lanes of the same labels is equally wide.
pub proof fn lemma_lanes_width(multi: Seq<Label>, glyphs: CharacterSet, lanes: Lanes, lane: int)
    requires
        0 <= lane <= multi.len(),
    ensures
        spec_lanes_from(multi, glyphs, lanes, lane).len() == 2 * (multi.len() - lane) + 3,
    decreases multi.len() - lane,
{
    if lane < multi.len() {
        lemma_lanes_width(multi, glyphs, lanes, lane + 1);
    }
}

/// The lanes take the same width on every row of a report: nothing without
/// labels over several lines, else two columns for each and three more.
pub proof fn lemma_occupancy_width(multi: Seq<Label>, glyphs: CharacterSet, lanes: Lanes)
    ensures
        spec_occupancy(multi, glyphs, lanes).len() == (if multi.len() == 0 {
            0
        } else {
            2 * multi.len() + 3
        }),
{
    lemma_lanes_width(multi, glyphs, lanes, 0);
}

/// Where no label holds the line of the row, every lane is blank.
pub proof fn lemma_lanes_blank(multi: Seq<Label>, glyphs: CharacterSet, lanes: Lanes, lane: int)
    requires
        0 <= lane <= multi.len(),
        forall|k: int| 0 <= k < multi.len() ==> !(#[trigger] multi[k]).span.spec_is_in(
            lanes.number as int,
        ),
    ensures
        spec_lanes_from(multi, glyphs, lanes, lane) == spec_blank(2 * (multi.len() - lane) + 3),
    decreases multi.len() - lane,
{
    if lane < multi.len() {
        lemma_lanes_blank(multi, glyphs, lanes, lane + 1);
        assert(!spec_lane_open(multi, lanes, lane));
        assert(spec_blank(2) + spec_blank(2 * (multi.len() - lane - 1) + 3) =~= spec_blank(
            2 * (multi.len() - lane) + 3,
        ));
    }
}

/// Whether a lane is open.
pub fn lane_open(multi: &Vec<Label>, lanes: &Lanes, lane: usize) -> (open: bool)
    requires
        lane < multi.len(),
    ensures
        open == spec_lane_open(multi@, *lanes, lane as int),
{
    multi[lane].span.is_in(lanes.number) && !(lane < lanes.closed
        && multi[lane].span.end_position.line == lanes.number)
}

/// Adds one glyph twice for every lane from `lane` on, and `extra` times
/// more.
fn push_bar(row: &mut Vec<Cell>, glyph: char, lanes: usize, extra: usize, color: Option<Color>)
    ensures
        final(row)@ == old(row)@ + spec_repeat(glyph, 2 * lanes + extra, color),
{
    push_repeat(row, glyph, lanes, color);
    push_repeat(row, glyph, lanes, color);
    push_repeat(row, glyph, extra, color);
    assert(row@ =~= old(row)@ + spec_repeat(glyph, 2 * lanes + extra, color));
}

/// Adds the lanes of a row.
pub fn push_occupancy(
    row: &mut Vec<Cell>,
    multi: &Vec<Label>,
    glyphs: &CharacterSet,
    lanes: &Lanes,
)
    ensures
        final(row)@ == old(row)@ + spec_occupancy(multi@, *glyphs, *lanes),
{
    let count: usize = multi.len();
    if count == 0 {
        assert(row@ =~= old(row)@ + spec_occupancy(multi@, *glyphs, *lanes));
        return ;
    }
    let mut lane: usize = 0;
    assert(row@ + spec_lanes_from(multi@, *glyphs, *lanes, 0) =~= old(row)@ + spec_occupancy(
        multi@,
        *glyphs,
        *lanes,
    ));
    while lane < count
        invariant
            count == multi.len(),
            lane <= count,
            row@ + spec_lanes_from(multi@, *glyphs, *lanes, lane as int) == old(row)@
                + spec_occupancy(multi@, *glyphs, *lanes),
        decreases count - lane,
    {
        let ghost before = row@;
        let ghost rest = spec_lanes_from(multi@, *glyphs, *lanes, lane as int);
        let color = multi[lane].format;
        if !lane_open(multi, lanes, lane) {
            push_repeat(row, ' ', 2, None);
        } else if lanes.real && (multi[lane].span.start_position.line == lanes.number
            || multi[lane].span.end_position.line == lanes.number) {
            let corner = if multi[lane].span.start_position.line == lanes.number {
                glyphs.left_top
            } else {
                glyphs.left_cross
            };
            push_glyph(row, corner, color);
            push_bar(row, glyphs.horizontal_bar, count - lane, 0, color);
            push_glyph(row, glyphs.right_arrow, color);
            push_repeat(row, ' ', 1, None);
            assert(row@ =~= before + rest);
            return ;
        } else if lanes.terminated == Some(lane) {
            push_glyph(row, glyphs.left_bottom, color);
            push_bar(row, glyphs.horizontal_bar, count - lane, 2, color);
            assert(row@ =~= before + rest);
            return ;
        } else {
            push_glyph(row, lanes.bar, color);
            push_glyph(row, ' ', color);
        }
        assert(row@ + spec_lanes_from(multi@, *glyphs, *lanes, lane + 1) =~= before + rest);
        lane += 1;
    }
    push_repeat(row, ' ', 3, None);
    assert(row@ =~= old(row)@ + spec_occupancy(multi@, *glyphs, *lanes));
}

} // verus!
