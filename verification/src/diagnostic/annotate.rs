//! What is drawn for the labels of a line: the colours in its text, the
//! underlines, the elbows that lead to the messages, and the hints.

use super::cell::{
    fill_past, glyph_at, pad_to, push_cells, push_glyph, push_newline, push_repeat, push_text,
    spec_blank, spec_cell, spec_fill_to, spec_newline, spec_pad_to, spec_past, spec_styled, Cell,
};
use super::char_set::CharacterSet;
use super::color::Color;
use super::label::Label;
use super::margin::{hint_color, spec_hint_color};
use super::select::{dominant, lemma_dominant, spec_dominant};
use super::span::Span;
use vstd::prelude::*;

verus! {

/// The width of a span; zero for a span that has none.
pub open spec fn spec_width_or_zero(span: Span) -> int {
    match span.spec_width() {
        Some(width) => width,
        None => 0,
    }
}

/// The column below which the connector of a label runs: the middle of its
/// span, or its start where the span has no width.
pub open spec fn spec_anchor(label: Label) -> int {
    label.span.start_position.column + spec_width_or_zero(label.span) / 2
}

/// A label colours a column when it has a colour and a width, and the column
/// lies within the width.
pub open spec fn spec_covers(label: Label, column: int) -> bool {
    &&& label.format is Some
    &&& label.span.spec_width() is Some
    &&& label.span.start_position.column <= column < label.span.start_position.column
        + label.span.spec_width()->0
}

/// The colour of a column that no label of the line colours: that of the
/// dominant label, which on the line where that label starts begins at its
/// start column.
pub open spec fn spec_base_color(multi: Seq<Label>, number: int, column: int) -> Option<Color> {
    match spec_dominant(multi, number) {
        Some(lane) => {
            if multi[lane].span.start_position.line != number || column
                >= multi[lane].span.start_position.column {
                multi[lane].format
            } else {
                None
            }
        },
        None => None,
    }
}

/// The colour of a column of the text: that of the last label in drawing
/// order that colours the column, else the base colour.
pub open spec fn spec_text_color(singles: Seq<Label>, base: Option<Color>, column: int) -> Option<
    Color,
>
    decreases singles.len(),
{
    if singles.len() == 0 {
        base
    } else if spec_covers(singles.last(), column) {
        singles.last().format
    } else {
        spec_text_color(singles.drop_last(), base, column)
    }
}

/// The cell of one column of the text of a line.
pub open spec fn spec_text_cell(
    text: Seq<char>,
    singles: Seq<Label>,
    multi: Seq<Label>,
    number: int,
    column: int,
) -> Cell {
    spec_cell(
        text[column],
        spec_text_color(singles, spec_base_color(multi, number, column), column),
    )
}

/// The text of a line, every character in the colour of its column.
pub open spec fn spec_line_text(
    text: Seq<char>,
    singles: Seq<Label>,
    multi: Seq<Label>,
    number: int,
) -> Seq<Cell> {
    Seq::new(text.len(), |column: int| spec_text_cell(text, singles, multi, number, column))
}

/// The glyph of one column of an underline: the glyph that the connector
/// hangs from in the middle, the underline glyph elsewhere.
pub open spec fn spec_stroke(width: int, at: int, glyphs: CharacterSet) -> char {
    if at == width / 2 {
        glyphs.under_bar
    } else {
        glyphs.underline
    }
}

/// The underline of a span of the given width.
pub open spec fn spec_strokes(width: int, glyphs: CharacterSet, color: Option<Color>) -> Seq<Cell> {
    Seq::new(
        if width > 0 {
            width as nat
        } else {
            0
        },
        |at: int| spec_cell(spec_stroke(width, at, glyphs), color),
    )
}

/// The underlines of the labels of a line, from the left: before each, blanks
/// up to the column where the label starts. A label whose span has no width
/// gets no underline and no blanks.
pub open spec fn spec_underline(singles: Seq<Label>, glyphs: CharacterSet) -> Seq<Cell>
    decreases singles.len(),
{
    if singles.len() == 0 {
        Seq::empty()
    } else {
        let before = spec_underline(singles.drop_last(), glyphs);
        let last = singles.last();
        match last.span.spec_width() {
            Some(width) => spec_pad_to(before, last.span.start_position.column as int)
                + spec_strokes(width, glyphs, last.format),
            None => before,
        }
    }
}

/// The connectors of the labels whose message is still to come: a bar below
/// the anchor of each.
pub open spec fn spec_stems(pending: Seq<Label>, glyphs: CharacterSet) -> Seq<Cell>
    decreases pending.len(),
{
    if pending.len() == 0 {
        Seq::empty()
    } else {
        spec_pad_to(spec_stems(pending.drop_last(), glyphs), spec_anchor(pending.last())) + seq![
            spec_cell(glyphs.vertical_bar, pending.last().format),
        ]
    }
}

/// A blank and the message of a label.
pub open spec fn spec_message(label: Label) -> Seq<Cell> {
    spec_blank(1) + spec_styled(label.message@, None)
}

/// The row that gives the last of the pending labels its message: the
/// connectors of the labels before it, its own corner below its anchor, a bar
/// up to the extent, and the message.
pub open spec fn spec_elbow(pending: Seq<Label>, extent: int, glyphs: CharacterSet) -> Seq<Cell> {
    let last = pending.last();
    spec_fill_to(
        spec_pad_to(spec_stems(pending.drop_last(), glyphs), spec_anchor(last)).push(
            spec_cell(glyphs.left_bottom, last.format),
        ),
        extent,
        glyphs.horizontal_bar,
        last.format,
    ) + spec_message(last)
}

/// The words that a hint starts with.
pub open spec fn spec_hint_prefix() -> Seq<char> {
    seq!['!', 'h', 'i', 'n', 't', ':', ' ']
}

/// A hint as it is shown.
pub open spec fn spec_hint(hint: Seq<char>) -> Seq<Cell> {
    spec_styled(spec_hint_prefix(), spec_hint_color()) + spec_styled(hint, spec_hint_color())
}

/// The row of a hint below an elbow: the connectors of the labels that are
/// still pending, blanks up to the extent, and the hint.
pub open spec fn spec_elbow_hint(
    pending: Seq<Label>,
    extent: int,
    glyphs: CharacterSet,
    hint: Seq<char>,
) -> Seq<Cell> {
    spec_pad_to(spec_stems(pending.drop_last(), glyphs), extent) + spec_hint(hint)
}

/// A row: the margin, what stands right of it, and the end of the row.
pub open spec fn spec_row(margin: Seq<Cell>, part: Seq<Cell>) -> Seq<Cell> {
    (margin + part).push(spec_newline())
}

/// The rows that give the last of the pending labels its message: the elbow,
/// a row for its hint where it has one, and a row of the connectors of the
/// labels that are still pending where there are any.
pub open spec fn spec_retire(
    margin: Seq<Cell>,
    pending: Seq<Label>,
    extent: int,
    glyphs: CharacterSet,
) -> Seq<Cell> {
    spec_row(margin, spec_elbow(pending, extent, glyphs)) + (match pending.last().hint {
        Some(hint) => spec_row(margin, spec_elbow_hint(pending, extent, glyphs, hint@)),
        None => Seq::empty(),
    }) + (if pending.len() > 1 {
        spec_row(margin, spec_stems(pending.drop_last(), glyphs))
    } else {
        Seq::empty()
    })
}

/// The rows below the underlines. The labels get their messages from the
/// right to the left.
pub open spec fn spec_connectors(
    margin: Seq<Cell>,
    pending: Seq<Label>,
    extent: int,
    glyphs: CharacterSet,
) -> Seq<Cell>
    decreases pending.len(),
{
    if pending.len() == 0 {
        Seq::empty()
    } else {
        spec_retire(margin, pending, extent, glyphs) + spec_connectors(
            margin,
            pending.drop_last(),
            extent,
            glyphs,
        )
    }
}

/// The width of a span that has one.
pub fn width_or_zero(span: &Span) -> (width: usize)
    ensures
        width == spec_width_or_zero(*span),
{
    match span.width() {
        Some(width) => width,
        None => 0,
    }
}

/// The column of the connector of a label.
pub fn anchor(label: &Label) -> (column: usize)
    ensures
        column == spec_anchor(*label),
{
    label.span.start_position.column + width_or_zero(&label.span) / 2
}

/// Whether a label colours a column.
pub fn covers(label: &Label, column: usize) -> (covered: bool)
    ensures
        covered == spec_covers(*label, column as int),
{
    match (label.format, label.span.width()) {
        (Some(_), Some(width)) => label.span.start_position.column <= column && column
            - label.span.start_position.column < width,
        _ => false,
    }
}

/// The base colour of a column, given the lane of the dominant label.
fn base_color(multi: &Vec<Label>, lane: Option<usize>, number: usize, column: usize) -> (color:
    Option<Color>)
    requires
        match lane {
            Some(found) => found < multi.len() && spec_dominant(multi@, number as int) == Some(
                found as int,
            ),
            None => spec_dominant(multi@, number as int) is None,
        },
    ensures
        color == spec_base_color(multi@, number as int, column as int),
{
    match lane {
        Some(found) => {
            let span = multi[found].span;
            if span.start_position.line != number || column >= span.start_position.column {
                multi[found].format
            } else {
                None
            }
        },
        None => None,
    }
}

/// The colour of a column of the text.
pub fn text_color(singles: &Vec<Label>, base: Option<Color>, column: usize) -> (color: Option<
    Color,
>)
    ensures
        color == spec_text_color(singles@, base, column as int),
{
    let mut rest: usize = singles.len();
    assert(singles@.take(rest as int) =~= singles@);
    while rest > 0
        invariant
            rest <= singles.len(),
            spec_text_color(singles@, base, column as int) == spec_text_color(
                singles@.take(rest as int),
                base,
                column as int,
            ),
        decreases rest,
    {
        assert(singles@.take(rest as int).drop_last() =~= singles@.take(rest - 1));
        if covers(&singles[rest - 1], column) {
            return singles[rest - 1].format;
        }
        rest -= 1;
    }
    base
}

/// Adds the text of a line in the colours of its labels.
pub fn push_line_text(
    row: &mut Vec<Cell>,
    text: &Vec<char>,
    singles: &Vec<Label>,
    multi: &Vec<Label>,
    number: usize,
)
    ensures
        final(row)@ == old(row)@ + spec_line_text(text@, singles@, multi@, number as int),
{
    let lane = dominant(multi, number);
    proof {
        lemma_dominant(multi@, number as int);
    }
    let ghost whole = spec_line_text(text@, singles@, multi@, number as int);
    let mut column: usize = 0;
    assert(row@ =~= old(row)@ + whole.take(0));
    while column < text.len()
        invariant
            column <= text.len(),
            whole == spec_line_text(text@, singles@, multi@, number as int),
            row@ == old(row)@ + whole.take(column as int),
            match lane {
                Some(found) => found < multi.len() && spec_dominant(multi@, number as int) == Some(
                    found as int,
                ),
                None => spec_dominant(multi@, number as int) is None,
            },
        decreases text.len() - column,
    {
        let base = base_color(multi, lane, number, column);
        let color = text_color(singles, base, column);
        let glyph = glyph_at(text, column);
        row.push(Cell { glyph, color });
        assert(whole[column as int] == spec_text_cell(
            text@,
            singles@,
            multi@,
            number as int,
            column as int,
        ));
        assert(row@ =~= old(row)@ + whole.take(column + 1));
        column += 1;
    }
    assert(whole.take(column as int) =~= whole);
}

/// Adds the underline of a span of the given width.
pub fn push_strokes(row: &mut Vec<Cell>, width: usize, glyphs: &CharacterSet, color: Option<Color>)
    ensures
        final(row)@ == old(row)@ + spec_strokes(width as int, *glyphs, color),
{
    let ghost whole = spec_strokes(width as int, *glyphs, color);
    let mut at: usize = 0;
    assert(row@ =~= old(row)@ + whole.take(0));
    while at < width
        invariant
            at <= width,
            whole == spec_strokes(width as int, *glyphs, color),
            row@ == old(row)@ + whole.take(at as int),
        decreases width - at,
    {
        let glyph = if at == width / 2 {
            glyphs.under_bar
        } else {
            glyphs.underline
        };
        row.push(Cell { glyph, color });
        assert(whole[at as int] == spec_cell(spec_stroke(width as int, at as int, *glyphs), color));
        assert(row@ =~= old(row)@ + whole.take(at + 1));
        at += 1;
    }
    assert(whole.take(at as int) =~= whole);
}

/// The underlines of the labels of a line.
pub fn underline(singles: &Vec<Label>, glyphs: &CharacterSet) -> (part: Vec<Cell>)
    ensures
        part@ == spec_underline(singles@, *glyphs),
{
    let mut part: Vec<Cell> = Vec::new();
    let mut at: usize = 0;
    assert(singles@.take(0) =~= Seq::<Label>::empty());
    while at < singles.len()
        invariant
            at <= singles.len(),
            part@ == spec_underline(singles@.take(at as int), *glyphs),
        decreases singles.len() - at,
    {
        assert(singles@.take(at + 1).drop_last() =~= singles@.take(at as int));
        match singles[at].span.width() {
            Some(width) => {
                pad_to(&mut part, singles[at].span.start_position.column);
                push_strokes(&mut part, width, glyphs, singles[at].format);
            },
            None => {},
        }
        at += 1;
    }
    assert(singles@.take(at as int) =~= singles@);
    part
}

/// The connectors of the first `count` labels.
pub fn stems(singles: &Vec<Label>, count: usize, glyphs: &CharacterSet) -> (part: Vec<Cell>)
    requires
        count <= singles.len(),
    ensures
        part@ == spec_stems(singles@.take(count as int), *glyphs),
{
    let mut part: Vec<Cell> = Vec::new();
    let mut at: usize = 0;
    assert(singles@.take(0) =~= Seq::<Label>::empty());
    while at < count
        invariant
            at <= count <= singles.len(),
            part@ == spec_stems(singles@.take(at as int), *glyphs),
        decreases count - at,
    {
        assert(singles@.take(at + 1).drop_last() =~= singles@.take(at as int));
        pad_to(&mut part, anchor(&singles[at]));
        push_glyph(&mut part, glyphs.vertical_bar, singles[at].format);
        at += 1;
    }
    part
}

/// Adds a blank and the message of a label.
pub fn push_message(row: &mut Vec<Cell>, label: &Label)
    ensures
        final(row)@ == old(row)@ + spec_message(*label),
{
    push_repeat(row, ' ', 1, None);
    push_text(row, label.message.as_str(), None);
    assert(row@ =~= old(row)@ + spec_message(*label));
}

/// Adds a hint.
pub fn push_hint(row: &mut Vec<Cell>, hint: &String)
    ensures
        final(row)@ == old(row)@ + spec_hint(hint@),
{
    let color = hint_color();
    push_glyph(row, '!', color);
    push_glyph(row, 'h', color);
    push_glyph(row, 'i', color);
    push_glyph(row, 'n', color);
    push_glyph(row, 't', color);
    push_glyph(row, ':', color);
    push_glyph(row, ' ', color);
    assert(row@ =~= old(row)@ + spec_styled(spec_hint_prefix(), spec_hint_color()));
    push_text(row, hint.as_str(), color);
    assert(row@ =~= old(row)@ + spec_hint(hint@));
}

/// Adds a row.
pub fn push_row(out: &mut Vec<Cell>, margin: &Vec<Cell>, part: &Vec<Cell>)
    ensures
        final(out)@ == old(out)@ + spec_row(margin@, part@),
{
    push_cells(out, margin);
    push_cells(out, part);
    push_newline(out);
    assert(out@ =~= old(out)@ + spec_row(margin@, part@));
}

/// The elbow of the last of the first `count` labels.
fn elbow(singles: &Vec<Label>, count: usize, last: Option<usize>, glyphs: &CharacterSet) -> (part:
    Vec<Cell>)
    requires
        0 < count <= singles.len(),
    ensures
        part@ == spec_elbow(singles@.take(count as int), spec_past(last), *glyphs),
{
    let label = &singles[count - 1];
    assert(singles@.take(count as int).drop_last() =~= singles@.take(count - 1));
    let mut part = stems(singles, count - 1, glyphs);
    pad_to(&mut part, anchor(label));
    push_glyph(&mut part, glyphs.left_bottom, label.format);
    fill_past(&mut part, last, glyphs.horizontal_bar, label.format);
    push_message(&mut part, label);
    part
}

/// The hint row of the last of the first `count` labels.
fn elbow_hint(
    singles: &Vec<Label>,
    count: usize,
    last: Option<usize>,
    glyphs: &CharacterSet,
    hint: &String,
) -> (part: Vec<Cell>)
    requires
        0 < count <= singles.len(),
    ensures
        part@ == spec_elbow_hint(singles@.take(count as int), spec_past(last), *glyphs, hint@),
{
    assert(singles@.take(count as int).drop_last() =~= singles@.take(count - 1));
    let mut part = stems(singles, count - 1, glyphs);
    fill_past(&mut part, last, ' ', None);
    push_hint(&mut part, hint);
    part
}

/// Adds the rows that give the last of the first `count` labels its message.
fn push_retire(
    out: &mut Vec<Cell>,
    margin: &Vec<Cell>,
    singles: &Vec<Label>,
    count: usize,
    last: Option<usize>,
    glyphs: &CharacterSet,
)
    requires
        0 < count <= singles.len(),
    ensures
        final(out)@ == old(out)@ + spec_retire(
            margin@,
            singles@.take(count as int),
            spec_past(last),
            *glyphs,
        ),
{
    let ghost pending = singles@.take(count as int);
    assert(pending.drop_last() =~= singles@.take(count - 1));
    assert(pending.last() == singles@[count - 1]);
    let part = elbow(singles, count, last, glyphs);
    push_row(out, margin, &part);
    let ghost first = out@;
    match &singles[count - 1].hint {
        Some(hint) => {
            let part = elbow_hint(singles, count, last, glyphs, hint);
            push_row(out, margin, &part);
        },
        None => {
            assert(out@ =~= first + Seq::<Cell>::empty());
        },
    }
    let ghost second = out@;
    if count > 1 {
        let part = stems(singles, count - 1, glyphs);
        push_row(out, margin, &part);
    } else {
        assert(out@ =~= second + Seq::<Cell>::empty());
    }
    assert(out@ =~= old(out)@ + spec_retire(margin@, pending, spec_past(last), *glyphs));
}

/// Adds the rows below the underlines. `last` is the rightmost column at
/// which a label of the line ends: the extent lies two columns past it.
pub fn push_connectors(
    out: &mut Vec<Cell>,
    margin: &Vec<Cell>,
    singles: &Vec<Label>,
    last: Option<usize>,
    glyphs: &CharacterSet,
)
    ensures
        final(out)@ == old(out)@ + spec_connectors(margin@, singles@, spec_past(last), *glyphs),
{
    let ghost extent = spec_past(last);
    let mut rest: usize = singles.len();
    assert(singles@.take(rest as int) =~= singles@);
    assert(out@ + spec_connectors(margin@, singles@.take(rest as int), extent, *glyphs) =~= old(
        out,
    )@ + spec_connectors(margin@, singles@, extent, *glyphs));
    while rest > 0
        invariant
            rest <= singles.len(),
            extent == spec_past(last),
            out@ + spec_connectors(margin@, singles@.take(rest as int), extent, *glyphs) == old(
                out,
            )@ + spec_connectors(margin@, singles@, extent, *glyphs),
        decreases rest,
    {
        let ghost before = out@;
        let ghost pending = singles@.take(rest as int);
        assert(pending.drop_last() =~= singles@.take(rest - 1));
        push_retire(out, margin, singles, rest, last, glyphs);
        assert(out@ + spec_connectors(margin@, singles@.take(rest - 1), extent, *glyphs) =~= before
            + spec_connectors(margin@, pending, extent, *glyphs));
        rest -= 1;
    }
    assert(spec_connectors(margin@, singles@.take(0), extent, *glyphs) =~= Seq::<Cell>::empty());
}

} // verus!
