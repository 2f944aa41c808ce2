//! Styled text: every character carries the colour it is shown in.

use super::color::Color;
use super::decimal::{decimal, spec_decimal};
use vstd::prelude::*;

verus! {

/// One character of output and its colour; `None` is the terminal's own
/// foreground.
#[derive(Debug, Clone, Copy, PartialEq, Eq, Structural)]
pub struct Cell {
    pub glyph: char,
    pub color: Option<Color>,
}

/// A glyph in a colour.
pub open spec fn spec_cell(glyph: char, color: Option<Color>) -> Cell {
    Cell { glyph, color }
}

/// The cell that ends a row.
pub open spec fn spec_newline() -> Cell {
    Cell { glyph: '\n', color: None }
}

/// A text in one colour.
pub open spec fn spec_styled(text: Seq<char>, color: Option<Color>) -> Seq<Cell> {
    text.map_values(|glyph: char| spec_cell(glyph, color))
}

/// One glyph `count` times in one colour; nothing for a count below one.
pub open spec fn spec_repeat(glyph: char, count: int, color: Option<Color>) -> Seq<Cell> {
    Seq::new(
        if count > 0 {
            count as nat
        } else {
            0
        },
        |i: int| Cell { glyph, color },
    )
}

/// Uncoloured blanks.
pub open spec fn spec_blank(count: int) -> Seq<Cell> {
    spec_repeat(' ', count, None)
}

/// `cells`, with the glyph added until they are `width` wide. Cells that are
/// that wide or wider to begin with stay as they are.
pub open spec fn spec_fill_to(
    cells: Seq<Cell>,
    width: int,
    glyph: char,
    color: Option<Color>,
) -> Seq<Cell> {
    cells + spec_repeat(glyph, width - cells.len(), color)
}

/// `cells`, with blanks added until they are `width` wide.
pub open spec fn spec_pad_to(cells: Seq<Cell>, width: int) -> Seq<Cell> {
    spec_fill_to(cells, width, ' ', None)
}

/// The characters of styled text, without the colours.
pub open spec fn spec_glyphs(cells: Seq<Cell>) -> Seq<char> {
    cells.map_values(|cell: Cell| cell.glyph)
}

/// The column two past `last`, or zero where there is none.
pub open spec fn spec_past(last: Option<usize>) -> int {
    match last {
        Some(column) => column + 2,
        None => 0,
    }
}

/// Styling two texts one after the other is styling them as one.
pub proof fn lemma_styled_concat(first: Seq<char>, second: Seq<char>, color: Option<Color>)
    ensures
        spec_styled(first + second, color) == spec_styled(first, color) + spec_styled(
            second,
            color,
        ),
{
    let whole = spec_styled(first + second, color);
    let parts = spec_styled(first, color) + spec_styled(second, color);
    assert(whole.len() == parts.len());
    assert forall|i: int| 0 <= i < whole.len() implies whole[i] == parts[i] by {
        if i < first.len() {
            assert((first + second)[i] == first[i]);
        } else {
            assert((first + second)[i] == second[i - first.len()]);
        }
    }
    assert(whole =~= parts);
}

/// Styling a text with one more character adds the cell of that character.
pub proof fn lemma_styled_push(text: Seq<char>, glyph: char, color: Option<Color>)
    ensures
        spec_styled(text.push(glyph), color) == spec_styled(text, color).push(
            Cell { glyph, color },
        ),
{
    lemma_styled_concat(text, seq![glyph], color);
    assert(text.push(glyph) =~= text + seq![glyph]);
    assert(spec_styled(seq![glyph], color) =~= seq![Cell { glyph, color }]);
    assert(spec_styled(text, color).push(Cell { glyph, color }) =~= spec_styled(text, color)
        + seq![Cell { glyph, color }]);
}

/// Repeating a glyph once more adds one cell, and repeating it no time gives
/// nothing.
pub proof fn lemma_repeat_step(glyph: char, count: int, color: Option<Color>)
    requires
        count >= 0,
    ensures
        spec_repeat(glyph, count + 1, color) == spec_repeat(glyph, count, color).push(
            Cell { glyph, color },
        ),
        spec_repeat(glyph, 0, color) == Seq::<Cell>::empty(),
{
    assert(spec_repeat(glyph, count + 1, color) =~= spec_repeat(glyph, count, color).push(
        Cell { glyph, color },
    ));
    assert(spec_repeat(glyph, 0, color) =~= Seq::<Cell>::empty());
}

/// `String::push` of std: the character is added at the end.
pub assume_specification[ String::push ](text: &mut String, glyph: char)
    ensures
        final(text)@ == old(text)@.push(glyph),
;

/// The characters of a text.
pub fn to_chars(text: &str) -> (chars: Vec<char>)
    ensures
        chars@ == text@,
{
    let mut chars: Vec<char> = Vec::new();
    for glyph in walk: text.chars()
        invariant
            chars@ == walk.seq().take(walk.index() as int),
            walk.seq() == text@,
    {
        chars.push(glyph);
    }
    chars
}

/// The text made of the characters from `from` up to `to`.
pub fn to_text(chars: &Vec<char>, from: usize, to: usize) -> (text: String)
    requires
        from <= to <= chars.len(),
    ensures
        text@ == chars@.subrange(from as int, to as int),
{
    let mut text = String::new();
    let mut at: usize = from;
    while at < to
        invariant
            from <= at <= to <= chars.len(),
            text@ == chars@.subrange(from as int, at as int),
        decreases to - at,
    {
        text.push(glyph_at(chars, at));
        assert(chars@.subrange(from as int, at + 1) =~= chars@.subrange(from as int, at as int).push(
            chars@[at as int],
        ));
        at += 1;
    }
    text
}

/// Adds one cell.
pub fn push_glyph(row: &mut Vec<Cell>, glyph: char, color: Option<Color>)
    ensures
        final(row)@ == old(row)@.push(Cell { glyph, color }),
        final(row)@ == old(row)@ + spec_repeat(glyph, 1, color),
{
    row.push(Cell { glyph, color });
    assert(old(row)@.push(Cell { glyph, color }) =~= old(row)@ + spec_repeat(glyph, 1, color));
}

/// Adds the cell that ends a row.
pub fn push_newline(row: &mut Vec<Cell>)
    ensures
        final(row)@ == old(row)@.push(spec_newline()),
{
    row.push(Cell { glyph: '\n', color: None });
}

/// Adds one glyph `count` times.
pub fn push_repeat(row: &mut Vec<Cell>, glyph: char, count: usize, color: Option<Color>)
    ensures
        final(row)@ == old(row)@ + spec_repeat(glyph, count as int, color),
{
    let mut done: usize = 0;
    proof {
        lemma_repeat_step(glyph, 0, color);
    }
    while done < count
        invariant
            done <= count,
            row@ == old(row)@ + spec_repeat(glyph, done as int, color),
        decreases count - done,
    {
        row.push(Cell { glyph, color });
        proof {
            lemma_repeat_step(glyph, done as int, color);
            assert(row@ =~= old(row)@ + spec_repeat(glyph, done + 1, color));
        }
        done += 1;
    }
}

/// The character at an index.
pub fn glyph_at(chars: &Vec<char>, at: usize) -> (glyph: char)
    requires
        at < chars.len(),
    ensures
        glyph == chars@[at as int],
{
    chars[at]
}

/// Adds characters in one colour.
pub fn push_chars(row: &mut Vec<Cell>, chars: &Vec<char>, color: Option<Color>)
    ensures
        final(row)@ == old(row)@ + spec_styled(chars@, color),
{
    let mut at: usize = 0;
    assert(spec_styled(chars@.take(0), color) =~= Seq::<Cell>::empty());
    assert(row@ =~= old(row)@ + spec_styled(chars@.take(0), color));
    while at < chars.len()
        invariant
            at <= chars.len(),
            row@ == old(row)@ + spec_styled(chars@.take(at as int), color),
        decreases chars.len() - at,
    {
        let ghost before = row@;
        let glyph = glyph_at(chars, at);
        let cell = Cell { glyph, color };
        row.push(cell);
        proof {
            let done = spec_styled(chars@.take(at as int), color);
            assert(chars@.take(at + 1) =~= chars@.take(at as int).push(chars@[at as int]));
            lemma_styled_push(chars@.take(at as int), chars@[at as int], color);
            assert(row@ == before.push(cell));
            assert((old(row)@ + done).push(cell) =~= old(row)@ + done.push(cell));
        }
        at += 1;
    }
    assert(chars@.take(at as int) =~= chars@);
}

/// Adds a text in one colour.
pub fn push_text(row: &mut Vec<Cell>, text: &str, color: Option<Color>)
    ensures
        final(row)@ == old(row)@ + spec_styled(text@, color),
{
    let chars = to_chars(text);
    push_chars(row, &chars, color);
}

/// Adds a number in decimal.
pub fn push_decimal(row: &mut Vec<Cell>, number: usize, color: Option<Color>)
    ensures
        final(row)@ == old(row)@ + spec_styled(spec_decimal(number as nat), color),
{
    let digits = decimal(number);
    push_chars(row, &digits, color);
}

/// Adds the glyph until the row is `width` wide.
pub fn fill_to(row: &mut Vec<Cell>, width: usize, glyph: char, color: Option<Color>)
    ensures
        final(row)@ == spec_fill_to(old(row)@, width as int, glyph, color),
{
    let filled: usize = row.len();
    if filled < width {
        push_repeat(row, glyph, width - filled, color);
    } else {
        assert(row@ =~= spec_fill_to(old(row)@, width as int, glyph, color));
    }
}

/// Adds the glyph until the row reaches two columns past `column`; nothing
/// where there is no column.
pub fn fill_past(row: &mut Vec<Cell>, column: Option<usize>, glyph: char, color: Option<Color>)
    ensures
        final(row)@ == spec_fill_to(old(row)@, spec_past(column), glyph, color),
{
    match column {
        Some(last) => {
            let filled: usize = row.len();
            if filled <= last {
                push_repeat(row, glyph, last - filled, color);
                push_repeat(row, glyph, 2, color);
            } else if filled - last < 2 {
                push_repeat(row, glyph, 1, color);
            }
            assert(row@ =~= spec_fill_to(old(row)@, last + 2, glyph, color));
        },
        None => {
            assert(row@ =~= spec_fill_to(old(row)@, 0, glyph, color));
        },
    }
}

/// Adds blanks until the row is `width` wide.
pub fn pad_to(row: &mut Vec<Cell>, width: usize)
    ensures
        final(row)@ == spec_pad_to(old(row)@, width as int),
{
    fill_to(row, width, ' ', None);
}

/// Adds cells as they are.
pub fn push_cells(row: &mut Vec<Cell>, cells: &Vec<Cell>)
    ensures
        final(row)@ == old(row)@ + cells@,
{
    let mut at: usize = 0;
    assert(row@ =~= old(row)@ + cells@.take(0));
    while at < cells.len()
        invariant
            at <= cells.len(),
            row@ == old(row)@ + cells@.take(at as int),
        decreases cells.len() - at,
    {
        row.push(cells[at]);
        assert(row@ =~= old(row)@ + cells@.take(at + 1));
        at += 1;
    }
    assert(cells@.take(at as int) =~= cells@);
}

} // verus!
