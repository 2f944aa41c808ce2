//! Styled text becomes plain text with escape sequences.

use super::cell::{spec_glyphs, Cell};
use super::color::{reset, spec_reset, Color};
use vstd::prelude::*;
use vstd::string::StringExecFns;

verus! {

/// What is written between two characters when the colour changes from one
/// to the other: the reset where a colour ends, and the sequence of the
/// colour that begins. Nothing where the colour stays.
pub open spec fn spec_switch(from: Option<Color>, to: Option<Color>) -> Seq<char> {
    if from == to {
        Seq::empty()
    } else {
        (if from is Some {
            spec_reset()
        } else {
            Seq::<char>::empty()
        }) + (match to {
            Some(color) => color.spec_foreground(),
            None => Seq::<char>::empty(),
        })
    }
}

/// The text of the cells from index `at` on, when the colour `current` is
/// on. After the last cell the colour is switched off.
pub open spec fn spec_paint_from(cells: Seq<Cell>, at: int, current: Option<Color>) -> Seq<char>
    decreases cells.len() - at,
{
    if at < 0 || at >= cells.len() {
        spec_switch(current, None)
    } else {
        (spec_switch(current, cells[at].color) + seq![cells[at].glyph]) + spec_paint_from(
            cells,
            at + 1,
            cells[at].color,
        )
    }
}

/// The text of styled cells: with colours, the characters and between them
/// the escape sequences that switch the colours; without, the characters
/// alone.
pub open spec fn spec_paint(cells: Seq<Cell>, colors: bool) -> Seq<char> {
    if colors {
        spec_paint_from(cells, 0, None)
    } else {
        spec_glyphs(cells)
    }
}

/// Whether two colours are the same.
pub fn same_color(first: Option<Color>, second: Option<Color>) -> (same: bool)
    ensures
        same == (first == second),
{
    match (first, second) {
        (Some(one), Some(other)) => one == other,
        (None, None) => true,
        _ => false,
    }
}

/// Adds what switches from one colour to another.
pub fn push_switch(text: &mut String, from: Option<Color>, to: Option<Color>)
    ensures
        final(text)@ == old(text)@ + spec_switch(from, to),
{
    if same_color(from, to) {
        assert(text@ =~= old(text)@ + spec_switch(from, to));
        return ;
    }
    if from.is_some() {
        let code = reset();
        text.append(code.as_str());
    }
    match to {
        Some(color) => {
            let code = color.foreground();
            text.append(code.as_str());
        },
        None => {},
    }
    assert(text@ =~= old(text)@ + spec_switch(from, to));
}

/// The characters of the cells, without colours.
pub fn plain(cells: &Vec<Cell>) -> (text: String)
    ensures
        text@ == spec_glyphs(cells@),
{
    let mut text = String::new();
    let mut at: usize = 0;
    while at < cells.len()
        invariant
            at <= cells.len(),
            text@ == spec_glyphs(cells@).take(at as int),
        decreases cells.len() - at,
    {
        text.push(cells[at].glyph);
        assert(text@ =~= spec_glyphs(cells@).take(at + 1));
        at += 1;
    }
    assert(spec_glyphs(cells@).take(at as int) =~= spec_glyphs(cells@));
    text
}

/// The cells as text with escape sequences.
pub fn colored(cells: &Vec<Cell>) -> (text: String)
    ensures
        text@ == spec_paint_from(cells@, 0, None),
{
    let mut text = String::new();
    let mut current: Option<Color> = None;
    let mut at: usize = 0;
    assert(text@ + spec_paint_from(cells@, 0, None) =~= spec_paint_from(cells@, 0, None));
    while at < cells.len()
        invariant
            at <= cells.len(),
            text@ + spec_paint_from(cells@, at as int, current) == spec_paint_from(
                cells@,
                0,
                None,
            ),
        decreases cells.len() - at,
    {
        let ghost before = text@;
        let ghost rest = spec_paint_from(cells@, at as int, current);
        let cell = cells[at];
        push_switch(&mut text, current, cell.color);
        text.push(cell.glyph);
        current = cell.color;
        assert(text@ + spec_paint_from(cells@, at + 1, current) =~= before + rest);
        at += 1;
    }
    push_switch(&mut text, current, None);
    text
}

/// The cells as text, with or without colours.
pub fn paint(cells: &Vec<Cell>, colors: bool) -> (text: String)
    ensures
        text@ == spec_paint(cells@, colors),
{
    if colors {
        colored(cells)
    } else {
        plain(cells)
    }
}

} // verus!
