//! The glyphs that the frame of a diagnostic is drawn with.

use vstd::prelude::*;

verus! {

/// Twelve glyphs: bars, corners, the arrow, the ellipsis and the underline.
#[derive(Debug, Clone, Copy, PartialEq, Eq, Structural)]
pub struct CharacterSet {
    pub right_arrow: char,
    pub horizontal_bar: char,
    pub vertical_bar: char,
    pub cross_bar: char,
    pub under_bar: char,
    pub left_cross: char,
    pub vertical_bar_breaking: char,
    pub vertical_ellipsis: char,
    pub left_top: char,
    pub left_bottom: char,
    pub right_bottom: char,
    pub underline: char,
}

impl CharacterSet {
    pub fn new(
        right_arrow: char,
        horizontal_bar: char,
        vertical_bar: char,
        cross_bar: char,
        under_bar: char,
        left_cross: char,
        vertical_bar_breaking: char,
        vertical_ellipsis: char,
        left_top: char,
        left_bottom: char,
        right_bottom: char,
        underline: char,
    ) -> (set: CharacterSet)
        ensures
            set == (CharacterSet {
                right_arrow,
                horizontal_bar,
                vertical_bar,
                cross_bar,
                under_bar,
                left_cross,
                vertical_bar_breaking,
                vertical_ellipsis,
                left_top,
                left_bottom,
                right_bottom,
                underline,
            }),
    {
        CharacterSet {
            right_arrow,
            horizontal_bar,
            vertical_bar,
            cross_bar,
            under_bar,
            left_cross,
            vertical_bar_breaking,
            vertical_ellipsis,
            left_top,
            left_bottom,
            right_bottom,
            underline,
        }
    }

    /// The box-drawing glyphs of Unicode.
    pub open spec fn spec_unicode() -> CharacterSet {
        CharacterSet {
            right_arrow: '\u{25b6}',
            horizontal_bar: '\u{2500}',
            vertical_bar: '\u{2502}',
            cross_bar: '\u{253c}',
            under_bar: '\u{252c}',
            left_cross: '\u{251c}',
            vertical_bar_breaking: '\u{b7}',
            vertical_ellipsis: '\u{22ee}',
            left_top: '\u{256d}',
            left_bottom: '\u{2570}',
            right_bottom: '\u{256f}',
            underline: '\u{2500}',
        }
    }

    /// Glyphs of the ASCII range only.
    pub open spec fn spec_ascii() -> CharacterSet {
        CharacterSet {
            right_arrow: '>',
            horizontal_bar: '-',
            vertical_bar: '|',
            cross_bar: '+',
            under_bar: '|',
            left_cross: '|',
            vertical_bar_breaking: '*',
            vertical_ellipsis: ':',
            left_top: ',',
            left_bottom: '`',
            right_bottom: '\'',
            underline: '^',
        }
    }

    /// The box-drawing glyphs of Unicode.
    pub fn unicode() -> (set: CharacterSet)
        ensures
            set == CharacterSet::spec_unicode(),
    {
        CharacterSet::new(
            '\u{25b6}',
            '\u{2500}',
            '\u{2502}',
            '\u{253c}',
            '\u{252c}',
            '\u{251c}',
            '\u{b7}',
            '\u{22ee}',
            '\u{256d}',
            '\u{2570}',
            '\u{256f}',
            '\u{2500}',
        )
    }

    /// Glyphs of the ASCII range only.
    pub fn ascii() -> (set: CharacterSet)
        ensures
            set == CharacterSet::spec_ascii(),
    {
        CharacterSet::new('>', '-', '|', '+', '|', '|', '*', ':', ',', '`', '\'', '^')
    }
}

} // verus!
