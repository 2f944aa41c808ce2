//! Colours, and the escape sequences that switch a terminal to them.

use super::decimal::{spec_decimal, spec_digit};
use vstd::prelude::*;

verus! {

/// The sixteen colours of the 4-bit ANSI palette.
#[derive(Debug, Clone, Copy, PartialEq, Eq, Structural, PartialOrd, Ord, Hash)]
pub enum AnsiColor {
    Black,
    Red,
    Green,
    Yellow,
    Blue,
    Magenta,
    Cyan,
    White,
    BrightBlack,
    BrightRed,
    BrightGreen,
    BrightYellow,
    BrightBlue,
    BrightMagenta,
    BrightCyan,
    BrightWhite,
}

/// A colour of one of the three ANSI schemes: the 4-bit palette, the 8-bit
/// palette by its index, or 24-bit red, green and blue.
#[derive(Debug, Clone, Copy, PartialEq, Eq, Structural, PartialOrd, Ord, Hash)]
pub enum Color {
    Ansi(AnsiColor),
    Ansi256(u8),
    Rgb(u8, u8, u8),
}

impl AnsiColor {
    /// The number of the colour in the palette: black is 0, white is 7, and
    /// the bright colours follow from 8 to 15.
    pub open spec fn spec_index(self) -> u8 {
        match self {
            AnsiColor::Black => 0,
            AnsiColor::Red => 1,
            AnsiColor::Green => 2,
            AnsiColor::Yellow => 3,
            AnsiColor::Blue => 4,
            AnsiColor::Magenta => 5,
            AnsiColor::Cyan => 6,
            AnsiColor::White => 7,
            AnsiColor::BrightBlack => 8,
            AnsiColor::BrightRed => 9,
            AnsiColor::BrightGreen => 10,
            AnsiColor::BrightYellow => 11,
            AnsiColor::BrightBlue => 12,
            AnsiColor::BrightMagenta => 13,
            AnsiColor::BrightCyan => 14,
            AnsiColor::BrightWhite => 15,
        }
    }

    pub fn index(&self) -> (index: u8)
        ensures
            index == self.spec_index(),
            index < 16,
    {
        match self {
            AnsiColor::Black => 0,
            AnsiColor::Red => 1,
            AnsiColor::Green => 2,
            AnsiColor::Yellow => 3,
            AnsiColor::Blue => 4,
            AnsiColor::Magenta => 5,
            AnsiColor::Cyan => 6,
            AnsiColor::White => 7,
            AnsiColor::BrightBlack => 8,
            AnsiColor::BrightRed => 9,
            AnsiColor::BrightGreen => 10,
            AnsiColor::BrightYellow => 11,
            AnsiColor::BrightBlue => 12,
            AnsiColor::BrightMagenta => 13,
            AnsiColor::BrightCyan => 14,
            AnsiColor::BrightWhite => 15,
        }
    }
}

/// The escape character and the bracket that every sequence starts with.
pub open spec fn spec_escape_start() -> Seq<char> {
    seq!['\u{1b}', '[']
}

/// The sequence that ends all styling: `ESC [ 0 m`.
pub open spec fn spec_reset() -> Seq<char> {
    spec_escape_start() + seq!['0', 'm']
}

/// The sequence for a colour of the 4-bit palette as foreground: code 30 to
/// 37 for the plain colours, 90 to 97 for the bright ones.
pub open spec fn spec_ansi_foreground(index: u8) -> Seq<char> {
    spec_escape_start() + seq![
        if index < 8 {
            '3'
        } else {
            '9'
        },
        spec_digit(index as int % 8),
        'm',
    ]
}

/// The sequence for a colour of the 8-bit palette as foreground:
/// `ESC [ 38 ; 5 ; index m`.
pub open spec fn spec_indexed_foreground(index: u8) -> Seq<char> {
    spec_escape_start() + seq!['3', '8', ';', '5', ';'] + spec_decimal(index as nat) + seq!['m']
}

/// The sequence for a 24-bit colour as foreground:
/// `ESC [ 38 ; 2 ; red ; green ; blue m`.
pub open spec fn spec_rgb_foreground(red: u8, green: u8, blue: u8) -> Seq<char> {
    spec_escape_start() + seq!['3', '8', ';', '2', ';'] + spec_decimal(red as nat) + seq![';']
        + spec_decimal(green as nat) + seq![';'] + spec_decimal(blue as nat) + seq!['m']
}

impl Color {
    /// The escape sequence that makes the colour the foreground.
    pub open spec fn spec_foreground(self) -> Seq<char> {
        match self {
            Color::Ansi(color) => spec_ansi_foreground(color.spec_index()),
            Color::Ansi256(index) => spec_indexed_foreground(index),
            Color::Rgb(red, green, blue) => spec_rgb_foreground(red, green, blue),
        }
    }

    /// The escape sequence that makes the colour the foreground.
    pub fn foreground(&self) -> (code: String)
        ensures
            code@ == self.spec_foreground(),
    {
        match self {
            Color::Ansi(color) => ansi_foreground(color.index()),
            Color::Ansi256(index) => indexed_foreground(*index),
            Color::Rgb(red, green, blue) => rgb_foreground(*red, *green, *blue),
        }
    }
}

/// The escape sequence that ends all styling.
pub fn reset() -> (code: String)
    ensures
        code@ == spec_reset(),
{
    reset_code()
}

/// `anstyle::AnsiColor::render_fg`, on the colour that
/// `anstyle::Ansi256Color::into_ansi` gives for an index below 16: the
/// rendered text is `ESC [`, then `3` or `9` and the colour's digit, then `m`.
#[verifier::external_body]
fn ansi_foreground(index: u8) -> (code: String)
    requires
        index < 16,
    ensures
        code@ == spec_ansi_foreground(index),
{
    anstyle::Ansi256Color(index).into_ansi().unwrap().render_fg().to_string()
}

/// `anstyle::Ansi256Color::render_fg`: the rendered text is `ESC [ 38 ; 5 ;`,
/// the index in decimal, and `m`.
#[verifier::external_body]
fn indexed_foreground(index: u8) -> (code: String)
    ensures
        code@ == spec_indexed_foreground(index),
{
    anstyle::Ansi256Color(index).render_fg().to_string()
}

/// `anstyle::RgbColor::render_fg`: the rendered text is `ESC [ 38 ; 2 ;`, the
/// three parts in decimal with `;` between them, and `m`.
#[verifier::external_body]
fn rgb_foreground(red: u8, green: u8, blue: u8) -> (code: String)
    ensures
        code@ == spec_rgb_foreground(red, green, blue),
{
    anstyle::RgbColor(red, green, blue).render_fg().to_string()
}

/// `anstyle::Reset::render`: the rendered text is `ESC [ 0 m`.
#[verifier::external_body]
fn reset_code() -> (code: String)
    ensures
        code@ == spec_reset(),
{
    anstyle::Reset.render().to_string()
}

} // verus!
