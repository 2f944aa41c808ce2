//! One line of a source text.

use super::position::Position;
use super::span::Span;
use vstd::prelude::*;

verus! {

/// A line: its number, where it starts, how long it is, and its text without
/// the line ending.
#[derive(Debug)]
pub struct Line {
    pub line_number: usize,
    pub offset: usize,
    pub length: usize,
    pub chars: String,
}

/// What a line says: its text as a sequence of characters.
pub struct LineView {
    pub line_number: usize,
    pub offset: usize,
    pub length: usize,
    pub chars: Seq<char>,
}

impl View for Line {
    type V = LineView;

    open spec fn view(&self) -> LineView {
        LineView {
            line_number: self.line_number,
            offset: self.offset,
            length: self.length,
            chars: self.chars@,
        }
    }
}

impl Clone for Line {
    fn clone(&self) -> (copy: Self)
        ensures
            copy == *self,
    {
        Line {
            line_number: self.line_number,
            offset: self.offset,
            length: self.length,
            chars: self.chars.clone(),
        }
    }
}

impl Line {
    /// The span from the start of the line to its end, on the line itself.
    pub open spec fn spec_span(self) -> Span {
        Span {
            start_position: Position { line: self.line_number, column: self.offset },
            end_position: Position {
                line: self.line_number,
                column: (self.offset + self.length) as usize,
            },
        }
    }

    pub fn new(line_number: usize, offset: usize, length: usize, chars: String) -> (line: Line)
        ensures
            line == (Line { line_number, offset, length, chars }),
    {
        Line { line_number, offset, length, chars }
    }

    /// The span of the whole line. The end of the line has to be a column
    /// that a `usize` can hold.
    pub fn span(&self) -> (span: Span)
        requires
            self.offset + self.length <= usize::MAX,
        ensures
            span == self.spec_span(),
            span.wf(),
            !span.spec_is_multiline(),
            span.spec_width() == Some(self.length as int),
    {
        Span::new(
            Position::new(self.line_number, self.offset),
            Position::new(self.line_number, self.offset + self.length),
        )
    }
}

} // verus!
