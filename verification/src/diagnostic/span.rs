//! A stretch of source text between two positions.

use super::position::Position;
use vstd::prelude::*;

verus! {

/// The text from `start_position` up to `end_position`. A span is well formed
/// when its start does not come after its end; a span whose two positions are
/// equal is well formed and covers nothing.
#[derive(Debug, Clone, Copy, PartialEq, Eq, Structural, PartialOrd, Ord, Hash)]
pub struct Span {
    pub start_position: Position,
    pub end_position: Position,
}

impl Span {
    /// The start does not come after the end.
    pub open spec fn wf(self) -> bool {
        self.start_position.spec_at_most(self.end_position)
    }

    /// The span starts on one line and ends on another.
    pub open spec fn spec_is_multiline(self) -> bool {
        self.start_position.line != self.end_position.line
    }

    /// The line lies between the first and the last line of the span, both
    /// included.
    pub open spec fn spec_is_in(self, line: int) -> bool {
        self.start_position.line <= line <= self.end_position.line
    }

    /// The number of columns that the span covers, for a span that lies on one
    /// line and does not end before it starts. No other span has a width.
    pub open spec fn spec_width(self) -> Option<int> {
        if self.start_position.line != self.end_position.line || self.start_position.column
            > self.end_position.column {
            None
        } else {
            Some(self.end_position.column - self.start_position.column)
        }
    }

    /// The width where the span has one, else the largest `usize`, which stands
    /// for "unbounded".
    pub open spec fn spec_offset(self) -> int {
        match self.spec_width() {
            Some(width) => width,
            None => usize::MAX as int,
        }
    }

    /// `self` with its end moved to the end of `other`, unless `other` ends
    /// before `self` starts: then `self`.
    pub open spec fn spec_expand(self, other: Span) -> Span {
        if other.end_position.spec_precedes(self.start_position) {
            self
        } else {
            Span { start_position: self.start_position, end_position: other.end_position }
        }
    }

    pub fn new(start_position: Position, end_position: Position) -> (span: Span)
        ensures
            span.start_position == start_position,
            span.end_position == end_position,
    {
        Span { start_position, end_position }
    }

    /// The span from the start of one line to the start of another.
    pub fn range(start_line_number: usize, end_line_number: usize) -> (span: Span)
        ensures
            span == (Span {
                start_position: Position { line: start_line_number, column: 0 },
                end_position: Position { line: end_line_number, column: 0 },
            }),
    {
        Span::multiple_line(start_line_number, 0, end_line_number, 0)
    }

    /// The span between two columns of one line.
    pub fn single_line(line_number: usize, start: usize, end: usize) -> (span: Span)
        ensures
            span == (Span {
                start_position: Position { line: line_number, column: start },
                end_position: Position { line: line_number, column: end },
            }),
    {
        Span {
            start_position: Position::new(line_number, start),
            end_position: Position::new(line_number, end),
        }
    }

    /// The span from a column of one line to a column of another.
    pub fn multiple_line(
        start_line_number: usize,
        start: usize,
        end_line_number: usize,
        end: usize,
    ) -> (span: Span)
        ensures
            span == (Span {
                start_position: Position { line: start_line_number, column: start },
                end_position: Position { line: end_line_number, column: end },
            }),
    {
        Span {
            start_position: Position::new(start_line_number, start),
            end_position: Position::new(end_line_number, end),
        }
    }

    /// Grows the span to the end of `other`. The start never moves, and a span
    /// that ends before this one starts changes nothing.
    pub fn expand(&self, other: Span) -> (grown: Span)
        ensures
            grown == self.spec_expand(other),
    {
        if other.end_position.precedes(&self.start_position) {
            *self
        } else {
            Span::new(self.start_position, other.end_position)
        }
    }

    pub fn is_multiline(&self) -> (multiline: bool)
        ensures
            multiline == self.spec_is_multiline(),
    {
        self.start_position.line != self.end_position.line
    }

    pub fn is_in(&self, line: usize) -> (inside: bool)
        ensures
            inside == self.spec_is_in(line as int),
    {
        self.start_position.line <= line && line <= self.end_position.line
    }

    /// The width of a span that has one.
    pub fn width(&self) -> (width: Option<usize>)
        ensures
            match width {
                Some(columns) => self.spec_width() == Some(columns as int),
                None => self.spec_width() is None,
            },
    {
        if self.start_position.line != self.end_position.line || self.start_position.column
            > self.end_position.column {
            None
        } else {
            Some(self.end_position.column - self.start_position.column)
        }
    }

    /// The width of the span, or `usize::MAX` for a span that has none. A
    /// caller that wants to draw must not compute with that value: `width`
    /// tells the two cases apart.
    pub fn offset(&self) -> (offset: usize)
        ensures
            offset == self.spec_offset(),
    {
        match self.width() {
            Some(columns) => columns,
            None => usize::MAX,
        }
    }
}

/// A well-formed span on one line is not multi-line and its offset is the
/// distance between its two columns.
pub proof fn lemma_single_line_offset(span: Span)
    requires
        span.wf(),
        span.start_position.line == span.end_position.line,
    ensures
        span.spec_offset() == span.end_position.column - span.start_position.column,
        span.spec_width() == Some(span.end_position.column - span.start_position.column),
        !span.spec_is_multiline(),
{
}

/// A span whose two lines differ is multi-line, has no width, and its offset
/// is the unbounded value.
pub proof fn lemma_multiline_offset(span: Span)
    requires
        span.start_position.line != span.end_position.line,
    ensures
        span.spec_offset() == usize::MAX,
        span.spec_width() is None,
        span.spec_is_multiline(),
{
}

/// A span holds every line from its first to its last, and neither the line
/// before the first nor the line after the last.
pub proof fn lemma_is_in_bounds(span: Span, line: int)
    ensures
        span.start_position.line <= line <= span.end_position.line ==> span.spec_is_in(line),
        !span.spec_is_in(span.start_position.line - 1),
        !span.spec_is_in(span.end_position.line + 1),
        span.spec_is_in(line) ==> span.start_position.line <= line <= span.end_position.line,
{
}

/// Expanding keeps the start where it is, and ends either where the span
/// ended or where the other span ends. Expanding a well-formed span gives a
/// well-formed span.
pub proof fn lemma_expand_keeps_start(span: Span, other: Span)
    ensures
        span.spec_expand(other).start_position == span.start_position,
        span.spec_expand(other).end_position == span.end_position || span.spec_expand(
            other,
        ).end_position == other.end_position,
        span.wf() ==> span.spec_expand(other).wf(),
{
}

} // verus!
