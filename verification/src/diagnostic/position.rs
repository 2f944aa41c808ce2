//! A place in a source text.

use vstd::prelude::*;

verus! {

/// A line and a column, both counted from zero. The column counts characters
/// within the line.
#[derive(Debug, Clone, Copy, PartialEq, Eq, Structural, PartialOrd, Ord, Hash)]
pub struct Position {
    pub line: usize,
    pub column: usize,
}

impl Position {
    /// The order of positions: by line first, by column within a line.
    pub open spec fn spec_precedes(self, other: Position) -> bool {
        self.line < other.line || (self.line == other.line && self.column < other.column)
    }

    /// `self` is `other` or comes before it.
    pub open spec fn spec_at_most(self, other: Position) -> bool {
        self == other || self.spec_precedes(other)
    }

    pub fn new(line: usize, column: usize) -> (position: Position)
        ensures
            position.line == line,
            position.column == column,
    {
        Position { line, column }
    }

    /// Whether `self` comes strictly before `other`.
    pub fn precedes(&self, other: &Position) -> (before: bool)
        ensures
            before == self.spec_precedes(*other),
    {
        self.line < other.line || (self.line == other.line && self.column < other.column)
    }
}

/// Of two different positions exactly one precedes the other, and the order
/// is transitive: positions are totally ordered.
pub proof fn lemma_position_order_total(a: Position, b: Position, c: Position)
    ensures
        !a.spec_precedes(a),
        a != b ==> (a.spec_precedes(b) != b.spec_precedes(a)),
        a.spec_precedes(b) && b.spec_precedes(c) ==> a.spec_precedes(c),
{
}

} // verus!
