//! A source text as a list of lines.

use super::cell::{glyph_at, to_chars, to_text};
use super::line::{Line, LineView};
use vstd::prelude::*;

verus! {

/// The lines of one source text, in order.
#[derive(Debug)]
pub struct Source {
    pub lines: Vec<Line>,
}

/// A range of lines was asked for that the source does not hold.
#[derive(Debug, Clone, Copy, PartialEq, Eq, Structural)]
pub struct RangeError {
    pub from: usize,
    pub to: usize,
    pub line_count: usize,
}

/// The index of the first line feed at or after `from`, or the length of the
/// text where there is none.
pub open spec fn spec_break_at(text: Seq<char>, from: int) -> int
    decreases text.len() - from,
{
    if from < 0 || from >= text.len() {
        text.len() as int
    } else if text[from] == '\n' {
        from
    } else {
        spec_break_at(text, from + 1)
    }
}

/// The text of the line that starts at `from` and stops at `stop`. Where a
/// line feed ends the line and a carriage return stands before it, the
/// carriage return belongs to the line ending.
pub open spec fn spec_line_text(text: Seq<char>, from: int, stop: int) -> Seq<char> {
    if stop < text.len() && from < stop && text[stop - 1] == '\r' {
        text.subrange(from, stop - 1)
    } else {
        text.subrange(from, stop)
    }
}

/// The lines of the text from index `from` on.
pub open spec fn spec_lines_from(text: Seq<char>, from: int) -> Seq<Seq<char>>
    decreases text.len() - from,
{
    if from < 0 || from >= text.len() {
        Seq::empty()
    } else {
        let stop = spec_break_at(text, from);
        if stop < from || stop >= text.len() {
            seq![spec_line_text(text, from, stop)]
        } else {
            seq![spec_line_text(text, from, stop)] + spec_lines_from(text, stop + 1)
        }
    }
}

/// The lines of a text. A line ends at a line feed, or at a carriage return
/// and a line feed; the ending is no part of the line. The last line needs no
/// ending, and an ending at the end of the text starts no further line.
pub open spec fn spec_split_lines(text: Seq<char>) -> Seq<Seq<char>> {
    spec_lines_from(text, 0)
}

/// The number of bytes that a text takes in UTF-8, as a `usize`.
pub open spec fn spec_byte_length(text: Seq<char>) -> usize {
    vstd::utf8::encode_utf8(text).len() as usize
}

/// The texts of a list of lines.
pub open spec fn spec_texts(lines: Seq<Line>) -> Seq<Seq<char>> {
    lines.map_values(|line: Line| line.chars@)
}

/// What each line of a list says.
pub open spec fn spec_line_views(lines: Seq<Line>) -> Seq<LineView> {
    lines.map_values(|line: Line| line@)
}

/// The line with the given index of a text that was split into `texts`: its
/// index is its number, it starts at offset zero, and its length is that of
/// its text in bytes.
pub open spec fn spec_source_line(texts: Seq<Seq<char>>, index: int) -> LineView {
    LineView {
        line_number: index as usize,
        offset: 0,
        length: spec_byte_length(texts[index]),
        chars: texts[index],
    }
}

/// The lines of a text.
pub open spec fn spec_source(text: Seq<char>) -> Seq<LineView> {
    Seq::new(
        spec_split_lines(text).len(),
        |index: int| spec_source_line(spec_split_lines(text), index),
    )
}

/// The items from index `from` to index `to`, both included; none where
/// `from` lies after `to`.
pub open spec fn spec_sub_list<T>(lines: Seq<T>, from: int, to: int) -> Seq<T> {
    if from <= to {
        lines.subrange(from, to + 1)
    } else {
        Seq::empty()
    }
}

/// No line of a text holds a line feed.
pub proof fn lemma_lines_hold_no_line_feed(text: Seq<char>, from: int, index: int, at: int)
    requires
        0 <= from <= text.len(),
        0 <= index < spec_lines_from(text, from).len(),
        0 <= at < spec_lines_from(text, from)[index].len(),
    ensures
        spec_lines_from(text, from)[index][at] != '\n',
    decreases text.len() - from,
{
    lemma_break_at(text, from);
    let stop = spec_break_at(text, from);
    if index == 0 {
        assert(spec_lines_from(text, from)[0] == spec_line_text(text, from, stop));
    } else {
        assert(stop < text.len());
        assert(spec_lines_from(text, from)[index] == spec_lines_from(text, stop + 1)[index - 1]);
        lemma_lines_hold_no_line_feed(text, stop + 1, index - 1, at);
    }
}

/// What the lines of a range say are the views of that range.
pub proof fn lemma_sub_list_views(lines: Seq<Line>, from: int, to: int)
    requires
        0 <= from < lines.len(),
        0 <= to < lines.len(),
    ensures
        spec_line_views(spec_sub_list(lines, from, to)) == spec_sub_list(
            spec_line_views(lines),
            from,
            to,
        ),
{
    assert(spec_line_views(spec_sub_list(lines, from, to)) =~= spec_sub_list(
        spec_line_views(lines),
        from,
        to,
    ));
}

/// The first line feed at or after `from` lies between `from` and the end of
/// the text, and no line feed stands before it.
pub proof fn lemma_break_at(text: Seq<char>, from: int)
    requires
        0 <= from <= text.len(),
    ensures
        from <= spec_break_at(text, from) <= text.len(),
        spec_break_at(text, from) < text.len() ==> text[spec_break_at(text, from)] == '\n',
        forall|i: int| from <= i < spec_break_at(text, from) ==> text[i] != '\n',
    decreases text.len() - from,
{
    if from < text.len() && text[from] != '\n' {
        lemma_break_at(text, from + 1);
    }
}

impl View for Source {
    type V = Seq<LineView>;

    open spec fn view(&self) -> Seq<LineView> {
        spec_line_views(self.lines@)
    }
}

impl Clone for Source {
    fn clone(&self) -> (copy: Self)
        ensures
            copy.lines@ == self.lines@,
            copy@ == self@,
    {
        let mut lines: Vec<Line> = Vec::new();
        let mut at: usize = 0;
        while at < self.lines.len()
            invariant
                at <= self.lines.len(),
                lines@ == self.lines@.take(at as int),
            decreases self.lines.len() - at,
        {
            lines.push(self.lines[at].clone());
            assert(self.lines@.take(at + 1) =~= self.lines@.take(at as int).push(
                self.lines@[at as int],
            ));
            at += 1;
        }
        assert(self.lines@.take(at as int) =~= self.lines@);
        Source { lines }
    }
}

impl Source {
    /// The lines are numbered from zero in steps of one, start at offset
    /// zero, and each knows the length of its text in bytes: what splitting a
    /// text gives.
    pub open spec fn wf(self) -> bool {
        forall|i: int|
            0 <= i < self@.len() ==> {
                &&& (#[trigger] self@[i]).line_number == i
                &&& self@[i].offset == 0
                &&& self@[i].length == spec_byte_length(self@[i].chars)
            }
    }

    pub fn new(lines: Vec<Line>) -> (source: Source)
        ensures
            source.lines == lines,
    {
        Source { lines }
    }

    /// The number of lines.
    pub fn line_count(&self) -> (count: usize)
        ensures
            count == self@.len(),
    {
        self.lines.len()
    }

    /// The lines from `from` to `to`, both included. Fails where one of the
    /// two is no line of the source.
    pub fn sub_list(&self, from: usize, to: usize) -> (found: Result<Vec<Line>, RangeError>)
        ensures
            match found {
                Ok(lines) => {
                    &&& from < self@.len()
                    &&& to < self@.len()
                    &&& lines@ == spec_sub_list(self.lines@, from as int, to as int)
                    &&& spec_line_views(lines@) == spec_sub_list(self@, from as int, to as int)
                },
                Err(error) => {
                    &&& (from >= self@.len() || to >= self@.len())
                    &&& error == (RangeError { from, to, line_count: self@.len() as usize })
                },
            },
    {
        let count: usize = self.lines.len();
        if from >= count || to >= count {
            return Err(RangeError { from, to, line_count: count });
        }
        let mut lines: Vec<Line> = Vec::new();
        proof {
            lemma_sub_list_views(self.lines@, from as int, to as int);
        }
        if from > to {
            return Ok(lines);
        }
        let mut at: usize = from;
        while at <= to
            invariant
                from <= at <= to + 1,
                to < self.lines.len(),
                lines@ == self.lines@.subrange(from as int, at as int),
            decreases to + 1 - at,
        {
            lines.push(self.lines[at].clone());
            assert(self.lines@.subrange(from as int, at + 1) =~= self.lines@.subrange(
                from as int,
                at as int,
            ).push(self.lines@[at as int]));
            at += 1;
        }
        Ok(lines)
    }

    /// Splits a text into its lines.
    pub fn from_string(source: String) -> (split: Source)
        ensures
            split@ == spec_source(source@),
            split.wf(),
    {
        let chars = to_chars(source.as_str());
        let count: usize = chars.len();
        let mut lines: Vec<Line> = Vec::new();
        let mut from: usize = 0;
        let ghost texts = spec_split_lines(chars@);
        while from < count
            invariant
                count == chars.len(),
                chars@ == source@,
                from <= count,
                texts == spec_split_lines(chars@),
                texts == spec_texts(lines@) + spec_lines_from(chars@, from as int),
                forall|i: int|
                    0 <= i < lines@.len() ==> (#[trigger] lines@[i])@ == spec_source_line(
                        texts,
                        i,
                    ) && lines@[i].line_number == i,
            decreases count - from,
        {
            let mut stop: usize = from;
            while stop < count && glyph_at(&chars, stop) != '\n'
                invariant
                    count == chars.len(),
                    from <= stop <= count,
                    spec_break_at(chars@, stop as int) == spec_break_at(chars@, from as int),
                decreases count - stop,
            {
                stop += 1;
            }
            let end: usize = if stop < count && from < stop && glyph_at(&chars, stop - 1) == '\r' {
                stop - 1
            } else {
                stop
            };
            let text = to_text(&chars, from, end);
            let length: usize = text.as_str().len();
            let ghost before = lines@;
            let line = Line::new(lines.len(), 0, length, text);
            lines.push(line);
            proof {
                assert(spec_break_at(chars@, from as int) == stop);
                assert(line.chars@ == spec_line_text(chars@, from as int, stop as int));
                assert(spec_texts(lines@) =~= spec_texts(before).push(line.chars@));
                assert(spec_lines_from(chars@, stop + 1) =~= if stop < count {
                    spec_lines_from(chars@, stop + 1)
                } else {
                    Seq::empty()
                });
                assert(spec_lines_from(chars@, from as int) =~= seq![line.chars@] + spec_lines_from(
                    chars@,
                    stop + 1,
                ));
                assert(spec_texts(lines@) + spec_lines_from(chars@, stop + 1) =~= spec_texts(before)
                    + spec_lines_from(chars@, from as int));
                assert(texts[before.len() as int] == line.chars@);
                assert forall|i: int| 0 <= i < lines@.len() implies (#[trigger] lines@[i])@
                    == spec_source_line(texts, i) && lines@[i].line_number == i by {
                    if i < before.len() {
                        assert(lines@[i] == before[i]);
                    } else {
                        assert(lines@[i] == line);
                    }
                }
            }
            if stop < count {
                from = stop + 1;
            } else {
                from = count;
            }
        }
        let split = Source { lines };
        proof {
            assert(spec_texts(lines@) + spec_lines_from(chars@, from as int) =~= spec_texts(
                lines@,
            ));
            assert(split@ =~= spec_source(source@));
            assert forall|i: int| 0 <= i < split@.len() implies {
                &&& (#[trigger] split@[i]).line_number == i
                &&& split@[i].offset == 0
                &&& split@[i].length == spec_byte_length(split@[i].chars)
            } by {
                assert(split@[i] == lines@[i]@);
                assert(lines@[i]@ == spec_source_line(texts, i));
            }
        }
        split
    }
}

} // verus!
