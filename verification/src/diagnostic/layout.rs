//! The engine: a report and the lines it speaks of become rows of styled
//! text.

use super::annotate::{
    push_connectors, push_hint, push_line_text, push_message, push_row, spec_connectors,
    spec_hint, spec_line_text, spec_message, spec_row, spec_underline, underline,
};
use super::cell::{
    fill_past, push_decimal, push_glyph, push_repeat, push_text, spec_blank, spec_cell,
    spec_past, spec_repeat, spec_styled, to_chars, Cell,
};
use super::char_set::CharacterSet;
use super::color::{AnsiColor, Color};
use super::decimal::spec_decimal;
use super::label::Label;
use super::line::{Line, LineView};
use super::margin::{
    frame_color, gutter_width, lemma_lanes_blank, push_blank_gutter, push_number_gutter,
    push_occupancy,
    spec_blank_gutter, spec_frame_color, spec_gutter_width, spec_number_gutter, spec_occupancy,
    Lanes,
};
use super::order::{drawn, spec_drawn};
use super::position::Position;
use super::report::{Report, ReportType, ReportView};
use super::select::{
    last_column, lemma_gap_is_free, multi_line, on_line, relevant, spec_ends_on, spec_extent,
    spec_multi, spec_on_line, spec_relevant,
};
use super::source::{spec_line_views, spec_sub_list, RangeError, Source};
use vstd::prelude::*;

verus! {

/// The lanes of a row below a shown line, while the labels before lane
/// `closed` that end on the line are closed.
pub open spec fn spec_below(number: usize, closed: usize, glyphs: CharacterSet) -> Lanes {
    Lanes { number, real: false, closed, terminated: None, bar: glyphs.vertical_bar }
}

/// The margin of a row below a shown line.
pub open spec fn spec_margin(
    multi: Seq<Label>,
    glyphs: CharacterSet,
    width: int,
    number: usize,
    closed: usize,
) -> Seq<Cell> {
    spec_blank_gutter(width, glyphs.vertical_bar_breaking) + spec_occupancy(
        multi,
        glyphs,
        spec_below(number, closed, glyphs),
    )
}

/// The margin of the row that closes a lane: the lane ends in a corner.
pub open spec fn spec_closing_margin(
    multi: Seq<Label>,
    glyphs: CharacterSet,
    width: int,
    number: usize,
    lane: usize,
) -> Seq<Cell> {
    spec_blank_gutter(width, glyphs.vertical_bar_breaking) + spec_occupancy(
        multi,
        glyphs,
        Lanes { terminated: Some(lane), ..spec_below(number, lane, glyphs) },
    )
}

/// The rows that close one label over several lines: a row of the margin
/// alone; a row on which the lane of the label turns into a bar that runs to
/// the extent of the line and ends in the message; and a row for the hint,
/// where the label has one, on which the lane is closed.
pub open spec fn spec_closing(
    multi: Seq<Label>,
    glyphs: CharacterSet,
    width: int,
    number: usize,
    extent: int,
    lane: usize,
) -> Seq<Cell> {
    let label = multi[lane as int];
    spec_row(spec_margin(multi, glyphs, width, number, lane), Seq::empty()) + spec_row(
        spec_closing_margin(multi, glyphs, width, number, lane),
        spec_repeat(glyphs.horizontal_bar, extent, label.format) + spec_message(label),
    ) + (match label.hint {
        Some(hint) => spec_row(
            spec_margin(multi, glyphs, width, number, (lane + 1) as usize),
            spec_blank(extent) + spec_hint(hint@),
        ),
        None => Seq::empty(),
    })
}

/// The rows that close the labels over several lines which end on the line,
/// from lane `lane` on: one after the other in the order of their lanes,
/// each with rows of its own.
pub open spec fn spec_closings(
    multi: Seq<Label>,
    glyphs: CharacterSet,
    width: int,
    number: usize,
    extent: int,
    lane: int,
) -> Seq<Cell>
    decreases multi.len() - lane,
{
    if lane < 0 || lane >= multi.len() {
        Seq::empty()
    } else {
        (if spec_ends_on(multi[lane], number as int) {
            spec_closing(multi, glyphs, width, number, extent, lane as usize)
        } else {
            Seq::empty()
        }) + spec_closings(multi, glyphs, width, number, extent, lane + 1)
    }
}

/// The rows below a shown line that belong to the labels on that line: the
/// underlines and the rows of the messages. Nothing where the line has no
/// such label.
pub open spec fn spec_notes(
    labels: Seq<Label>,
    glyphs: CharacterSet,
    width: int,
    number: usize,
) -> Seq<Cell> {
    let singles = spec_on_line(labels, number as int);
    let margin = spec_margin(spec_multi(labels), glyphs, width, number, 0);
    if singles.len() > 0 {
        spec_row(margin, spec_underline(singles, glyphs)) + spec_connectors(
            margin,
            singles,
            spec_extent(labels, number as int),
            glyphs,
        )
    } else {
        Seq::empty()
    }
}

/// The row of a shown line: its number, the lanes, and its text.
pub open spec fn spec_text_row(
    labels: Seq<Label>,
    glyphs: CharacterSet,
    width: int,
    line: LineView,
) -> Seq<Cell> {
    spec_row(
        spec_number_gutter(line.line_number as nat, width, glyphs) + spec_occupancy(
            spec_multi(labels),
            glyphs,
            Lanes { real: true, ..spec_below(line.line_number, 0, glyphs) },
        ),
        spec_line_text(
            line.chars,
            spec_on_line(labels, line.line_number as int),
            spec_multi(labels),
            line.line_number as int,
        ),
    )
}

/// Everything that a relevant line gives: its own row, the rows of the
/// labels on it, and the rows that close the labels which end on it.
pub open spec fn spec_shown(
    labels: Seq<Label>,
    glyphs: CharacterSet,
    width: int,
    line: LineView,
) -> Seq<Cell> {
    spec_text_row(labels, glyphs, width, line) + spec_notes(
        labels,
        glyphs,
        width,
        line.line_number,
    ) + spec_closings(
        spec_multi(labels),
        glyphs,
        width,
        line.line_number,
        spec_extent(labels, line.line_number as int),
        0,
    )
}

/// The row that stands for lines which are left out: no number, the ellipsis
/// in place of the bar, and the lanes drawn with the ellipsis.
pub open spec fn spec_ellipsis(
    labels: Seq<Label>,
    glyphs: CharacterSet,
    width: int,
    number: usize,
) -> Seq<Cell> {
    spec_row(
        spec_blank_gutter(width, glyphs.vertical_ellipsis) + spec_occupancy(
            spec_multi(labels),
            glyphs,
            Lanes { bar: glyphs.vertical_ellipsis, ..spec_below(number, 0, glyphs) },
        ),
        Seq::empty(),
    )
}

/// The rows of the lines from index `at` on. A relevant line is shown. Of
/// lines that are not relevant and follow each other, the first gives one
/// ellipsis row, if the line before it was shown, and the others give
/// nothing. `shown` says whether the line before `at` was shown.
pub open spec fn spec_body(
    labels: Seq<Label>,
    glyphs: CharacterSet,
    width: int,
    lines: Seq<LineView>,
    at: int,
    shown: bool,
) -> Seq<Cell>
    decreases lines.len() - at,
{
    if at < 0 || at >= lines.len() {
        Seq::empty()
    } else if spec_relevant(labels, lines[at].line_number as int) {
        spec_shown(labels, glyphs, width, lines[at]) + spec_body(
            labels,
            glyphs,
            width,
            lines,
            at + 1,
            true,
        )
    } else if shown {
        spec_ellipsis(labels, glyphs, width, lines[at].line_number) + spec_body(
            labels,
            glyphs,
            width,
            lines,
            at + 1,
            false,
        )
    } else {
        spec_body(labels, glyphs, width, lines, at + 1, false)
    }
}

/// Lines that are not relevant and follow each other collapse: however many
/// they are, they give one ellipsis row where the line before them was
/// shown, and no row where it was left out as well. What follows them is
/// drawn as after a line that was left out. Only a report with labels has
/// such lines.
pub proof fn lemma_gap_collapses(
    labels: Seq<Label>,
    glyphs: CharacterSet,
    width: int,
    lines: Seq<LineView>,
    from: int,
    to: int,
    shown: bool,
)
    requires
        0 <= from < to <= lines.len(),
        forall|i: int| from <= i < to ==> !spec_relevant(labels, (#[trigger] lines[i]).line_number as int),
    ensures
        spec_body(labels, glyphs, width, lines, from, shown) == (if shown {
            spec_ellipsis(labels, glyphs, width, lines[from].line_number)
        } else {
            Seq::empty()
        }) + spec_body(labels, glyphs, width, lines, to, false),
    decreases to - from,
{
    let rest = spec_body(labels, glyphs, width, lines, to, false);
    assert(!spec_relevant(labels, lines[from].line_number as int));
    if from + 1 < to {
        lemma_gap_collapses(labels, glyphs, width, lines, from + 1, to, false);
        assert(spec_body(labels, glyphs, width, lines, from + 1, false) =~= rest);
    }
    if shown {
        assert(spec_body(labels, glyphs, width, lines, from, shown) =~= spec_ellipsis(
            labels,
            glyphs,
            width,
            lines[from].line_number,
        ) + rest);
    } else {
        assert(spec_body(labels, glyphs, width, lines, from, shown) =~= Seq::<Cell>::empty()
            + rest);
    }
}

/// The ellipsis row of a line that is not relevant holds no lane: it is the
/// blank margin with the ellipsis and, where there are lanes, blanks as wide
/// as they are. So every gap gives the same row.
pub proof fn lemma_ellipsis_row(labels: Seq<Label>, glyphs: CharacterSet, width: int, number: usize)
    requires
        !spec_relevant(labels, number as int),
    ensures
        spec_ellipsis(labels, glyphs, width, number) == spec_row(
            spec_blank_gutter(width, glyphs.vertical_ellipsis) + (if spec_multi(labels).len()
                == 0 {
                Seq::empty()
            } else {
                spec_blank(2 * (spec_multi(labels).len() as int) + 3)
            }),
            Seq::empty(),
        ),
{
    let multi = spec_multi(labels);
    let lanes = Lanes { bar: glyphs.vertical_ellipsis, ..spec_below(number, 0, glyphs) };
    assert forall|k: int| 0 <= k < multi.len() implies !(#[trigger] multi[k]).span.spec_is_in(
        lanes.number as int,
    ) by {
        lemma_gap_is_free(labels, number as int, k);
    }
    lemma_lanes_blank(multi, glyphs, lanes, 0);
}

/// A report without labels has no gaps: every line gives its own row and
/// nothing else, whatever came before it.
pub proof fn lemma_without_labels_every_line_is_shown(
    glyphs: CharacterSet,
    width: int,
    lines: Seq<LineView>,
    at: int,
    shown: bool,
)
    requires
        0 <= at < lines.len(),
    ensures
        spec_body(Seq::<Label>::empty(), glyphs, width, lines, at, shown) == spec_text_row(
            Seq::<Label>::empty(),
            glyphs,
            width,
            lines[at],
        ) + spec_body(Seq::<Label>::empty(), glyphs, width, lines, at + 1, true),
{
    let labels = Seq::<Label>::empty();
    let number = lines[at].line_number;
    assert(spec_relevant(labels, number as int));
    assert(spec_multi(labels) =~= labels);
    assert(spec_on_line(labels, number as int) =~= labels);
    assert(spec_notes(labels, glyphs, width, number) =~= Seq::<Cell>::empty());
    assert(spec_closings(
        spec_multi(labels),
        glyphs,
        width,
        number,
        spec_extent(labels, number as int),
        0,
    ) =~= Seq::<Cell>::empty());
    assert(spec_shown(labels, glyphs, width, lines[at]) =~= spec_text_row(
        labels,
        glyphs,
        width,
        lines[at],
    ));
}

/// A relevant line is always shown, whatever came before it.
pub proof fn lemma_relevant_shown(
    labels: Seq<Label>,
    glyphs: CharacterSet,
    width: int,
    lines: Seq<LineView>,
    at: int,
    shown: bool,
)
    requires
        0 <= at < lines.len(),
        spec_relevant(labels, lines[at].line_number as int),
    ensures
        spec_body(labels, glyphs, width, lines, at, shown) == spec_shown(
            labels,
            glyphs,
            width,
            lines[at],
        ) + spec_body(labels, glyphs, width, lines, at + 1, true),
{
}

/// The colour of the tag of a report: red for an error, yellow for a
/// warning.
pub open spec fn spec_kind_color(kind: ReportType) -> Option<Color> {
    match kind {
        ReportType::Error => Some(Color::Ansi(AnsiColor::Red)),
        ReportType::Warning => Some(Color::Ansi(AnsiColor::Yellow)),
    }
}

/// The first row: the tag in brackets, in the colour of the kind, and the
/// message.
pub open spec fn spec_header(report: ReportView) -> Seq<Cell> {
    spec_row(
        seq![spec_cell('[', spec_kind_color(report.report_type))] + spec_styled(
            report.tag,
            spec_kind_color(report.report_type),
        ) + seq![
            spec_cell(']', spec_kind_color(report.report_type)),
            spec_cell(' ', spec_kind_color(report.report_type)),
        ],
        spec_styled(report.message, None),
    )
}

/// The second row: the top corner of the frame, and in brackets the name of
/// the source with the line and the column where the report starts. The
/// corner stands right of the column of the bars: one blank more than the
/// line numbers are wide comes before it.
pub open spec fn spec_location(
    name: Seq<char>,
    position: Position,
    glyphs: CharacterSet,
    width: int,
) -> Seq<Cell> {
    spec_row(
        spec_repeat(' ', width + 1, spec_frame_color()) + seq![
            spec_cell(glyphs.left_top, spec_frame_color()),
            spec_cell(glyphs.horizontal_bar, spec_frame_color()),
            spec_cell('[', spec_frame_color()),
        ],
        spec_styled(name, None) + seq![spec_cell(':', None)] + spec_styled(
            spec_decimal(position.line as nat),
            None,
        ) + seq![spec_cell(':', None)] + spec_styled(spec_decimal(position.column as nat), None)
            + seq![spec_cell(']', spec_frame_color())],
    )
}

/// The last row: a bar below the line numbers and the column of the bars,
/// and the bottom corner of the frame, in the column of the top corner.
pub open spec fn spec_footer(glyphs: CharacterSet, width: int) -> Seq<Cell> {
    spec_row(
        spec_repeat(glyphs.horizontal_bar, width + 1, spec_frame_color()) + seq![
            spec_cell(glyphs.right_bottom, spec_frame_color()),
        ],
        Seq::empty(),
    )
}

/// A report laid out over the given lines: the header, the location, the
/// rows of the lines, and the footer. The labels are drawn in the order of
/// their start columns; a label without a colour takes one from the palette.
pub open spec fn spec_layout(
    report: ReportView,
    lines: Seq<LineView>,
    name: Seq<char>,
    glyphs: CharacterSet,
    palette: Seq<Color>,
) -> Seq<Cell> {
    let labels = spec_drawn(report.labels, palette);
    let width = spec_gutter_width(report.common_span) as int;
    spec_header(report) + spec_location(name, report.common_span.start_position, glyphs, width)
        + spec_body(labels, glyphs, width, lines, 0, true) + spec_footer(glyphs, width)
}

/// What the rows of a report need besides the lines: the labels as they are
/// drawn, those of them that run over several lines, the glyphs, and the
/// width of the line numbers.
pub struct Frame {
    pub labels: Vec<Label>,
    pub multi: Vec<Label>,
    pub glyphs: CharacterSet,
    pub width: usize,
}

impl Frame {
    /// The lanes are those of the labels.
    pub open spec fn wf(self) -> bool {
        self.multi@ == spec_multi(self.labels@)
    }

    /// The frame of a report.
    pub fn new(report: &Report, glyphs: CharacterSet, palette: &Vec<Color>) -> (frame: Frame)
        ensures
            frame.wf(),
            frame.labels@ == spec_drawn(report.labels@, palette@),
            frame.glyphs == glyphs,
            frame.width == spec_gutter_width(report.common_span),
    {
        let labels = drawn(&report.labels, palette);
        let multi = multi_line(&labels);
        Frame { labels, multi, glyphs, width: gutter_width(&report.common_span) }
    }

    /// The margin of a row below a shown line.
    fn margin(&self, number: usize, closed: usize) -> (margin: Vec<Cell>)
        ensures
            margin@ == spec_margin(self.multi@, self.glyphs, self.width as int, number, closed),
    {
        let mut margin: Vec<Cell> = Vec::new();
        push_blank_gutter(&mut margin, self.width, self.glyphs.vertical_bar_breaking);
        push_occupancy(
            &mut margin,
            &self.multi,
            &self.glyphs,
            &Lanes {
                number,
                real: false,
                closed,
                terminated: None,
                bar: self.glyphs.vertical_bar,
            },
        );
        margin
    }

    /// Adds the rows that close the label of one lane.
    fn push_closing(&self, out: &mut Vec<Cell>, number: usize, last: Option<usize>, lane: usize)
        requires
            lane < self.multi.len(),
        ensures
            final(out)@ == old(out)@ + spec_closing(
                self.multi@,
                self.glyphs,
                self.width as int,
                number,
                spec_past(last),
                lane,
            ),
    {
        let label = &self.multi[lane];
        let nothing: Vec<Cell> = Vec::new();
        let margin = self.margin(number, lane);
        push_row(out, &margin, &nothing);
        let ghost first = out@;

        let mut margin: Vec<Cell> = Vec::new();
        push_blank_gutter(&mut margin, self.width, self.glyphs.vertical_bar_breaking);
        push_occupancy(
            &mut margin,
            &self.multi,
            &self.glyphs,
            &Lanes {
                number,
                real: false,
                closed: lane,
                terminated: Some(lane),
                bar: self.glyphs.vertical_bar,
            },
        );
        let mut part: Vec<Cell> = Vec::new();
        fill_past(&mut part, last, self.glyphs.horizontal_bar, label.format);
        assert(part@ =~= spec_repeat(self.glyphs.horizontal_bar, spec_past(last), label.format));
        push_message(&mut part, label);
        push_row(out, &margin, &part);
        let ghost second = out@;

        match &label.hint {
            Some(hint) => {
                let margin = self.margin(number, lane + 1);
                let mut part: Vec<Cell> = Vec::new();
                fill_past(&mut part, last, ' ', None);
                assert(part@ =~= spec_blank(spec_past(last)));
                push_hint(&mut part, hint);
                push_row(out, &margin, &part);
            },
            None => {
                assert(out@ =~= second + Seq::<Cell>::empty());
            },
        }
        assert(out@ =~= old(out)@ + spec_closing(
            self.multi@,
            self.glyphs,
            self.width as int,
            number,
            spec_past(last),
            lane,
        ));
    }

    /// Adds the rows that close the labels which end on the line.
    fn push_closings(&self, out: &mut Vec<Cell>, number: usize, last: Option<usize>)
        ensures
            final(out)@ == old(out)@ + spec_closings(
                self.multi@,
                self.glyphs,
                self.width as int,
                number,
                spec_past(last),
                0,
            ),
    {
        let ghost extent = spec_past(last);
        let ghost width = self.width as int;
        let mut lane: usize = 0;
        assert(out@ + spec_closings(self.multi@, self.glyphs, width, number, extent, 0) =~= old(
            out,
        )@ + spec_closings(self.multi@, self.glyphs, width, number, extent, 0));
        while lane < self.multi.len()
            invariant
                lane <= self.multi.len(),
                extent == spec_past(last),
                width == self.width,
                out@ + spec_closings(self.multi@, self.glyphs, width, number, extent, lane as int)
                    == old(out)@ + spec_closings(
                    self.multi@,
                    self.glyphs,
                    width,
                    number,
                    extent,
                    0,
                ),
            decreases self.multi.len() - lane,
        {
            let ghost before = out@;
            let span = self.multi[lane].span;
            if span.is_in(number) && span.end_position.line == number {
                self.push_closing(out, number, last, lane);
            }
            assert(out@ + spec_closings(self.multi@, self.glyphs, width, number, extent, lane + 1)
                =~= before + spec_closings(
                self.multi@,
                self.glyphs,
                width,
                number,
                extent,
                lane as int,
            ));
            lane += 1;
        }
        assert(spec_closings(self.multi@, self.glyphs, width, number, extent, lane as int)
            =~= Seq::<Cell>::empty());
    }

    /// Adds the rows of the labels on a line.
    fn push_notes(&self, out: &mut Vec<Cell>, singles: &Vec<Label>, number: usize, last: Option<
        usize,
    >)
        requires
            self.wf(),
            singles@ == spec_on_line(self.labels@, number as int),
            spec_past(last) == spec_extent(self.labels@, number as int),
        ensures
            final(out)@ == old(out)@ + spec_notes(
                self.labels@,
                self.glyphs,
                self.width as int,
                number,
            ),
    {
        if singles.len() > 0 {
            let margin = self.margin(number, 0);
            let part = underline(singles, &self.glyphs);
            push_row(out, &margin, &part);
            push_connectors(out, &margin, singles, last, &self.glyphs);
            assert(out@ =~= old(out)@ + spec_notes(
                self.labels@,
                self.glyphs,
                self.width as int,
                number,
            ));
        } else {
            assert(out@ =~= old(out)@ + spec_notes(
                self.labels@,
                self.glyphs,
                self.width as int,
                number,
            ));
        }
    }

    /// Adds the row of a shown line.
    fn push_text_row(&self, out: &mut Vec<Cell>, singles: &Vec<Label>, line: &Line)
        requires
            self.wf(),
            singles@ == spec_on_line(self.labels@, line.line_number as int),
        ensures
            final(out)@ == old(out)@ + spec_text_row(
                self.labels@,
                self.glyphs,
                self.width as int,
                line@,
            ),
    {
        let mut margin: Vec<Cell> = Vec::new();
        push_number_gutter(&mut margin, line.line_number, self.width, &self.glyphs);
        push_occupancy(
            &mut margin,
            &self.multi,
            &self.glyphs,
            &Lanes {
                number: line.line_number,
                real: true,
                closed: 0,
                terminated: None,
                bar: self.glyphs.vertical_bar,
            },
        );
        let text = to_chars(line.chars.as_str());
        let mut part: Vec<Cell> = Vec::new();
        push_line_text(&mut part, &text, singles, &self.multi, line.line_number);
        assert(part@ =~= spec_line_text(
            line.chars@,
            singles@,
            self.multi@,
            line.line_number as int,
        ));
        push_row(out, &margin, &part);
    }

    /// Adds everything that a relevant line gives.
    pub fn push_shown(&self, out: &mut Vec<Cell>, line: &Line)
        requires
            self.wf(),
        ensures
            final(out)@ == old(out)@ + spec_shown(
                self.labels@,
                self.glyphs,
                self.width as int,
                line@,
            ),
    {
        let number: usize = line.line_number;
        let singles = on_line(&self.labels, number);
        let last = last_column(&self.labels, number);
        self.push_text_row(out, &singles, line);
        self.push_notes(out, &singles, number, last);
        self.push_closings(out, number, last);
        assert(out@ =~= old(out)@ + spec_shown(
            self.labels@,
            self.glyphs,
            self.width as int,
            line@,
        ));
    }

    /// Adds the row that stands for lines which are left out.
    pub fn push_ellipsis(&self, out: &mut Vec<Cell>, number: usize)
        requires
            self.wf(),
        ensures
            final(out)@ == old(out)@ + spec_ellipsis(
                self.labels@,
                self.glyphs,
                self.width as int,
                number,
            ),
    {
        let mut margin: Vec<Cell> = Vec::new();
        push_blank_gutter(&mut margin, self.width, self.glyphs.vertical_ellipsis);
        push_occupancy(
            &mut margin,
            &self.multi,
            &self.glyphs,
            &Lanes {
                number,
                real: false,
                closed: 0,
                terminated: None,
                bar: self.glyphs.vertical_ellipsis,
            },
        );
        let nothing: Vec<Cell> = Vec::new();
        push_row(out, &margin, &nothing);
    }

    /// Adds the rows of the lines.
    pub fn push_body(&self, out: &mut Vec<Cell>, lines: &Vec<Line>)
        requires
            self.wf(),
        ensures
            final(out)@ == old(out)@ + spec_body(
                self.labels@,
                self.glyphs,
                self.width as int,
                spec_line_views(lines@),
                0,
                true,
            ),
    {
        let ghost width = self.width as int;
        let ghost views = spec_line_views(lines@);
        let mut shown: bool = true;
        let mut at: usize = 0;
        assert(out@ + spec_body(self.labels@, self.glyphs, width, views, 0, true) =~= old(out)@
            + spec_body(self.labels@, self.glyphs, width, views, 0, true));
        while at < lines.len()
            invariant
                self.wf(),
                at <= lines.len(),
                width == self.width,
                views == spec_line_views(lines@),
                out@ + spec_body(self.labels@, self.glyphs, width, views, at as int, shown) == old(
                    out,
                )@ + spec_body(self.labels@, self.glyphs, width, views, 0, true),
            decreases lines.len() - at,
        {
            let ghost before = out@;
            let ghost rest = spec_body(self.labels@, self.glyphs, width, views, at as int, shown);
            let line = &lines[at];
            assert(views[at as int] == line@);
            if relevant(&self.labels, line.line_number) {
                self.push_shown(out, line);
                shown = true;
            } else {
                if shown {
                    self.push_ellipsis(out, line.line_number);
                }
                shown = false;
            }
            assert(out@ + spec_body(self.labels@, self.glyphs, width, views, at + 1, shown)
                =~= before + rest);
            at += 1;
        }
        assert(spec_body(self.labels@, self.glyphs, width, views, at as int, shown)
            =~= Seq::<Cell>::empty());
    }
}

/// The colour of the tag of a report.
pub fn kind_color(kind: ReportType) -> (color: Option<Color>)
    ensures
        color == spec_kind_color(kind),
{
    match kind {
        ReportType::Error => Some(Color::Ansi(AnsiColor::Red)),
        ReportType::Warning => Some(Color::Ansi(AnsiColor::Yellow)),
    }
}

/// Adds the first row of a report.
pub fn push_header(out: &mut Vec<Cell>, report: &Report)
    ensures
        final(out)@ == old(out)@ + spec_header(report@),
{
    let color = kind_color(report.report_type);
    let mut margin: Vec<Cell> = Vec::new();
    push_glyph(&mut margin, '[', color);
    push_text(&mut margin, report.tag.as_str(), color);
    push_glyph(&mut margin, ']', color);
    push_glyph(&mut margin, ' ', color);
    let mut part: Vec<Cell> = Vec::new();
    push_text(&mut part, report.message.as_str(), None);
    assert(part@ =~= spec_styled(report.message@, None));
    assert(margin@ =~= seq![spec_cell('[', color)] + spec_styled(report.tag@, color) + seq![
        spec_cell(']', color),
        spec_cell(' ', color),
    ]);
    push_row(out, &margin, &part);
}

/// Adds the row that names the place of a report.
pub fn push_location(
    out: &mut Vec<Cell>,
    name: &str,
    position: Position,
    glyphs: &CharacterSet,
    width: usize,
)
    ensures
        final(out)@ == old(out)@ + spec_location(name@, position, *glyphs, width as int),
{
    let color = frame_color();
    let mut margin: Vec<Cell> = Vec::new();
    push_repeat(&mut margin, ' ', width, color);
    push_repeat(&mut margin, ' ', 1, color);
    push_glyph(&mut margin, glyphs.left_top, color);
    push_glyph(&mut margin, glyphs.horizontal_bar, color);
    push_glyph(&mut margin, '[', color);
    let mut part: Vec<Cell> = Vec::new();
    push_text(&mut part, name, None);
    push_glyph(&mut part, ':', None);
    push_decimal(&mut part, position.line, None);
    push_glyph(&mut part, ':', None);
    push_decimal(&mut part, position.column, None);
    push_glyph(&mut part, ']', color);
    assert(margin@ =~= spec_repeat(' ', width + 1, spec_frame_color()) + seq![
        spec_cell(glyphs.left_top, spec_frame_color()),
        spec_cell(glyphs.horizontal_bar, spec_frame_color()),
        spec_cell('[', spec_frame_color()),
    ]);
    assert(part@ =~= spec_styled(name@, None) + seq![spec_cell(':', None)] + spec_styled(
        spec_decimal(position.line as nat),
        None,
    ) + seq![spec_cell(':', None)] + spec_styled(spec_decimal(position.column as nat), None)
        + seq![spec_cell(']', spec_frame_color())]);
    push_row(out, &margin, &part);
}

/// Adds the last row of a report.
pub fn push_footer(out: &mut Vec<Cell>, glyphs: &CharacterSet, width: usize)
    ensures
        final(out)@ == old(out)@ + spec_footer(*glyphs, width as int),
{
    let color = frame_color();
    let mut margin: Vec<Cell> = Vec::new();
    push_repeat(&mut margin, glyphs.horizontal_bar, width, color);
    push_repeat(&mut margin, glyphs.horizontal_bar, 1, color);
    push_glyph(&mut margin, glyphs.right_bottom, color);
    assert(margin@ =~= spec_repeat(glyphs.horizontal_bar, width + 1, spec_frame_color()) + seq![
        spec_cell(glyphs.right_bottom, spec_frame_color()),
    ]);
    let nothing: Vec<Cell> = Vec::new();
    push_row(out, &margin, &nothing);
}

/// Lays a report out over the lines of the source that its span names.
/// Fails, with nothing drawn, where the source does not hold the first or the
/// last of those lines.
pub fn layout(
    report: &Report,
    source: &Source,
    name: &str,
    glyphs: CharacterSet,
    palette: &Vec<Color>,
) -> (drawn: Result<Vec<Cell>, RangeError>)
    ensures
        match drawn {
            Ok(cells) => {
                &&& report.common_span.start_position.line < source@.len()
                &&& report.common_span.end_position.line < source@.len()
                &&& cells@ == spec_layout(
                    report@,
                    spec_sub_list(
                        source@,
                        report.common_span.start_position.line as int,
                        report.common_span.end_position.line as int,
                    ),
                    name@,
                    glyphs,
                    palette@,
                )
            },
            Err(error) => {
                &&& (report.common_span.start_position.line >= source@.len()
                    || report.common_span.end_position.line >= source@.len())
                &&& error == (RangeError {
                    from: report.common_span.start_position.line,
                    to: report.common_span.end_position.line,
                    line_count: source@.len() as usize,
                })
            },
        },
{
    let lines = match source.sub_list(
        report.common_span.start_position.line,
        report.common_span.end_position.line,
    ) {
        Ok(lines) => lines,
        Err(error) => {
            return Err(error);
        },
    };
    let frame = Frame::new(report, glyphs, palette);
    let mut out: Vec<Cell> = Vec::new();
    push_header(&mut out, report);
    push_location(&mut out, name, report.common_span.start_position, &glyphs, frame.width);
    frame.push_body(&mut out, &lines);
    push_footer(&mut out, &glyphs, frame.width);
    assert(out@ =~= spec_layout(report@, spec_line_views(lines@), name@, glyphs, palette@));
    Ok(out)
}

} // verus!
