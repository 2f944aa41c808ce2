//! Which labels a line has to do with.

use super::label::Label;
use super::span::Span;
use vstd::prelude::*;

verus! {

/// The labels that run over several lines, in drawing order. Each of them
/// has a lane in the margin: the first the leftmost.
pub open spec fn spec_multi(labels: Seq<Label>) -> Seq<Label>
    decreases labels.len(),
{
    if labels.len() == 0 {
        Seq::empty()
    } else if labels.last().span.spec_is_multiline() {
        spec_multi(labels.drop_last()).push(labels.last())
    } else {
        spec_multi(labels.drop_last())
    }
}

/// Whether a label lies on the given line and on no other.
pub open spec fn spec_is_on_line(label: Label, number: int) -> bool {
    !label.span.spec_is_multiline() && label.span.start_position.line == number
}

/// The labels that lie on the given line and on no other, in drawing order.
pub open spec fn spec_on_line(labels: Seq<Label>, number: int) -> Seq<Label>
    decreases labels.len(),
{
    if labels.len() == 0 {
        Seq::empty()
    } else if spec_is_on_line(labels.last(), number) {
        spec_on_line(labels.drop_last(), number).push(labels.last())
    } else {
        spec_on_line(labels.drop_last(), number)
    }
}

/// Two lines are the same or next to each other.
pub open spec fn spec_near(first: int, second: int) -> bool {
    first - 1 <= second <= first + 1
}

/// A span starts or ends on the line or on one next to it, or holds the
/// line.
pub open spec fn spec_touches(span: Span, number: int) -> bool {
    ||| spec_near(span.start_position.line as int, number)
    ||| spec_near(span.end_position.line as int, number)
    ||| span.spec_is_in(number)
}

/// A line is relevant, and shown with its text, when a label touches it. In
/// a report without labels every line is relevant.
pub open spec fn spec_relevant(labels: Seq<Label>, number: int) -> bool {
    labels.len() == 0 || exists|i: int|
        0 <= i < labels.len() && spec_touches(#[trigger] labels[i].span, number)
}

/// Whether a label ends on the given line and holds it.
pub open spec fn spec_ends_on(label: Label, number: int) -> bool {
    label.span.spec_is_in(number) && label.span.end_position.line == number
}

/// The rightmost column at which a label ends that ends on the given line.
pub open spec fn spec_last_column(labels: Seq<Label>, number: int) -> Option<int>
    decreases labels.len(),
{
    if labels.len() == 0 {
        None
    } else {
        let before = spec_last_column(labels.drop_last(), number);
        let column = labels.last().span.end_position.column as int;
        if spec_ends_on(labels.last(), number) && (before is None || before->0 < column) {
            Some(column)
        } else {
            before
        }
    }
}

/// The column up to which the bars below a line are drawn, so that the
/// messages of the line start below each other: two columns right of the
/// rightmost end of a label that ends on the line.
pub open spec fn spec_extent(labels: Seq<Label>, number: int) -> int {
    match spec_last_column(labels, number) {
        Some(column) => column + 2,
        None => 0,
    }
}

/// The label that governs the text of a line which no label of that line
/// covers: of the labels over several lines that hold the line, the one that
/// was opened last, that is the one that starts on the latest line; among
/// those that start on the same line, the last in drawing order.
pub open spec fn spec_dominant(multi: Seq<Label>, number: int) -> Option<int>
    decreases multi.len(),
{
    if multi.len() == 0 {
        None
    } else {
        let before = spec_dominant(multi.drop_last(), number);
        let last = multi.last();
        if last.span.spec_is_in(number) && (before is None
            || multi[before->0].span.start_position.line <= last.span.start_position.line) {
            Some(multi.len() - 1)
        } else {
            before
        }
    }
}

/// The dominant label is one of the labels and holds the line; no label that
/// holds the line starts on a later line, and none that starts on the same
/// line stands behind it. Where there is no dominant label, no label holds
/// the line.
pub proof fn lemma_dominant(multi: Seq<Label>, number: int)
    ensures
        spec_dominant(multi, number) matches Some(lane) ==> {
            &&& 0 <= lane < multi.len()
            &&& multi[lane].span.spec_is_in(number)
            &&& forall|other: int|
                0 <= other < multi.len() && (#[trigger] multi[other]).span.spec_is_in(number)
                    ==> multi[other].span.start_position.line
                    < multi[lane].span.start_position.line || (
                multi[other].span.start_position.line == multi[lane].span.start_position.line
                    && other <= lane)
        },
        spec_dominant(multi, number) is None ==> forall|lane: int|
            0 <= lane < multi.len() ==> !(#[trigger] multi[lane]).span.spec_is_in(number),
    decreases multi.len(),
{
    if multi.len() > 0 {
        let front = multi.drop_last();
        lemma_dominant(front, number);
        assert forall|other: int| 0 <= other < front.len() implies front[other] == multi[other] by {}
        match spec_dominant(multi, number) {
            Some(lane) => {
                assert forall|other: int|
                    0 <= other < multi.len() && (#[trigger] multi[other]).span.spec_is_in(
                        number,
                    ) implies multi[other].span.start_position.line
                    < multi[lane].span.start_position.line || (
                multi[other].span.start_position.line == multi[lane].span.start_position.line
                    && other <= lane) by {
                    if other < front.len() {
                        assert(front[other] == multi[other]);
                        assert(front[other].span.spec_is_in(number));
                    }
                }
            },
            None => {
                assert forall|lane: int| 0 <= lane < multi.len() implies !(
                #[trigger] multi[lane]).span.spec_is_in(number) by {
                    if lane < front.len() {
                        assert(front[lane] == multi[lane]);
                    }
                }
            },
        }
    }
}

/// The last column is the column at which a label ends that ends on the
/// line, and no label that ends on the line ends right of it. Where there is
/// no last column, no label ends on the line.
pub proof fn lemma_last_column(labels: Seq<Label>, number: int)
    ensures
        spec_last_column(labels, number) matches Some(column) ==> {
            &&& exists|i: int|
                0 <= i < labels.len() && spec_ends_on(#[trigger] labels[i], number)
                    && labels[i].span.end_position.column == column
            &&& forall|i: int|
                0 <= i < labels.len() && spec_ends_on(#[trigger] labels[i], number)
                    ==> labels[i].span.end_position.column <= column
        },
        spec_last_column(labels, number) is None ==> forall|i: int|
            0 <= i < labels.len() ==> !spec_ends_on(#[trigger] labels[i], number),
    decreases labels.len(),
{
    if labels.len() > 0 {
        let front = labels.drop_last();
        let last = labels.len() - 1;
        lemma_last_column(front, number);
        assert forall|i: int| 0 <= i < front.len() implies front[i] == labels[i] by {}
        match spec_last_column(labels, number) {
            Some(column) => {
                if spec_last_column(front, number) == Some(column) {
                    let i = choose|i: int|
                        0 <= i < front.len() && spec_ends_on(#[trigger] front[i], number)
                            && front[i].span.end_position.column == column;
                    assert(labels[i] == front[i]);
                } else {
                    assert(spec_ends_on(labels[last], number));
                }
                assert forall|i: int|
                    0 <= i < labels.len() && spec_ends_on(
                        #[trigger] labels[i],
                        number,
                    ) implies labels[i].span.end_position.column <= column by {
                    if i < front.len() {
                        assert(front[i] == labels[i]);
                        assert(spec_ends_on(front[i], number));
                    }
                }
            },
            None => {
                assert forall|i: int| 0 <= i < labels.len() implies !spec_ends_on(
                    #[trigger] labels[i],
                    number,
                ) by {
                    if i < front.len() {
                        assert(front[i] == labels[i]);
                    }
                }
            },
        }
    }
}

/// The labels over several lines are the labels filtered by that property,
/// and the labels on a line are the labels filtered by lying on it.
pub proof fn lemma_selected_by_filter(labels: Seq<Label>, number: int)
    ensures
        spec_multi(labels) == labels.filter(|label: Label| label.span.spec_is_multiline()),
        spec_on_line(labels, number) == labels.filter(
            |label: Label| spec_is_on_line(label, number),
        ),
    decreases labels.len(),
{
    reveal(Seq::filter);
    if labels.len() > 0 {
        lemma_selected_by_filter(labels.drop_last(), number);
    }
}

/// Every label over several lines is one of the labels.
pub proof fn lemma_multi_among(labels: Seq<Label>, lane: int)
    requires
        0 <= lane < spec_multi(labels).len(),
    ensures
        exists|i: int| 0 <= i < labels.len() && #[trigger] labels[i] == spec_multi(labels)[lane],
    decreases labels.len(),
{
    if labels.len() > 0 {
        let front = labels.drop_last();
        if lane < spec_multi(front).len() {
            lemma_multi_among(front, lane);
            let i = choose|i: int| 0 <= i < front.len() && #[trigger] front[i] == spec_multi(front)[lane];
            assert(labels[i] == front[i]);
        } else {
            assert(labels[labels.len() - 1] == spec_multi(labels)[lane]);
        }
    }
}

/// On a line that is not relevant no label over several lines is open.
pub proof fn lemma_gap_is_free(labels: Seq<Label>, number: int, lane: int)
    requires
        !spec_relevant(labels, number),
        0 <= lane < spec_multi(labels).len(),
    ensures
        !spec_multi(labels)[lane].span.spec_is_in(number),
{
    lemma_multi_among(labels, lane);
    let i = choose|i: int| 0 <= i < labels.len() && #[trigger] labels[i] == spec_multi(labels)[lane];
    assert(!spec_touches(labels[i].span, number));
}

/// The labels that run over several lines.
pub fn multi_line(labels: &Vec<Label>) -> (multi: Vec<Label>)
    ensures
        multi@ == spec_multi(labels@),
{
    let mut multi: Vec<Label> = Vec::new();
    let mut at: usize = 0;
    assert(labels@.take(0) =~= Seq::<Label>::empty());
    while at < labels.len()
        invariant
            at <= labels.len(),
            multi@ == spec_multi(labels@.take(at as int)),
        decreases labels.len() - at,
    {
        assert(labels@.take(at + 1).drop_last() =~= labels@.take(at as int));
        if labels[at].is_multiline() {
            multi.push(labels[at].clone());
        }
        at += 1;
    }
    assert(labels@.take(at as int) =~= labels@);
    multi
}

/// The labels that lie on the given line and on no other.
pub fn on_line(labels: &Vec<Label>, number: usize) -> (found: Vec<Label>)
    ensures
        found@ == spec_on_line(labels@, number as int),
{
    let mut found: Vec<Label> = Vec::new();
    let mut at: usize = 0;
    assert(labels@.take(0) =~= Seq::<Label>::empty());
    while at < labels.len()
        invariant
            at <= labels.len(),
            found@ == spec_on_line(labels@.take(at as int), number as int),
        decreases labels.len() - at,
    {
        assert(labels@.take(at + 1).drop_last() =~= labels@.take(at as int));
        if !labels[at].is_multiline() && labels[at].span.start_position.line == number {
            found.push(labels[at].clone());
        }
        at += 1;
    }
    assert(labels@.take(at as int) =~= labels@);
    found
}

/// Whether two lines are the same or next to each other.
pub fn near(first: usize, second: usize) -> (close: bool)
    ensures
        close == spec_near(first as int, second as int),
{
    if first >= second {
        first - second <= 1
    } else {
        second - first <= 1
    }
}

/// Whether a span touches a line.
pub fn touches(span: &Span, number: usize) -> (touching: bool)
    ensures
        touching == spec_touches(*span, number as int),
{
    near(span.start_position.line, number) || near(span.end_position.line, number) || span.is_in(
        number,
    )
}

/// Whether a line is relevant.
pub fn relevant(labels: &Vec<Label>, number: usize) -> (shown: bool)
    ensures
        shown == spec_relevant(labels@, number as int),
{
    if labels.len() == 0 {
        return true;
    }
    let mut at: usize = 0;
    while at < labels.len()
        invariant
            at <= labels.len(),
            forall|i: int| 0 <= i < at ==> !spec_touches(#[trigger] labels@[i].span, number as int),
        decreases labels.len() - at,
    {
        if touches(&labels[at].span, number) {
            return true;
        }
        at += 1;
    }
    false
}

/// The rightmost column at which a label ends that ends on the given line.
pub fn last_column(labels: &Vec<Label>, number: usize) -> (column: Option<usize>)
    ensures
        match column {
            Some(found) => spec_last_column(labels@, number as int) == Some(found as int),
            None => spec_last_column(labels@, number as int) is None,
        },
{
    let mut column: Option<usize> = None;
    let mut at: usize = 0;
    assert(labels@.take(0) =~= Seq::<Label>::empty());
    while at < labels.len()
        invariant
            at <= labels.len(),
            match column {
                Some(found) => spec_last_column(labels@.take(at as int), number as int) == Some(
                    found as int,
                ),
                None => spec_last_column(labels@.take(at as int), number as int) is None,
            },
        decreases labels.len() - at,
    {
        assert(labels@.take(at + 1).drop_last() =~= labels@.take(at as int));
        let span = labels[at].span;
        if span.is_in(number) && span.end_position.line == number {
            let better = match column {
                Some(found) => found < span.end_position.column,
                None => true,
            };
            if better {
                column = Some(span.end_position.column);
            }
        }
        at += 1;
    }
    assert(labels@.take(at as int) =~= labels@);
    column
}

/// The lane of the dominant label of a line.
pub fn dominant(multi: &Vec<Label>, number: usize) -> (lane: Option<usize>)
    ensures
        match lane {
            Some(found) => spec_dominant(multi@, number as int) == Some(found as int),
            None => spec_dominant(multi@, number as int) is None,
        },
{
    let mut lane: Option<usize> = None;
    let mut at: usize = 0;
    assert(multi@.take(0) =~= Seq::<Label>::empty());
    while at < multi.len()
        invariant
            at <= multi.len(),
            match lane {
                Some(found) => found < at && spec_dominant(multi@.take(at as int), number as int)
                    == Some(found as int),
                None => spec_dominant(multi@.take(at as int), number as int) is None,
            },
        decreases multi.len() - at,
    {
        assert(multi@.take(at + 1).drop_last() =~= multi@.take(at as int));
        let span = multi[at].span;
        if span.is_in(number) {
            let better = match lane {
                Some(found) => multi[found].span.start_position.line <= span.start_position.line,
                None => true,
            };
            if better {
                lane = Some(at);
            }
        }
        at += 1;
    }
    assert(multi@.take(at as int) =~= multi@);
    lane
}

} // verus!
