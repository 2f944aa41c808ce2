//! The order in which labels are drawn, and the colours they are drawn in.

use super::color::Color;
use super::label::Label;
use vstd::prelude::*;

verus! {

/// The column that a label is ordered by: where it starts.
pub open spec fn spec_key(label: Label) -> int {
    label.span.start_position.column as int
}

/// Where a label with the given column goes into a list in drawing order:
/// behind every label that starts at this column or before it.
pub open spec fn spec_insert_position(sorted: Seq<Label>, column: int) -> int
    decreases sorted.len(),
{
    if sorted.len() == 0 {
        0
    } else if spec_key(sorted.last()) <= column {
        sorted.len() as int
    } else {
        spec_insert_position(sorted.drop_last(), column)
    }
}

/// The labels in drawing order: by the column they start at, from the left,
/// and labels that start at the same column in the order they were given.
pub open spec fn spec_sort_by_column(labels: Seq<Label>) -> Seq<Label>
    decreases labels.len(),
{
    if labels.len() == 0 {
        Seq::empty()
    } else {
        let sorted = spec_sort_by_column(labels.drop_last());
        sorted.insert(spec_insert_position(sorted, spec_key(labels.last())), labels.last())
    }
}

/// No label starts left of one that stands before it.
pub open spec fn spec_in_column_order(labels: Seq<Label>) -> bool {
    forall|i: int, j: int|
        0 <= i < j < labels.len() ==> spec_key(#[trigger] labels[i]) <= spec_key(
            #[trigger] labels[j],
        )
}

/// The colour a label is drawn in: its own, or else the colour of the palette
/// that its place in the drawing order picks, going round the palette. With
/// an empty palette a label without colour stays without.
pub open spec fn spec_label_color(label: Label, ordinal: int, palette: Seq<Color>) -> Option<
    Color,
> {
    if label.format is Some {
        label.format
    } else if palette.len() > 0 {
        Some(palette[ordinal % palette.len() as int])
    } else {
        None
    }
}

/// The label with the colour it is drawn in.
pub open spec fn spec_colored(label: Label, ordinal: int, palette: Seq<Color>) -> Label {
    Label { format: spec_label_color(label, ordinal, palette), ..label }
}

/// Every label with the colour it is drawn in.
pub open spec fn spec_resolve(labels: Seq<Label>, palette: Seq<Color>) -> Seq<Label> {
    Seq::new(labels.len(), |i: int| spec_colored(labels[i], i, palette))
}

/// The labels as they are drawn: in drawing order, each with its colour.
pub open spec fn spec_drawn(labels: Seq<Label>, palette: Seq<Color>) -> Seq<Label> {
    spec_resolve(spec_sort_by_column(labels), palette)
}

/// The place where a label is inserted lies within the list; every label
/// before it starts at the column or left of it, every label from it on
/// starts right of the column.
pub proof fn lemma_insert_position(sorted: Seq<Label>, column: int)
    requires
        spec_in_column_order(sorted),
    ensures
        0 <= spec_insert_position(sorted, column) <= sorted.len(),
        forall|i: int|
            0 <= i < spec_insert_position(sorted, column) ==> spec_key(#[trigger] sorted[i])
                <= column,
        forall|i: int|
            spec_insert_position(sorted, column) <= i < sorted.len() ==> spec_key(
                #[trigger] sorted[i],
            ) > column,
    decreases sorted.len(),
{
    if sorted.len() > 0 {
        if spec_key(sorted.last()) <= column {
            assert forall|i: int| 0 <= i < sorted.len() implies spec_key(#[trigger] sorted[i])
                <= column by {
                if i < sorted.len() - 1 {
                    assert(spec_key(sorted[i]) <= spec_key(sorted[sorted.len() - 1]));
                }
            }
        } else {
            let front = sorted.drop_last();
            assert forall|i: int, j: int| 0 <= i < j < front.len() implies spec_key(
                #[trigger] front[i],
            ) <= spec_key(#[trigger] front[j]) by {
                assert(front[i] == sorted[i] && front[j] == sorted[j]);
            }
            lemma_insert_position(front, column);
            let place = spec_insert_position(front, column);
            assert forall|i: int| 0 <= i < place implies spec_key(#[trigger] sorted[i])
                <= column by {
                assert(sorted[i] == front[i]);
            }
            assert forall|i: int| place <= i < sorted.len() implies spec_key(
                #[trigger] sorted[i],
            ) > column by {
                if i < front.len() {
                    assert(sorted[i] == front[i]);
                }
            }
        }
    }
}

/// Sorting keeps every label, as often as it was given, and puts the labels
/// in the order of their start columns.
pub proof fn lemma_sort_by_column(labels: Seq<Label>)
    ensures
        spec_sort_by_column(labels).len() == labels.len(),
        spec_sort_by_column(labels).to_multiset() == labels.to_multiset(),
        spec_in_column_order(spec_sort_by_column(labels)),
    decreases labels.len(),
{
    broadcast use vstd::seq_lib::group_to_multiset_ensures;

    if labels.len() == 0 {
        assert(spec_sort_by_column(labels) =~= labels);
    } else {
        let front = labels.drop_last();
        let last = labels.last();
        lemma_sort_by_column(front);
        let sorted = spec_sort_by_column(front);
        lemma_insert_position(sorted, spec_key(last));
        let place = spec_insert_position(sorted, spec_key(last));
        let grown = sorted.insert(place, last);
        assert(grown == spec_sort_by_column(labels));
        assert(labels =~= front.push(last));
        vstd::seq_lib::to_multiset_insert(sorted, place, last);
        vstd::seq_lib::to_multiset_build(front, last);
        assert(grown.to_multiset() =~= labels.to_multiset());
        assert forall|i: int, j: int| 0 <= i < j < grown.len() implies spec_key(
            #[trigger] grown[i],
        ) <= spec_key(#[trigger] grown[j]) by {
            if i < place {
                assert(grown[i] == sorted[i]);
            } else if i > place {
                assert(grown[i] == sorted[i - 1]);
            }
            if j < place {
                assert(grown[j] == sorted[j]);
            } else if j > place {
                assert(grown[j] == sorted[j - 1]);
            }
        }
    }
}

/// The labels that start at the given column, in the order of the list.
pub open spec fn spec_starting_at(labels: Seq<Label>, column: int) -> Seq<Label>
    decreases labels.len(),
{
    if labels.len() == 0 {
        Seq::empty()
    } else if spec_key(labels.last()) == column {
        spec_starting_at(labels.drop_last(), column).push(labels.last())
    } else {
        spec_starting_at(labels.drop_last(), column)
    }
}

/// The labels of two lists that start at a column are those of the first
/// list and then those of the second.
pub proof fn lemma_starting_at_concat(first: Seq<Label>, second: Seq<Label>, column: int)
    ensures
        spec_starting_at(first + second, column) == spec_starting_at(first, column)
            + spec_starting_at(second, column),
    decreases second.len(),
{
    if second.len() == 0 {
        assert(first + second =~= first);
        assert(spec_starting_at(first, column) + spec_starting_at(second, column)
            =~= spec_starting_at(first, column));
    } else {
        let front = second.drop_last();
        lemma_starting_at_concat(first, front, column);
        assert((first + second).drop_last() =~= first + front);
        assert((first + second).last() == second.last());
        if spec_key(second.last()) == column {
            assert(spec_starting_at(first, column) + spec_starting_at(front, column).push(
                second.last(),
            ) =~= (spec_starting_at(first, column) + spec_starting_at(front, column)).push(
                second.last(),
            ));
        }
    }
}

/// A list in which no label starts at the column holds none that does.
pub proof fn lemma_starting_at_none(labels: Seq<Label>, column: int)
    requires
        forall|i: int| 0 <= i < labels.len() ==> spec_key(#[trigger] labels[i]) != column,
    ensures
        spec_starting_at(labels, column) == Seq::<Label>::empty(),
    decreases labels.len(),
{
    if labels.len() > 0 {
        let front = labels.drop_last();
        assert forall|i: int| 0 <= i < front.len() implies spec_key(#[trigger] front[i])
            != column by {
            assert(front[i] == labels[i]);
        }
        lemma_starting_at_none(front, column);
        assert(spec_key(labels[labels.len() - 1]) != column);
    }
}

/// Sorting is stable: the labels that start at one column stand in drawing
/// order as they were given.
pub proof fn lemma_sort_is_stable(labels: Seq<Label>, column: int)
    ensures
        spec_starting_at(spec_sort_by_column(labels), column) == spec_starting_at(labels, column),
    decreases labels.len(),
{
    if labels.len() > 0 {
        let front = labels.drop_last();
        let last = labels.last();
        lemma_sort_is_stable(front, column);
        lemma_sort_by_column(front);
        let sorted = spec_sort_by_column(front);
        lemma_insert_position(sorted, spec_key(last));
        let place = spec_insert_position(sorted, spec_key(last));
        let before = sorted.take(place);
        let after = sorted.skip(place);
        let grown = sorted.insert(place, last);
        assert(grown =~= before + seq![last] + after);
        assert(sorted =~= before + after);
        lemma_starting_at_concat(before, after, column);
        lemma_starting_at_concat(before, seq![last], column);
        lemma_starting_at_concat(before + seq![last], after, column);
        assert(seq![last].drop_last() =~= Seq::<Label>::empty());
        assert(spec_starting_at(Seq::<Label>::empty(), column) =~= Seq::<Label>::empty());
        if spec_key(last) == column {
            assert forall|i: int| 0 <= i < after.len() implies spec_key(#[trigger] after[i])
                != column by {
                assert(after[i] == sorted[place + i]);
            }
            lemma_starting_at_none(after, column);
            assert(spec_starting_at(seq![last], column) =~= seq![last]);
            assert(spec_starting_at(grown, column) =~= spec_starting_at(sorted, column).push(last));
        } else {
            assert(spec_starting_at(seq![last], column) =~= Seq::<Label>::empty());
            assert(spec_starting_at(grown, column) =~= spec_starting_at(sorted, column));
        }
    }
}

/// The labels in drawing order.
pub fn sort_by_column(labels: &Vec<Label>) -> (sorted: Vec<Label>)
    ensures
        sorted@ == spec_sort_by_column(labels@),
{
    let mut sorted: Vec<Label> = Vec::new();
    let mut at: usize = 0;
    assert(labels@.take(0) =~= Seq::<Label>::empty());
    while at < labels.len()
        invariant
            at <= labels.len(),
            sorted@ == spec_sort_by_column(labels@.take(at as int)),
        decreases labels.len() - at,
    {
        let label = labels[at].clone();
        let column: usize = label.span.start_position.column;
        let mut place: usize = sorted.len();
        assert(sorted@.take(place as int) =~= sorted@);
        while place > 0 && sorted[place - 1].span.start_position.column > column
            invariant
                place <= sorted.len(),
                spec_insert_position(sorted@.take(place as int), column as int)
                    == spec_insert_position(sorted@, column as int),
            decreases place,
        {
            assert(sorted@.take(place as int).drop_last() =~= sorted@.take(place - 1));
            place -= 1;
        }
        proof {
            assert(sorted@.take(sorted@.len() as int) =~= sorted@);
            if place > 0 {
                assert(sorted@.take(place as int).last() == sorted@[place - 1]);
            }
            assert(spec_insert_position(sorted@, column as int) == place);
            lemma_sort_by_column(labels@.take(at as int));
            assert(labels@.take(at + 1).drop_last() =~= labels@.take(at as int));
        }
        sorted.insert(place, label);
        at += 1;
    }
    assert(labels@.take(at as int) =~= labels@);
    sorted
}

/// The colour a label is drawn in.
pub fn label_color(label: &Label, ordinal: usize, palette: &Vec<Color>) -> (color: Option<Color>)
    ensures
        color == spec_label_color(*label, ordinal as int, palette@),
{
    match label.format {
        Some(color) => Some(color),
        None => {
            if palette.len() > 0 {
                Some(palette[ordinal % palette.len()])
            } else {
                None
            }
        },
    }
}

/// Every label with the colour it is drawn in.
pub fn resolve(labels: &Vec<Label>, palette: &Vec<Color>) -> (resolved: Vec<Label>)
    ensures
        resolved@ == spec_resolve(labels@, palette@),
{
    let mut resolved: Vec<Label> = Vec::new();
    let mut at: usize = 0;
    while at < labels.len()
        invariant
            at <= labels.len(),
            resolved@.len() == at,
            forall|i: int|
                0 <= i < at ==> #[trigger] resolved@[i] == spec_colored(labels@[i], i, palette@),
        decreases labels.len() - at,
    {
        let mut label = labels[at].clone();
        label.format = label_color(&labels[at], at, palette);
        resolved.push(label);
        at += 1;
    }
    assert(resolved@ =~= spec_resolve(labels@, palette@));
    resolved
}

/// The labels as they are drawn.
pub fn drawn(labels: &Vec<Label>, palette: &Vec<Color>) -> (ready: Vec<Label>)
    ensures
        ready@ == spec_drawn(labels@, palette@),
{
    let sorted = sort_by_column(labels);
    resolve(&sorted, palette)
}

} // verus!
