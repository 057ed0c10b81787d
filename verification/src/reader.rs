//! Reading a recording back: the metric names of its header row and the
//! label of a data row.

use crate::line::FIXED_COLUMNS;
use crate::text::texts;
use crate::tokens::{split_whitespace, tokens};
use vstd::prelude::*;

verus! {

/// The titles of the metric columns among the titles `titles` of a header
/// row: those after the fixed columns and before the last, which is the
/// title of the event column.
pub open spec fn metric_titles(titles: Seq<Seq<char>>) -> Seq<Seq<char>> {
    if titles.len() <= FIXED_COLUMNS {
        Seq::empty()
    } else {
        titles.subrange(FIXED_COLUMNS as int, titles.len() - 1)
    }
}

/// The label among the tokens `fields` of a data row with `metrics` metric
/// columns: the token after the numeric fields, if there is one.
pub open spec fn label_field(fields: Seq<Seq<char>>, metrics: nat) -> Option<Seq<char>> {
    if FIXED_COLUMNS + metrics < fields.len() {
        Some(fields[FIXED_COLUMNS + metrics])
    } else {
        None
    }
}

/// The names of the metrics that the header row `header` lists, in its
/// order.
pub fn metric_names(header: &str) -> (names: Vec<String>)
    ensures
        texts(names@) == metric_titles(tokens(header@)),
{
    let titles = split_whitespace(header);
    let mut names: Vec<String> = Vec::new();
    if titles.len() <= FIXED_COLUMNS {
        assert(texts(names@) =~= metric_titles(tokens(header@)));
        return names;
    }
    let end = titles.len() - 1;
    let mut i: usize = FIXED_COLUMNS;
    while i < end
        invariant
            FIXED_COLUMNS <= i <= end,
            end == titles.len() - 1,
            names@.len() == i - FIXED_COLUMNS,
            forall|j: int| 0 <= j < names@.len() ==> names@[j]@ == titles@[FIXED_COLUMNS + j]@,
        decreases end - i,
    {
        names.push(titles[i].clone());
        i = i + 1;
    }
    assert(texts(names@) =~= metric_titles(texts(titles@))) by {
        assert forall|j: int| 0 <= j < names@.len() implies texts(names@)[j]
            == metric_titles(texts(titles@))[j] by {
            assert(texts(titles@)[FIXED_COLUMNS + j] == titles@[FIXED_COLUMNS + j]@);
        }
    }
    names
}

/// The label of the data row `line` of a recording with `metrics` metrics,
/// or `None` where the row has no token after its numeric fields.
pub fn event_label(line: &str, metrics: usize) -> (label: Option<String>)
    ensures
        label is Some ==> label_field(tokens(line@), metrics as nat) == Some(label->0@),
        label is None ==> label_field(tokens(line@), metrics as nat) is None,
{
    let fields = split_whitespace(line);
    if metrics >= fields.len() || fields.len() - metrics <= FIXED_COLUMNS {
        return None;
    }
    assert(texts(fields@)[FIXED_COLUMNS + metrics] == fields@[FIXED_COLUMNS + metrics]@);
    Some(fields[FIXED_COLUMNS + metrics].clone())
}

} // verus!
