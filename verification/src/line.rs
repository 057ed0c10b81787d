//! The fixed-width rows of the recording: the header row and the data rows.

use crate::readings::OsReadings;
use crate::text::{
    decimal, fixed_point, push_decimal, push_fixed_point, push_right_justified,
    push_signed_decimal, right_justified, signed_decimal, texts,
};
use crate::time::{rounded_units, Duration};
use vstd::prelude::*;

verus! {

/// The number of columns that every row starts with, before the metrics.
pub const FIXED_COLUMNS: usize = 11;

/// The fields, each right-justified in the width of its column and joined by
/// single spaces.
pub open spec fn justified_row(fields: Seq<Seq<char>>, widths: Seq<nat>) -> Seq<char>
    recommends
        fields.len() == widths.len(),
    decreases fields.len(),
{
    if fields.len() == 0 {
        Seq::empty()
    } else if fields.len() == 1 {
        right_justified(fields[0], widths[0])
    } else {
        justified_row(fields.drop_last(), widths.drop_last()) + seq![' '] + right_justified(
            fields.last(),
            widths.last(),
        )
    }
}

/// The widths of the columns of a row with `metrics` metric columns.
pub open spec fn column_widths(metrics: nat) -> Seq<nat> {
    seq![7nat, 3nat, 10nat, 10nat, 10nat, 8nat, 8nat, 10nat, 10nat, 10nat, 10nat] + Seq::new(
        metrics,
        |i: int| 10nat,
    )
}

/// The column titles: the eleven fixed ones, then the metric names in
/// registration order.
pub open spec fn header_fields(names: Seq<Seq<char>>) -> Seq<Seq<char>> {
    seq![
        "time"@,
        "cor"@,
        "vsz"@,
        "rsz"@,
        "rszmax"@,
        "utime"@,
        "stime"@,
        "minf"@,
        "majf"@,
        "alloc"@,
        "free"@,
    ] + names
}

/// The header row: the column titles, then the title of the event column.
pub open spec fn header_row(names: Seq<Seq<char>>) -> Seq<char> {
    justified_row(header_fields(names), column_widths(names.len())) + " event\n"@
}

/// The numeric fields of a data row, in column order.
pub open spec fn data_fields(
    elapsed: Duration,
    cores: nat,
    usage: OsReadings,
    allocated: nat,
    freed: nat,
    values: Seq<i64>,
) -> Seq<Seq<char>> {
    seq![
        fixed_point(rounded_units(elapsed.nanos as nat, 1_000_000), 3),
        decimal(cores),
        decimal(usage.virtual_size as nat),
        decimal(usage.resident_size as nat),
        decimal(usage.resident_size_max as nat),
        fixed_point(rounded_units(usage.user_time.nanos as nat, 1_000), 6),
        fixed_point(rounded_units(usage.system_time.nanos as nat, 1_000), 6),
        decimal(usage.minor_fault as nat),
        decimal(usage.major_fault as nat),
        decimal(allocated),
        decimal(freed),
    ] + Seq::new(values.len(), |i: int| signed_decimal(values[i] as int))
}

/// A data row: the numeric fields, then the event label as free text.
pub open spec fn data_row(
    elapsed: Duration,
    cores: nat,
    usage: OsReadings,
    allocated: nat,
    freed: nat,
    values: Seq<i64>,
    reason: Seq<char>,
) -> Seq<char> {
    justified_row(
        data_fields(elapsed, cores, usage, allocated, freed, values),
        column_widths(values.len()),
    ) + seq![' '] + reason + seq!['\n']
}

/// Adding a column to a row appends a space and the justified field.
pub proof fn lemma_row_push(fields: Seq<Seq<char>>, widths: Seq<nat>, field: Seq<char>, width: nat)
    requires
        fields.len() >= 1,
    ensures
        justified_row(fields.push(field), widths.push(width)) == justified_row(fields, widths)
            + seq![' '] + right_justified(field, width),
{
    assert(fields.push(field).drop_last() =~= fields);
    assert(widths.push(width).drop_last() =~= widths);
}

/// A row in the making: its text so far, with the fields and the widths
/// that the text was made from.
struct Row {
    out: String,
    started: bool,
    fields: Ghost<Seq<Seq<char>>>,
    widths: Ghost<Seq<nat>>,
}

impl Row {
    /// The text is the row of the fields so far.
    spec fn wf(&self) -> bool {
        &&& self.fields@.len() == self.widths@.len()
        &&& self.started == (self.fields@.len() > 0)
        &&& self.out@ == justified_row(self.fields@, self.widths@)
    }

    /// The row after one more column.
    spec fn with_column(&self, row: Row, field: Seq<char>, width: nat) -> bool {
        &&& row.wf()
        &&& row.fields@ == self.fields@.push(field)
        &&& row.widths@ == self.widths@.push(width)
    }

    /// A row without columns.
    fn new() -> (row: Row)
        ensures
            row.wf(),
            row.fields@ == Seq::<Seq<char>>::empty(),
            row.widths@ == Seq::<nat>::empty(),
    {
        Row {
            out: String::new(),
            started: false,
            fields: Ghost(Seq::empty()),
            widths: Ghost(Seq::empty()),
        }
    }

    /// Adds a column that holds `field`.
    fn push_text(&mut self, field: &str, width: usize)
        requires
            old(self).wf(),
        ensures
            old(self).with_column(*final(self), field@, width as nat),
    {
        if self.started {
            self.out.push(' ');
        }
        push_right_justified(&mut self.out, field, width);
        self.started = true;
        self.fields = Ghost(self.fields@.push(field@));
        self.widths = Ghost(self.widths@.push(width as nat));
        proof {
            let justified = right_justified(field@, width as nat);
            if old(self).fields@.len() >= 1 {
                lemma_row_push(old(self).fields@, old(self).widths@, field@, width as nat);
                assert(self.out@ =~= old(self).out@ + seq![' '] + justified);
            } else {
                assert(self.fields@[0] == field@);
                assert(self.widths@[0] == width as nat);
                assert(self.out@ =~= justified);
            }
        }
    }

    /// Adds a column that holds `n` in base ten.
    fn push_number(&mut self, n: u128, width: usize)
        requires
            old(self).wf(),
        ensures
            old(self).with_column(*final(self), decimal(n as nat), width as nat),
    {
        let mut field = String::new();
        push_decimal(&mut field, n);
        self.push_text(field.as_str(), width);
    }

    /// Adds a column that holds `v` in base ten, with its sign.
    fn push_signed(&mut self, v: i64, width: usize)
        requires
            old(self).wf(),
        ensures
            old(self).with_column(*final(self), signed_decimal(v as int), width as nat),
    {
        let mut field = String::new();
        push_signed_decimal(&mut field, v);
        self.push_text(field.as_str(), width);
    }

    /// Adds a column that holds `units`, counted in steps of
    /// `10^-decimals`, with a decimal point.
    fn push_fixed(&mut self, units: u128, decimals: u32, width: usize)
        requires
            old(self).wf(),
            decimals <= 38,
        ensures
            old(self).with_column(
                *final(self),
                fixed_point(units as nat, decimals as nat),
                width as nat,
            ),
    {
        let mut field = String::new();
        push_fixed_point(&mut field, units, decimals);
        self.push_text(field.as_str(), width);
    }

    /// The text of the row.
    fn finish(self) -> (out: String)
        requires
            self.wf(),
        ensures
            out@ == justified_row(self.fields@, self.widths@),
    {
        self.out
    }
}

/// The header row for the metrics `names`, in their order.
pub fn format_header(names: &Vec<String>) -> (r: String)
    ensures
        r@ == header_row(texts(names@)),
{
    let mut row = Row::new();
    row.push_text("time", 7);
    row.push_text("cor", 3);
    row.push_text("vsz", 10);
    row.push_text("rsz", 10);
    row.push_text("rszmax", 10);
    row.push_text("utime", 8);
    row.push_text("stime", 8);
    row.push_text("minf", 10);
    row.push_text("majf", 10);
    row.push_text("alloc", 10);
    row.push_text("free", 10);
    assert(row.fields@ =~= header_fields(texts(names@).take(0)));
    assert(row.widths@ =~= column_widths(0));
    let mut i: usize = 0;
    while i < names.len()
        invariant
            i <= names.len(),
            row.wf(),
            row.fields@ == header_fields(texts(names@).take(i as int)),
            row.widths@ == column_widths(i as nat),
        decreases names.len() - i,
    {
        row.push_text(names[i].as_str(), 10);
        assert(row.fields@ =~= header_fields(texts(names@).take(i + 1)));
        assert(row.widths@ =~= column_widths((i + 1) as nat));
        i = i + 1;
    }
    assert(texts(names@).take(i as int) =~= texts(names@));
    let mut out = row.finish();
    out.append(" event\n");
    out
}

/// The data row for one snapshot: the time since the origin, the core count,
/// the readings, the allocator's counters, the metric values and the label.
pub fn format_line(
    elapsed: Duration,
    cores: usize,
    usage: &OsReadings,
    allocated: usize,
    freed: usize,
    values: &Vec<i64>,
    reason: &str,
) -> (r: String)
    ensures
        r@ == data_row(
            elapsed,
            cores as nat,
            *usage,
            allocated as nat,
            freed as nat,
            values@,
            reason@,
        ),
{
    let mut row = Row::new();
    row.push_fixed(elapsed.rounded_millis(), 3, 7);
    row.push_number(cores as u128, 3);
    row.push_number(usage.virtual_size as u128, 10);
    row.push_number(usage.resident_size as u128, 10);
    row.push_number(usage.resident_size_max as u128, 10);
    row.push_fixed(usage.user_time.rounded_micros(), 6, 8);
    row.push_fixed(usage.system_time.rounded_micros(), 6, 8);
    row.push_number(usage.minor_fault as u128, 10);
    row.push_number(usage.major_fault as u128, 10);
    row.push_number(allocated as u128, 10);
    row.push_number(freed as u128, 10);
    assert(row.fields@ =~= data_fields(
        elapsed,
        cores as nat,
        *usage,
        allocated as nat,
        freed as nat,
        values@.take(0),
    ));
    assert(row.widths@ =~= column_widths(0));
    let mut i: usize = 0;
    while i < values.len()
        invariant
            i <= values.len(),
            row.wf(),
            row.fields@ == data_fields(
                elapsed,
                cores as nat,
                *usage,
                allocated as nat,
                freed as nat,
                values@.take(i as int),
            ),
            row.widths@ == column_widths(i as nat),
        decreases values.len() - i,
    {
        row.push_signed(values[i], 10);
        assert(row.fields@ =~= data_fields(
            elapsed,
            cores as nat,
            *usage,
            allocated as nat,
            freed as nat,
            values@.take(i + 1),
        ));
        assert(row.widths@ =~= column_widths((i + 1) as nat));
        i = i + 1;
    }
    assert(values@.take(i as int) =~= values@);
    let mut out = row.finish();
    out.push(' ');
    out.append(reason);
    out.push('\n');
    assert(out@ =~= data_row(
        elapsed,
        cores as nat,
        *usage,
        allocated as nat,
        freed as nat,
        values@,
        reason@,
    ));
    out
}

} // verus!
