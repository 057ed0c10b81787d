//! What holds of every recording: the shape of its rows when they are read
//! back, and the order of its times.

use crate::line::{
    column_widths, data_fields, data_row, header_fields, header_row, justified_row,
};
use crate::data::ProbeView;
use crate::reader::{label_field, metric_titles};
use crate::readings::OsReadings;
use crate::text::{
    decimal, fixed_point, normalized, pow10, right_justified, signed_decimal, spaces, zero_padded,
};
use crate::time::{rounded_units, Duration, Instant};
use crate::tokens::{
    is_blank, is_solid, is_whitespace, is_word, lemma_scan_blank, lemma_scan_done_grows,
    lemma_scan_solid, scan, tokens, Scan,
};
use std::sync::atomic::AtomicI64;
use std::sync::Arc;
use vstd::prelude::*;

verus! {

/// A number in base ten is a word.
pub proof fn lemma_decimal_is_word(n: nat)
    ensures
        is_word(decimal(n)),
    decreases n,
{
    if n >= 10 {
        lemma_decimal_is_word(n / 10);
    }
}

/// A signed number in base ten is a word.
pub proof fn lemma_signed_decimal_is_word(v: int)
    ensures
        is_word(signed_decimal(v)),
{
    if v < 0 {
        lemma_decimal_is_word((-v) as nat);
    } else {
        lemma_decimal_is_word(v as nat);
    }
}

/// Digits padded with zeros hold no white space.
pub proof fn lemma_zero_padded_is_solid(n: nat, digits: nat)
    ensures
        is_solid(zero_padded(n, digits)),
    decreases digits,
{
    if digits > 0 {
        lemma_zero_padded_is_solid(n / 10, (digits - 1) as nat);
    }
}

/// A number with a decimal point is a word.
pub proof fn lemma_fixed_point_is_word(units: nat, decimals: nat)
    ensures
        is_word(fixed_point(units, decimals)),
{
    lemma_decimal_is_word(units / pow10(decimals));
    lemma_zero_padded_is_solid(units % pow10(decimals), decimals);
}

/// Scanning a row of words leaves the last of them in progress and all the
/// others done.
pub proof fn lemma_scan_row(fields: Seq<Seq<char>>, widths: Seq<nat>)
    requires
        fields.len() >= 1,
        fields.len() == widths.len(),
        forall|i: int| 0 <= i < fields.len() ==> is_word(#[trigger] fields[i]),
    ensures
        scan(justified_row(fields, widths)) == (Scan {
            done: fields.drop_last(),
            word: fields.last(),
        }),
    decreases fields.len(),
{
    let last = fields.last();
    let width = widths.last();
    let pad: Seq<char> = if last.len() >= width {
        Seq::empty()
    } else {
        spaces((width - last.len()) as nat)
    };
    assert(right_justified(last, width) =~= pad + last);
    assert(is_word(last));
    if fields.len() == 1 {
        assert(fields[0] == last);
        assert(widths[0] == width);
        let empty = Seq::<char>::empty();
        if pad.len() > 0 {
            lemma_scan_blank(empty, pad);
            assert(empty + pad =~= pad);
        }
        lemma_scan_solid(pad, last);
        assert(scan(pad).word + last =~= last);
        assert(fields.drop_last() =~= Seq::<Seq<char>>::empty());
    } else {
        let before = justified_row(fields.drop_last(), widths.drop_last());
        assert forall|i: int| 0 <= i < fields.drop_last().len() implies is_word(
            #[trigger] fields.drop_last()[i],
        ) by {
            assert(fields.drop_last()[i] == fields[i]);
        }
        lemma_scan_row(fields.drop_last(), widths.drop_last());
        let gap = seq![' '] + pad;
        lemma_scan_blank(before, gap);
        lemma_scan_solid(before + gap, last);
        assert(before + seq![' '] + right_justified(last, width) =~= before + gap + last);
        assert(fields.drop_last().drop_last().push(fields.drop_last().last())
            =~= fields.drop_last());
        assert(Seq::<char>::empty() + last =~= last);
    }
}

/// Every numeric field of a data row is a word.
pub proof fn lemma_data_fields_are_words(
    elapsed: Duration,
    cores: nat,
    usage: OsReadings,
    allocated: nat,
    freed: nat,
    values: Seq<i64>,
)
    ensures
        data_fields(elapsed, cores, usage, allocated, freed, values).len() == 11 + values.len(),
        forall|i: int|
            0 <= i < 11 + values.len() ==> is_word(
                #[trigger] data_fields(elapsed, cores, usage, allocated, freed, values)[i],
            ),
{
    let fields = data_fields(elapsed, cores, usage, allocated, freed, values);
    assert forall|i: int| 0 <= i < 11 + values.len() implies is_word(#[trigger] fields[i]) by {
        if i == 0 {
            lemma_fixed_point_is_word(
                rounded_units(elapsed.nanos as nat, 1_000_000),
                3,
            );
        } else if i == 1 {
            lemma_decimal_is_word(cores);
        } else if i == 2 {
            lemma_decimal_is_word(usage.virtual_size as nat);
        } else if i == 3 {
            lemma_decimal_is_word(usage.resident_size as nat);
        } else if i == 4 {
            lemma_decimal_is_word(usage.resident_size_max as nat);
        } else if i == 5 {
            lemma_fixed_point_is_word(
                rounded_units(usage.user_time.nanos as nat, 1_000),
                6,
            );
        } else if i == 6 {
            lemma_fixed_point_is_word(
                rounded_units(usage.system_time.nanos as nat, 1_000),
                6,
            );
        } else if i == 7 {
            lemma_decimal_is_word(usage.minor_fault as nat);
        } else if i == 8 {
            lemma_decimal_is_word(usage.major_fault as nat);
        } else if i == 9 {
            lemma_decimal_is_word(allocated);
        } else if i == 10 {
            lemma_decimal_is_word(freed);
        } else {
            lemma_signed_decimal_is_word(values[i - 11] as int);
        }
    }
}

/// The label of a data row as a list of tokens: the label itself, or
/// nothing when it is empty.
pub open spec fn label_tokens(reason: Seq<char>) -> Seq<Seq<char>> {
    if reason.len() > 0 {
        seq![reason]
    } else {
        Seq::empty()
    }
}

/// Read back by its tokens, a data row gives its numeric fields in column
/// order and then its label; an empty label gives no token. This holds of
/// every label without white space: one that holds, say, a tab reads back as
/// more than one token.
pub proof fn lemma_data_row_tokens(
    elapsed: Duration,
    cores: nat,
    usage: OsReadings,
    allocated: nat,
    freed: nat,
    values: Seq<i64>,
    reason: Seq<char>,
)
    requires
        is_solid(reason),
    ensures
        tokens(data_row(elapsed, cores, usage, allocated, freed, values, reason)) == data_fields(
            elapsed,
            cores,
            usage,
            allocated,
            freed,
            values,
        ) + label_tokens(reason),
{
    let fields = data_fields(elapsed, cores, usage, allocated, freed, values);
    let widths = column_widths(values.len());
    let row = justified_row(fields, widths);
    lemma_data_fields_are_words(elapsed, cores, usage, allocated, freed, values);
    lemma_scan_row(fields, widths);
    let gap = seq![' '];
    let end = seq!['\n'];
    lemma_scan_blank(row, gap);
    lemma_scan_solid(row + gap, reason);
    lemma_scan_blank(row + gap + reason, end);
    assert(fields.drop_last().push(fields.last()) =~= fields);
    assert(Seq::<char>::empty() + reason =~= reason);
    assert(fields + label_tokens(reason) =~= if reason.len() > 0 {
        fields.push(reason)
    } else {
        fields
    });
}

/// Whatever the label holds, the numeric fields of a data row read back as
/// its first tokens, in column order: white space in the label adds tokens
/// behind them and changes none of them.
pub proof fn lemma_numeric_fields_come_first(
    elapsed: Duration,
    cores: nat,
    usage: OsReadings,
    allocated: nat,
    freed: nat,
    values: Seq<i64>,
    reason: Seq<char>,
)
    ensures
        data_fields(elapsed, cores, usage, allocated, freed, values).len() == 11 + values.len(),
        data_fields(elapsed, cores, usage, allocated, freed, values).is_prefix_of(
            tokens(data_row(elapsed, cores, usage, allocated, freed, values, reason)),
        ),
{
    let fields = data_fields(elapsed, cores, usage, allocated, freed, values);
    let widths = column_widths(values.len());
    let row = justified_row(fields, widths);
    lemma_data_fields_are_words(elapsed, cores, usage, allocated, freed, values);
    lemma_scan_row(fields, widths);
    let gap = seq![' '];
    let rest = reason + seq!['\n'];
    lemma_scan_blank(row, gap);
    assert(fields.drop_last().push(fields.last()) =~= fields);
    lemma_scan_done_grows(row + gap, rest);
    let all = data_row(elapsed, cores, usage, allocated, freed, values, reason);
    assert(all =~= (row + gap) + rest);
    let done = scan(all).done;
    assert(done.push(scan(all).word).subrange(0, fields.len() as int) =~= done.subrange(
        0,
        fields.len() as int,
    ));
}

/// The number of tokens of a data row: eleven, one for each metric, and one
/// for the label unless it is empty.
pub proof fn lemma_data_row_token_count(
    elapsed: Duration,
    cores: nat,
    usage: OsReadings,
    allocated: nat,
    freed: nat,
    values: Seq<i64>,
    reason: Seq<char>,
)
    requires
        is_solid(reason),
    ensures
        tokens(data_row(elapsed, cores, usage, allocated, freed, values, reason)).len() == 11
            + values.len() + label_tokens(reason).len(),
        label_tokens(reason).len() == 1 <==> reason.len() > 0,
        label_tokens(reason).len() == 0 <==> reason.len() == 0,
{
    lemma_data_row_tokens(elapsed, cores, usage, allocated, freed, values, reason);
    lemma_data_fields_are_words(elapsed, cores, usage, allocated, freed, values);
}

/// The eleven fixed column titles and the title of the event column are
/// words.
pub proof fn lemma_titles_are_words()
    ensures
        is_word("time"@),
        is_word("cor"@),
        is_word("vsz"@),
        is_word("rsz"@),
        is_word("rszmax"@),
        is_word("utime"@),
        is_word("stime"@),
        is_word("minf"@),
        is_word("majf"@),
        is_word("alloc"@),
        is_word("free"@),
        is_word("event"@),
        " event\n"@ == seq![' '] + "event"@ + seq!['\n'],
{
    reveal_strlit("time");
    reveal_strlit("cor");
    reveal_strlit("vsz");
    reveal_strlit("rsz");
    reveal_strlit("rszmax");
    reveal_strlit("utime");
    reveal_strlit("stime");
    reveal_strlit("minf");
    reveal_strlit("majf");
    reveal_strlit("alloc");
    reveal_strlit("free");
    reveal_strlit("event");
    reveal_strlit(" event\n");
    assert(" event\n"@ =~= seq![' '] + "event"@ + seq!['\n']);
}

/// Read back by its tokens, the header row gives the eleven fixed titles,
/// then the metric names in registration order, then the title of the event
/// column. This holds where every name is a word: an empty name, or one
/// that holds white space other than the spaces that normalization
/// replaces, does not read back as one token.
pub proof fn lemma_header_row_tokens(names: Seq<Seq<char>>)
    requires
        forall|i: int| 0 <= i < names.len() ==> is_word(#[trigger] names[i]),
    ensures
        tokens(header_row(names)) == header_fields(names).push("event"@),
        header_fields(names).len() == 11 + names.len(),
{
    lemma_titles_are_words();
    let fields = header_fields(names);
    let widths = column_widths(names.len());
    let row = justified_row(fields, widths);
    assert forall|i: int| 0 <= i < fields.len() implies is_word(#[trigger] fields[i]) by {
        if i >= 11 {
            assert(fields[i] == names[i - 11]);
        }
    }
    lemma_scan_row(fields, widths);
    let gap = seq![' '];
    let end = seq!['\n'];
    lemma_scan_blank(row, gap);
    lemma_scan_solid(row + gap, "event"@);
    lemma_scan_blank(row + gap + "event"@, end);
    assert(fields.drop_last().push(fields.last()) =~= fields);
    assert(Seq::<char>::empty() + "event"@ =~= "event"@);
    assert(row + " event\n"@ =~= row + gap + "event"@ + end);
}

/// Reading the header row back gives the registered names: the metric
/// titles among its tokens are the names, in registration order, where
/// every name is a word.
pub proof fn lemma_header_round_trip(names: Seq<Seq<char>>)
    requires
        forall|i: int| 0 <= i < names.len() ==> is_word(#[trigger] names[i]),
    ensures
        metric_titles(tokens(header_row(names))) == names,
{
    lemma_header_row_tokens(names);
    assert(metric_titles(header_fields(names).push("event"@)) =~= names);
}

/// Reading a data row back gives its label: the token after the numeric
/// fields is the label, and there is none where the label is empty. This
/// holds of every label without white space.
pub proof fn lemma_label_round_trip(
    elapsed: Duration,
    cores: nat,
    usage: OsReadings,
    allocated: nat,
    freed: nat,
    values: Seq<i64>,
    reason: Seq<char>,
)
    requires
        is_solid(reason),
    ensures
        reason.len() > 0 ==> label_field(
            tokens(data_row(elapsed, cores, usage, allocated, freed, values, reason)),
            values.len(),
        ) == Some(reason),
        reason.len() == 0 ==> label_field(
            tokens(data_row(elapsed, cores, usage, allocated, freed, values, reason)),
            values.len(),
        ) is None,
{
    lemma_data_row_tokens(elapsed, cores, usage, allocated, freed, values, reason);
    lemma_data_fields_are_words(elapsed, cores, usage, allocated, freed, values);
}

/// Whether `c` is a decimal digit or the decimal point.
pub open spec fn is_numeric_char(c: char) -> bool {
    c == '.' || ('0' <= c && c <= '9')
}

/// Whether `s` holds digits and decimal points alone.
pub open spec fn all_numeric(s: Seq<char>) -> bool {
    forall|i: int| 0 <= i < s.len() ==> is_numeric_char(#[trigger] s[i])
}

/// Whether `s` is a number: not empty, and written with digits and decimal
/// points alone.
pub open spec fn is_numeric(s: Seq<char>) -> bool {
    s.len() > 0 && all_numeric(s)
}

/// A number in base ten is written with digits alone.
pub proof fn lemma_decimal_is_numeric(n: nat)
    ensures
        is_numeric(decimal(n)),
    decreases n,
{
    if n >= 10 {
        lemma_decimal_is_numeric(n / 10);
    }
}

/// Digits padded with zeros are digits.
pub proof fn lemma_zero_padded_is_numeric(n: nat, digits: nat)
    ensures
        all_numeric(zero_padded(n, digits)),
    decreases digits,
{
    if digits > 0 {
        lemma_zero_padded_is_numeric(n / 10, (digits - 1) as nat);
    }
}

/// A number with a decimal point is written with digits and the point.
pub proof fn lemma_fixed_point_is_numeric(units: nat, decimals: nat)
    ensures
        is_numeric(fixed_point(units, decimals)),
{
    lemma_decimal_is_numeric(units / pow10(decimals));
    lemma_zero_padded_is_numeric(units % pow10(decimals), decimals);
}

/// A data row without metrics and with an empty label reads back as
/// exactly eleven tokens, each of them a number; no token stands for the
/// label.
pub proof fn lemma_bare_row_round_trip(
    elapsed: Duration,
    cores: nat,
    usage: OsReadings,
    allocated: nat,
    freed: nat,
)
    ensures
        tokens(
            data_row(elapsed, cores, usage, allocated, freed, Seq::empty(), Seq::empty()),
        ).len() == 11,
        forall|i: int|
            0 <= i < 11 ==> is_numeric(
                #[trigger] tokens(
                    data_row(elapsed, cores, usage, allocated, freed, Seq::empty(), Seq::empty()),
                )[i],
            ),
{
    let none = Seq::<i64>::empty();
    let blank = Seq::<char>::empty();
    lemma_data_row_tokens(elapsed, cores, usage, allocated, freed, none, blank);
    let fields = data_fields(elapsed, cores, usage, allocated, freed, none);
    assert(fields + label_tokens(blank) =~= fields);
    lemma_fixed_point_is_numeric(rounded_units(elapsed.nanos as nat, 1_000_000), 3);
    lemma_decimal_is_numeric(cores);
    lemma_decimal_is_numeric(usage.virtual_size as nat);
    lemma_decimal_is_numeric(usage.resident_size as nat);
    lemma_decimal_is_numeric(usage.resident_size_max as nat);
    lemma_fixed_point_is_numeric(rounded_units(usage.user_time.nanos as nat, 1_000), 6);
    lemma_fixed_point_is_numeric(
        rounded_units(usage.system_time.nanos as nat, 1_000),
        6,
    );
    lemma_decimal_is_numeric(usage.minor_fault as nat);
    lemma_decimal_is_numeric(usage.major_fault as nat);
    lemma_decimal_is_numeric(allocated);
    lemma_decimal_is_numeric(freed);
}

/// The length of a column: its width, or the length of a field that is
/// longer than that.
pub open spec fn column_len(field: Seq<char>, width: nat) -> nat {
    if field.len() >= width {
        field.len()
    } else {
        width
    }
}

/// The length of a row: its columns and one space between each two.
pub open spec fn row_len(fields: Seq<Seq<char>>, widths: Seq<nat>) -> nat
    recommends
        fields.len() == widths.len(),
    decreases fields.len(),
{
    if fields.len() == 0 {
        0
    } else if fields.len() == 1 {
        column_len(fields[0], widths[0])
    } else {
        row_len(fields.drop_last(), widths.drop_last()) + 1 + column_len(
            fields.last(),
            widths.last(),
        )
    }
}

/// The length of a row whose fields all fit their columns: the widths and
/// one space between each two.
pub open spec fn widths_len(widths: Seq<nat>) -> nat
    decreases widths.len(),
{
    if widths.len() == 0 {
        0
    } else if widths.len() == 1 {
        widths[0]
    } else {
        widths_len(widths.drop_last()) + 1 + widths.last()
    }
}

/// A row is as long as its columns and the spaces between them. No column
/// is narrower than its width, and a row whose fields all fit their columns
/// is exactly as long as the widths say.
pub proof fn lemma_row_length(fields: Seq<Seq<char>>, widths: Seq<nat>)
    requires
        fields.len() == widths.len(),
    ensures
        justified_row(fields, widths).len() == row_len(fields, widths),
        row_len(fields, widths) >= widths_len(widths),
        (forall|i: int| 0 <= i < fields.len() ==> (#[trigger] fields[i]).len() <= widths[i])
            ==> row_len(fields, widths) == widths_len(widths),
    decreases fields.len(),
{
    if fields.len() >= 2 {
        lemma_row_length(fields.drop_last(), widths.drop_last());
        if forall|i: int| 0 <= i < fields.len() ==> (#[trigger] fields[i]).len() <= widths[i] {
            assert forall|i: int| 0 <= i < fields.drop_last().len() implies (
            #[trigger] fields.drop_last()[i]).len() <= widths.drop_last()[i] by {
                assert(fields.drop_last()[i] == fields[i]);
            }
            assert(fields[fields.len() - 1].len() <= widths[fields.len() - 1]);
        }
    } else if fields.len() == 1 {
        if forall|i: int| 0 <= i < fields.len() ==> (#[trigger] fields[i]).len() <= widths[i] {
            assert(fields[0].len() <= widths[0]);
        }
    }
}

/// The columns of a row with `metrics` metrics take 106 characters and 11
/// more for each metric.
pub proof fn lemma_column_widths_length(metrics: nat)
    ensures
        column_widths(metrics).len() == 11 + metrics,
        widths_len(column_widths(metrics)) == 106 + 11 * metrics,
    decreases metrics,
{
    if metrics == 0 {
        let fixed = seq![7nat, 3nat, 10nat, 10nat, 10nat, 8nat, 8nat, 10nat, 10nat, 10nat, 10nat];
        assert(column_widths(0) =~= fixed);
        reveal_with_fuel(widths_len, 12);
        assert(widths_len(fixed) == 106);
    } else {
        lemma_column_widths_length((metrics - 1) as nat);
        assert(column_widths(metrics).drop_last() =~= column_widths((metrics - 1) as nat));
        assert(column_widths(metrics).last() == 10);
    }
}

/// The length of a data row: its columns, a space, the label and the end
/// of the line. A row whose numeric fields all fit their columns has 106
/// characters, 11 more for each metric, and then the space, the label and
/// the end of the line; a field that is too long for its column makes the
/// row longer by as much.
pub proof fn lemma_data_row_length(
    elapsed: Duration,
    cores: nat,
    usage: OsReadings,
    allocated: nat,
    freed: nat,
    values: Seq<i64>,
    reason: Seq<char>,
)
    ensures
        data_row(elapsed, cores, usage, allocated, freed, values, reason).len() == row_len(
            data_fields(elapsed, cores, usage, allocated, freed, values),
            column_widths(values.len()),
        ) + reason.len() + 2,
        data_row(elapsed, cores, usage, allocated, freed, values, reason).len() >= 108 + 11
            * values.len() + reason.len(),
        (forall|i: int|
            0 <= i < 11 + values.len() ==> (#[trigger] data_fields(
                elapsed,
                cores,
                usage,
                allocated,
                freed,
                values,
            )[i]).len() <= column_widths(values.len())[i]) ==> data_row(
            elapsed,
            cores,
            usage,
            allocated,
            freed,
            values,
            reason,
        ).len() == 108 + 11 * values.len() + reason.len(),
{
    let fields = data_fields(elapsed, cores, usage, allocated, freed, values);
    let widths = column_widths(values.len());
    lemma_column_widths_length(values.len());
    lemma_data_fields_are_words(elapsed, cores, usage, allocated, freed, values);
    lemma_row_length(fields, widths);
}

/// A number below `10^digits` is written with at most `digits` digits.
pub proof fn lemma_decimal_length(n: nat, digits: nat)
    requires
        digits >= 1,
        n < pow10(digits),
    ensures
        1 <= decimal(n).len() <= digits,
    decreases digits,
{
    if n >= 10 {
        if digits == 1 {
            assert(pow10(1) == 10) by {
                reveal_with_fuel(pow10, 2);
            }
        } else {
            lemma_decimal_length(n / 10, (digits - 1) as nat);
        }
    }
}

/// Digits padded with zeros are as many as asked for.
pub proof fn lemma_zero_padded_length(n: nat, digits: nat)
    ensures
        zero_padded(n, digits).len() == digits,
    decreases digits,
{
    if digits > 0 {
        lemma_zero_padded_length(n / 10, (digits - 1) as nat);
    }
}

/// Whether every numeric field of a data row fits its column: a time under
/// 1000 s, fewer than 1000 cores, CPU times under 10 s, counters under
/// `10^10`, and metric values of at most ten characters.
pub open spec fn fits_columns(
    elapsed: Duration,
    cores: nat,
    usage: OsReadings,
    allocated: nat,
    freed: nat,
    values: Seq<i64>,
) -> bool {
    &&& rounded_units(elapsed.nanos as nat, 1_000_000) < 1_000_000
    &&& cores < 1_000
    &&& usage.virtual_size < 10_000_000_000
    &&& usage.resident_size < 10_000_000_000
    &&& usage.resident_size_max < 10_000_000_000
    &&& rounded_units(usage.user_time.nanos as nat, 1_000) < 10_000_000
    &&& rounded_units(usage.system_time.nanos as nat, 1_000) < 10_000_000
    &&& usage.minor_fault < 10_000_000_000
    &&& usage.major_fault < 10_000_000_000
    &&& allocated < 10_000_000_000
    &&& freed < 10_000_000_000
    &&& forall|i: int|
        0 <= i < values.len() ==> -1_000_000_000 < #[trigger] values[i] < 10_000_000_000
}

/// Data rows whose numeric fields fit their columns all have one length
/// but for the label: 106 characters, 11 more for each metric, and then the
/// space, the label and the end of the line. The widths are least widths:
/// a larger number, such as a CPU time of 10 s or a time of 1000 s, makes
/// its row longer.
pub proof fn lemma_fitting_rows_have_one_length(
    elapsed: Duration,
    cores: nat,
    usage: OsReadings,
    allocated: nat,
    freed: nat,
    values: Seq<i64>,
    reason: Seq<char>,
)
    requires
        fits_columns(elapsed, cores, usage, allocated, freed, values),
    ensures
        data_row(elapsed, cores, usage, allocated, freed, values, reason).len() == 108 + 11
            * values.len() + reason.len(),
{
    let fields = data_fields(elapsed, cores, usage, allocated, freed, values);
    let widths = column_widths(values.len());
    reveal_with_fuel(pow10, 11);
    assert(pow10(1) == 10 && pow10(3) == 1_000 && pow10(6) == 1_000_000);
    assert(pow10(9) == 1_000_000_000 && pow10(10) == 10_000_000_000);
    assert forall|i: int| 0 <= i < 11 + values.len() implies (#[trigger] fields[i]).len()
        <= widths[i] by {
        if i == 0 {
            let millis = rounded_units(elapsed.nanos as nat, 1_000_000);
            lemma_decimal_length(millis / 1_000, 3);
            lemma_zero_padded_length(millis % 1_000, 3);
        } else if i == 1 {
            lemma_decimal_length(cores, 3);
        } else if i == 2 {
            lemma_decimal_length(usage.virtual_size as nat, 10);
        } else if i == 3 {
            lemma_decimal_length(usage.resident_size as nat, 10);
        } else if i == 4 {
            lemma_decimal_length(usage.resident_size_max as nat, 10);
        } else if i == 5 {
            let micros = rounded_units(usage.user_time.nanos as nat, 1_000);
            lemma_decimal_length(micros / 1_000_000, 1);
            lemma_zero_padded_length(micros % 1_000_000, 6);
        } else if i == 6 {
            let micros = rounded_units(usage.system_time.nanos as nat, 1_000);
            lemma_decimal_length(micros / 1_000_000, 1);
            lemma_zero_padded_length(micros % 1_000_000, 6);
        } else if i == 7 {
            lemma_decimal_length(usage.minor_fault as nat, 10);
        } else if i == 8 {
            lemma_decimal_length(usage.major_fault as nat, 10);
        } else if i == 9 {
            lemma_decimal_length(allocated, 10);
        } else if i == 10 {
            lemma_decimal_length(freed, 10);
        } else {
            let v = values[i - 11];
            if v < 0 {
                lemma_decimal_length((-v) as nat, 9);
            } else {
                lemma_decimal_length(v as nat, 10);
            }
        }
    }
    lemma_data_row_length(elapsed, cores, usage, allocated, freed, values, reason);
}

/// The probe after registering the metrics `names`, one after the other,
/// each with the shared integer at the same place in `handles`.
pub open spec fn after_registrations(
    start: ProbeView,
    names: Seq<Seq<char>>,
    handles: Seq<Arc<AtomicI64>>,
) -> ProbeView
    recommends
        names.len() == handles.len(),
    decreases names.len(),
{
    if names.len() == 0 {
        start
    } else {
        after_registrations(start, names.drop_last(), handles.drop_last()).with_metric(
            names.last(),
            handles.last(),
        )
    }
}

/// The names in `names`, each normalized.
pub open spec fn all_normalized(names: Seq<Seq<char>>) -> Seq<Seq<char>> {
    Seq::new(names.len(), |i: int| normalized(names[i]))
}

/// Registrations made before the first line add their names to the
/// registry, normalized and in call order, and change nothing else.
pub proof fn lemma_registrations_in_order(
    start: ProbeView,
    names: Seq<Seq<char>>,
    handles: Seq<Arc<AtomicI64>>,
)
    requires
        names.len() == handles.len(),
    ensures
        after_registrations(start, names, handles) == (ProbeView {
            names: start.names + all_normalized(names),
            handles: start.handles + handles,
            ..start
        }),
    decreases names.len(),
{
    if names.len() == 0 {
        assert(start.names + all_normalized(names) =~= start.names);
        assert(start.handles + handles =~= start.handles);
    } else {
        lemma_registrations_in_order(start, names.drop_last(), handles.drop_last());
        assert((start.names + all_normalized(names.drop_last())).push(normalized(names.last()))
            =~= start.names + all_normalized(names));
        assert((start.handles + handles.drop_last()).push(handles.last()) =~= start.handles
            + handles);
    }
}

/// The header row lists exactly the metrics registered before the first
/// line, normalized and in call order: the first line recorded after a run
/// of registrations on a probe without metrics puts the header row of those
/// names before its data row.
pub proof fn lemma_header_lists_registrations(
    start: ProbeView,
    names: Seq<Seq<char>>,
    handles: Seq<Arc<AtomicI64>>,
    now: Instant,
    readings: OsReadings,
    allocated: nat,
    freed: nat,
    values: Seq<i64>,
    reason: Seq<char>,
)
    requires
        !start.started(),
        start.names.len() == 0,
        names.len() == handles.len(),
    ensures
        after_registrations(start, names, handles).after_line(
            now,
            readings,
            allocated,
            freed,
            values,
            reason,
        ).output == start.output + header_row(all_normalized(names)) + data_row(
            start.elapsed_at(now),
            start.cores,
            readings,
            allocated,
            freed,
            values,
            reason,
        ),
{
    lemma_registrations_in_order(start, names, handles);
    assert(start.names + all_normalized(names) =~= all_normalized(names));
}

/// A recorded line starts the probe for good: every line after it leaves
/// the origin and the registry as they are, and records no second header
/// row. Only a line with readings is recorded, so an attempt with readings
/// that failed starts nothing.
pub proof fn lemma_started_for_good(
    view: ProbeView,
    now: Instant,
    readings: OsReadings,
    allocated: nat,
    freed: nat,
    values: Seq<i64>,
    reason: Seq<char>,
)
    ensures
        view.after_line(now, readings, allocated, freed, values, reason).started(),
        view.after_line(now, readings, allocated, freed, values, reason).opening() == Seq::<
            char,
        >::empty(),
        view.after_line(now, readings, allocated, freed, values, reason).names == view.names,
        view.after_line(now, readings, allocated, freed, values, reason).handles == view.handles,
        view.started() ==> view.after_line(now, readings, allocated, freed, values, reason).origin
            == view.origin,
{
}

/// The first line of a recording shows the time zero, written `0.000`.
pub proof fn lemma_first_line_at_zero(view: ProbeView, now: Instant)
    requires
        !view.started(),
    ensures
        view.elapsed_at(now).nanos == 0,
        fixed_point(rounded_units(view.elapsed_at(now).nanos as nat, 1_000_000), 3) == "0.000"@,
{
    reveal_strlit("0.000");
    assert(pow10(3) == 1000) by {
        assert(pow10(0) == 1);
        assert(pow10(1) == 10);
        assert(pow10(2) == 100);
    }
    assert(zero_padded(0, 3) =~= seq!['0', '0', '0']) by {
        assert(zero_padded(0, 0) =~= Seq::<char>::empty());
        assert(zero_padded(0, 1) =~= seq!['0']);
        assert(zero_padded(0, 2) =~= seq!['0', '0']);
    }
    assert(fixed_point(0, 3) =~= "0.000"@);
}

/// The first data row of every recording shows the time `0.000`. A
/// recording has no data row until a line is recorded on it while it has
/// not started; attempts with readings that failed leave it as it was. That
/// line puts the header row and then its data row behind what was recorded
/// before, and the first field and the first token of the data row are
/// `0.000`, whatever the clock reads and whatever the label holds.
pub proof fn lemma_first_data_row_shows_zero(
    view: ProbeView,
    now: Instant,
    readings: OsReadings,
    allocated: nat,
    freed: nat,
    values: Seq<i64>,
    reason: Seq<char>,
)
    requires
        !view.started(),
    ensures
        view.after_line(now, readings, allocated, freed, values, reason).output == view.output
            + header_row(view.names) + data_row(
            view.elapsed_at(now),
            view.cores,
            readings,
            allocated,
            freed,
            values,
            reason,
        ),
        data_fields(view.elapsed_at(now), view.cores, readings, allocated, freed, values)[0]
            == "0.000"@,
        tokens(
            data_row(view.elapsed_at(now), view.cores, readings, allocated, freed, values, reason),
        )[0] == "0.000"@,
{
    lemma_first_line_at_zero(view, now);
    let fields = data_fields(view.elapsed_at(now), view.cores, readings, allocated, freed, values);
    lemma_numeric_fields_come_first(
        view.elapsed_at(now),
        view.cores,
        readings,
        allocated,
        freed,
        values,
        reason,
    );
    let read = tokens(
        data_row(view.elapsed_at(now), view.cores, readings, allocated, freed, values, reason),
    );
    assert(read.subrange(0, fields.len() as int)[0] == read[0]);
}

/// The time shown never goes back: a line recorded at a clock reading that
/// is not before that of the line recorded just before it shows a time that
/// is not smaller, in nanoseconds and in the milliseconds written. This
/// holds of clock readings that come in order; a caller that reads the
/// clock first and records second may show a smaller time.
pub proof fn lemma_elapsed_never_goes_back(
    view: ProbeView,
    first: Instant,
    readings: OsReadings,
    allocated: nat,
    freed: nat,
    values: Seq<i64>,
    reason: Seq<char>,
    second: Instant,
)
    requires
        first.nanos <= second.nanos,
    ensures
        view.elapsed_at(first).nanos <= view.after_line(
            first,
            readings,
            allocated,
            freed,
            values,
            reason,
        ).elapsed_at(second).nanos,
        rounded_units(view.elapsed_at(first).nanos as nat, 1_000_000) <= rounded_units(
            view.after_line(first, readings, allocated, freed, values, reason).elapsed_at(
                second,
            ).nanos as nat,
            1_000_000,
        ),
{
}

} // verus!
