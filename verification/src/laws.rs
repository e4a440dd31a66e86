//! What the commands guarantee together: a full-date prefix selects
//! exactly the entries of that calendar day, a month prefix exactly the
//! entries of that month, an added entry is found by the same day's
//! query, and stored entries are never rewritten.

use vstd::prelude::*;
use crate::date::{Date, Timestamp};
use crate::interp::{entry_line, query_output};
use crate::store::{rows_with_prefix, row_matches, RowV};
use crate::text::{date_chars, dchar, four_digits, timestamp_chars, two_digits};

verus! {

proof fn lemma_dchar_inj(a: int, b: int)
    requires
        0 <= a <= 9,
        0 <= b <= 9,
        dchar(a) == dchar(b),
    ensures
        a == b,
{
}

proof fn lemma_two_digits_inj(a: int, b: int)
    requires
        0 <= a <= 99,
        0 <= b <= 99,
        two_digits(a) == two_digits(b),
    ensures
        a == b,
{
    assert(two_digits(a)[0] == two_digits(b)[0]);
    assert(two_digits(a)[1] == two_digits(b)[1]);
    lemma_dchar_inj(a / 10, b / 10);
    lemma_dchar_inj(a % 10, b % 10);
    assert(a == 10 * (a / 10) + a % 10);
    assert(b == 10 * (b / 10) + b % 10);
}

proof fn lemma_four_digits_inj(a: int, b: int)
    requires
        0 <= a <= 9999,
        0 <= b <= 9999,
        four_digits(a) == four_digits(b),
    ensures
        a == b,
{
    assert(four_digits(a)[0] == four_digits(b)[0]);
    assert(four_digits(a)[1] == four_digits(b)[1]);
    assert(four_digits(a)[2] == four_digits(b)[2]);
    assert(four_digits(a)[3] == four_digits(b)[3]);
    lemma_dchar_inj(a / 1000, b / 1000);
    lemma_dchar_inj((a / 100) % 10, (b / 100) % 10);
    lemma_dchar_inj((a / 10) % 10, (b / 10) % 10);
    lemma_dchar_inj(a % 10, b % 10);
    lemma_digit_recomposition(a);
    lemma_digit_recomposition(b);
}

proof fn lemma_digit_recomposition(a: int)
    requires
        0 <= a <= 9999,
    ensures
        a == 1000 * (a / 1000) + 100 * ((a / 100) % 10) + 10 * ((a / 10) % 10) + a % 10,
{
    assert(a == 1000 * (a / 1000) + 100 * ((a / 100) % 10) + 10 * ((a / 10) % 10) + a % 10)
        by (nonlinear_arith)
        requires
            0 <= a <= 9999,
    ;
}

/// No two dates print alike: `YYYY-MM-DD` determines the date.
pub proof fn lemma_date_chars_inj(d1: Date, d2: Date)
    requires
        d1.wf(),
        d2.wf(),
        date_chars(d1) == date_chars(d2),
    ensures
        d1 == d2,
{
    assert(four_digits(d1.year as int) =~= date_chars(d1).subrange(0, 4));
    assert(four_digits(d2.year as int) =~= date_chars(d2).subrange(0, 4));
    assert(two_digits(d1.month as int) =~= date_chars(d1).subrange(5, 7));
    assert(two_digits(d2.month as int) =~= date_chars(d2).subrange(5, 7));
    assert(two_digits(d1.day as int) =~= date_chars(d1).subrange(8, 10));
    assert(two_digits(d2.day as int) =~= date_chars(d2).subrange(8, 10));
    lemma_four_digits_inj(d1.year as int, d2.year as int);
    lemma_two_digits_inj(d1.month as int, d2.month as int);
    lemma_two_digits_inj(d1.day as int, d2.day as int);
}

/// A timestamp string opens with its own date's ten characters.
pub proof fn lemma_timestamp_opens_with_date(ts: Timestamp)
    ensures
        timestamp_chars(ts).len() == 19,
        timestamp_chars(ts).subrange(0, 10) == date_chars(ts.date),
{
    assert(timestamp_chars(ts).subrange(0, 10) =~= date_chars(ts.date));
}

/// A full date as prefix selects exactly the entries of that calendar
/// day: a well-formed timestamp starts with `YYYY-MM-DD` exactly when
/// its date is that day.
pub proof fn lemma_date_prefix_selects_day(d: Date, ts: Timestamp)
    requires
        d.wf(),
        ts.wf(),
    ensures
        date_chars(d).is_prefix_of(timestamp_chars(ts)) <==> d == ts.date,
{
    lemma_timestamp_opens_with_date(ts);
    assert(date_chars(d).len() == 10);
    if date_chars(d).is_prefix_of(timestamp_chars(ts)) {
        assert(date_chars(d) =~= timestamp_chars(ts).subrange(0, 10));
        lemma_date_chars_inj(d, ts.date);
    }
    if d == ts.date {
        assert(date_chars(d) =~= timestamp_chars(ts).subrange(0, 10));
    }
}

/// The previous calendar day of a well-formed date (other than the
/// very first one) is well-formed.
pub proof fn lemma_spec_prev_wf(d: Date)
    requires
        d.wf(),
        !d.is_first_date(),
    ensures
        d.spec_prev().wf(),
{
}

/// The `yesterday` prefix selects exactly the entries stamped on the
/// previous calendar day, across month and year boundaries alike.
pub proof fn lemma_yesterday_prefix_selects_prev_day(d: Date, ts: Timestamp)
    requires
        d.wf(),
        !d.is_first_date(),
        ts.wf(),
    ensures
        date_chars(d.spec_prev()).is_prefix_of(timestamp_chars(ts)) <==> ts.date == d.spec_prev(),
{
    lemma_spec_prev_wf(d);
    lemma_date_prefix_selects_day(d.spec_prev(), ts);
}

/// A year-and-month prefix, `YYYY-MM`.
pub open spec fn month_chars(y: int, m: int) -> Seq<char> {
    four_digits(y) + seq!['-'] + two_digits(m)
}

/// A month as prefix selects exactly the entries of that month: a
/// well-formed timestamp starts with `YYYY-MM` exactly when its date
/// falls in that year and month.
pub proof fn lemma_month_prefix_selects_month(y: int, m: int, ts: Timestamp)
    requires
        0 <= y <= 9999,
        0 <= m <= 99,
        ts.wf(),
    ensures
        month_chars(y, m).is_prefix_of(timestamp_chars(ts)) <==> y == ts.date.year && m == ts.date.month,
{
    assert(month_chars(y, m).len() == 7);
    assert(timestamp_chars(ts).len() == 19);
    if month_chars(y, m).is_prefix_of(timestamp_chars(ts)) {
        let head = timestamp_chars(ts).subrange(0, 7);
        assert(month_chars(y, m) =~= head);
        assert(four_digits(y) =~= month_chars(y, m).subrange(0, 4));
        assert(four_digits(ts.date.year as int) =~= head.subrange(0, 4));
        assert(two_digits(m) =~= month_chars(y, m).subrange(5, 7));
        assert(two_digits(ts.date.month as int) =~= head.subrange(5, 7));
        lemma_four_digits_inj(y, ts.date.year as int);
        lemma_two_digits_inj(m, ts.date.month as int);
    }
    if y == ts.date.year && m == ts.date.month {
        assert(month_chars(y, m) =~= timestamp_chars(ts).subrange(0, 7));
    }
}

/// An entry added at `now` is found again by a query whose prefix is
/// `now`'s date: it stands last in the output, its text as given.
pub proof fn lemma_add_then_query_today(rows: Seq<RowV>, task: Seq<char>, now: Timestamp)
    requires
        now.wf(),
    ensures
        ({
            let out = query_output(rows.push((timestamp_chars(now), task)), date_chars(now.date));
            out.len() >= 2 && out.last() == entry_line((timestamp_chars(now), task))
        }),
{
    let row = (timestamp_chars(now), task);
    let grown = rows.push(row);
    let prefix = date_chars(now.date);
    lemma_date_prefix_selects_day(now.date, now);
    assert(row_matches(prefix, row));
    reveal(Seq::filter);
    assert(grown.drop_last() =~= rows);
    assert(rows_with_prefix(grown, prefix) == rows_with_prefix(rows, prefix).push(row));
    let out = query_output(grown, prefix);
    assert(out.last() == entry_line(row));
}

/// `today` and `date` with today's date string query the same prefix,
/// so over the same stored rows their outputs are identical.
pub proof fn lemma_today_equals_date_of_today(rows: Seq<RowV>, now: Timestamp, date_arg: Seq<char>)
    requires
        date_arg == date_chars(now.date),
    ensures
        query_output(rows, date_chars(now.date)) == query_output(rows, date_arg),
{
}

/// A query keeps exactly the stored rows that match its prefix: every
/// returned row matches, and every stored row that matches is returned.
pub proof fn lemma_query_selects_exactly(rows: Seq<RowV>, prefix: Seq<char>)
    ensures
        forall|i: int| 0 <= i < rows_with_prefix(rows, prefix).len() ==> row_matches(prefix, #[trigger] rows_with_prefix(rows, prefix)[i]),
        forall|i: int| 0 <= i < rows.len() && row_matches(prefix, #[trigger] rows[i]) ==> rows_with_prefix(rows, prefix).contains(rows[i]),
{
    let p = |row: RowV| row_matches(prefix, row);
    assert(rows_with_prefix(rows, prefix) == rows.filter(p));
    assert forall|i: int| 0 <= i < rows_with_prefix(rows, prefix).len() implies row_matches(prefix, #[trigger] rows_with_prefix(rows, prefix)[i]) by {
        rows.lemma_filter_pred(p, i);
    }
    assert forall|i: int| 0 <= i < rows.len() && row_matches(prefix, #[trigger] rows[i]) implies rows_with_prefix(rows, prefix).contains(rows[i]) by {
        rows.lemma_filter_contains(p, i);
    }
}

/// Appending never touches what is already stored: every existing
/// entry keeps its place, its timestamp and its text.
pub proof fn lemma_append_preserves_entries(rows: Seq<RowV>, row: RowV, i: int)
    requires
        0 <= i < rows.len(),
    ensures
        rows.push(row)[i] == rows[i],
{
}

} // verus!
