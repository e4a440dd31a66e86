//! Timestamp strings: `YYYY-MM-DD HH:MM:SS` formatting of dates and
//! times, and prefix matching over strings, the query predicate.

use vstd::prelude::*;
use crate::date::{Date, TimeOfDay, Timestamp};

verus! {

/// The decimal digit character for `d` (0 through 9).
pub open spec fn dchar(d: int) -> char {
    if d == 0 {
        '0'
    } else if d == 1 {
        '1'
    } else if d == 2 {
        '2'
    } else if d == 3 {
        '3'
    } else if d == 4 {
        '4'
    } else if d == 5 {
        '5'
    } else if d == 6 {
        '6'
    } else if d == 7 {
        '7'
    } else if d == 8 {
        '8'
    } else {
        '9'
    }
}

/// `n` as two decimal digits, zero-padded.
pub open spec fn two_digits(n: int) -> Seq<char> {
    seq![dchar(n / 10), dchar(n % 10)]
}

/// `n` as four decimal digits, zero-padded.
pub open spec fn four_digits(n: int) -> Seq<char> {
    seq![dchar(n / 1000), dchar((n / 100) % 10), dchar((n / 10) % 10), dchar(n % 10)]
}

/// The date as `YYYY-MM-DD`.
pub open spec fn date_chars(d: Date) -> Seq<char> {
    four_digits(d.year as int) + seq!['-'] + two_digits(d.month as int) + seq!['-'] + two_digits(
        d.day as int,
    )
}

/// The time as `HH:MM:SS`.
pub open spec fn time_chars(t: TimeOfDay) -> Seq<char> {
    two_digits(t.hour as int) + seq![':'] + two_digits(t.minute as int) + seq![':'] + two_digits(
        t.second as int,
    )
}

/// The timestamp as `YYYY-MM-DD HH:MM:SS`.
pub open spec fn timestamp_chars(ts: Timestamp) -> Seq<char> {
    date_chars(ts.date) + seq![' '] + time_chars(ts.time)
}

fn push_digit(s: &mut String, n: i32)
    requires
        0 <= n <= 9,
    ensures
        final(s)@ == old(s)@ + seq![dchar(n as int)],
{
    proof {
        reveal_strlit("0");
        reveal_strlit("1");
        reveal_strlit("2");
        reveal_strlit("3");
        reveal_strlit("4");
        reveal_strlit("5");
        reveal_strlit("6");
        reveal_strlit("7");
        reveal_strlit("8");
        reveal_strlit("9");
    }
    if n == 0 {
        s.append("0");
    } else if n == 1 {
        s.append("1");
    } else if n == 2 {
        s.append("2");
    } else if n == 3 {
        s.append("3");
    } else if n == 4 {
        s.append("4");
    } else if n == 5 {
        s.append("5");
    } else if n == 6 {
        s.append("6");
    } else if n == 7 {
        s.append("7");
    } else if n == 8 {
        s.append("8");
    } else {
        s.append("9");
    }
    assert(final(s)@ =~= old(s)@ + seq![dchar(n as int)]);
}

fn push_two_digits(s: &mut String, n: i32)
    requires
        0 <= n <= 99,
    ensures
        final(s)@ == old(s)@ + two_digits(n as int),
{
    push_digit(s, n / 10);
    push_digit(s, n % 10);
    assert(final(s)@ =~= old(s)@ + two_digits(n as int));
}

fn push_four_digits(s: &mut String, n: i32)
    requires
        0 <= n <= 9999,
    ensures
        final(s)@ == old(s)@ + four_digits(n as int),
{
    push_digit(s, n / 1000);
    push_digit(s, (n / 100) % 10);
    push_digit(s, (n / 10) % 10);
    push_digit(s, n % 10);
    assert(final(s)@ =~= old(s)@ + four_digits(n as int));
}

/// The date formatted as `YYYY-MM-DD`.
pub fn format_date(d: &Date) -> (r: String)
    requires
        d.wf(),
    ensures
        r@ == date_chars(*d),
{
    proof {
        reveal_strlit("-");
    }
    let mut s = String::new();
    push_four_digits(&mut s, d.year);
    s.append("-");
    push_two_digits(&mut s, d.month);
    s.append("-");
    push_two_digits(&mut s, d.day);
    assert(s@ =~= date_chars(*d));
    s
}

/// The timestamp formatted as `YYYY-MM-DD HH:MM:SS`.
pub fn format_timestamp(ts: &Timestamp) -> (r: String)
    requires
        ts.wf(),
    ensures
        r@ == timestamp_chars(*ts),
{
    proof {
        reveal_strlit(" ");
        reveal_strlit(":");
    }
    let mut s = format_date(&ts.date);
    s.append(" ");
    push_two_digits(&mut s, ts.time.hour);
    s.append(":");
    push_two_digits(&mut s, ts.time.minute);
    s.append(":");
    push_two_digits(&mut s, ts.time.second);
    assert(s@ =~= timestamp_chars(*ts));
    s
}

/// Does `s` start with `p`, character for character?
pub fn starts_with(s: &str, p: &str) -> (r: bool)
    ensures
        r == p@.is_prefix_of(s@),
{
    let n = p.unicode_len();
    if n > s.unicode_len() {
        return false;
    }
    let mut i: usize = 0;
    while i < n
        invariant
            i <= n,
            n == p@.len() <= s@.len(),
            forall|j: int| 0 <= j < i ==> s@[j] == p@[j],
        decreases n - i,
    {
        if s.get_char(i) != p.get_char(i) {
            return false;
        }
        i += 1;
    }
    assert(p@ =~= s@.subrange(0, p@.len() as int));
    true
}

} // verus!
