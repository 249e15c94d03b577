use vstd::prelude::*;

use crate::text::digits_value;

verus! {

/// Seconds that China Standard Time (Asia/Shanghai, UTC+8) runs ahead of UTC.
pub const SHANGHAI_OFFSET_SECONDS: i64 = 28800i64;

pub open spec fn is_digit(c: char) -> bool {
    '0' <= c <= '9'
}

/// The value of a decimal digit.
pub open spec fn digit_value(c: char) -> int {
    c as int - 48
}

/// The two-digit number at positions `i` and `i + 1`.
pub open spec fn num2(t: Seq<char>, i: int) -> int {
    digit_value(t[i]) * 10 + digit_value(t[i + 1])
}

/// The text has the shape `YYYY-MM-DDTHH:MM:SS`: nineteen characters,
/// decimal digits but for the separators `-`, `-`, `T`, `:`, `:`.
pub open spec fn iso_shaped(t: Seq<char>) -> bool {
    &&& t.len() == 19
    &&& is_digit(t[0]) && is_digit(t[1]) && is_digit(t[2]) && is_digit(t[3])
    &&& t[4] == '-'
    &&& is_digit(t[5]) && is_digit(t[6])
    &&& t[7] == '-'
    &&& is_digit(t[8]) && is_digit(t[9])
    &&& t[10] == 'T'
    &&& is_digit(t[11]) && is_digit(t[12])
    &&& t[13] == ':'
    &&& is_digit(t[14]) && is_digit(t[15])
    &&& t[16] == ':'
    &&& is_digit(t[17]) && is_digit(t[18])
}

pub open spec fn iso_year(t: Seq<char>) -> int {
    num2(t, 0) * 100 + num2(t, 2)
}

pub open spec fn iso_month(t: Seq<char>) -> int {
    num2(t, 5)
}

pub open spec fn iso_day(t: Seq<char>) -> int {
    num2(t, 8)
}

pub open spec fn iso_hour(t: Seq<char>) -> int {
    num2(t, 11)
}

pub open spec fn iso_minute(t: Seq<char>) -> int {
    num2(t, 14)
}

pub open spec fn iso_second(t: Seq<char>) -> int {
    num2(t, 17)
}

/// A leap year of the Gregorian calendar.
pub open spec fn is_leap(y: int) -> bool {
    (y % 4 == 0 && y % 100 != 0) || y % 400 == 0
}

pub open spec fn days_in_month(y: int, m: int) -> int {
    if m == 2 {
        if is_leap(y) {
            29
        } else {
            28
        }
    } else if m == 4 || m == 6 || m == 9 || m == 11 {
        30
    } else {
        31
    }
}

/// The days of the year `y` before the first of month `m` (1 to 12).
pub open spec fn days_before_month(y: int, m: int) -> int {
    let base: int = if m == 1 {
        0
    } else if m == 2 {
        31
    } else if m == 3 {
        59
    } else if m == 4 {
        90
    } else if m == 5 {
        120
    } else if m == 6 {
        151
    } else if m == 7 {
        181
    } else if m == 8 {
        212
    } else if m == 9 {
        243
    } else if m == 10 {
        273
    } else if m == 11 {
        304
    } else {
        334
    };
    if m > 2 && is_leap(y) {
        base + 1
    } else {
        base
    }
}

/// The leap years among the years 1 to `y - 1`, for `y >= 0` (for `y == 0`,
/// minus one: the leap year 0 itself lies before year 1).
pub open spec fn leaps_before(y: int) -> int {
    (y + 3) / 4 - (y + 99) / 100 + (y + 399) / 400 - 1
}

/// The days from 1970-01-01 to the date `y-m-d` (negative before it).
pub open spec fn epoch_day(y: int, m: int, d: int) -> int {
    365 * (y - 1970) + leaps_before(y) - leaps_before(1970) + days_before_month(y, m) + d - 1
}

/// The fields of the text name a real date and time of day.
pub open spec fn iso_valid(t: Seq<char>) -> bool {
    &&& 1 <= iso_month(t) <= 12
    &&& 1 <= iso_day(t) <= days_in_month(iso_year(t), iso_month(t))
    &&& iso_hour(t) <= 23
    &&& iso_minute(t) <= 59
    &&& iso_second(t) <= 59
}

/// The Unix time of the wall-clock time `YYYY-MM-DDTHH:MM:SS` read in
/// Asia/Shanghai (UTC+8), where the text is such a time.
pub open spec fn shanghai_unix_seconds(t: Seq<char>) -> Option<int> {
    if iso_shaped(t) && iso_valid(t) {
        Some(
            epoch_day(iso_year(t), iso_month(t), iso_day(t)) * 86400 + iso_hour(t) * 3600
                + iso_minute(t) * 60 + iso_second(t) - SHANGHAI_OFFSET_SECONDS,
        )
    } else {
        None
    }
}

/// The months of the Gregorian calendar: thirty days have April, June,
/// September and November, February has 28 or, in a leap year, 29, and the
/// rest have 31; each month begins where the one before it ends, January on
/// the first day of the year, and the twelve months fill 365 or 366 days.
pub proof fn law_gregorian_months(y: int)
    ensures
        forall|m: int|
            (m == 1 || m == 3 || m == 5 || m == 7 || m == 8 || m == 10 || m == 12) ==> #[trigger] days_in_month(y, m) == 31,
        forall|m: int| (m == 4 || m == 6 || m == 9 || m == 11) ==> #[trigger] days_in_month(y, m) == 30,
        days_in_month(y, 2) == if (y % 4 == 0 && y % 100 != 0) || y % 400 == 0 {
            29int
        } else {
            28int
        },
        days_before_month(y, 1) == 0,
        forall|m: int|
            1 <= m <= 11 ==> #[trigger] days_before_month(y, m + 1) == days_before_month(y, m)
                + days_in_month(y, m),
        days_before_month(y, 12) + days_in_month(y, 12) == if is_leap(y) {
            366int
        } else {
            365int
        },
{
}

proof fn lemma_leaps_step(y: int)
    requires
        y >= 0,
    ensures
        leaps_before(y + 1) == leaps_before(y) + if is_leap(y) {
            1int
        } else {
            0int
        },
{
    assert((y + 4) / 4 == (y + 3) / 4 + if y % 4 == 0 {
        1int
    } else {
        0int
    });
    assert((y + 100) / 100 == (y + 99) / 100 + if y % 100 == 0 {
        1int
    } else {
        0int
    });
    assert((y + 400) / 400 == (y + 399) / 400 + if y % 400 == 0 {
        1int
    } else {
        0int
    });
}

/// Days are counted without gaps from 1970-01-01, day 0: the next day of the
/// month is the next day, the first of the next month follows the month's
/// last day, and the next year starts 31 days after the first of December.
pub proof fn law_epoch_days_are_consecutive(y: int, m: int, d: int)
    requires
        y >= 0,
        1 <= m <= 12,
    ensures
        epoch_day(1970, 1, 1) == 0,
        epoch_day(y, m, d + 1) == epoch_day(y, m, d) + 1,
        m <= 11 ==> epoch_day(y, m + 1, 1) == epoch_day(y, m, 1) + days_in_month(y, m),
        epoch_day(y + 1, 1, 1) == epoch_day(y, 12, 1) + 31,
{
    law_gregorian_months(y);
    lemma_leaps_step(y);
    law_gregorian_months(y + 1);
}

/// The fields of a `YYYY-MM-DDTHH:MM:SS` text are the numbers its digit
/// groups spell, and a valid text gives the seconds since 1970-01-01 00:00
/// UTC of that wall-clock time eight hours ahead of UTC; a text that is not
/// of that shape, or names no real date and time of day, gives nothing.
pub proof fn law_shanghai_time_reads_the_text(t: Seq<char>)
    requires
        iso_shaped(t),
    ensures
        iso_year(t) == digits_value(t.subrange(0, 4)),
        iso_month(t) == digits_value(t.subrange(5, 7)),
        iso_day(t) == digits_value(t.subrange(8, 10)),
        iso_hour(t) == digits_value(t.subrange(11, 13)),
        iso_minute(t) == digits_value(t.subrange(14, 16)),
        iso_second(t) == digits_value(t.subrange(17, 19)),
        shanghai_unix_seconds(t) == if 1 <= iso_month(t) <= 12 && 1 <= iso_day(t)
            <= days_in_month(iso_year(t), iso_month(t)) && iso_hour(t) <= 23 && iso_minute(t)
            <= 59 && iso_second(t) <= 59 {
            Some(
                epoch_day(iso_year(t), iso_month(t), iso_day(t)) * 86400 + iso_hour(t) * 3600
                    + iso_minute(t) * 60 + iso_second(t) - 8 * 3600,
            )
        } else {
            None::<int>
        },
{
    reveal_with_fuel(digits_value, 5);
    let y = t.subrange(0, 4);
    assert(y.drop_last().drop_last().drop_last().drop_last() =~= Seq::<char>::empty());
    assert(y.drop_last().drop_last().drop_last() =~= seq![t[0]]);
    assert(y.drop_last().drop_last() =~= seq![t[0], t[1]]);
    assert(y.drop_last() =~= seq![t[0], t[1], t[2]]);
    assert(digits_value(seq![t[0]]) == digit_value(t[0])) by {
        assert(seq![t[0]].drop_last() =~= Seq::<char>::empty());
    }
    assert(digits_value(seq![t[0], t[1]]) == num2(t, 0)) by {
        assert(seq![t[0], t[1]].drop_last() =~= seq![t[0]]);
    }
    assert(digits_value(seq![t[0], t[1], t[2]]) == num2(t, 0) * 10 + digit_value(t[2])) by {
        assert(seq![t[0], t[1], t[2]].drop_last() =~= seq![t[0], t[1]]);
    }
    assert forall|i: int| i == 5 || i == 8 || i == 11 || i == 14 || i == 17 implies digits_value(
        #[trigger] t.subrange(i, i + 2),
    ) == num2(t, i) by {
        let p = t.subrange(i, i + 2);
        assert(p.drop_last() =~= seq![t[i]]);
        assert(seq![t[i]].drop_last() =~= Seq::<char>::empty());
    }
}

fn digit_at(t: &str, i: usize) -> (r: Option<i64>)
    requires
        i < t@.len(),
    ensures
        match r {
            Some(v) => is_digit(t@[i as int]) && v == digit_value(t@[i as int]),
            None => !is_digit(t@[i as int]),
        },
{
    let c = t.get_char(i);
    if '0' <= c && c <= '9' {
        Some((c as u32 - 48) as i64)
    } else {
        None
    }
}

fn two_digits(t: &str, i: usize) -> (r: Option<i64>)
    requires
        i + 1 < t@.len(),
        t@.len() == 19,
    ensures
        match r {
            Some(v) => is_digit(t@[i as int]) && is_digit(t@[i + 1]) && v == num2(t@, i as int),
            None => !is_digit(t@[i as int]) || !is_digit(t@[i + 1]),
        },
{
    let hi = digit_at(t, i)?;
    let lo = digit_at(t, i + 1)?;
    Some(hi * 10 + lo)
}

fn is_leap_year(y: i64) -> (r: bool)
    requires
        0 <= y,
    ensures
        r == is_leap(y as int),
{
    (y % 4 == 0 && y % 100 != 0) || y % 400 == 0
}

fn month_start(y: i64, m: i64) -> (r: i64)
    requires
        0 <= y,
        1 <= m <= 12,
    ensures
        r == days_before_month(y as int, m as int),
{
    let base: i64 = if m == 1 {
        0
    } else if m == 2 {
        31
    } else if m == 3 {
        59
    } else if m == 4 {
        90
    } else if m == 5 {
        120
    } else if m == 6 {
        151
    } else if m == 7 {
        181
    } else if m == 8 {
        212
    } else if m == 9 {
        243
    } else if m == 10 {
        273
    } else if m == 11 {
        304
    } else {
        334
    };
    if m > 2 && is_leap_year(y) {
        base + 1
    } else {
        base
    }
}

fn month_length(y: i64, m: i64) -> (r: i64)
    requires
        0 <= y,
    ensures
        r == days_in_month(y as int, m as int),
{
    if m == 2 {
        if is_leap_year(y) {
            29
        } else {
            28
        }
    } else if m == 4 || m == 6 || m == 9 || m == 11 {
        30
    } else {
        31
    }
}

/// The Unix time of a valid date and time of day read in Asia/Shanghai.
fn unix_seconds(y: i64, m: i64, d: i64, hh: i64, mm: i64, ss: i64) -> (r: i64)
    requires
        0 <= y <= 9999,
        1 <= m <= 12,
        1 <= d <= 31,
        0 <= hh <= 23,
        0 <= mm <= 59,
        0 <= ss <= 59,
    ensures
        r == epoch_day(y as int, m as int, d as int) * 86400 + hh * 3600 + mm * 60 + ss
            - SHANGHAI_OFFSET_SECONDS,
        -100_000_000_000 < r < 300_000_000_000,
{
    let leaps = (y + 3) / 4 - (y + 99) / 100 + (y + 399) / 400 - 1;
    let leaps_1970: i64 = 477;
    assert(leaps_before(1970) == 477);
    let start = month_start(y, m);
    let day = 365 * (y - 1970) + leaps - leaps_1970 + start + d - 1;
    assert(day == epoch_day(y as int, m as int, d as int));
    assert(-800_000 < day < 3_000_000);
    day * 86400 + hh * 3600 + mm * 60 + ss - SHANGHAI_OFFSET_SECONDS
}

/// The Unix time of the ISO 8601 wall-clock time `YYYY-MM-DDTHH:MM:SS` read
/// in Asia/Shanghai, or none where `t` is not such a time.
pub fn parse_shanghai_time(t: &str) -> (r: Option<i64>)
    ensures
        match r {
            Some(v) => shanghai_unix_seconds(t@) == Some(v as int),
            None => shanghai_unix_seconds(t@) is None,
        },
        r matches Some(v) ==> -100_000_000_000 < v < 300_000_000_000,
{
    if t.unicode_len() != 19 {
        return None;
    }
    if t.get_char(4) != '-' || t.get_char(7) != '-' || t.get_char(10) != 'T' || t.get_char(13)
        != ':' || t.get_char(16) != ':' {
        return None;
    }
    let y_hi = two_digits(t, 0)?;
    let y_lo = two_digits(t, 2)?;
    let m = two_digits(t, 5)?;
    let d = two_digits(t, 8)?;
    let hh = two_digits(t, 11)?;
    let mm = two_digits(t, 14)?;
    let ss = two_digits(t, 17)?;
    let y = y_hi * 100 + y_lo;
    assert(y == iso_year(t@));
    if m < 1 || m > 12 || d < 1 || d > month_length(y, m) || hh > 23 || mm > 59 || ss > 59 {
        return None;
    }
    Some(unix_seconds(y, m, d, hh, mm, ss))
}

} // verus!
