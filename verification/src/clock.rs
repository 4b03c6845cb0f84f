//! Wall-clock readings and their rendering in the transcript format.

use vstd::prelude::*;
use crate::text::{
    zero_padded, push_char, push_zero_padded, pow10, digits_value, all_digits,
    lemma_zero_padded_reads_back,
};

verus! {

/// Largest distance from the Unix epoch, in seconds, of a reading (chrono's
/// date range lies well inside it).
pub const MAX_EPOCH_SECONDS: i64 = 35184372088832;

/// The earliest year chrono's dates reach.
pub const MIN_YEAR: i32 = -262143;

/// The latest year chrono's dates reach.
pub const MAX_YEAR: i32 = 262142;

/// The year is a leap year of the proleptic Gregorian calendar.
pub open spec fn is_leap_year(year: int) -> bool {
    (year % 4 == 0 && year % 100 != 0) || year % 400 == 0
}

/// The number of days of `month` in `year`.
pub open spec fn days_in_month(year: int, month: int) -> int {
    if month == 2 {
        if is_leap_year(year) {
            29
        } else {
            28
        }
    } else if month == 4 || month == 6 || month == 9 || month == 11 {
        30
    } else {
        31
    }
}

/// The values make a reading: a date of chrono's calendar, a time of day,
/// and an instant in range with nanoseconds below one second.
pub open spec fn valid_reading(
    year: i32,
    month: u32,
    day: u32,
    hour: u32,
    minute: u32,
    second: u32,
    unix_seconds: i64,
    subsec_nanos: u32,
) -> bool {
    &&& MIN_YEAR <= year <= MAX_YEAR
    &&& 1 <= month <= 12
    &&& 1 <= day <= days_in_month(year as int, month as int)
    &&& hour < 24
    &&& minute < 60
    &&& second < 60
    &&& -MAX_EPOCH_SECONDS <= unix_seconds <= MAX_EPOCH_SECONDS
    &&& subsec_nanos < 1_000_000_000
}

/// One reading of the local wall clock: the local calendar date and time,
/// and the instant it denotes. Only valid readings exist.
#[derive(Clone, Copy, Debug, PartialEq, Eq)]
pub struct ClockReading {
    year: i32,
    month: u32,
    day: u32,
    hour: u32,
    minute: u32,
    second: u32,
    /// Whole seconds since the Unix epoch.
    unix_seconds: i64,
    /// Nanoseconds past `unix_seconds`.
    subsec_nanos: u32,
}

impl ClockReading {
    #[verifier::type_invariant]
    spec fn wf(self) -> bool {
        valid_reading(
            self.year,
            self.month,
            self.day,
            self.hour,
            self.minute,
            self.second,
            self.unix_seconds,
            self.subsec_nanos,
        )
    }

    /// The fields of the reading: year, month, day, hour, minute, second,
    /// seconds since the epoch, nanoseconds.
    pub closed spec fn fields(self) -> (i32, u32, u32, u32, u32, u32, i64, u32) {
        (
            self.year,
            self.month,
            self.day,
            self.hour,
            self.minute,
            self.second,
            self.unix_seconds,
            self.subsec_nanos,
        )
    }

    /// The reading with these fields, or none when they make no reading.
    pub fn new(
        year: i32,
        month: u32,
        day: u32,
        hour: u32,
        minute: u32,
        second: u32,
        unix_seconds: i64,
        subsec_nanos: u32,
    ) -> (r: Option<Self>)
        ensures
            r is Some <==> valid_reading(
                year,
                month,
                day,
                hour,
                minute,
                second,
                unix_seconds,
                subsec_nanos,
            ),
            r matches Some(t) ==> t.fields() == (
                year,
                month,
                day,
                hour,
                minute,
                second,
                unix_seconds,
                subsec_nanos,
            ),
    {
        let leap = (year % 4 == 0 && year % 100 != 0) || year % 400 == 0;
        let days: u32 = if month == 2 {
            if leap {
                29
            } else {
                28
            }
        } else if month == 4 || month == 6 || month == 9 || month == 11 {
            30
        } else {
            31
        };
        if MIN_YEAR <= year && year <= MAX_YEAR && 1 <= month && month <= 12 && 1 <= day && day
            <= days && hour < 24 && minute < 60 && second < 60 && -MAX_EPOCH_SECONDS
            <= unix_seconds && unix_seconds <= MAX_EPOCH_SECONDS && subsec_nanos < 1_000_000_000 {
            Some(
                ClockReading {
                    year,
                    month,
                    day,
                    hour,
                    minute,
                    second,
                    unix_seconds,
                    subsec_nanos,
                },
            )
        } else {
            None
        }
    }
}

/// `x / d` rounded toward zero, as Rust's integer division does (`d > 0`).
pub open spec fn div_toward_zero(x: int, d: int) -> int {
    if x >= 0 {
        x / d
    } else {
        -((-x) / d)
    }
}

/// The whole seconds elapsed from `start` to `end`, rounded toward zero
/// (negative when the clock went backwards).
pub closed spec fn elapsed_seconds(start: ClockReading, end: ClockReading) -> int {
    div_toward_zero(
        (end.unix_seconds - start.unix_seconds) * 1_000_000_000 + (end.subsec_nanos
            - start.subsec_nanos),
        1_000_000_000,
    )
}

/// The year as chrono's `%Y` prints it: four digits, zero-padded, with a
/// sign in front when it lies outside 0 to 9999.
pub open spec fn year_text(year: int) -> Seq<char> {
    if 0 <= year <= 9999 {
        zero_padded(year as nat, 4)
    } else if year < 0 {
        seq!['-'] + zero_padded((-year) as nat, 4)
    } else {
        seq!['+'] + zero_padded(year as nat, 4)
    }
}

/// A two-digit field (`%m`, `%d`, `%H`, `%M`, `%S`).
pub open spec fn two_digits(n: int) -> Seq<char> {
    zero_padded(n as nat, 2)
}

/// `%Y-%m-%d`.
pub closed spec fn date_text(t: ClockReading) -> Seq<char> {
    year_text(t.year as int) + seq!['-'] + two_digits(t.month as int) + seq!['-'] + two_digits(
        t.day as int,
    )
}

/// `%H:%M`.
pub closed spec fn hour_minute_text(t: ClockReading) -> Seq<char> {
    two_digits(t.hour as int) + seq![':'] + two_digits(t.minute as int)
}

/// `%H:%M:%S`.
pub closed spec fn time_text(t: ClockReading) -> Seq<char> {
    two_digits(t.hour as int) + seq![':'] + two_digits(t.minute as int) + seq![':'] + two_digits(
        t.second as int,
    )
}

/// `%Y-%m-%d_%H-%M-%S`, the stamp in a transcript's file name.
pub closed spec fn file_stamp_text(t: ClockReading) -> Seq<char> {
    date_text(t) + seq!['_'] + two_digits(t.hour as int) + seq!['-'] + two_digits(t.minute as int)
        + seq!['-'] + two_digits(t.second as int)
}

/// An elapsed time as `HH:MM:SS` of its magnitude; the hours take more than
/// two digits when there are more than 99 of them.
pub open spec fn duration_text(elapsed: int) -> Seq<char> {
    let a = if elapsed < 0 {
        -elapsed
    } else {
        elapsed
    };
    zero_padded((a / 3600) as nat, 2) + seq![':'] + zero_padded(((a / 60) % 60) as nat, 2) + seq![
        ':',
    ] + zero_padded((a % 60) as nat, 2)
}

/// The whole seconds elapsed from `start` to `end`.
pub fn seconds_between(start: &ClockReading, end: &ClockReading) -> (secs: i64)
    ensures
        secs == elapsed_seconds(*start, *end),
        -MAX_EPOCH_SECONDS * 2 <= secs <= MAX_EPOCH_SECONDS * 2,
{
    proof {
        use_type_invariant(start);
        use_type_invariant(end);
    }
    let d: i64 = end.unix_seconds - start.unix_seconds;
    let secs: i64 = if d > 0 && end.subsec_nanos < start.subsec_nanos {
        d - 1
    } else if d < 0 && end.subsec_nanos > start.subsec_nanos {
        d + 1
    } else {
        d
    };
    proof {
        lemma_whole_seconds(d as int, end.subsec_nanos - start.subsec_nanos, secs as int);
    }
    secs
}

proof fn lemma_whole_seconds(d: int, dn: int, secs: int)
    requires
        -1_000_000_000 < dn < 1_000_000_000,
        secs == (if d > 0 && dn < 0 {
            d - 1
        } else if d < 0 && dn > 0 {
            d + 1
        } else {
            d
        }),
    ensures
        secs == div_toward_zero(d * 1_000_000_000 + dn, 1_000_000_000),
{
    let x = d * 1_000_000_000 + dn;
    if x >= 0 {
        assert(x / 1_000_000_000 == secs) by (nonlinear_arith)
            requires
                x == d * 1_000_000_000 + dn,
                x >= 0,
                -1_000_000_000 < dn < 1_000_000_000,
                secs == (if d > 0 && dn < 0 {
                    d - 1
                } else if d < 0 && dn > 0 {
                    d + 1
                } else {
                    d
                }),
        ;
    } else {
        assert(-x / 1_000_000_000 == -secs) by (nonlinear_arith)
            requires
                x == d * 1_000_000_000 + dn,
                x < 0,
                -1_000_000_000 < dn < 1_000_000_000,
                secs == (if d > 0 && dn < 0 {
                    d - 1
                } else if d < 0 && dn > 0 {
                    d + 1
                } else {
                    d
                }),
        ;
    }
}

/// The date pattern of a transcript's title, `%Y-%m-%d %H:%M`.
pub closed spec fn title_stamp_text(t: ClockReading) -> Seq<char> {
    date_text(t) + seq![' '] + hour_minute_text(t)
}

/// chrono's rendering of a reading's local date and time with a strftime
/// pattern (`NaiveDateTime::format`). Claimed, for the three patterns the
/// transcript uses, what chrono's documentation and formatter give: `%Y`
/// four digits zero-padded, with a sign outside 0 to 9999; `%m`, `%d`,
/// `%H`, `%M`, `%S` two digits zero-padded; other characters as written.
/// Only these patterns are admitted: chrono fails on some others, and
/// `to_string` then panics. Every reading holds a date chrono can build.
#[verifier::external_body]
fn chrono_format(t: &ClockReading, pattern: &str) -> (s: String)
    requires
        pattern@ == "%Y-%m-%d %H:%M"@ || pattern@ == "%H:%M:%S"@ || pattern@
            == "%Y-%m-%d_%H-%M-%S"@,
    ensures
        pattern@ == "%Y-%m-%d %H:%M"@ ==> s@ == title_stamp_text(*t),
        pattern@ == "%H:%M:%S"@ ==> s@ == time_text(*t),
        pattern@ == "%Y-%m-%d_%H-%M-%S"@ ==> s@ == file_stamp_text(*t),
{
    let Some(date) = chrono::NaiveDate::from_ymd_opt(t.year, t.month, t.day) else {
        return String::new();
    };
    let Some(date_time) = date.and_hms_opt(t.hour, t.minute, t.second) else {
        return String::new();
    };
    date_time.format(pattern).to_string()
}

/// `%Y-%m-%d %H:%M` of `t`.
pub fn title_stamp(t: &ClockReading) -> (s: String)
    ensures
        s@ == title_stamp_text(*t),
{
    chrono_format(t, "%Y-%m-%d %H:%M")
}

/// `%H:%M:%S` of `t`.
pub fn time_stamp(t: &ClockReading) -> (s: String)
    ensures
        s@ == time_text(*t),
{
    chrono_format(t, "%H:%M:%S")
}

/// `%Y-%m-%d_%H-%M-%S` of `t`.
pub fn file_stamp(t: &ClockReading) -> (s: String)
    ensures
        s@ == file_stamp_text(*t),
{
    chrono_format(t, "%Y-%m-%d_%H-%M-%S")
}

/// Appends an elapsed time as `HH:MM:SS`.
pub fn push_duration(s: &mut String, elapsed: i64)
    requires
        -MAX_EPOCH_SECONDS * 2 <= elapsed <= MAX_EPOCH_SECONDS * 2,
    ensures
        final(s)@ == old(s)@ + duration_text(elapsed as int),
{
    let a: u64 = if elapsed < 0 {
        (-elapsed) as u64
    } else {
        elapsed as u64
    };
    push_zero_padded(s, a / 3600, 2);
    push_char(s, ':');
    push_zero_padded(s, (a / 60) % 60, 2);
    push_char(s, ':');
    push_zero_padded(s, a % 60, 2);
    assert(s@ =~= old(s)@ + duration_text(elapsed as int));
}

/// What the stamps of a reading read, in terms of its fields.
pub proof fn lemma_stamp_texts(t: ClockReading)
    ensures
        ({
            let (year, month, day, hour, minute, second, _s, _n) = t.fields();
            &&& date_text(t) == year_text(year as int) + seq!['-'] + two_digits(month as int)
                + seq!['-'] + two_digits(day as int)
            &&& hour_minute_text(t) == two_digits(hour as int) + seq![':'] + two_digits(
                minute as int,
            )
            &&& time_text(t) == two_digits(hour as int) + seq![':'] + two_digits(minute as int)
                + seq![':'] + two_digits(second as int)
            &&& title_stamp_text(t) == date_text(t) + seq![' '] + hour_minute_text(t)
            &&& file_stamp_text(t) == date_text(t) + seq!['_'] + two_digits(hour as int) + seq![
                '-',
            ] + two_digits(minute as int) + seq!['-'] + two_digits(second as int)
        }),
{
}

/// The seconds elapsed between two readings, in terms of their fields.
pub proof fn lemma_elapsed_in_fields(start: ClockReading, end: ClockReading)
    ensures
        elapsed_seconds(start, end) == div_toward_zero(
            (end.fields().6 - start.fields().6) * 1_000_000_000 + (end.fields().7
                - start.fields().7),
            1_000_000_000,
        ),
{
}

/// Elapsed time is antisymmetric: from `b` back to `a` is the negation of
/// from `a` to `b`; so the rendered duration is the same either way, and a
/// meeting has lasted zero seconds at its own start.
pub proof fn lemma_elapsed_antisymmetric(a: ClockReading, b: ClockReading)
    ensures
        elapsed_seconds(b, a) == -elapsed_seconds(a, b),
        duration_text(elapsed_seconds(b, a)) == duration_text(elapsed_seconds(a, b)),
        elapsed_seconds(a, a) == 0,
{
    let x = (b.unix_seconds - a.unix_seconds) * 1_000_000_000 + (b.subsec_nanos - a.subsec_nanos);
    let y = (a.unix_seconds - b.unix_seconds) * 1_000_000_000 + (a.subsec_nanos - b.subsec_nanos);
    assert(y == -x) by (nonlinear_arith)
        requires
            x == (b.unix_seconds - a.unix_seconds) * 1_000_000_000 + (b.subsec_nanos
                - a.subsec_nanos),
            y == (a.unix_seconds - b.unix_seconds) * 1_000_000_000 + (a.subsec_nanos
                - b.subsec_nanos),
    ;
    assert(div_toward_zero(-x, 1_000_000_000) == -div_toward_zero(x, 1_000_000_000));
}

/// The rendered duration reads back as the elapsed time: the text is
/// hours, `:`, two digits of minutes, `:`, two digits of seconds; minutes and
/// seconds are below 60, and hours * 3600 + minutes * 60 + seconds is the
/// magnitude of the elapsed seconds.
pub proof fn lemma_duration_reads_back(elapsed: int)
    ensures
        ({
            let t = duration_text(elapsed);
            let n = t.len() as int;
            let a = if elapsed < 0 {
                -elapsed
            } else {
                elapsed
            };
            let hours = t.subrange(0, n - 6);
            let minutes = t.subrange(n - 5, n - 3);
            let seconds = t.subrange(n - 2, n);
            &&& n >= 8
            &&& t[n - 6] == ':'
            &&& t[n - 3] == ':'
            &&& all_digits(hours) && all_digits(minutes) && all_digits(seconds)
            &&& digits_value(minutes) < 60
            &&& digits_value(seconds) < 60
            &&& digits_value(hours) * 3600 + digits_value(minutes) * 60 + digits_value(seconds) == a
        }),
{
    let a = if elapsed < 0 {
        -elapsed
    } else {
        elapsed
    };
    let h = (a / 3600) as nat;
    let m = ((a / 60) % 60) as nat;
    let sec = (a % 60) as nat;
    assert(pow10(2) == 100) by {
        reveal_with_fuel(pow10, 3);
    }
    lemma_zero_padded_reads_back(h, 2);
    lemma_zero_padded_reads_back(m, 2);
    lemma_zero_padded_reads_back(sec, 2);
    let hs = zero_padded(h, 2);
    let ms = zero_padded(m, 2);
    let ss = zero_padded(sec, 2);
    let t = duration_text(elapsed);
    assert(t == hs + seq![':'] + ms + seq![':'] + ss);
    let n = t.len() as int;
    assert(n == hs.len() + 6);
    assert(t.subrange(0, n - 6) =~= hs);
    assert(t.subrange(n - 5, n - 3) =~= ms);
    assert(t.subrange(n - 2, n) =~= ss);
    assert(t[n - 6] == ':');
    assert(t[n - 3] == ':');
    lemma_duration_parts_exact(elapsed);
}

/// The rendered duration is exact: its hours, minutes and seconds add up to
/// the magnitude of the elapsed time, minutes and seconds below 60.
pub proof fn lemma_duration_parts_exact(elapsed: int)
    ensures
        ({
            let a = if elapsed < 0 {
                -elapsed
            } else {
                elapsed
            };
            &&& (a / 3600) * 3600 + ((a / 60) % 60) * 60 + a % 60 == a
            &&& (a / 60) % 60 < 60
            &&& a % 60 < 60
        }),
{
    let a = if elapsed < 0 {
        -elapsed
    } else {
        elapsed
    };
    assert((a / 3600) * 3600 + ((a / 60) % 60) * 60 + a % 60 == a) by (nonlinear_arith)
        requires
            a >= 0,
    ;
}

} // verus!
