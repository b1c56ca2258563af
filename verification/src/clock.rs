//! Dates and times for logs and file names.

use vstd::prelude::*;
use vstd::string::*;
use crate::text;

verus! {

/// Whether a year of the Gregorian calendar has 366 days.
pub open spec fn leap(y: int) -> bool {
    y % 4 == 0 && (y % 100 != 0 || y % 400 == 0)
}

/// The days of a month.
pub open spec fn month_len(y: int, m: int) -> int {
    if m == 2 {
        if leap(y) {
            29
        } else {
            28
        }
    } else if m == 4 || m == 6 || m == 9 || m == 11 {
        30
    } else {
        31
    }
}

/// Whether the calendar has the date.
pub open spec fn valid(y: int, m: int, d: int) -> bool {
    1 <= m <= 12 && 1 <= d <= month_len(y, m)
}

/// The days of a year before the first of a month.
pub open spec fn before_month(y: int, m: int) -> int
    decreases m,
{
    if m <= 1 {
        0
    } else {
        before_month(y, m - 1) + month_len(y, m - 1)
    }
}

/// The leap years up to a year, counted from the year 1.
pub open spec fn leaps_to(y: int) -> int {
    y / 4 - y / 100 + y / 400
}

/// The days from 1 January 1970 to the first of January of a year.
pub open spec fn before_year(y: int) -> int {
    365 * (y - 1970) + leaps_to(y - 1) - leaps_to(1969)
}

/// The days from 1 January 1970 to a date.
pub open spec fn day_number(y: int, m: int, d: int) -> int {
    before_year(y) + before_month(y, m) + d - 1
}

/// `before_month` in numbers.
proof fn month_table(y: int)
    ensures
        before_month(y, 1) == 0,
        before_month(y, 2) == 31,
        before_month(y, 3) == 31 + month_len(y, 2),
        before_month(y, 4) == 62 + month_len(y, 2),
        before_month(y, 5) == 92 + month_len(y, 2),
        before_month(y, 6) == 123 + month_len(y, 2),
        before_month(y, 7) == 153 + month_len(y, 2),
        before_month(y, 8) == 184 + month_len(y, 2),
        before_month(y, 9) == 215 + month_len(y, 2),
        before_month(y, 10) == 245 + month_len(y, 2),
        before_month(y, 11) == 276 + month_len(y, 2),
        before_month(y, 12) == 306 + month_len(y, 2),
        before_month(y, 13) == 337 + month_len(y, 2),
{
    reveal_with_fuel(before_month, 14);
}

/// A year is as long as its months, 365 or 366 days.
pub proof fn years_follow(y: int)
    ensures
        before_year(y + 1) == before_year(y) + before_month(y, 13),
        before_month(y, 13) == (if leap(y) {
            366int
        } else {
            365
        }),
{
    month_table(y);
}

/// Days follow one another: the day after a date is one further, the day after the last of a
/// month is the first of the next.
pub proof fn days_follow(y: int, m: int, d: int)
    requires
        valid(y, m, d),
    ensures
        d < month_len(y, m) ==> valid(y, m, d + 1) && day_number(y, m, d + 1) == day_number(y, m, d)
            + 1,
        d == month_len(y, m) && m < 12 ==> valid(y, m + 1, 1) && day_number(y, m + 1, 1)
            == day_number(y, m, d) + 1,
        d == month_len(y, m) && m == 12 ==> valid(y + 1, 1, 1) && day_number(y + 1, 1, 1)
            == day_number(y, m, d) + 1,
{
    month_table(y);
    month_table(y + 1);
    years_follow(y);
}

proof fn years_grow(a: int, b: int)
    requires
        a < b,
    ensures
        before_year(a) + before_month(a, 13) <= before_year(b),
    decreases b - a,
{
    years_follow(a);
    if a + 1 < b {
        years_grow(a + 1, b);
        years_follow(a + 1);
    }
}

proof fn in_year(y: int, m: int, d: int)
    requires
        valid(y, m, d),
    ensures
        0 <= before_month(y, m) + d - 1 < before_month(y, 13),
{
    month_table(y);
}

/// Different dates are different days.
pub proof fn dates_are_distinct(y1: int, m1: int, d1: int, y2: int, m2: int, d2: int)
    requires
        valid(y1, m1, d1),
        valid(y2, m2, d2),
        day_number(y1, m1, d1) == day_number(y2, m2, d2),
    ensures
        y1 == y2,
        m1 == m2,
        d1 == d2,
{
    in_year(y1, m1, d1);
    in_year(y2, m2, d2);
    if y1 < y2 {
        years_grow(y1, y2);
    }
    if y2 < y1 {
        years_grow(y2, y1);
    }
    month_table(y1);
}

/// The year of a cycle of 400 that a day of it falls in, years taken from March to February.
#[verifier::spinoff_prover]
proof fn year_of_era(doe: int, yoe: int)
    requires
        0 <= doe < 146097,
        yoe == (doe - doe / 1460 + doe / 36524 - doe / 146096) / 365,
    ensures
        0 <= yoe < 400,
        365 * yoe + yoe / 4 - yoe / 100 <= doe,
        doe < 365 * (yoe + 1) + (yoe + 1) / 4 - (yoe + 1) / 100 + (yoe + 1) / 400,
{
}

/// The first of March of a year, by cycles of 400 years that start in March.
#[verifier::spinoff_prover]
proof fn first_of_march(era: int, yoe: int)
    requires
        0 <= yoe < 400,
    ensures
        day_number(400 * era + yoe, 3, 1) == 146097 * era + 365 * yoe + yoe / 4 - yoe / 100
            - 719468,
{
    let y = 400 * era + yoe;
    month_table(y);
    years_follow(y);
    assert(y / 4 == yoe / 4 + 100 * era);
    assert(y / 100 == yoe / 100 + 4 * era);
    assert(y / 400 == era);
}

/// The month and day of a day counted from the first of March.
#[verifier::spinoff_prover]
proof fn day_of_march_year(y: int, doy: int, mp: int, d: int)
    requires
        mp == (5 * doy + 2) / 153,
        d == doy - (153 * mp + 2) / 5 + 1,
        0 <= doy,
        doy < (if leap(y + 1) {
            366int
        } else {
            365
        }),
    ensures
        0 <= mp < 12,
        mp < 10 ==> valid(y, mp + 3, d) && before_month(y, mp + 3) + d == before_month(y, 3) + 1
            + doy,
        mp >= 10 ==> valid(y + 1, mp - 9, d) && before_month(y + 1, mp - 9) + d == doy - 306 + 1,
{
    month_table(y);
    month_table(y + 1);
    assert(0 <= mp < 12);
    if mp == 0 {
    } else if mp == 1 {
    } else if mp == 2 {
    } else if mp == 3 {
    } else if mp == 4 {
    } else if mp == 5 {
    } else if mp == 6 {
    } else if mp == 7 {
    } else if mp == 8 {
    } else if mp == 9 {
    } else if mp == 10 {
    } else {
        assert(mp == 11);
    }
}

/// A year from March to February is as long as the leap day at its end makes it.
#[verifier::spinoff_prover]
proof fn march_year_len(era: int, yoe: int)
    requires
        0 <= yoe < 400,
    ensures
        365 + (yoe + 1) / 4 - yoe / 4 - (yoe + 1) / 100 + yoe / 100 + (yoe + 1) / 400 == (if leap(
            400 * era + yoe + 1,
        ) {
            366int
        } else {
            365
        }),
{
    let y = 400 * era + yoe;
    assert((y + 1) % 400 == (yoe + 1) % 400);
    assert((y + 1) % 100 == (yoe + 1) % 100);
    assert((y + 1) % 4 == (yoe + 1) % 4);
    if yoe == 399 {
    } else {
        assert((yoe + 1) % 400 != 0);
    }
}

#[verifier::spinoff_prover]
proof fn date_found(z: int, era: int, yoe: int, doy: int, mp: int, d: int)
    requires
        0 <= yoe < 400,
        z == 146097 * era + 365 * yoe + yoe / 4 - yoe / 100 + doy,
        0 <= doy,
        365 * yoe + yoe / 4 - yoe / 100 + doy < 365 * (yoe + 1) + (yoe + 1) / 4 - (yoe + 1) / 100
            + (yoe + 1) / 400,
        mp == (5 * doy + 2) / 153,
        d == doy - (153 * mp + 2) / 5 + 1,
    ensures
        0 <= mp < 12,
        1 <= d <= 31,
        0 <= doy < 366,
        mp < 10 ==> valid(400 * era + yoe, mp + 3, d) && day_number(400 * era + yoe, mp + 3, d) == z
            - 719468,
        mp >= 10 ==> valid(400 * era + yoe + 1, mp - 9, d) && day_number(
            400 * era + yoe + 1,
            mp - 9,
            d,
        ) == z - 719468,
{
    let y = 400 * era + yoe;
    first_of_march(era, yoe);
    march_year_len(era, yoe);
    day_of_march_year(y, doy, mp, d);
    years_follow(y);
    month_table(y);
}

/// The number of days since 1 January 1970 as a date: year, month, day.
#[verifier::spinoff_prover]
pub fn civil_from_days(z: i64) -> (r: (i64, i64, i64))
    requires
        z <= i64::MAX - 719468,
    ensures
        valid(r.0 as int, r.1 as int, r.2 as int),
        day_number(r.0 as int, r.1 as int, r.2 as int) == z,
{
    let z: i64 = z + 719468;
    let q: i64 = z / 146097;
    let era: i64 = if q * 146097 > z {
        q - 1
    } else {
        q
    };
    let doe: i64 = z - era * 146097;
    assert(0 <= doe < 146097);
    let yoe: i64 = (doe - doe / 1460 + doe / 36524 - doe / 146096) / 365;
    proof {
        year_of_era(doe as int, yoe as int);
    }
    let y: i64 = yoe + era * 400;
    let doy: i64 = doe - (365 * yoe + yoe / 4 - yoe / 100);
    assert(0 <= doy <= 366);
    let mp: i64 = (5 * doy + 2) / 153;
    let d: i64 = doy - (153 * mp + 2) / 5 + 1;
    proof {
        date_found(z as int, era as int, yoe as int, doy as int, mp as int, d as int);
    }
    if mp < 10 {
        (y, mp + 3, d)
    } else {
        (y + 1, mp - 9, d)
    }
}

/// The date and time of day of a moment, given in seconds since 1970 on the local clock.
#[verifier::ext_equal]
pub struct Moment {
    pub year: u64,
    pub month: u64,
    pub day: u64,
    pub hour: u64,
    pub minute: u64,
    pub second: u64,
}

/// Whether a date and time of day is that of a moment.
pub open spec fn is_moment(t: Moment, secs: int) -> bool {
    &&& valid(t.year as int, t.month as int, t.day as int)
    &&& day_number(t.year as int, t.month as int, t.day as int) == secs / 86400
    &&& t.hour == secs % 86400 / 3600
    &&& t.minute == secs % 3600 / 60
    &&& t.second == secs % 60
}

/// A moment has one date and time of day.
pub proof fn moments_are_distinct(a: Moment, b: Moment, secs: int)
    requires
        is_moment(a, secs),
        is_moment(b, secs),
    ensures
        a == b,
{
    dates_are_distinct(
        a.year as int,
        a.month as int,
        a.day as int,
        b.year as int,
        b.month as int,
        b.day as int,
    );
}

proof fn not_before_1900(y: int, m: int, d: int)
    requires
        valid(y, m, d),
        day_number(y, m, d) >= -25567,
    ensures
        y >= 1900,
{
    in_year(y, m, d);
    if y < 1900 {
        years_grow(y, 1900);
    }
}

/// The seconds since 1970 on a clock `east` seconds ahead of UTC; fewer than none where that
/// clock still shows 1969.
pub open spec fn local(secs: int, east: int) -> int {
    secs + east
}

/// Whether a text is an offset from UTC in the form `+hhmm` or `-hhmm`.
pub open spec fn is_offset(t: Seq<char>) -> bool {
    t.len() == 5 && (t[0] == '+' || t[0] == '-') && text::all_digits(t.skip(1))
}

/// The seconds that an offset from UTC such as `+0800` stands for, white space around it aside;
/// a text of another form stands for none.
pub open spec fn offset_said(s: Seq<char>) -> int {
    let t = text::trim(s);
    let secs = 3600 * text::number(t.subrange(1, 3)) + 60 * text::number(t.subrange(3, 5));
    if !is_offset(t) {
        0
    } else if t[0] == '-' {
        -secs
    } else {
        secs as int
    }
}

/// Two digits, read.
fn two_digits(v: &Vec<char>, i: usize) -> (r: i32)
    requires
        i + 2 <= v.len(),
        text::is_digit(v@[i as int]),
        text::is_digit(v@[i + 1]),
    ensures
        r == text::number(v@.subrange(i as int, i + 2)),
        0 <= r < 100,
{
    proof {
        let d = v@.subrange(i as int, i + 2);
        assert(d.drop_last() =~= seq![v@[i as int]]);
        assert(d.drop_last().drop_last() =~= Seq::<char>::empty());
        reveal_with_fuel(text::number, 3);
    }
    let tens: i32 = v[i] as i32 - 48;
    let ones: i32 = v[i + 1] as i32 - 48;
    tens * 10 + ones
}

/// The seconds by which a clock is ahead of UTC, from what `date +%z` prints.
pub fn seconds_east(said: &str) -> (r: i32)
    ensures
        r == offset_said(said@),
{
    let t = text::trimmed(said);
    let v = text::chars_of(t.as_str());
    if v.len() != 5 || (v[0] != '+' && v[0] != '-') {
        return 0;
    }
    for i in 1..5usize
        invariant
            v.len() == 5,
            v@ == text::trim(said@),
            forall|k: int| 1 <= k < i ==> text::is_digit(#[trigger] v@[k]),
    {
        if v[i] < '0' || v[i] > '9' {
            assert(!text::is_digit(v@.skip(1)[i - 1]));
            return 0;
        }
    }
    assert(text::all_digits(v@.skip(1)));
    let secs: i32 = 3600 * two_digits(&v, 1) + 60 * two_digits(&v, 3);
    if v[0] == '-' {
        -secs
    } else {
        secs
    }
}

/// The minutes and seconds of a moment are those of its day.
proof fn within_a_day(secs: int)
    ensures
        secs % 86400 % 3600 == secs % 3600,
        secs % 86400 % 60 == secs % 60,
{
    vstd::arithmetic::div_mod::lemma_mod_mod(secs, 3600, 24);
    vstd::arithmetic::div_mod::lemma_mod_mod(secs, 60, 1440);
}

/// Splits a moment up: seconds since 1970, UTC, shown by a clock `east` seconds ahead of it.
#[verifier::spinoff_prover]
pub fn moment(secs: u64, east: i32) -> (t: Moment)
    requires
        secs <= i64::MAX - i32::MAX,
    ensures
        is_moment(t, local(secs as int, east as int)),
{
    let ghost shown = local(secs as int, east as int);
    // Counted from 25000 days earlier, which no offset reaches back beyond.
    let since: u64 = (secs as i128 + east as i128 + 2_160_000_000) as u64;
    let rem: u64 = since % 86400;
    let day: i64 = (since / 86400) as i64 - 25000;
    assert(day == shown / 86400 && rem == shown % 86400);
    let ymd = civil_from_days(day);
    proof {
        not_before_1900(ymd.0 as int, ymd.1 as int, ymd.2 as int);
        within_a_day(shown);
    }
    Moment {
        year: ymd.0 as u64,
        month: ymd.1 as u64,
        day: ymd.2 as u64,
        hour: rem / 3600,
        minute: rem % 3600 / 60,
        second: rem % 60,
    }
}

/// `2026-09-05 14:25:30`
pub open spec fn long_form(t: Moment) -> Seq<char> {
    text::dec_padded(t.year as nat, 4) + "-"@ + text::dec_padded(t.month as nat, 2) + "-"@
        + text::dec_padded(t.day as nat, 2) + " "@ + text::dec_padded(t.hour as nat, 2) + ":"@
        + text::dec_padded(t.minute as nat, 2) + ":"@ + text::dec_padded(t.second as nat, 2)
}

/// `20260905-142530`
pub open spec fn short_form(t: Moment) -> Seq<char> {
    text::dec_padded(t.year as nat, 4) + text::dec_padded(t.month as nat, 2) + text::dec_padded(
        t.day as nat,
        2,
    ) + "-"@ + text::dec_padded(t.hour as nat, 2) + text::dec_padded(t.minute as nat, 2)
        + text::dec_padded(t.second as nat, 2)
}

/// A moment in local time as `2026-09-05 14:25:30`.
pub fn fmt_timestamp(secs: u64, east: i32) -> (r: String)
    requires
        secs <= i64::MAX - i32::MAX,
    ensures
        exists|t: Moment| #[trigger]
            is_moment(t, local(secs as int, east as int)) && r@ == long_form(t),
{
    let t = moment(secs, east);
    let mut s = String::new();
    text::push_dec_padded(&mut s, t.year, 4);
    s.append("-");
    text::push_dec_padded(&mut s, t.month, 2);
    s.append("-");
    text::push_dec_padded(&mut s, t.day, 2);
    s.append(" ");
    text::push_dec_padded(&mut s, t.hour, 2);
    s.append(":");
    text::push_dec_padded(&mut s, t.minute, 2);
    s.append(":");
    text::push_dec_padded(&mut s, t.second, 2);
    assert(s@ =~= long_form(t));
    s
}

/// A moment in local time as `20260905-142530`, for file names.
pub fn timestamp_compact(secs: u64, east: i32) -> (r: String)
    requires
        secs <= i64::MAX - i32::MAX,
    ensures
        exists|t: Moment| #[trigger]
            is_moment(t, local(secs as int, east as int)) && r@ == short_form(t),
{
    let t = moment(secs, east);
    let mut s = String::new();
    text::push_dec_padded(&mut s, t.year, 4);
    text::push_dec_padded(&mut s, t.month, 2);
    text::push_dec_padded(&mut s, t.day, 2);
    s.append("-");
    text::push_dec_padded(&mut s, t.hour, 2);
    text::push_dec_padded(&mut s, t.minute, 2);
    text::push_dec_padded(&mut s, t.second, 2);
    assert(s@ =~= short_form(t));
    s
}

proof fn two_digits_written(n: nat)
    requires
        n < 100,
    ensures
        text::dec_padded(n, 2).len() == 2,
        text::all_digits(text::dec_padded(n, 2)),
        text::number(text::dec_padded(n, 2)) == n,
{
    let d = text::dec(n);
    let s = text::dec_padded(n, 2);
    text::dec_reads_back(n);
    if n < 10 {
        assert(d.len() == 1);
        assert(s.drop_last() =~= seq!['0']);
        assert(s.drop_last().drop_last() =~= Seq::<char>::empty());
        assert(d.drop_last() =~= Seq::<char>::empty());
        assert(s.last() == d.last());
        assert(text::is_digit(d[0]));
        reveal_with_fuel(text::number, 3);
    } else {
        assert(text::dec(n / 10).len() == 1);
        assert(d.len() == 2);
        assert(s =~= d);
    }
}

/// An offset that is written with a sign, two digits of hours and two of minutes is read as that
/// many seconds, ahead of UTC for a plus and behind it for a minus, with or without a line break
/// behind it.
pub proof fn offsets_are_read(ahead: bool, hours: nat, minutes: nat, end: Seq<char>)
    requires
        hours < 100,
        minutes < 100,
        end.len() == 0 || end == seq!['\n'] || end == seq!['\r', '\n'],
    ensures
        offset_said(
            seq![if ahead {
                '+'
            } else {
                '-'
            }] + text::dec_padded(hours, 2) + text::dec_padded(minutes, 2) + end,
        ) == (if ahead {
            (3600 * hours + 60 * minutes) as int
        } else {
            -(3600 * hours + 60 * minutes)
        }),
{
    let sign = if ahead {
        '+'
    } else {
        '-'
    };
    let h = text::dec_padded(hours, 2);
    let m = text::dec_padded(minutes, 2);
    let t = seq![sign] + h + m;
    let s = t + end;
    two_digits_written(hours);
    two_digits_written(minutes);
    assert(text::is_digit(m[1]));
    assert(t.last() == m[1]);
    assert(t[0] == sign);
    let (a, b) = text::trim_cuts_only_space(s);
    assert(s[0] == sign && s[4] == m[1]);
    assert(a == 0);
    assert(b >= 5);
    text::trim_is_clean(s);
    if b > 5 {
        assert(text::trim(s).last() == s[b - 1]);
        assert(s[b - 1] == end[b - 6]);
    }
    assert(text::trim(s) =~= t);
    assert(t.subrange(1, 3) =~= h);
    assert(t.subrange(3, 5) =~= m);
    assert forall|i: int| 0 <= i < t.skip(1).len() implies text::is_digit(
        #[trigger] t.skip(1)[i],
    ) by {
        if i < 2 {
            assert(t.skip(1)[i] == h[i]);
        } else {
            assert(t.skip(1)[i] == m[i - 2]);
        }
    }
}

/// Clocks further east show later times, by just as much as they are ahead.
pub proof fn clocks_differ_by_their_offsets(secs: int, east: int, more: int)
    ensures
        local(secs, east + more) == local(secs, east) + more,
        local(secs, 0) == secs,
{
}

} // verus!
