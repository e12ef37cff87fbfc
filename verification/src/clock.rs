//! Dates and durations: the proleptic Gregorian calendar, the two timestamp
//! forms the server writes, ages and elapsed times.

use vstd::prelude::*;

use crate::msg::{Arg, Fill, Msg};
use crate::text::{chars_of, decimal, zero_padded};

verus! {

use crate::text::{dec, digit, is_digit, padded};

// ── The calendar ─────────────────────────────────────────────────────────

/// A year with a 29 February.
pub open spec fn leap(y: int) -> bool {
    y % 4 == 0 && (y % 100 != 0 || y % 400 == 0)
}

/// Days from 1 January of year 1 to 1 January of year `y`.
pub open spec fn days_before_year(y: int) -> int {
    365 * (y - 1) + (y - 1) / 4 - (y - 1) / 100 + (y - 1) / 400
}

/// Days of year `y` before the first of month `m`.
pub open spec fn days_before_month(y: int, m: int) -> int {
    let feb: int = if leap(y) { 29 } else { 28 };
    if m == 1 {
        0
    } else if m == 2 {
        31
    } else if m == 3 {
        31 + feb
    } else if m == 4 {
        62 + feb
    } else if m == 5 {
        92 + feb
    } else if m == 6 {
        123 + feb
    } else if m == 7 {
        153 + feb
    } else if m == 8 {
        184 + feb
    } else if m == 9 {
        215 + feb
    } else if m == 10 {
        245 + feb
    } else if m == 11 {
        276 + feb
    } else {
        306 + feb
    }
}

/// The length of month `m` of year `y`.
pub open spec fn month_len(y: int, m: int) -> int {
    if m == 2 {
        if leap(y) { 29 } else { 28 }
    } else if m == 4 || m == 6 || m == 9 || m == 11 {
        30
    } else {
        31
    }
}

/// Days from 1 January 1970 to day `d` of month `m` of year `y`. A day past
/// the month's end runs into the next month.
pub open spec fn epoch_day(y: int, m: int, d: int) -> int {
    days_before_year(y) + days_before_month(y, m) + d - 1 - 719162
}

/// A day of the calendar.
pub open spec fn valid_date(y: int, m: int, d: int) -> bool {
    1 <= m <= 12 && 1 <= d <= month_len(y, m)
}

/// `a` divided by `b`, rounded down.
pub fn floor_div(a: i64, b: i64) -> (q: i64)
    requires
        b > 0,
    ensures
        q == a as int / b as int,
{
    if a >= 0 {
        a / b
    } else {
        let k: i64 = (-1 - a) / b;
        proof {
            let (a, b, k) = (a as int, b as int, k as int);
            assert(a / b == -1 - k) by (nonlinear_arith)
                requires
                    b > 0,
                    a < 0,
                    k == (-1 - a) / b,
            ;
            assert(0 <= k <= -1 - a) by (nonlinear_arith)
                requires
                    b > 0,
                    a < 0,
                    k == (-1 - a) / b,
            ;
        }
        -1 - k
    }
}

/// The remainder of [`floor_div`], never negative.
pub fn floor_mod(a: i64, b: i64) -> (r: i64)
    requires
        b > 0,
    ensures
        r == a as int % b as int,
{
    if a >= 0 {
        a % b
    } else {
        let k: i64 = (-1 - a) % b;
        proof {
            let (x, d) = (-1 - a as int, b as int);
            vstd::arithmetic::div_mod::lemma_fundamental_div_mod(x, d);
            assert(a as int == (-1 - x / d) * d + (d - 1 - x % d)) by (nonlinear_arith)
                requires
                    x == d * (x / d) + x % d,
                    x == -1 - a as int,
            ;
            vstd::arithmetic::div_mod::lemma_fundamental_div_mod_converse(a as int, d, -1 - x / d, d - 1 - x % d);
        }
        b - 1 - k
    }
}

/// A quotient grows by one at every multiple of the divisor.
proof fn quotient_step(y: int, d: int)
    requires
        d > 0,
    ensures
        y / d == (y - 1) / d + (if y % d == 0 { 1int } else { 0int }),
{
    let (q, r) = (y / d, y % d);
    vstd::arithmetic::div_mod::lemma_fundamental_div_mod(y, d);
    vstd::arithmetic::div_mod::lemma_mod_bound(y, d);
    if r == 0 {
        assert(y - 1 == (q - 1) * d + (d - 1)) by (nonlinear_arith)
            requires
                y == d * q,
        ;
        vstd::arithmetic::div_mod::lemma_fundamental_div_mod_converse(y - 1, d, q - 1, d - 1);
    } else {
        assert(y - 1 == q * d + (r - 1)) by (nonlinear_arith)
            requires
                y == d * q + r,
        ;
        vstd::arithmetic::div_mod::lemma_fundamental_div_mod_converse(y - 1, d, q, r - 1);
    }
}

/// Every 400th year is a 100th, every 100th a fourth.
proof fn centuries(y: int)
    ensures
        y % 400 == 0 ==> y % 100 == 0,
        y % 100 == 0 ==> y % 4 == 0,
{
}

/// One year more adds its 365 days and, in a leap year, one more.
proof fn year_step(y: int)
    ensures
        days_before_year(y + 1) == days_before_year(y) + 365 + (if leap(y) { 1int } else { 0int }),
{
    quotient_step(y, 4);
    quotient_step(y, 100);
    quotient_step(y, 400);
    centuries(y);
}

/// Counting years from March puts the leap day last: month `mp` of the year
/// that began in March of `y2` starts after `(153 mp + 2) / 5` days.
proof fn march_year(y: int, m: int, d: int, y2: int, mp: int)
    requires
        1 <= m <= 12,
        y2 == (if m <= 2 { y - 1 } else { y }),
        mp == (m + 9) % 12,
    ensures
        epoch_day(y, m, d) == days_before_year(y2 + 1) + (153 * mp + 2) / 5 + d - 1 - 719468,
{
    year_step(y);
    year_step(y2);
    assert(m == 1 ==> mp == 10);
    assert(m == 2 ==> mp == 11);
    assert(m >= 3 ==> mp == m - 3);
}

/// The days of whole eras and of the years since the last.
proof fn era_days(era: int, yoe: int)
    requires
        0 <= yoe < 400,
    ensures
        days_before_year(era * 400 + yoe + 1) == era * 146097 + yoe * 365 + yoe / 4 - yoe / 100,
{
    let y = era * 400 + yoe;
    assert(y / 4 == era * 100 + yoe / 4);
    assert(y / 100 == era * 4 + yoe / 100);
    assert(y / 400 == era);
}

/// Days from 1 January 1970 to a date, counted in eras of 400 years that
/// begin in March.
pub fn days_from_civil(y: i64, m: i64, d: i64) -> (days: i64)
    requires
        -1_000_000_000_000 <= y <= 1_000_000_000_000,
        1 <= m <= 12,
        0 <= d <= 0xffff_ffff,
    ensures
        days == epoch_day(y as int, m as int, d as int),
{
    let y2: i64 = if m <= 2 { y - 1 } else { y };
    let era: i64 = floor_div(y2, 400);
    let yoe: i64 = y2 - era * 400;
    let mp: i64 = (m + 9) % 12;
    let doy: i64 = (153 * mp + 2) / 5 + d - 1;
    let doe: i64 = yoe * 365 + yoe / 4 - yoe / 100 + doy;
    proof {
        march_year(y as int, m as int, d as int, y2 as int, mp as int);
        era_days(era as int, yoe as int);
    }
    era * 146_097 + doe - 719_468
}

/// The year and the day of the year (both counted from March) of a day of an
/// era.
proof fn year_of_era(doe: int, yoe: int, doy: int)
    requires
        0 <= doe <= 146096,
        yoe == (doe - doe / 1460 + doe / 36524 - doe / 146096) / 365,
        doy == doe - (365 * yoe + yoe / 4 - yoe / 100),
    ensures
        0 <= yoe < 400,
        0 <= doy <= 365,
        doy == 365 ==> (yoe + 1) % 4 == 0 && ((yoe + 1) % 100 != 0 || yoe + 1 == 400),
{
    let c = if doe / 36524 >= 3 { 3 } else { doe / 36524 };
    let r1 = doe - 36524 * c;
    assert(0 <= r1 <= 36524);
    let q = r1 / 1461;
    let r2 = r1 - 1461 * q;
    assert(0 <= q <= 24);
    assert(0 <= r2 <= 1460);
    let b: int = if 24 * c + q + r2 >= 1460 { 1 } else { 0 };
    assert(doe == 1460 * (25 * c + q) + 24 * c + q + r2);
    assert(doe / 1460 == 25 * c + q + b);
    assert(doe / 36524 - doe / 146096 == c);
    assert(doe - doe / 1460 + doe / 36524 - doe / 146096 == 365 * (100 * c + 4 * q) + r2 - b);
    let y1 = (r2 - b) / 365;
    assert(0 <= y1 <= 3);
    assert(yoe == 100 * c + 4 * q + y1);
    assert(yoe / 4 == 25 * c + q);
    assert(yoe / 100 == c);
    assert(doy == r2 - 365 * y1);
    assert(r2 < 365 * (y1 + 1) || (y1 == 3 && r2 == 1460));
    if doy == 365 {
        assert(y1 == 3 && r2 == 1460);
        if q == 24 {
            assert(r1 == 36524);
            assert(c == 3);
        } else {
            assert((yoe + 1) % 100 == 4 * q + 4);
        }
    }
}

/// The month and the day of the month of a day of the year, both counted from
/// March.
proof fn month_of_year(doy: int, mp: int, d: int)
    requires
        0 <= doy <= 365,
        mp == (5 * doy + 2) / 153,
        d == doy - (153 * mp + 2) / 5 + 1,
    ensures
        0 <= mp <= 11,
        1 <= d <= 31,
        mp == 1 || mp == 3 || mp == 6 || mp == 8 ==> d <= 30,
        mp == 11 ==> d <= 29,
        mp == 11 && d == 29 ==> doy == 365,
{
    assert(0 <= mp <= 11);
    assert(153 * mp <= 5 * doy + 2 < 153 * mp + 153);
    assert(mp == 0 || mp == 1 || mp == 2 || mp == 3 || mp == 4 || mp == 5 || mp == 6 || mp == 7 || mp == 8 || mp == 9
        || mp == 10 || mp == 11);
}

/// The date of a day, from its era, its year of the era, and its month and day
/// counted from March.
#[verifier::spinoff_prover]
proof fn date_from_march(days: int, era: int, doe: int, yoe: int, doy: int, mp: int, d: int, m: int, y: int)
    requires
        days + 719468 == era * 146097 + doe,
        0 <= doe <= 146096,
        yoe == (doe - doe / 1460 + doe / 36524 - doe / 146096) / 365,
        doy == doe - (365 * yoe + yoe / 4 - yoe / 100),
        mp == (5 * doy + 2) / 153,
        d == doy - (153 * mp + 2) / 5 + 1,
        m == (if mp < 10 { mp + 3 } else { mp - 9 }),
        y == (if m <= 2 { era * 400 + yoe + 1 } else { era * 400 + yoe }),
    ensures
        valid_date(y, m, d),
        epoch_day(y, m, d) == days,
{
    year_of_era(doe, yoe, doy);
    month_of_year(doy, mp, d);
    march_year(y, m, d, era * 400 + yoe, mp);
    era_days(era, yoe);
    if m == 2 && d == 29 {
        leap_in_era(era, yoe + 1);
    }
}

/// The date of a day, `(year, month, day)`.
#[verifier::spinoff_prover]
pub fn civil_from_days(days: i64) -> (r: (i64, u32, u32))
    requires
        -200_000_000_000_000 <= days <= 200_000_000_000_000,
    ensures
        valid_date(r.0 as int, r.1 as int, r.2 as int),
        epoch_day(r.0 as int, r.1 as int, r.2 as int) == days,
        -1_000_000_000_000 <= r.0 <= 1_000_000_000_000,
{
    let z: i64 = days + 719_468;
    let era: i64 = floor_div(z, 146_097);
    let doe: i64 = z - era * 146_097;
    let yoe: i64 = (doe - doe / 1460 + doe / 36_524 - doe / 146_096) / 365;
    proof {
        year_of_era(doe as int, yoe as int, doe - (365 * yoe as int + yoe as int / 4 - yoe as int / 100));
    }
    let doy: i64 = doe - (365 * yoe + yoe / 4 - yoe / 100);
    let mp: i64 = (5 * doy + 2) / 153;
    proof {
        month_of_year(doy as int, mp as int, doy - (153 * mp as int + 2) / 5 + 1);
    }
    let d: i64 = doy - (153 * mp + 2) / 5 + 1;
    let m: i64 = if mp < 10 { mp + 3 } else { mp - 9 };
    let y: i64 = if m <= 2 { yoe + era * 400 + 1 } else { yoe + era * 400 };
    proof {
        date_from_march(
            days as int,
            era as int,
            doe as int,
            yoe as int,
            doy as int,
            mp as int,
            d as int,
            m as int,
            y as int,
        );
    }
    (y, m as u32, d as u32)
}

/// Whether a year is a leap year does not depend on its era.
proof fn leap_in_era(era: int, k: int)
    requires
        k % 4 == 0,
        k % 100 != 0 || k == 400,
    ensures
        leap(era * 400 + k),
{
    let y = era * 400 + k;
    assert(y % 4 == k % 4);
    assert(y % 100 == k % 100);
    assert(y % 400 == k % 400);
}


/// Later years begin later, by at least 365 days each.
proof fn years_grow(a: int, b: int)
    requires
        a <= b,
    ensures
        days_before_year(b) >= days_before_year(a) + 365 * (b - a),
    decreases b - a,
{
    if a < b {
        years_grow(a, b - 1);
        year_step(b - 1);
    }
}

/// Every day has one date: two dates of the calendar that are the same day
/// are the same date.
pub proof fn one_date_a_day(y1: int, m1: int, d1: int, y2: int, m2: int, d2: int)
    requires
        valid_date(y1, m1, d1),
        valid_date(y2, m2, d2),
        epoch_day(y1, m1, d1) == epoch_day(y2, m2, d2),
    ensures
        y1 == y2 && m1 == m2 && d1 == d2,
{
    year_step(y1);
    year_step(y2);
    if y1 < y2 {
        years_grow(y1 + 1, y2);
    } else if y2 < y1 {
        years_grow(y2 + 1, y1);
    }
}

/// A later day is in no earlier month.
pub proof fn months_follow_days(y1: int, m1: int, d1: int, y2: int, m2: int, d2: int)
    requires
        valid_date(y1, m1, d1),
        valid_date(y2, m2, d2),
        epoch_day(y1, m1, d1) <= epoch_day(y2, m2, d2),
    ensures
        12 * y1 + m1 <= 12 * y2 + m2,
{
    year_step(y2);
    if y2 < y1 {
        years_grow(y2 + 1, y1);
    }
}

/// The date of a day.
pub open spec fn date_of(days: int) -> (int, int, int) {
    choose|y: int, m: int, d: int| valid_date(y, m, d) && #[trigger] epoch_day(y, m, d) == days
}

/// What a date found for a day is: the day's date.
pub proof fn date_of_is(days: int, y: int, m: int, d: int)
    requires
        valid_date(y, m, d),
        epoch_day(y, m, d) == days,
    ensures
        date_of(days) == (y, m, d),
{
    let (a, b, c) = date_of(days);
    one_date_a_day(a, b, c, y, m, d);
}

/// The day of the week of a day, Sunday 0.
pub open spec fn weekday_of(days: int) -> int {
    (days + 4) % 7
}

/// The day of the week, Sunday 0.
pub fn weekday(days: i64) -> (w: u32)
    requires
        -200_000_000_000_000 <= days <= 200_000_000_000_000,
    ensures
        w == weekday_of(days as int),
{
    floor_mod(days + 4, 7) as u32
}

// ── Timestamps ───────────────────────────────────────────────────────────

/// The value of a digit.
pub open spec fn digit_value(c: char) -> int {
    c as int - 48
}

pub open spec fn two_digits(s: Seq<char>, i: int) -> bool {
    is_digit(s[i]) && is_digit(s[i + 1])
}

pub open spec fn value2(s: Seq<char>, i: int) -> int {
    10 * digit_value(s[i]) + digit_value(s[i + 1])
}

/// A timestamp: `YYYY-MM-DDTHH:MM:SSZ`, with three digits of a second or
/// without, or `YYYY-MM-DD HH:MM:SS`; both are UTC. A leap second is taken,
/// and so is a day that the month does not have, up to the 31st.
pub open spec fn is_timestamp(s: Seq<char>) -> bool {
    &&& s.len() >= 19
    &&& two_digits(s, 0) && two_digits(s, 2) && s[4] == '-'
    &&& two_digits(s, 5) && s[7] == '-'
    &&& two_digits(s, 8)
    &&& two_digits(s, 11) && s[13] == ':'
    &&& two_digits(s, 14) && s[16] == ':'
    &&& two_digits(s, 17)
    &&& 1 <= value2(s, 5) <= 12
    &&& 1 <= value2(s, 8) <= 31
    &&& value2(s, 11) <= 23
    &&& value2(s, 14) <= 59
    &&& value2(s, 17) <= 60
    &&& {
        ||| s[10] == ' ' && s.len() == 19
        ||| s[10] == 'T' && s.len() == 20 && s[19] == 'Z'
        ||| s[10] == 'T' && s.len() == 24 && s[19] == '.' && two_digits(s, 20) && is_digit(s[22]) && s[23] == 'Z'
    }
}

/// The second a timestamp names, counted from 1970.
pub open spec fn timestamp_value(s: Seq<char>) -> int {
    epoch_day(100 * value2(s, 0) + value2(s, 2), value2(s, 5), value2(s, 8)) * 86400 + value2(s, 11) * 3600 + value2(s, 14)
        * 60 + value2(s, 17)
}

fn two_at(cs: &Vec<char>, i: usize) -> (r: Option<i64>)
    requires
        i + 1 < cs@.len(),
        i <= 24,
    ensures
        r is Some <==> two_digits(cs@, i as int),
        r matches Some(n) ==> n == value2(cs@, i as int) && 0 <= n <= 99,
{
    let (a, b) = (cs[i], cs[i + 1]);
    if '0' <= a && a <= '9' && '0' <= b && b <= '9' {
        Some(10 * (a as u32 as i64 - 48) + (b as u32 as i64 - 48))
    } else {
        None
    }
}

/// A timestamp of the server → Unix seconds. Anything else, or an offset
/// other than `Z`, is `None`.
pub fn iso_unix(s: &str) -> (r: Option<i64>)
    ensures
        r is Some <==> is_timestamp(s@),
        r matches Some(t) ==> t == timestamp_value(s@),
{
    let cs = chars_of(s);
    let n: usize = cs.len();
    if n < 19 || cs[4] != '-' || cs[7] != '-' || cs[13] != ':' || cs[16] != ':' {
        return None;
    }
    let ends = if cs[10] == ' ' {
        n == 19
    } else if cs[10] == 'T' {
        (n == 20 && cs[19] == 'Z') || (n == 24 && cs[19] == '.' && two_at(&cs, 20).is_some() && '0' <= cs[22] && cs[22]
            <= '9' && cs[23] == 'Z')
    } else {
        false
    };
    if !ends {
        return None;
    }
    match (two_at(&cs, 0), two_at(&cs, 2), two_at(&cs, 5), two_at(&cs, 8)) {
        (Some(cc), Some(yy), Some(m), Some(d)) => {
            match (two_at(&cs, 11), two_at(&cs, 14), two_at(&cs, 17)) {
                (Some(hh), Some(mm), Some(ss)) => {
                    if m < 1 || m > 12 || d < 1 || d > 31 || hh > 23 || mm > 59 || ss > 60 {
                        None
                    } else {
                        let days: i64 = days_from_civil(100 * cc + yy, m, d);
                        Some(days * 86_400 + hh * 3600 + mm * 60 + ss)
                    }
                },
                _ => None,
            }
        },
        _ => None,
    }
}

/// A year in at least four characters, its sign among them.
pub open spec fn year_text(y: int) -> Seq<char> {
    if y >= 0 {
        padded(y as nat, 4)
    } else {
        seq!['-'] + padded((-y) as nat, 3)
    }
}

/// `YYYY-MM-DD`.
pub open spec fn date_text(y: int, m: int, d: int) -> Seq<char> {
    year_text(y) + seq!['-'] + padded(m as nat, 2) + seq!['-'] + padded(d as nat, 2)
}

/// `HH:MM:SS.000Z` of a second of the day.
pub open spec fn clock_text(rem: int) -> Seq<char> {
    padded((rem / 3600) as nat, 2) + seq![':'] + padded((rem % 3600 / 60) as nat, 2) + seq![':'] + padded(
        (rem % 60) as nat,
        2,
    ) + ".000Z"@
}

/// `YYYY-MM-DDTHH:MM:SS.000Z` of a second counted from 1970.
pub open spec fn timestamp_text(t: int) -> Seq<char> {
    let (y, m, d) = date_of(t / 86400);
    date_text(y, m, d) + seq!['T'] + clock_text(t % 86400)
}

/// `YYYY-MM-DD` of a date.
pub fn fmt_date(y: i64, m: u32, d: u32) -> (out: String)
    ensures
        out@ == date_text(y as int, m as int, d as int),
{
    let mut out: String = fmt_year(y);
    out.push('-');
    out.append(zero_padded(m as u64, 2).as_str());
    out.push('-');
    out.append(zero_padded(d as u64, 2).as_str());
    proof {
        assert(out@ =~= date_text(y as int, m as int, d as int));
    }
    out
}

/// A year, padded to four characters.
pub fn fmt_year(y: i64) -> (out: String)
    ensures
        out@ == year_text(y as int),
{
    let mut out: String = String::new();
    if y >= 0 {
        out.append(zero_padded(y as u64, 4).as_str());
    } else {
        out.push('-');
        out.append(zero_padded((-1 - y) as u64 + 1, 3).as_str());
    }
    proof {
        assert(out@ =~= year_text(y as int));
    }
    out
}

/// The inverse of [`iso_unix`]: Unix seconds → `YYYY-MM-DDTHH:MM:SS.000Z`.
pub fn iso_at(t: i64) -> (out: String)
    ensures
        out@ == timestamp_text(t as int),
{
    let days: i64 = floor_div(t, 86_400);
    let rem: i64 = floor_mod(t, 86_400);
    let (y, m, d) = civil_from_days(days);
    proof {
        date_of_is(days as int, y as int, m as int, d as int);
    }
    let mut out: String = fmt_date(y, m, d);
    out.push('T');
    out.append(zero_padded((rem / 3600) as u64, 2).as_str());
    out.push(':');
    out.append(zero_padded((rem % 3600 / 60) as u64, 2).as_str());
    out.push(':');
    out.append(zero_padded((rem % 60) as u64, 2).as_str());
    out.append(".000Z");
    proof {
        assert(out@ =~= timestamp_text(t as int));
    }
    out
}

/// Two digits of a number below a hundred.
pub proof fn padded_two(n: nat)
    requires
        n < 100,
    ensures
        padded(n, 2) == seq![digit((n / 10) as int), digit((n % 10) as int)],
{
    reveal_with_fuel(dec, 3);
    assert(padded(n, 2) =~= seq![digit((n / 10) as int), digit((n % 10) as int)]);
}

/// Four digits of a number below ten thousand.
pub proof fn padded_four(n: nat)
    requires
        n < 10000,
    ensures
        padded(n, 4) == seq![
            digit((n / 1000) as int),
            digit((n / 100 % 10) as int),
            digit((n / 10 % 10) as int),
            digit((n % 10) as int),
        ],
{
    reveal_with_fuel(dec, 5);
    assert(n / 10 / 10 == n / 100);
    assert(n / 10 / 10 / 10 == n / 1000);
    assert(padded(n, 4) =~= seq![
        digit((n / 1000) as int),
        digit((n / 100 % 10) as int),
        digit((n / 10 % 10) as int),
        digit((n % 10) as int),
    ]);
}

/// Reading a written timestamp gives the second back: for every second of the
/// years 0 to 9999, what [`iso_at`] writes is a timestamp, and [`iso_unix`]
/// reads the same second from it.
#[verifier::spinoff_prover]
pub proof fn timestamps_round_trip(t: int)
    requires
        epoch_day(0, 1, 1) * 86400 <= t < epoch_day(10000, 1, 1) * 86400,
    ensures
        is_timestamp(timestamp_text(t)),
        timestamp_value(timestamp_text(t)) == t,
{
    calendar_ends();
    text_is_stamp(t);
    let (y, m, d) = date_of(t / 86400);
    second_reads_back(t, y, m, d);
}

/// The days that years of four digits span.
proof fn calendar_ends()
    ensures
        epoch_day(0, 1, 1) == -719528,
        epoch_day(10000, 1, 1) == 2932897,
{
}

/// A second of a day with a year of four digits reads back.
#[verifier::spinoff_prover]
proof fn second_reads_back(t: int, y: int, m: int, d: int)
    requires
        0 <= y < 10000,
        valid_date(y, m, d),
        epoch_day(y, m, d) == t / 86400,
    ensures
        is_timestamp(stamp_of(t, y, m, d)),
        timestamp_value(stamp_of(t, y, m, d)) == t,
{
    let rem = t % 86400;
    let (h, mi, sec) = (rem / 3600, rem % 3600 / 60, rem % 60);
    second_parts(t);
    assert(stamp_of(t, y, m, d) == stamp(y, m, d, h, mi, sec)) by {
        reveal(stamp_of);
    }
    read_back(y, m, d, h, mi, sec);
}

/// A second by its day, hour, minute and second.
proof fn second_parts(t: int)
    ensures
        0 <= t % 86400 / 3600 < 24,
        0 <= t % 86400 % 3600 / 60 < 60,
        0 <= t % 86400 % 60 < 60,
        t / 86400 * 86400 + t % 86400 / 3600 * 3600 + t % 86400 % 3600 / 60 * 60 + t % 86400 % 60 == t,
{
}

/// The characters of a second of a day.
#[verifier::opaque]
spec fn stamp_of(t: int, y: int, m: int, d: int) -> Seq<char> {
    let rem = t % 86400;
    stamp(y, m, d, rem / 3600, rem % 3600 / 60, rem % 60)
}

/// The characters that a second between the years 0 and 9999 is written in.
proof fn text_is_stamp(t: int)
    requires
        -719528 * 86400 <= t < 2932897 * 86400,
    ensures
        ({
            let (y, m, d) = date_of(t / 86400);
            &&& 0 <= y < 10000
            &&& valid_date(y, m, d)
            &&& epoch_day(y, m, d) == t / 86400
            &&& timestamp_text(t) == stamp_of(t, y, m, d)
        }),
{
    reveal(stamp_of);
    let days = t / 86400;
    day_has_a_date(days);
    let (y, m, d) = date_of(days);
    assert(-719528 <= days < 2932897);
    four_digit_year(y, m, d);
    written_out(y, m, d, t % 86400);
}

/// Between 1 January 0 and 31 December 9999 a year has four digits.
proof fn four_digit_year(y: int, m: int, d: int)
    requires
        valid_date(y, m, d),
        -719528 <= epoch_day(y, m, d) < 2932897,
    ensures
        0 <= y < 10000,
{
    year_step(y);
    assert(days_before_year(0) == -366);
    assert(days_before_year(10000) == 3652059);
    if y < 0 {
        years_grow(y + 1, 0);
    } else if y >= 10000 {
        years_grow(10000, y);
    }
}

/// The characters of a timestamp.
#[verifier::opaque]
spec fn stamp(y: int, m: int, d: int, h: int, mi: int, sec: int) -> Seq<char> {
    seq![
        digit(y / 1000),
        digit(y / 100 % 10),
        digit(y / 10 % 10),
        digit(y % 10),
        '-',
        digit(m / 10),
        digit(m % 10),
        '-',
        digit(d / 10),
        digit(d % 10),
        'T',
        digit(h / 10),
        digit(h % 10),
        ':',
        digit(mi / 10),
        digit(mi % 10),
        ':',
        digit(sec / 10),
        digit(sec % 10),
        '.',
        '0',
        '0',
        '0',
        'Z',
    ]
}

proof fn written_out(y: int, m: int, d: int, rem: int)
    requires
        0 <= y < 10000,
        valid_date(y, m, d),
        0 <= rem < 86400,
    ensures
        date_text(y, m, d) + seq!['T'] + clock_text(rem) == stamp(y, m, d, rem / 3600, rem % 3600 / 60, rem % 60),
{
    padded_four(y as nat);
    padded_two(m as nat);
    padded_two(d as nat);
    padded_two((rem / 3600) as nat);
    padded_two((rem % 3600 / 60) as nat);
    padded_two((rem % 60) as nat);
    reveal_strlit(".000Z");
    reveal(stamp);
    assert(date_text(y, m, d) + seq!['T'] + clock_text(rem) =~= stamp(y, m, d, rem / 3600, rem % 3600 / 60, rem % 60));
}

/// Two digits read as the number that they were written for.
proof fn pair_reads_back(s: Seq<char>, i: int, n: int)
    requires
        0 <= n < 100,
        s[i] == digit(n / 10),
        s[i + 1] == digit(n % 10),
    ensures
        two_digits(s, i),
        value2(s, i) == n,
{
}

proof fn stamp_chars(y: int, m: int, d: int, h: int, mi: int, sec: int)
    ensures
        ({
            let s = stamp(y, m, d, h, mi, sec);
            &&& s.len() == 24
            &&& s[0] == digit(y / 1000) && s[1] == digit(y / 100 % 10)
            &&& s[2] == digit(y / 10 % 10) && s[3] == digit(y % 10) && s[4] == '-'
            &&& s[5] == digit(m / 10) && s[6] == digit(m % 10) && s[7] == '-'
            &&& s[8] == digit(d / 10) && s[9] == digit(d % 10) && s[10] == 'T'
            &&& s[11] == digit(h / 10) && s[12] == digit(h % 10) && s[13] == ':'
            &&& s[14] == digit(mi / 10) && s[15] == digit(mi % 10) && s[16] == ':'
            &&& s[17] == digit(sec / 10) && s[18] == digit(sec % 10) && s[19] == '.'
            &&& s[20] == '0' && s[21] == '0' && s[22] == '0' && s[23] == 'Z'
        }),
{
    reveal(stamp);
}

proof fn read_back(y: int, m: int, d: int, h: int, mi: int, sec: int)
    requires
        0 <= y < 10000,
        valid_date(y, m, d),
        0 <= h < 24,
        0 <= mi < 60,
        0 <= sec < 60,
    ensures
        is_timestamp(stamp(y, m, d, h, mi, sec)),
        timestamp_value(stamp(y, m, d, h, mi, sec)) == epoch_day(y, m, d) * 86400 + h * 3600 + mi * 60 + sec,
{
    let s = stamp(y, m, d, h, mi, sec);
    stamp_chars(y, m, d, h, mi, sec);
    year_pairs(y);
    pair_reads_back(s, 0, y / 100);
    pair_reads_back(s, 2, y % 100);
    pair_reads_back(s, 5, m);
    pair_reads_back(s, 8, d);
    pair_reads_back(s, 11, h);
    pair_reads_back(s, 14, mi);
    pair_reads_back(s, 17, sec);
    stamp_reads_as(s, y, m, d, h, mi, sec);
}

/// The four digits of a year, as two pairs.
proof fn year_pairs(y: int)
    requires
        0 <= y < 10000,
    ensures
        y / 1000 == y / 100 / 10,
        y / 10 % 10 == y % 100 / 10,
        y % 10 == y % 100 % 10,
        0 <= y / 100 < 100,
        100 * (y / 100) + y % 100 == y,
{
}

/// A text with a timestamp's marks and pairs of digits is that timestamp.
proof fn stamp_reads_as(s: Seq<char>, y: int, m: int, d: int, h: int, mi: int, sec: int)
    requires
        s.len() == 24,
        valid_date(y, m, d),
        0 <= h < 24,
        0 <= mi < 60,
        0 <= sec < 60,
        s[4] == '-' && s[7] == '-' && s[10] == 'T' && s[13] == ':' && s[16] == ':' && s[19] == '.',
        s[20] == '0' && s[21] == '0' && s[22] == '0' && s[23] == 'Z',
        two_digits(s, 0) && two_digits(s, 2) && two_digits(s, 5) && two_digits(s, 8) && two_digits(s, 11) && two_digits(s, 14)
            && two_digits(s, 17),
        100 * value2(s, 0) + value2(s, 2) == y,
        value2(s, 5) == m && value2(s, 8) == d && value2(s, 11) == h && value2(s, 14) == mi && value2(s, 17) == sec,
    ensures
        is_timestamp(s),
        timestamp_value(s) == epoch_day(y, m, d) * 86400 + h * 3600 + mi * 60 + sec,
{
}

/// Every day has a date.
pub proof fn day_has_a_date(days: int)
    ensures
        valid_date(date_of(days).0, date_of(days).1, date_of(days).2),
        epoch_day(date_of(days).0, date_of(days).1, date_of(days).2) == days,
{
    let z = days + 719468;
    let era = z / 146097;
    let doe = z % 146097;
    let yoe = (doe - doe / 1460 + doe / 36524 - doe / 146096) / 365;
    let doy = doe - (365 * yoe + yoe / 4 - yoe / 100);
    let mp = (5 * doy + 2) / 153;
    let d = doy - (153 * mp + 2) / 5 + 1;
    let m = if mp < 10 { mp + 3 } else { mp - 9 };
    let y = if m <= 2 { era * 400 + yoe + 1 } else { era * 400 + yoe };
    date_from_march(days, era, doe, yoe, doy, mp, d, m, y);
    assert(valid_date(y, m, d) && epoch_day(y, m, d) == days);
}

// ── Ages and durations ───────────────────────────────────────────────────

/// A duration as a table's suffix: minutes under an hour, hours under two
/// days, days after.
pub open spec fn age(secs: int) -> Msg {
    let mins = (if secs < 0 { 0 } else { secs }) / 60;
    if mins < 1 {
        Msg::Key("p2p.age_now")
    } else if mins < 60 {
        Msg::One("p2p.age_m", Fill { name: "n", arg: Arg::Num(mins as i64) })
    } else if mins < 48 * 60 {
        Msg::One("p2p.age_h", Fill { name: "n", arg: Arg::Num((mins / 60) as i64) })
    } else {
        Msg::One("p2p.age_d", Fill { name: "n", arg: Arg::Num((mins / 1440) as i64) })
    }
}

fn age_in_minutes(mins: i64) -> (out: Msg)
    requires
        0 <= mins,
    ensures
        out == age(mins * 60),
{
    proof {
        assert((mins * 60) / 60 == mins);
    }
    if mins < 1 {
        Msg::Key("p2p.age_now")
    } else if mins < 60 {
        Msg::One("p2p.age_m", Fill { name: "n", arg: Arg::Num(mins) })
    } else if mins < 48 * 60 {
        Msg::One("p2p.age_h", Fill { name: "n", arg: Arg::Num(mins / 60) })
    } else {
        Msg::One("p2p.age_d", Fill { name: "n", arg: Arg::Num(mins / 1440) })
    }
}

/// How long ago something was.
pub fn age_text(secs: i64) -> (out: Msg)
    ensures
        out == age(secs as int),
{
    age_in_minutes((if secs < 0 { 0 } else { secs }) / 60)
}

/// How long ago `then` was.
pub fn age_since(now: i64, then: i64) -> (out: Msg)
    ensures
        out == age(now - then),
{
    let secs: i128 = now as i128 - then as i128;
    age_in_minutes((if secs < 0 { 0 } else { secs / 60 }) as i64)
}

/// A running time: `42s`, `2m 14s`, `1h 03m`.
pub open spec fn elapsed(secs: int) -> Seq<char> {
    let s = if secs < 0 { 0 } else { secs };
    if s < 60 {
        dec(s as nat) + seq!['s']
    } else if s < 3600 {
        dec((s / 60) as nat) + seq!['m', ' '] + padded((s % 60) as nat, 2) + seq!['s']
    } else {
        dec((s / 3600) as nat) + seq!['h', ' '] + padded((s % 3600 / 60) as nat, 2) + seq!['m']
    }
}

fn elapsed_seconds(s: u64) -> (out: String)
    ensures
        out@ == elapsed(s as int),
{
    let mut out: String = String::new();
    if s < 60 {
        out.append(decimal(s).as_str());
        out.push('s');
    } else if s < 3600 {
        out.append(decimal(s / 60).as_str());
        out.push('m');
        out.push(' ');
        out.append(zero_padded(s % 60, 2).as_str());
        out.push('s');
    } else {
        out.append(decimal(s / 3600).as_str());
        out.push('h');
        out.push(' ');
        out.append(zero_padded(s % 3600 / 60, 2).as_str());
        out.push('m');
    }
    proof {
        assert(out@ =~= elapsed(s as int));
    }
    out
}

/// A running time in words.
pub fn elapsed_text(secs: i64) -> (out: String)
    ensures
        out@ == elapsed(secs as int),
{
    elapsed_seconds(if secs < 0 { 0 } else { secs as u64 })
}

/// The time since `then`, in words.
pub fn elapsed_since(now: i64, then: i64) -> (out: String)
    ensures
        out@ == elapsed(now - then),
{
    let secs: i128 = now as i128 - then as i128;
    elapsed_seconds(if secs < 0 { 0 } else { secs as u64 })
}

// ── What ages say ────────────────────────────────────────────────────────

/// An age is said in whole minutes, hours or days, rounded down, and in the
/// smallest of them that stays below sixty minutes, two days.
pub proof fn ages_are_rounded_down(secs: int)
    requires
        secs <= 0x7fff_ffff_ffff_ffff,
    ensures
        ({
            let s = if secs < 0 { 0 } else { secs };
            match age(secs) {
                Msg::Key(key) => key == "p2p.age_now" && s < 60,
                Msg::One(key, Fill { name, arg: Arg::Num(n) }) => {
                    ||| key == "p2p.age_m" && 60 * n <= s < 60 * (n + 1) && 1 <= n < 60
                    ||| key == "p2p.age_h" && 3600 * n <= s < 3600 * (n + 1) && 1 <= n < 48
                    ||| key == "p2p.age_d" && 86400 * n <= s < 86400 * (n + 1) && 2 <= n
                },
                _ => false,
            }
        }),
{
    let s = if secs < 0 { 0 } else { secs };
    let mins = s / 60;
    assert(60 * mins <= s < 60 * (mins + 1));
    assert(60 * (mins / 60) <= mins < 60 * (mins / 60 + 1));
    assert(1440 * (mins / 1440) <= mins < 1440 * (mins / 1440 + 1));
}

/// A running time is written with its parts in place: seconds below a minute,
/// minutes and seconds below an hour, then hours and minutes.
pub proof fn running_times_are_written_out(secs: int)
    requires
        0 <= secs,
    ensures
        secs < 60 ==> elapsed(secs) == dec(secs as nat).push('s'),
        60 <= secs < 3600 ==> exists|m: nat, s: nat|
            {
                &&& 60 * m + s == secs && s < 60
                &&& elapsed(secs) == #[trigger] two_parts(m, 'm', s, 's')
            },
        3600 <= secs ==> exists|h: nat, m: nat|
            {
                &&& 3600 * h + 60 * m <= secs < 3600 * h + 60 * m + 60 && m < 60
                &&& elapsed(secs) == #[trigger] two_parts(h, 'h', m, 'm')
            },
{
    if secs < 60 {
        assert(elapsed(secs) =~= dec(secs as nat).push('s'));
    } else if secs < 3600 {
        let (m, s) = ((secs / 60) as nat, (secs % 60) as nat);
        padded_two(s);
        assert(elapsed(secs) =~= two_parts(m, 'm', s, 's'));
    } else {
        let (h, m) = ((secs / 3600) as nat, (secs % 3600 / 60) as nat);
        padded_two(m);
        assert(elapsed(secs) =~= two_parts(h, 'h', m, 'm'));
    }
}

/// Two units, the second in two digits.
pub open spec fn two_parts(a: nat, x: char, b: nat, y: char) -> Seq<char> {
    dec(a) + seq![x, ' ', digit((b / 10) as int), digit((b % 10) as int), y]
}

/// A timestamp with a larger second is later: the clock runs one way.
pub proof fn seconds_are_told_apart(a: int, b: int)
    requires
        epoch_day(0, 1, 1) * 86400 <= a < epoch_day(10000, 1, 1) * 86400,
        epoch_day(0, 1, 1) * 86400 <= b < epoch_day(10000, 1, 1) * 86400,
        a != b,
    ensures
        timestamp_text(a) != timestamp_text(b),
{
    timestamps_round_trip(a);
    timestamps_round_trip(b);
}

} // verus!
