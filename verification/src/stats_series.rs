//! The charts of the listening report: one value per day, week, month or hour,
//! and the labels under them.

use vstd::prelude::*;

use crate::clock::{civil_from_days, floor_div, fmt_date, fmt_year, iso_unix, weekday};
use crate::double::parts_of;
use crate::msg::Msg;
use crate::stats_words::number_at;
use crate::text::{chars_of, decimal, read_number, same, zero_padded};
use crate::zone::{offset_at, Zone};

verus! {

use crate::clock::{
    date_of, date_of_is, date_text, day_has_a_date, is_timestamp, months_follow_days, timestamp_value, valid_date, weekday_of, year_text,
};
use crate::double::{parts, parts_grow, the_whole_is_every_part};
use crate::stats_words::{all_digits, digits_of, month_place, number_in};
use crate::text::{dec, number_upto, padded, texts};
use crate::zone::offset_of;
use vstd::utf8::{encode_utf8, is_char_boundary};

/// How a chart's time is cut.
#[derive(Clone, Copy, Debug, PartialEq, Eq, Structural)]
pub enum Bucket {
    Day,
    Week,
    Month,
}

impl Bucket {
    /// The bucket's name for the server.
    pub fn param(self) -> (s: &'static str)
        ensures
            s == (match self {
                Bucket::Day => "day",
                Bucket::Week => "week",
                Bucket::Month => "month",
            }),
    {
        match self {
            Bucket::Day => "day",
            Bucket::Week => "week",
            Bucket::Month => "month",
        }
    }
}

/// One bar of a chart, as the server counts it.
#[derive(Debug, PartialEq)]
pub struct TimeBucket {
    pub bucket: String,
    pub plays: u64,
    pub skips: u64,
    pub listened_ms: u64,
}

#[derive(Debug, PartialEq)]
pub struct StatsTimeseries {
    pub bucket: String,
    pub items: Vec<TimeBucket>,
}

/// The bucket that a period's chart is drawn in, by the period's name: days
/// while a row of days fits, weeks for a half-year, months beyond.
pub open spec fn bucket_for(period: Seq<char>) -> &'static str {
    if period == "half"@ {
        "week"
    } else if period == "year"@ || period == "all"@ {
        "month"
    } else {
        "day"
    }
}

/// The bucket that a period's chart is drawn in.
pub fn series_bucket(period: &str) -> (s: &'static str)
    ensures
        s == bucket_for(period@),
{
    if same(period, "half") {
        "week"
    } else if same(period, "year") || same(period, "all") {
        "month"
    } else {
        "day"
    }
}

/// The bucket that a name stands for: days, where it is none of the others.
pub open spec fn bucket_named(name: Seq<char>) -> Bucket {
    if name == "week"@ {
        Bucket::Week
    } else if name == "month"@ {
        Bucket::Month
    } else {
        Bucket::Day
    }
}

/// A count of bars: none below zero.
pub open spec fn bars(n: int) -> nat {
    if n < 0 {
        0
    } else {
        n as nat
    }
}

/// A day's key, `YYYY-MM-DD`.
pub open spec fn day_key(days: int) -> Seq<char> {
    let (y, m, d) = date_of(days);
    date_text(y, m, d)
}

/// A month's key, `YYYY-MM`; months are counted from January of year 0.
pub open spec fn month_key(k: int) -> Seq<char> {
    year_text(k / 12) + seq!['-'] + padded((k % 12 + 1) as nat, 2)
}

/// The month of a day, counted from January of year 0.
pub open spec fn month_of(days: int) -> int {
    let (y, m, d) = date_of(days);
    12 * y + m - 1
}

/// The Monday of a day's week.
pub open spec fn monday(days: int) -> int {
    days - (weekday_of(days) + 6) % 7
}

/// The keys of the days, weeks or months from one day through another.
pub open spec fn calendar_keys(bucket: Bucket, first: int, last: int) -> Seq<Seq<char>> {
    match bucket {
        Bucket::Day => Seq::new(bars(last - first + 1), |i: int| day_key(first + i)),
        Bucket::Week => Seq::new(bars((last - monday(first)) / 7 + 1), |i: int| day_key(monday(first) + 7 * i)),
        Bucket::Month => Seq::new(bars(month_of(last) - month_of(first) + 1), |i: int| month_key(month_of(first) + i)),
    }
}

/// The local day of an instant.
pub open spec fn local_day(zone: Option<Zone>, t: int) -> int {
    (t + offset_of(zone, t)) / 86400
}

/// The plays of a bar: those of the last item with its key, or none.
pub open spec fn plays_of(items: Seq<TimeBucket>, key: Seq<char>) -> u64
    decreases items.len(),
{
    if items.len() == 0 {
        0
    } else if items.last().bucket@ == key {
        items.last().plays
    } else {
        plays_of(items.drop_last(), key)
    }
}

/// The keys that the items have, in their order.
pub open spec fn item_keys(items: Seq<TimeBucket>) -> Seq<Seq<char>> {
    Seq::new(items.len(), |i: int| items[i].bucket@)
}

// ── An order of texts ────────────────────────────────────────────────────

/// The order of texts by their characters' code points.
pub open spec fn text_le(a: Seq<char>, b: Seq<char>) -> bool
    decreases a.len(),
{
    if a.len() == 0 {
        true
    } else if b.len() == 0 {
        false
    } else if a[0] != b[0] {
        a[0] < b[0]
    } else {
        text_le(a.skip(1), b.skip(1))
    }
}

/// The order is total.
pub proof fn text_order_is_total(a: Seq<char>, b: Seq<char>)
    ensures
        text_le(a, b) || text_le(b, a),
    decreases a.len(),
{
    if a.len() > 0 && b.len() > 0 && a[0] == b[0] {
        text_order_is_total(a.skip(1), b.skip(1));
    }
}

/// The order is transitive.
pub proof fn text_order_is_transitive(a: Seq<char>, b: Seq<char>, c: Seq<char>)
    requires
        text_le(a, b),
        text_le(b, c),
    ensures
        text_le(a, c),
    decreases a.len(),
{
    if a.len() > 0 && b.len() > 0 && c.len() > 0 && a[0] == b[0] && b[0] == c[0] {
        text_order_is_transitive(a.skip(1), b.skip(1), c.skip(1));
    }
}

/// Texts in order.
pub open spec fn in_order(v: Seq<Seq<char>>) -> bool {
    forall|i: int, j: int| 0 <= i < j < v.len() ==> text_le(#[trigger] v[i], #[trigger] v[j])
}

fn le(a: &str, b: &str) -> (r: bool)
    ensures
        r == text_le(a@, b@),
{
    let x = chars_of(a);
    let y = chars_of(b);
    let mut i: usize = 0;
    proof {
        assert(a@.skip(0) =~= a@);
        assert(b@.skip(0) =~= b@);
    }
    loop
        invariant
            x@ == a@,
            y@ == b@,
            i <= x@.len(),
            i <= y@.len(),
            text_le(a@, b@) == text_le(a@.skip(i as int), b@.skip(i as int)),
        decreases x@.len() - i,
    {
        if i >= x.len() {
            return true;
        }
        if i >= y.len() {
            return false;
        }
        proof {
            assert(a@.skip(i as int)[0] == x@[i as int]);
            assert(b@.skip(i as int)[0] == y@[i as int]);
            assert(a@.skip(i as int).skip(1) =~= a@.skip(i + 1));
            assert(b@.skip(i as int).skip(1) =~= b@.skip(i + 1));
        }
        if x[i] != y[i] {
            return x[i] < y[i];
        }
        i += 1;
    }
}

/// Where a text goes among texts in order: behind those that are not after it.
fn slot(v: &Vec<String>, t: &str) -> (p: usize)
    requires
        in_order(texts(v@)),
    ensures
        p <= v@.len(),
        forall|k: int| 0 <= k < p ==> text_le(#[trigger] texts(v@)[k], t@),
        forall|k: int| p <= k < v@.len() ==> text_le(t@, #[trigger] texts(v@)[k]),
{
    let mut p: usize = v.len();
    while p > 0
        invariant
            p <= v@.len(),
            in_order(texts(v@)),
            forall|k: int| p <= k < v@.len() ==> text_le(t@, #[trigger] texts(v@)[k]),
        decreases p,
    {
        proof {
            assert(texts(v@)[p - 1] == v@[p - 1]@);
        }
        if le(v[p - 1].as_str(), t) {
            proof {
                assert forall|k: int| 0 <= k < p implies text_le(#[trigger] texts(v@)[k], t@) by {
                    if k < p - 1 {
                        text_order_is_transitive(texts(v@)[k], texts(v@)[p - 1], t@);
                    }
                }
            }
            return p;
        }
        proof {
            text_order_is_total(texts(v@)[p - 1], t@);
        }
        p -= 1;
    }
    0
}

/// The keys of the items, in order.
fn sorted_keys(items: &Vec<TimeBucket>) -> (out: Vec<String>)
    ensures
        in_order(texts(out@)),
        texts(out@).to_multiset() == item_keys(items@).to_multiset(),
{
    let mut out: Vec<String> = Vec::new();
    let mut i: usize = 0;
    proof {
        assert(texts(out@) =~= item_keys(items@).take(0));
    }
    while i < items.len()
        invariant
            i <= items@.len(),
            in_order(texts(out@)),
            out@.len() == i,
            texts(out@).to_multiset() == item_keys(items@).take(i as int).to_multiset(),
        decreases items@.len() - i,
    {
        let key = items[i].bucket.clone();
        let p: usize = slot(&out, key.as_str());
        let ghost was = texts(out@);
        out.insert(p, key);
        proof {
            assert(texts(out@) =~= was.insert(p as int, key@));
            assert(item_keys(items@).take(i + 1) =~= item_keys(items@).take(i as int).push(key@));
            vstd::seq_lib::to_multiset_insert(was, p as int, key@);
            vstd::seq_lib::to_multiset_build(item_keys(items@).take(i as int), key@);
            assert forall|a: int, b: int| 0 <= a < b < texts(out@).len() implies text_le(
                #[trigger] texts(out@)[a],
                #[trigger] texts(out@)[b],
            ) by {
                let x: int = if a < p { a } else { a - 1 };
                let y: int = if b < p { b } else { b - 1 };
                if a == p {
                    assert(texts(out@)[b] == was[y]);
                } else if b == p {
                    assert(texts(out@)[a] == was[x]);
                } else {
                    assert(texts(out@)[a] == was[x]);
                    assert(texts(out@)[b] == was[y]);
                }
            }
        }
        i += 1;
    }
    proof {
        assert(item_keys(items@).take(i as int) =~= item_keys(items@));
    }
    out
}

// ── The calendar's bars ──────────────────────────────────────────────────

/// The keys of days, from one on, a day or a week apart.
fn day_keys(from: i64, step: i64, n: usize) -> (out: Vec<String>)
    requires
        -7_000_000 <= from <= 7_000_000,
        step == 1 || step == 7,
        n <= 20_000_000,
    ensures
        texts(out@) == Seq::new(n as nat, |i: int| day_key(from + step * i)),
{
    let mut out: Vec<String> = Vec::new();
    let mut i: usize = 0;
    while i < n
        invariant
            i <= n,
            n <= 20_000_000,
            -7_000_000 <= from <= 7_000_000,
            step == 1 || step == 7,
            out@.len() == i,
            forall|k: int| 0 <= k < i ==> (#[trigger] out@[k])@ == day_key(from + step * k),
        decreases n - i,
    {
        let d: i64 = if step == 1 { from + i as i64 } else { from + 7 * (i as i64) };
        proof {
            assert(d == from + step * i) by {
                if step == 1 {
                    assert(step * i == i) by (nonlinear_arith)
                        requires
                            step == 1,
                    ;
                } else {
                    assert(step * i == 7 * i) by (nonlinear_arith)
                        requires
                            step == 7,
                    ;
                }
            }
        }
        let (y, m, dd) = civil_from_days(d);
        proof {
            date_of_is(d as int, y as int, m as int, dd as int);
        }
        out.push(fmt_date(y, m, dd));
        i += 1;
    }
    proof {
        assert(texts(out@) =~= Seq::new(n as nat, |i: int| day_key(from + step * i)));
    }
    out
}

/// The keys of months, from one on.
fn month_keys(from: i64, n: usize) -> (out: Vec<String>)
    requires
        -80_000_000 <= from <= 80_000_000,
        n <= 200_000_000,
    ensures
        texts(out@) == Seq::new(n as nat, |i: int| month_key(from + i)),
{
    let mut out: Vec<String> = Vec::new();
    let mut i: usize = 0;
    while i < n
        invariant
            i <= n,
            n <= 200_000_000,
            -80_000_000 <= from <= 80_000_000,
            out@.len() == i,
            forall|k: int| 0 <= k < i ==> (#[trigger] out@[k])@ == month_key(from + k),
        decreases n - i,
    {
        let k: i64 = from + i as i64;
        let y: i64 = floor_div(k, 12);
        let m: i64 = k - 12 * y + 1;
        proof {
            assert(y == k as int / 12);
            assert(m - 1 == k as int % 12);
        }
        let mut key: String = fmt_year(y);
        key.push('-');
        key.append(zero_padded(m as u64, 2).as_str());
        proof {
            assert(key@ =~= month_key(from + i));
        }
        out.push(key);
        i += 1;
    }
    proof {
        assert(texts(out@) =~= Seq::new(n as nat, |i: int| month_key(from + i)));
    }
    out
}

fn bar_count(n: i64) -> (r: usize)
    requires
        n <= 200_000_000,
    ensures
        r == bars(n as int),
{
    if n < 0 {
        0
    } else {
        n as usize
    }
}

/// The keys of the days, weeks or months from one day through another.
fn keys_between(bucket: Bucket, first: i64, last: i64) -> (out: Vec<String>)
    requires
        -6_000_000 <= first <= 6_000_000,
        -6_000_000 <= last <= 6_000_000,
    ensures
        texts(out@) == calendar_keys(bucket, first as int, last as int),
{
    match bucket {
        Bucket::Day => {
            let out = day_keys(first, 1, bar_count(last - first + 1));
            proof {
                assert(texts(out@) =~= calendar_keys(bucket, first as int, last as int));
            }
            out
        },
        Bucket::Week => {
            let start: i64 = first - (weekday(first) as i64 + 6) % 7;
            let n: usize = bar_count(floor_div(last - start, 7) + 1);
            let out = day_keys(start, 7, n);
            proof {
                assert(texts(out@) =~= calendar_keys(bucket, first as int, last as int));
            }
            out
        },
        Bucket::Month => {
            let (y, m, d) = civil_from_days(first);
            let (ly, lm, ld) = civil_from_days(last);
            proof {
                date_of_is(first as int, y as int, m as int, d as int);
                date_of_is(last as int, ly as int, lm as int, ld as int);
                years_are_near(first as int, y as int, m as int, d as int);
                years_are_near(last as int, ly as int, lm as int, ld as int);
            }
            let from: i64 = 12 * y + m as i64 - 1;
            let to: i64 = 12 * ly + lm as i64 - 1;
            let out = month_keys(from, bar_count(to - from + 1));
            proof {
                assert(texts(out@) =~= calendar_keys(bucket, first as int, last as int));
            }
            out
        },
    }
}

/// A day that is not far from 1970 has a year that is not.
proof fn years_are_near(days: int, y: int, m: int, d: int)
    requires
        -6_000_000 <= days <= 6_000_000,
        valid_date(y, m, d),
        crate::clock::epoch_day(y, m, d) == days,
    ensures
        -6_000_000 <= y <= 6_000_000,
{
}

/// The local day of an instant.
fn day_at(zone: &Option<Zone>, t: i64) -> (d: i64)
    requires
        -500_000_000_000 <= t <= 500_000_000_000,
    ensures
        d == local_day(*zone, t as int),
        -6_000_000 <= d <= 6_000_000,
{
    floor_div(t + offset_at(zone, t) as i64, 86_400)
}

/// Looks a bar's plays up.
fn plays_at(items: &Vec<TimeBucket>, key: &str) -> (plays: u64)
    ensures
        plays == plays_of(items@, key@),
{
    let mut i: usize = items.len();
    proof {
        assert(items@.take(i as int) =~= items@);
    }
    while i > 0
        invariant
            i <= items@.len(),
            plays_of(items@, key@) == plays_of(items@.take(i as int), key@),
        decreases i,
    {
        proof {
            assert(items@.take(i as int).drop_last() =~= items@.take(i - 1));
        }
        if same(items[i - 1].bucket.as_str(), key) {
            return items[i - 1].plays;
        }
        i -= 1;
    }
    0
}

/// The range that two timestamps span, where both are and the first is before
/// the second.
pub open spec fn spans(from: Seq<char>, to: Seq<char>) -> bool {
    is_timestamp(from) && is_timestamp(to) && timestamp_value(from) < timestamp_value(to)
}

/// The keys of a chart's bars: those of the calendar over the range, the end
/// excluded; the server's own, in order, where there is no range.
pub open spec fn are_keys(keys: Seq<Seq<char>>, series: StatsTimeseries, from: Seq<char>, to: Seq<char>, zone: Option<Zone>) -> bool {
    if spans(from, to) {
        keys == calendar_keys(
            bucket_named(series.bucket@),
            local_day(zone, timestamp_value(from)),
            local_day(zone, timestamp_value(to) - 1),
        )
    } else {
        in_order(keys) && keys.to_multiset() == item_keys(series.items@).to_multiset()
    }
}

/// A timestamp is not far from 1970.
proof fn stamps_are_near(s: Seq<char>)
    requires
        is_timestamp(s),
    ensures
        -100_000_000_000 <= timestamp_value(s) <= 400_000_000_000,
{
}

/// The bars of a chart over a range: one per day, week or month of it, zero
/// where the server sent nothing.
pub fn calendar_series(series: &StatsTimeseries, from: &str, to: &str, zone: &Option<Zone>) -> (r: (Vec<String>, Vec<u64>, Bucket))
    ensures
        r.2 == bucket_named(series.bucket@),
        are_keys(texts(r.0@), *series, from@, to@, *zone),
        r.1@ == Seq::new(r.0@.len(), |i: int| plays_of(series.items@, r.0@[i]@)),
{
    let bucket = if same(series.bucket.as_str(), "week") {
        Bucket::Week
    } else if same(series.bucket.as_str(), "month") {
        Bucket::Month
    } else {
        Bucket::Day
    };
    let mut span: Option<(i64, i64)> = None;
    if let (Some(a), Some(b)) = (iso_unix(from), iso_unix(to)) {
        if a < b {
            span = Some((a, b));
        }
    }
    let keys = match span {
        Some((a, b)) => {
            proof {
                stamps_are_near(from@);
                stamps_are_near(to@);
            }
            keys_between(bucket, day_at(zone, a), day_at(zone, b - 1))
        },
        None => sorted_keys(&series.items),
    };
    let mut values: Vec<u64> = Vec::new();
    let mut i: usize = 0;
    while i < keys.len()
        invariant
            i <= keys@.len(),
            values@ == Seq::new(i as nat, |k: int| plays_of(series.items@, keys@[k]@)),
        decreases keys@.len() - i,
    {
        values.push(plays_at(&series.items, keys[i].as_str()));
        i += 1;
        proof {
            assert(values@ =~= Seq::new(i as nat, |k: int| plays_of(series.items@, keys@[k]@)));
        }
    }
    (keys, values, bucket)
}

/// The plays of an hour: those of the last item that names it, or none.
pub open spec fn hour_plays(items: Seq<TimeBucket>, h: int) -> u64
    decreases items.len(),
{
    if items.len() == 0 {
        0
    } else if number_upto(items.last().bucket@, 23) == Some(h as nat) {
        items.last().plays
    } else {
        hour_plays(items.drop_last(), h)
    }
}

/// The plays of each of the twenty-four hours.
pub fn hour_series(hours: &StatsTimeseries) -> (out: Vec<u64>)
    ensures
        out@ == Seq::new(24, |h: int| hour_plays(hours.items@, h)),
{
    let items = &hours.items;
    let mut out: Vec<u64> = Vec::new();
    let mut h: usize = 0;
    while h < 24
        invariant
            h <= 24,
            out@ == Seq::new(h as nat, |k: int| 0u64),
        decreases 24 - h,
    {
        out.push(0);
        h += 1;
        proof {
            assert(out@ =~= Seq::new(h as nat, |k: int| 0u64));
        }
    }
    let mut i: usize = 0;
    proof {
        assert(items@.take(0) =~= Seq::<TimeBucket>::empty());
        assert(out@ =~= Seq::new(24, |k: int| hour_plays(items@.take(0), k)));
    }
    while i < items.len()
        invariant
            i <= items@.len(),
            out@ == Seq::new(24, |k: int| hour_plays(items@.take(i as int), k)),
        decreases items@.len() - i,
    {
        proof {
            assert(items@.take(i + 1).drop_last() =~= items@.take(i as int));
        }
        if let Some(at) = read_number(items[i].bucket.as_str(), 23) {
            out.set(at as usize, items[i].plays);
        }
        i += 1;
        proof {
            assert(out@ =~= Seq::new(24, |k: int| hour_plays(items@.take(i as int), k)));
        }
    }
    proof {
        assert(items@.take(i as int) =~= items@);
    }
    out
}

// ── Labels under the bars ────────────────────────────────────────────────

/// The places below `n` that are marked, in order.
pub open spec fn marked(n: nat, mark: spec_fn(int) -> bool) -> Seq<int>
    decreases n,
{
    if n == 0 {
        Seq::empty()
    } else if mark(n - 1) {
        marked((n - 1) as nat, mark).push(n - 1)
    } else {
        marked((n - 1) as nat, mark)
    }
}

/// The number without a minus sign that a stretch of a key is.
pub open spec fn natural_in(key: Seq<char>, from: int, to: int) -> Option<int> {
    let b = encode_utf8(key);
    if to <= b.len() && from < to && b[from] == 45 {
        None
    } else {
        number_in(b, from, to)
    }
}

fn natural_at(key: &str, from: usize, to: usize) -> (r: Option<i64>)
    requires
        from < to,
        to - from <= 4,
    ensures
        match natural_in(key@, from as int, to as int) {
            Some(n) => r == Some(n as i64) && 0 <= n <= 9999,
            None => r is None,
        },
{
    let n = number_at(key, from, to);
    let bytes = key.as_bytes();
    if to <= bytes.len() && bytes[from] == 45 {
        return None;
    }
    proof {
        let b = encode_utf8(key@).subrange(from as int, to as int);
        if to <= encode_utf8(key@).len() {
            assert(b[0] == encode_utf8(key@)[from as int]);
            digits_are_natural(b);
            digits_are_natural(b.skip(1));
        }
    }
    n
}

proof fn digits_are_natural(b: Seq<u8>)
    ensures
        all_digits(b) ==> digits_of(b) >= 0,
    decreases b.len(),
{
    if all_digits(b) {
        if b.len() > 1 {
            assert forall|i: int| 0 <= i < b.drop_last().len() implies 48 <= #[trigger] b.drop_last()[i] <= 57 by {
                assert(b[i] == b.drop_last()[i]);
            }
            digits_are_natural(b.drop_last());
        } else {
            assert(b.drop_last() =~= Seq::<u8>::empty());
        }
        assert(48 <= b[b.len() - 1] <= 57);
    }
}

/// The day of the month that a key ends in, zero where it has none.
pub open spec fn day_in(key: Seq<char>) -> int {
    match natural_in(key, 8, 10) {
        Some(d) => d,
        None => 0,
    }
}

/// How many columns the bars take when `fold` of them share one.
pub open spec fn columns(n: int, fold: int) -> int {
    (n + fold - 1) / fold
}

/// The days that are wanted under the columns: the first, every fifth of the
/// month, the last; past forty columns the first of every seventh column in
/// place of the fifths.
pub open spec fn day_wanted(keys: Seq<String>, fold: int, i: int) -> bool {
    let n = keys.len();
    i == 0 || i == n - 1 || (if columns(n as int, fold) > 40 {
        i % fold == 0 && (i / fold) % 7 == 0
    } else {
        day_in(keys[i]@) % 5 == 0
    })
}

/// The days that label a column: the first of its wanted ones.
pub open spec fn day_marked(keys: Seq<String>, fold: int, i: int) -> bool {
    &&& day_wanted(keys, fold, i)
    &&& forall|j: int| i - i % fold <= j < i ==> !#[trigger] day_wanted(keys, fold, j)
}

/// The labels of the day columns.
pub fn day_axis(keys: &Vec<String>, fold: usize) -> (out: Vec<(usize, String)>)
    requires
        fold > 0,
    ensures
        ({
            let at = marked(keys@.len(), |i: int| day_marked(keys@, fold as int, i));
            &&& out@.len() == at.len()
            &&& forall|k: int| 0 <= k < at.len() ==> (#[trigger] out@[k]).0 == at[k] / fold as int && out@[k].1@ == dec(
                day_in(keys@[at[k]]@) as nat,
            )
        }),
{
    let n: usize = keys.len();
    proof {
        ceil_div(n as int, fold as int);
    }
    let many = n / fold + (if n % fold > 0 { 1usize } else { 0usize }) > 40;
    let ghost mark = |i: int| day_marked(keys@, fold as int, i);
    let mut out: Vec<(usize, String)> = Vec::new();
    let mut column: usize = 0;
    let mut within: usize = 0;
    let mut labelled = false;
    let mut i: usize = 0;
    proof {
        vstd::arithmetic::div_mod::lemma_fundamental_div_mod_converse(0, fold as int, 0, 0);
    }
    while i < n
        invariant
            n == keys@.len(),
            i <= n,
            fold > 0,
            many == (columns(n as int, fold as int) > 40),
            within == i as int % fold as int,
            column == i as int / fold as int,
            labelled == exists|j: int| i - within <= j < i && #[trigger] day_wanted(keys@, fold as int, j),
            mark == (|i: int| day_marked(keys@, fold as int, i)),
            out@.len() == marked(i as nat, mark).len(),
            forall|k: int| 0 <= k < out@.len() ==> (#[trigger] out@[k]).0 == marked(i as nat, mark)[k] / fold as int
                && out@[k].1@ == dec(day_in(keys@[marked(i as nat, mark)[k]]@) as nat),
        decreases n - i,
    {
        let day: i64 = match natural_at(keys[i].as_str(), 8, 10) {
            Some(d) => d,
            None => 0,
        };
        let wanted = i == 0 || i == n - 1 || (if many { within == 0 && column % 7 == 0 } else { day % 5 == 0 });
        proof {
            assert(wanted == day_wanted(keys@, fold as int, i as int));
            assert(mark(i as int) == (wanted && !labelled));
            next_in_fold(i as int, fold as int);
        }
        if wanted && !labelled {
            out.push((column, decimal(day as u64)));
        }
        if within + 1 == fold {
            within = 0;
            column += 1;
            labelled = false;
        } else {
            within += 1;
            labelled = labelled || wanted;
        }
        i += 1;
    }
    out
}

/// The bar behind another is in the same column, or the first of the next.
proof fn next_in_fold(i: int, fold: int)
    requires
        fold > 0,
        i >= 0,
    ensures
        0 <= i % fold < fold,
        0 <= i / fold <= i,
        i % fold + 1 == fold ==> (i + 1) % fold == 0 && (i + 1) / fold == i / fold + 1,
        i % fold + 1 < fold ==> (i + 1) % fold == i % fold + 1 && (i + 1) / fold == i / fold,
{
    let q = i / fold;
    let r = i % fold;
    vstd::arithmetic::div_mod::lemma_fundamental_div_mod(i, fold);
    assert(0 <= q <= i) by (nonlinear_arith)
        requires
            i == fold * q + r,
            0 <= r < fold,
            i >= 0,
    ;
    if r + 1 == fold {
        assert(i + 1 == (q + 1) * fold + 0) by (nonlinear_arith)
            requires
                i == fold * q + r,
                r + 1 == fold,
        ;
        vstd::arithmetic::div_mod::lemma_fundamental_div_mod_converse(i + 1, fold, q + 1, 0);
    } else {
        assert(i + 1 == q * fold + (r + 1)) by (nonlinear_arith)
            requires
                i == fold * q + r,
        ;
        vstd::arithmetic::div_mod::lemma_fundamental_div_mod_converse(i + 1, fold, q, r + 1);
    }
}

/// Which of the week bars get a label: every fourth, where its key has a month
/// and a day.
pub open spec fn week_marked(keys: Seq<String>, fold: int, i: int) -> bool {
    i % fold == 0 && (i / fold) % 4 == 0 && natural_in(keys[i]@, 5, 7) is Some && natural_in(keys[i]@, 8, 10) is Some
}

/// A week's label: its Monday's day and month.
pub open spec fn is_week_label(msg: Msg, key: Seq<char>) -> bool {
    let m = natural_in(key, 5, 7)->0;
    let d = natural_in(key, 8, 10)->0;
    msg matches Msg::Both(day, month) && (*day matches Msg::Raw(s) && s@ == dec(d as nat).push(' ')) && *month == Msg::Listed(
        "sta.months_short",
        month_place(m as u32),
    )
}

/// The labels of the week bars.
pub fn week_axis(keys: &Vec<String>, fold: usize) -> (out: Vec<(usize, Msg)>)
    requires
        fold > 0,
    ensures
        ({
            let at = marked(keys@.len(), |i: int| week_marked(keys@, fold as int, i));
            &&& out@.len() == at.len()
            &&& forall|k: int| 0 <= k < at.len() ==> (#[trigger] out@[k]).0 == at[k] / fold as int && is_week_label(
                out@[k].1,
                keys@[at[k]]@,
            )
        }),
{
    let n: usize = keys.len();
    let ghost mark = |i: int| week_marked(keys@, fold as int, i);
    let mut out: Vec<(usize, Msg)> = Vec::new();
    let mut i: usize = 0;
    while i < n
        invariant
            n == keys@.len(),
            i <= n,
            fold > 0,
            mark == (|i: int| week_marked(keys@, fold as int, i)),
            out@.len() == marked(i as nat, mark).len(),
            forall|k: int| 0 <= k < out@.len() ==> (#[trigger] out@[k]).0 == marked(i as nat, mark)[k] / fold as int
                && is_week_label(out@[k].1, keys@[marked(i as nat, mark)[k]]@),
        decreases n - i,
    {
        if i % fold == 0 && (i / fold) % 4 == 0 {
            if let (Some(m), Some(d)) = (natural_at(keys[i].as_str(), 5, 7), natural_at(keys[i].as_str(), 8, 10)) {
                let mut day: String = decimal(d as u64);
                day.push(' ');
                let place: u32 = if m == 0 { 0 } else { (m - 1) as u32 };
                let label = Msg::Both(Box::new(Msg::Raw(day)), Box::new(Msg::Listed("sta.months_short", place)));
                out.push((i / fold, label));
            }
        }
        i += 1;
    }
    out
}

/// The first four bytes of a key, where they are whole characters.
pub open spec fn is_year_in(text: Seq<char>, key: Seq<char>) -> bool {
    let b = encode_utf8(key);
    if b.len() >= 4 && is_char_boundary(b, 4) {
        encode_utf8(text) == b.subrange(0, 4)
    } else {
        text.len() == 0
    }
}

fn year_in(key: &str) -> (out: String)
    ensures
        is_year_in(out@, key@),
{
    if key.as_bytes().len() >= 4 && key.is_char_boundary(4) {
        let (a, _) = key.split_at(4);
        a.to_owned()
    } else {
        String::new()
    }
}

/// Which of the month bars get a label: every one up to fourteen, then every
/// third, where its key has a month.
pub open spec fn month_marked(keys: Seq<String>, fold: int, i: int) -> bool {
    let step: int = if keys.len() > 14 { 3 } else { 1 };
    i % fold == 0 && (i / fold) % step == 0 && natural_in(keys[i]@, 5, 7) is Some
}

/// A month's label: its name, with the year in January.
pub open spec fn is_month_label(msg: Msg, key: Seq<char>) -> bool {
    let m = natural_in(key, 5, 7)->0;
    let name = Msg::Listed("sta.months_short", month_place(m as u32));
    if m == 1 {
        msg matches Msg::Both(n, year) && *n == name && (*year matches Msg::Raw(s) && s@.len() > 0 && s@[0] == ' '
            && is_year_in(s@.skip(1), key))
    } else {
        msg == name
    }
}

/// The labels of the month bars.
pub fn month_axis(keys: &Vec<String>, fold: usize) -> (out: Vec<(usize, Msg)>)
    requires
        fold > 0,
    ensures
        ({
            let at = marked(keys@.len(), |i: int| month_marked(keys@, fold as int, i));
            &&& out@.len() == at.len()
            &&& forall|k: int| 0 <= k < at.len() ==> (#[trigger] out@[k]).0 == at[k] / fold as int && is_month_label(
                out@[k].1,
                keys@[at[k]]@,
            )
        }),
{
    let n: usize = keys.len();
    let step: usize = if n > 14 { 3 } else { 1 };
    let ghost mark = |i: int| month_marked(keys@, fold as int, i);
    let mut out: Vec<(usize, Msg)> = Vec::new();
    let mut i: usize = 0;
    while i < n
        invariant
            n == keys@.len(),
            step == (if keys@.len() > 14 { 3usize } else { 1usize }),
            i <= n,
            fold > 0,
            mark == (|i: int| month_marked(keys@, fold as int, i)),
            out@.len() == marked(i as nat, mark).len(),
            forall|k: int| 0 <= k < out@.len() ==> (#[trigger] out@[k]).0 == marked(i as nat, mark)[k] / fold as int
                && is_month_label(out@[k].1, keys@[marked(i as nat, mark)[k]]@),
        decreases n - i,
    {
        if i % fold == 0 && (i / fold) % step == 0 {
            if let Some(m) = natural_at(keys[i].as_str(), 5, 7) {
                let place: u32 = if m == 0 { 0 } else { (m - 1) as u32 };
                let name = Msg::Listed("sta.months_short", place);
                let label = if m == 1 {
                    let year = year_in(keys[i].as_str());
                    let mut tail: String = String::new();
                    tail.push(' ');
                    tail.append(year.as_str());
                    proof {
                        assert(tail@.skip(1) =~= year@);
                    }
                    Msg::Both(Box::new(name), Box::new(Msg::Raw(tail)))
                } else {
                    name
                };
                out.push((i / fold, label));
            }
        }
        i += 1;
    }
    out
}

// ── Bars on the screen ───────────────────────────────────────────────────

/// How many bars share a column so that all fit the width.
pub open spec fn fold_for(n: int, width: int) -> int {
    let w = if width < 1 { 1 } else { width };
    let f = (n + w - 1) / w;
    if f < 1 { 1 } else { f }
}

/// How many bars share a column so that all fit the width.
pub fn fold_of(n: usize, width: usize) -> (fold: usize)
    ensures
        fold == fold_for(n as int, width as int),
        fold > 0,
{
    let w: usize = if width < 1 { 1 } else { width };
    proof {
        ceil_div(n as int, w as int);
    }
    let f: usize = n / w + (if n % w > 0 { 1 } else { 0 });
    if f < 1 { 1 } else { f }
}

proof fn ceil_div(n: int, w: int)
    requires
        n >= 0,
        w > 0,
    ensures
        (n + w - 1) / w == n / w + (if n % w > 0 { 1int } else { 0int }),
        n / w + (if n % w > 0 { 1int } else { 0int }) <= n,
{
    let q = n / w;
    let r = n % w;
    vstd::arithmetic::div_mod::lemma_fundamental_div_mod(n, w);
    if r > 0 {
        assert(n + w - 1 == (q + 1) * w + (r - 1)) by (nonlinear_arith)
            requires
                n == w * q + r,
        ;
        vstd::arithmetic::div_mod::lemma_fundamental_div_mod_converse(n + w - 1, w, q + 1, r - 1);
    } else {
        assert(n + w - 1 == q * w + (w - 1)) by (nonlinear_arith)
            requires
                n == w * q + r,
                r == 0,
        ;
        vstd::arithmetic::div_mod::lemma_fundamental_div_mod_converse(n + w - 1, w, q, w - 1);
    }
    assert(n / w + (if n % w > 0 { 1int } else { 0int }) <= n) by (nonlinear_arith)
        requires
            n == w * q + r,
            q == n / w,
            r == n % w,
            0 <= r < w,
            n >= 0,
    ;
}

/// The sum of values.
pub open spec fn total(values: Seq<u64>) -> int
    decreases values.len(),
{
    if values.len() == 0 {
        0
    } else {
        total(values.drop_last()) + values.last()
    }
}

/// The sums of each run of `fold` values, the last run as long as it is.
pub open spec fn folded(values: Seq<u64>, fold: int) -> Seq<int> {
    Seq::new(
        ((values.len() + fold - 1) / fold) as nat,
        |i: int| total(values.subrange(i * fold, if (i + 1) * fold < values.len() { (i + 1) * fold } else { values.len() as int })),
    )
}

proof fn part_of_total(values: Seq<u64>, from: int, to: int)
    requires
        0 <= from <= to <= values.len(),
    ensures
        0 <= total(values.subrange(from, to)) <= total(values),
    decreases values.len(),
{
    if to < values.len() {
        part_of_total(values.drop_last(), from, to);
        assert(values.drop_last().subrange(from, to) =~= values.subrange(from, to));
    } else if from < to {
        part_of_total(values.drop_last(), from, to - 1);
        assert(values.subrange(from, to).drop_last() =~= values.drop_last().subrange(from, to - 1));
    } else {
        assert(values.subrange(from, to) =~= Seq::<u64>::empty());
        total_is_natural(values);
    }
}

proof fn total_is_natural(values: Seq<u64>)
    ensures
        total(values) >= 0,
    decreases values.len(),
{
    if values.len() > 0 {
        total_is_natural(values.drop_last());
    }
}

/// The sum of a run of values.
fn run_total(values: &Vec<u64>, from: usize, to: usize) -> (sum: u64)
    requires
        from <= to <= values@.len(),
        total(values@) <= u64::MAX,
    ensures
        sum == total(values@.subrange(from as int, to as int)),
{
    let ghost run = values@.subrange(from as int, to as int);
    let mut sum: u64 = 0;
    let mut i: usize = from;
    proof {
        assert(run.take(0) =~= Seq::<u64>::empty());
    }
    while i < to
        invariant
            from <= i <= to <= values@.len(),
            total(values@) <= u64::MAX,
            run == values@.subrange(from as int, to as int),
            sum == total(run.take(i - from)),
        decreases to - i,
    {
        proof {
            assert(run.take(i + 1 - from).drop_last() =~= run.take(i - from));
            part_of_total(values@, from as int, i + 1);
            assert(values@.subrange(from as int, i + 1) =~= run.take(i + 1 - from));
        }
        sum += values[i];
        i += 1;
    }
    proof {
        assert(run.take(i - from) =~= run);
    }
    sum
}

/// Whether the values can be added up.
pub fn adds_up(values: &Vec<u64>) -> (r: bool)
    ensures
        r == (total(values@) <= u64::MAX),
{
    let mut sum: u64 = 0;
    let mut i: usize = 0;
    proof {
        assert(values@.take(0) =~= Seq::<u64>::empty());
    }
    while i < values.len()
        invariant
            i <= values@.len(),
            sum == total(values@.take(i as int)),
        decreases values@.len() - i,
    {
        proof {
            assert(values@.take(i + 1).drop_last() =~= values@.take(i as int));
            part_of_total(values@, 0, i + 1);
            assert(values@.subrange(0, i + 1) =~= values@.take(i + 1));
        }
        match sum.checked_add(values[i]) {
            Some(s) => {
                sum = s;
            },
            None => {
                return false;
            },
        }
        i += 1;
    }
    proof {
        assert(values@.take(i as int) =~= values@);
    }
    true
}

/// The values of the columns, when some bars share one.
pub fn fold_values(values: &Vec<u64>, fold: usize) -> (out: Vec<u64>)
    requires
        fold > 0,
        total(values@) <= u64::MAX,
    ensures
        out@.len() == folded(values@, fold as int).len(),
        forall|i: int| 0 <= i < out@.len() ==> #[trigger] out@[i] == folded(values@, fold as int)[i],
{
    let n: usize = values.len();
    let mut out: Vec<u64> = Vec::new();
    let mut at: usize = 0;
    proof {
        assert(0 * fold == 0) by (nonlinear_arith);
    }
    while at < n
        invariant
            n == values@.len(),
            fold > 0,
            total(values@) <= u64::MAX,
            at == (if out@.len() * fold < n { out@.len() * fold } else { n as int }),
            forall|i: int| 0 <= i < out@.len() ==> (#[trigger] out@[i]) == total(
                values@.subrange(i * fold, if (i + 1) * fold < n { (i + 1) * fold } else { n as int }),
            ),
            out@.len() > 0 ==> (out@.len() - 1) * fold < n,
        decreases n - at,
    {
        let ghost k = out@.len() as int;
        let to: usize = if fold < n - at { at + fold } else { n };
        proof {
            assert((k + 1) * fold == k * fold + fold) by (nonlinear_arith);
        }
        out.push(run_total(values, at, to));
        at = to;
    }
    proof {
        let k = out@.len() as int;
        let f = fold as int;
        if k == 0 {
            assert((n + f - 1) / f == 0) by (nonlinear_arith)
                requires
                    n == 0,
                    f > 0,
            ;
        } else {
            assert((n + f - 1) / f == k) by (nonlinear_arith)
                requires
                    f > 0,
                    (k - 1) * f < n,
                    n <= k * f,
            ;
        }
    }
    out
}

/// The height of a column in eighths of a row, scaled to the tallest: measured
/// in doubles, to the nearest eighth, halves up.
pub open spec fn eighths(v: int, tallest: int, rows: int) -> int {
    parts(v as nat, tallest as nat, (8 * rows) as nat) as int
}

/// How much of a row's cell a column fills, in eighths; row 0 is the top.
pub open spec fn level(v: int, tallest: int, rows: int, row: int) -> int {
    let e = eighths(v, tallest, rows) - (rows - 1 - row) * 8;
    if e < 0 {
        0
    } else if e > 8 {
        8
    } else {
        e
    }
}

/// The tallest of the columns, at least one.
pub open spec fn tallest(values: Seq<u64>) -> u64
    decreases values.len(),
{
    if values.len() == 0 {
        1
    } else if values.last() > tallest(values.drop_last()) {
        values.last()
    } else {
        tallest(values.drop_last())
    }
}

/// The tallest of the columns, at least one.
pub fn tallest_of(values: &Vec<u64>) -> (max: u64)
    ensures
        max == tallest(values@),
        max > 0,
        forall|i: int| 0 <= i < values@.len() ==> #[trigger] values@[i] <= max,
{
    let mut max: u64 = 1;
    let mut i: usize = 0;
    proof {
        assert(values@.take(0) =~= Seq::<u64>::empty());
    }
    while i < values.len()
        invariant
            i <= values@.len(),
            max == tallest(values@.take(i as int)),
            max > 0,
            forall|k: int| 0 <= k < i ==> #[trigger] values@[k] <= max,
        decreases values@.len() - i,
    {
        proof {
            assert(values@.take(i + 1).drop_last() =~= values@.take(i as int));
        }
        if values[i] > max {
            max = values[i];
        }
        i += 1;
    }
    proof {
        assert(values@.take(i as int) =~= values@);
    }
    max
}

/// How much of a row's cell a column fills, in eighths; row 0 is the top.
pub fn column_level(v: u64, max: u64, rows: u16, row: u16) -> (eighth: usize)
    requires
        max > 0,
        v <= max,
        row < rows,
    ensures
        eighth == level(v as int, max as int, rows as int, row as int),
        eighth <= 8,
{
    let e: u128 = parts_of(v, max, 8 * rows as u32);
    let below: u128 = (rows as u128 - 1 - row as u128) * 8;
    if e <= below {
        0
    } else if e - below > 8 {
        8
    } else {
        (e - below) as usize
    }
}

/// The tallest column reaches the top of the chart, and an empty one shows
/// nothing.
pub proof fn columns_are_scaled(max: int, rows: int, row: int)
    requires
        0 < max <= u64::MAX,
        0 <= row < rows <= u16::MAX,
    ensures
        level(max, max, rows, row) == 8,
        level(0, max, rows, row) == 0,
{
    the_whole_is_every_part(max as nat, (8 * rows) as nat);
}

/// A taller column fills no less of any row.
pub proof fn taller_columns_fill_more(a: int, b: int, max: int, rows: int, row: int)
    requires
        0 <= a <= b <= max <= u64::MAX,
        0 <= row < rows <= u16::MAX,
    ensures
        level(a, max, rows, row) <= level(b, max, rows, row),
{
    parts_grow(a as nat, b as nat, max as nat, (8 * rows) as nat);
}

/// The width of a column and its gap: one to three cells.
pub open spec fn cell_width(n: int, width: int) -> int {
    let w = width / (if n < 1 { 1 } else { n });
    if w < 1 {
        1
    } else if w > 3 {
        3
    } else {
        w
    }
}

/// The width of a column and its gap.
pub fn cell_width_of(n: usize, width: usize) -> (w: u16)
    ensures
        w == cell_width(n as int, width as int),
{
    let w: usize = width / (if n < 1 { 1 } else { n });
    if w < 1 {
        1
    } else if w > 3 {
        3
    } else {
        w as u16
    }
}

/// Where the labels under a chart go: each at its column, left out where it
/// would touch the one before or run past the edge. The places are from the
/// left edge.
pub open spec fn label_places(labels: Seq<(usize, usize)>, cell: int, width: int) -> (Seq<Option<int>>, int)
    decreases labels.len(),
{
    if labels.len() == 0 {
        (Seq::empty(), 0)
    } else {
        let (before, end) = label_places(labels.drop_last(), cell, width);
        let x = labels.last().0 * cell;
        let w = labels.last().1;
        if x < end || x + w > width {
            (before.push(None), end)
        } else {
            (before.push(Some(x)), x + w + 1)
        }
    }
}

/// Where the labels under a chart go. A label is its column and its width.
pub fn place_labels(labels: &Vec<(usize, usize)>, cell: u16, width: u16) -> (out: Vec<Option<u16>>)
    ensures
        out@.len() == labels@.len(),
        forall|i: int| 0 <= i < out@.len() ==> match label_places(labels@, cell as int, width as int).0[i] {
            Some(x) => #[trigger] out@[i] == Some(x as u16) && 0 <= x <= width,
            None => out@[i] is None,
        },
{
    let mut out: Vec<Option<u16>> = Vec::new();
    let mut end: u128 = 0;
    let mut i: usize = 0;
    proof {
        assert(labels@.take(0) =~= Seq::<(usize, usize)>::empty());
    }
    while i < labels.len()
        invariant
            i <= labels@.len(),
            out@.len() == i,
            label_places(labels@.take(i as int), cell as int, width as int).0.len() == i,
            end == label_places(labels@.take(i as int), cell as int, width as int).1,
            end <= 65536,
            forall|k: int| 0 <= k < i ==> match label_places(labels@.take(i as int), cell as int, width as int).0[k] {
                Some(x) => #[trigger] out@[k] == Some(x as u16) && 0 <= x <= width,
                None => out@[k] is None,
            },
        decreases labels@.len() - i,
    {
        let ghost was = label_places(labels@.take(i as int), cell as int, width as int).0;
        proof {
            assert(labels@.take(i + 1).drop_last() =~= labels@.take(i as int));
            assert(labels@.take(i + 1).last() == labels@[i as int]);
            assert(labels@[i as int].0 * cell <= 0xffff_ffff_ffff_ffff * 65535) by (nonlinear_arith)
                requires
                    labels@[i as int].0 <= 0xffff_ffff_ffff_ffff,
                    cell <= 65535,
            ;
        }
        let x: u128 = labels[i].0 as u128 * cell as u128;
        let w: u128 = labels[i].1 as u128;
        if x < end || x + w > width as u128 {
            out.push(None);
        } else {
            out.push(Some(x as u16));
            end = x + w + 1;
        }
        i += 1;
    }
    proof {
        assert(labels@.take(i as int) =~= labels@);
    }
    out
}

// ── Laws ─────────────────────────────────────────────────────────────────

/// A week starts on its Monday, and holds the day.
pub proof fn weeks_start_on_monday(day: int)
    ensures
        weekday_of(monday(day)) == 1,
        monday(day) <= day < monday(day) + 7,
{
}

/// A chart of days has a bar for every day from the first through the last.
pub proof fn every_day_has_a_bar(first: int, last: int, day: int)
    requires
        first <= day <= last,
    ensures
        calendar_keys(Bucket::Day, first, last).len() == last - first + 1,
        calendar_keys(Bucket::Day, first, last)[day - first] == day_key(day),
{
}

/// A chart of weeks has a bar for the week of every day from the first through
/// the last.
pub proof fn every_week_has_a_bar(first: int, last: int, day: int)
    requires
        first <= day <= last,
    ensures
        ({
            let i = (monday(day) - monday(first)) / 7;
            &&& 0 <= i < calendar_keys(Bucket::Week, first, last).len()
            &&& calendar_keys(Bucket::Week, first, last)[i] == day_key(monday(day))
        }),
{
}

/// A chart of months has a bar for the month of every day from the first
/// through the last.
pub proof fn every_month_has_a_bar(first: int, last: int, day: int)
    requires
        first <= day <= last,
    ensures
        ({
            let i = month_of(day) - month_of(first);
            &&& 0 <= i < calendar_keys(Bucket::Month, first, last).len()
            &&& calendar_keys(Bucket::Month, first, last)[i] == month_key(month_of(day))
        }),
{
    let (y1, m1, d1) = date_of(first);
    let (y, m, d) = date_of(day);
    let (y2, m2, d2) = date_of(last);
    day_has_a_date(first);
    day_has_a_date(day);
    day_has_a_date(last);
    months_follow_days(y1, m1, d1, y, m, d);
    months_follow_days(y, m, d, y2, m2, d2);
}

/// The first and the last day of a chart are wanted.
pub proof fn the_ends_are_wanted(keys: Seq<String>, fold: int)
    requires
        keys.len() > 0,
    ensures
        day_wanted(keys, fold, 0),
        day_wanted(keys, fold, keys.len() - 1),
{
}

/// The column of a wanted day has a label.
pub proof fn wanted_columns_are_labelled(keys: Seq<String>, fold: int, i: int)
    requires
        fold > 0,
        0 <= i < keys.len(),
        day_wanted(keys, fold, i),
    ensures
        exists|j: int| 0 <= j <= i && j / fold == i / fold && #[trigger] day_marked(keys, fold, j),
    decreases i,
{
    if day_marked(keys, fold, i) {
    } else {
        let j = choose|j: int| i - i % fold <= j < i && #[trigger] day_wanted(keys, fold, j);
        same_column(i, j, fold);
        wanted_columns_are_labelled(keys, fold, j);
    }
}

/// No column has two labels.
pub proof fn columns_are_labelled_once(keys: Seq<String>, fold: int, i: int, j: int)
    requires
        fold > 0,
        0 <= i <= j < keys.len(),
        i / fold == j / fold,
        day_marked(keys, fold, i),
        day_marked(keys, fold, j),
    ensures
        i == j,
{
    vstd::arithmetic::div_mod::lemma_fundamental_div_mod(i, fold);
    vstd::arithmetic::div_mod::lemma_fundamental_div_mod(j, fold);
    assert(j - j % fold <= i);
}

proof fn same_column(i: int, j: int, fold: int)
    requires
        fold > 0,
        0 <= i,
        i - i % fold <= j < i,
    ensures
        0 <= j,
        j / fold == i / fold,
{
    let q = i / fold;
    vstd::arithmetic::div_mod::lemma_fundamental_div_mod(i, fold);
    assert(0 <= q * fold && q * fold == fold * q) by (nonlinear_arith)
        requires
            i == fold * q + i % fold,
            0 <= i % fold < fold,
            i >= 0,
    ;
    vstd::arithmetic::div_mod::lemma_fundamental_div_mod_converse(j, fold, q, j - q * fold);
}

/// A bar of a chart that the server counted nothing for is zero.
pub proof fn unlisted_bars_are_zero(items: Seq<TimeBucket>, key: Seq<char>)
    requires
        forall|i: int| 0 <= i < items.len() ==> (#[trigger] items[i]).bucket@ != key,
    ensures
        plays_of(items, key) == 0,
    decreases items.len(),
{
    if items.len() > 0 {
        assert(items[items.len() - 1].bucket@ != key);
        assert forall|i: int| 0 <= i < items.drop_last().len() implies (#[trigger] items.drop_last()[i]).bucket@ != key by {
            assert(items[i].bucket@ != key);
        }
        unlisted_bars_are_zero(items.drop_last(), key);
    }
}

/// The sum of whole numbers.
pub open spec fn sum_of(values: Seq<int>) -> int
    decreases values.len(),
{
    if values.len() == 0 {
        0
    } else {
        sum_of(values.drop_last()) + values.last()
    }
}

/// Folding bars into columns loses no play.
pub proof fn folding_keeps_the_total(values: Seq<u64>, fold: int)
    requires
        fold > 0,
    ensures
        sum_of(folded(values, fold)) == total(values),
{
    let n = values.len() as int;
    let k = (n + fold - 1) / fold;
    assert(k * fold >= n && k >= 0 && (k > 0 ==> (k - 1) * fold < n)) by (nonlinear_arith)
        requires
            fold > 0,
            n >= 0,
            k == (n + fold - 1) / fold,
    ;
    runs_add_up(values, fold, k);
    assert(folded(values, fold).take(k) =~= folded(values, fold));
    assert(values.take(if k * fold < n { k * fold } else { n }) =~= values);
}

proof fn runs_add_up(values: Seq<u64>, fold: int, k: int)
    requires
        fold > 0,
        0 <= k <= folded(values, fold).len(),
    ensures
        sum_of(folded(values, fold).take(k)) == total(
            values.take(if k * fold < values.len() { k * fold } else { values.len() as int }),
        ),
    decreases k,
{
    let n = values.len() as int;
    let all = folded(values, fold);
    if k == 0 {
        assert(0 * fold == 0) by (nonlinear_arith);
        assert(values.take(0) =~= Seq::<u64>::empty());
        assert(all.take(0) =~= Seq::<int>::empty());
    } else {
        runs_add_up(values, fold, k - 1);
        assert(all.take(k).drop_last() =~= all.take(k - 1));
        let m = (n + fold - 1) / fold;
        let from = (k - 1) * fold;
        assert(0 <= from < n) by (nonlinear_arith)
            requires
                fold > 0,
                1 <= k <= m,
                m == (n + fold - 1) / fold,
                from == (k - 1) * fold,
        ;
        assert(k * fold == from + fold) by (nonlinear_arith)
            requires
                from == (k - 1) * fold,
        ;
        let to = if k * fold < n { k * fold } else { n };
        split_total(values.take(to), from);
        assert(values.take(to).take(from) =~= values.take(from));
        assert(values.take(to).skip(from) =~= values.subrange(from, to));
        assert(all[k - 1] == total(values.subrange(from, to)));
    }
}

proof fn split_total(values: Seq<u64>, at: int)
    requires
        0 <= at <= values.len(),
    ensures
        total(values) == total(values.take(at)) + total(values.skip(at)),
    decreases values.len(),
{
    if at == values.len() {
        assert(values.take(at) =~= values);
        assert(values.skip(at) =~= Seq::<u64>::empty());
    } else {
        split_total(values.drop_last(), at);
        assert(values.drop_last().take(at) =~= values.take(at));
        assert(values.skip(at).drop_last() =~= values.drop_last().skip(at));
    }
}

/// The labels under a chart stay inside it and never touch.
pub proof fn labels_never_touch(labels: Seq<(usize, usize)>, cell: int, width: int, i: int, j: int)
    requires
        0 <= i < j < labels.len(),
        cell >= 0,
        label_places(labels, cell, width).0[i] is Some,
        label_places(labels, cell, width).0[j] is Some,
    ensures
        label_places(labels, cell, width).0[i]->0 + labels[i].1 < label_places(labels, cell, width).0[j]->0,
        label_places(labels, cell, width).0[j]->0 + labels[j].1 <= width,
    decreases labels.len(),
{
    places_match(labels, cell, width);
    places_match(labels.drop_last(), cell, width);
    if j == labels.len() - 1 {
        ends_before(labels.drop_last(), cell, width, i);
    } else {
        labels_never_touch(labels.drop_last(), cell, width, i, j);
    }
}

proof fn places_match(labels: Seq<(usize, usize)>, cell: int, width: int)
    ensures
        label_places(labels, cell, width).0.len() == labels.len(),
    decreases labels.len(),
{
    if labels.len() > 0 {
        places_match(labels.drop_last(), cell, width);
    }
}

proof fn ends_before(labels: Seq<(usize, usize)>, cell: int, width: int, i: int)
    requires
        0 <= i < labels.len(),
        label_places(labels, cell, width).0[i] is Some,
    ensures
        label_places(labels, cell, width).0[i]->0 + labels[i].1 + 1 <= label_places(labels, cell, width).1,
    decreases labels.len(),
{
    places_match(labels, cell, width);
    places_match(labels.drop_last(), cell, width);
    if i < labels.len() - 1 {
        ends_before(labels.drop_last(), cell, width, i);
    }
}

} // verus!
