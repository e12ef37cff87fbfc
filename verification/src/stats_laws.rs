//! What holds of the listening report as a whole: that its figures are the
//! period's, and that what is asked for is what was chosen.

use vstd::prelude::*;

use crate::line::{Code, Key};
use crate::msg::{Arg, Fill, Msg};
use crate::screen::Outcome;
use crate::stats::{
    Act, Data, Done, Entity, Label, Loaded, Metric, Modal, Op, Origin, Page, Period, PeriodOption, Preset, StatsHistory, StatsSummary, Tab,
    TopItem,
};
use crate::stats_series::TimeBucket;
use crate::stats_view::{Before, Tile, TopRow};
use crate::stats_words::HistoryItem;
use crate::zone::Zone;

verus! {

use crate::clock::{date_of, day_has_a_date, epoch_day, valid_date, weekday_of};
use crate::msg::{filled, reads};
use crate::stats::{
    acted, applied, entity_at, entity_index, entry, forgotten, keyed, measure, origin_at, origin_index, period_at, same_period, versus,
};
use crate::stats_series::{folded, hour_plays, plays_of, total};
use crate::stats_view::{against, are_tiles, is_change, is_time_change, is_top_row, leader, share};
use crate::stats_words::{
    clock_words, completed, date_said, day_said, days_said, duration, is_listened, is_outcome, legacy, plays_said, rounded, time_said,
    tracks_said,
};
use crate::text::{dec, grouping_only_adds_commas};

// ── Times ────────────────────────────────────────────────────────────────

/// How the phrases for times and changes are written: no two alike.
proof fn time_phrases_are_told_apart()
    ensures
        "sta.minutes"@.len() == 11 && "sta.minutes"@[8] == 't',
        "sta.hours"@.len() == 9 && "sta.hours"@[8] == 's',
        "sta.hours_minutes"@.len() == 17 && "sta.hours_minutes"@[8] == 's',
        "sta.sub_time_up"@.len() == 15 && "sta.sub_time_up"@[8] == 't',
        "sta.sub_time_down"@.len() == 17 && "sta.sub_time_down"@[8] == 't',
        "sta.sub_same"@.len() == 12 && "sta.sub_same"@[8] == 's',
        "sta.sub_up"@.len() == 10 && "sta.sub_up"@[8] == 'u',
        "sta.sub_down"@.len() == 12 && "sta.sub_down"@[8] == 'd',
{
    reveal_strlit("sta.minutes");
    reveal_strlit("sta.hours");
    reveal_strlit("sta.hours_minutes");
    reveal_strlit("sta.sub_time_up");
    reveal_strlit("sta.sub_time_down");
    reveal_strlit("sta.sub_same");
    reveal_strlit("sta.sub_up");
    reveal_strlit("sta.sub_down");
}

/// The minutes that a total of listening says.
pub open spec fn minutes_in(m: Msg) -> int {
    match m {
        Msg::One(key, Fill { name, arg: Arg::Nat(n) }) => if key == "sta.minutes" {
            n as int
        } else if key == "sta.hours" {
            60 * n
        } else {
            -1
        },
        Msg::Two(key, Fill { name, arg: Arg::Nat(h) }, Fill { name: _, arg: Arg::TwoDigits(n) }) => if key
            == "sta.hours_minutes" {
            60 * h + n
        } else {
            -1
        },
        _ => -1,
    }
}

/// A total of listening is said to the nearest minute, hours and minutes apart.
pub proof fn totals_are_to_the_nearest_minute(ms: u64)
    ensures
        60000 * minutes_in(duration(ms as int)) - 30000 <= ms < 60000 * minutes_in(duration(ms as int)) + 30000,
        duration(ms as int) matches Msg::Two(_, h, Fill { name, arg: Arg::TwoDigits(n) }) ==> 0 < n < 60,
{
    time_phrases_are_told_apart();
    let mins = rounded(ms as int, 60000);
    assert(mins == (ms + 30000) / 60000);
    assert(60 * (mins / 60) + mins % 60 == mins);
}

/// More listening is never said to be less.
pub proof fn longer_is_not_shorter(a: u64, b: u64)
    requires
        a <= b,
    ensures
        minutes_in(duration(a as int)) <= minutes_in(duration(b as int)),
{
    totals_are_to_the_nearest_minute(a);
    totals_are_to_the_nearest_minute(b);
}

/// The phrase of a comparison, and by how much.
pub open spec fn says_more(m: Option<Msg>) -> bool {
    m matches Some(Msg::Two(key, _, _)) && key == "sta.sub_time_up"
}

pub open spec fn says_less(m: Option<Msg>) -> bool {
    m matches Some(Msg::Two(key, _, _)) && key == "sta.sub_time_down"
}

/// The minutes by which a comparison says that a time changed.
pub open spec fn minutes_apart(m: Option<Msg>) -> int {
    match m {
        Some(Msg::Two(_, Fill { name, arg: Arg::Phrase(d) }, _)) => minutes_in(*d),
        _ => 0,
    }
}

/// A comparison of times says up only where there was more than before and down
/// only where there was less, by the difference to the nearest minute; nothing
/// in between, and nothing where there was nothing before.
pub proof fn a_fall_is_no_rise(out: Option<Msg>, now: u64, before: Option<u64>, l: Label)
    requires
        is_time_change(out, now, before, l),
    ensures
        says_more(out) ==> before is Some && now > before->0,
        says_less(out) ==> before is Some && now < before->0,
        before is None || before->0 == 0 <==> out is None,
        before matches Some(b) ==> b > 0 && now >= b + 60000 ==> says_more(out) && 60000 * minutes_apart(out) - 30000 <= now - b
            < 60000 * minutes_apart(out) + 30000,
        before matches Some(b) ==> b > 0 && b >= now + 60000 ==> says_less(out) && 60000 * minutes_apart(out) - 30000 <= b - now
            < 60000 * minutes_apart(out) + 30000,
        before matches Some(b) ==> b > 0 && -60000 < now - b < 60000 ==> (out matches Some(Msg::One(key, _)) && key
            == "sta.sub_same"),
{
    time_phrases_are_told_apart();
    if let Some(b) = before {
        if now > b {
            totals_are_to_the_nearest_minute((now - b) as u64);
        } else {
            totals_are_to_the_nearest_minute((b - now) as u64);
        }
    }
}

/// Exchanging the two times exchanges up and down, and keeps the difference.
pub proof fn exchanged_times_exchange_the_words(now: u64, before: u64, l: Label, a: Option<Msg>, b: Option<Msg>)
    requires
        0 < before,
        before + 60000 <= now,
        is_time_change(a, now, Some(before), l),
        is_time_change(b, before, Some(now), l),
    ensures
        says_more(a) && !says_less(a),
        says_less(b) && !says_more(b),
        a->0->Two_1 == b->0->Two_1,
{
    time_phrases_are_told_apart();
}

/// A change in percent is said by its size and its sign, and what has no past
/// has no change.
pub proof fn percents_keep_their_sign(out: Option<Msg>, before: Option<u64>, pct: i64, l: Label)
    requires
        is_change(out, before, pct, l),
    ensures
        out is None <==> before is None || before->0 == 0,
        out matches Some(Msg::Two(key, by, vs)) ==> against(vs, l) && (key == "sta.sub_up" <==> pct > 0) && (key == "sta.sub_down" <==> pct
            < 0) && (by.arg matches Arg::Nat(n) && (n == pct || n == -pct)),
        out matches Some(Msg::One(key, vs)) ==> pct == 0 && key == "sta.sub_same" && against(vs, l),
        out matches Some(m) ==> m is One || m is Two,
{
    time_phrases_are_told_apart();
}

/// A number with its thousands set apart.
pub open spec fn figures(m: Msg, n: nat) -> bool {
    m matches Msg::Raw(s) && s@.filter(|c: char| c != ',') == dec(n)
}

/// How the tiles are named: no two alike.
proof fn tiles_are_told_apart()
    ensures
        "sta.tile_plays"@.len() == 14 && "sta.tile_plays"@[4] == 't' && "sta.tile_plays"@[10] == 'l',
        "sta.tile_time"@.len() == 13 && "sta.tile_time"@[4] == 't' && "sta.tile_time"@[10] == 'i',
        "sta.tile_tracks"@.len() == 15 && "sta.tile_tracks"@[4] == 't' && "sta.tile_tracks"@[10] == 'r',
        "sta.tile_skips"@.len() == 14 && "sta.tile_skips"@[4] == 't' && "sta.tile_skips"@[10] == 'k',
        "sta.tile_streak"@.len() == 15 && "sta.tile_streak"@[4] == 't' && "sta.tile_streak"@[10] == 't',
        "sta.tile_sessions"@.len() == 17 && "sta.tile_sessions"@[4] == 't' && "sta.tile_sessions"@[10] == 'e',
        "sta.days_one"@.len() == 12 && "sta.days_one"@[4] == 'd' && "sta.days_one"@[10] == 'n',
        "sta.days_n"@.len() == 10 && "sta.days_n"@[4] == 'd',
        "sta.sub_longest"@.len() == 15 && "sta.sub_longest"@[4] == 's' && "sta.sub_longest"@[10] == 'n',
        "sta.sub_library"@.len() == 15 && "sta.sub_library"@[4] == 's' && "sta.sub_library"@[10] == 'b',
        "sta.sub_starts"@.len() == 14 && "sta.sub_starts"@[4] == 's' && "sta.sub_starts"@[10] == 'a',
        "sta.sub_each"@.len() == 12 && "sta.sub_each"@[4] == 's' && "sta.sub_each"@[10] == 'c',
        "sta.sub_different"@.len() == 17 && "sta.sub_different"@[4] == 's' && "sta.sub_different"@[10] == 'f',
        "sta.sub_early"@.len() == 13 && "sta.sub_early"@[4] == 's' && "sta.sub_early"@[10] == 'r',
        "sta.sub_sittings"@.len() == 16 && "sta.sub_sittings"@[4] == 's' && "sta.sub_sittings"@[10] == 't',
        "sta.sub_none"@.len() == 12 && "sta.sub_none"@[4] == 's' && "sta.sub_none"@[10] == 'n',
        "sta.sub_counted"@.len() == 15 && "sta.sub_counted"@[4] == 's' && "sta.sub_counted"@[10] == 'u',
        "sta.sub_every"@.len() == 13 && "sta.sub_every"@[4] == 's' && "sta.sub_every"@[10] == 'e',
{
    reveal_strlit("sta.tile_plays");
    reveal_strlit("sta.tile_time");
    reveal_strlit("sta.tile_tracks");
    reveal_strlit("sta.tile_skips");
    reveal_strlit("sta.tile_streak");
    reveal_strlit("sta.tile_sessions");
    reveal_strlit("sta.days_one");
    reveal_strlit("sta.days_n");
    reveal_strlit("sta.sub_longest");
    reveal_strlit("sta.sub_library");
    reveal_strlit("sta.sub_starts");
    reveal_strlit("sta.sub_each");
    reveal_strlit("sta.sub_different");
    reveal_strlit("sta.sub_early");
    reveal_strlit("sta.sub_sittings");
    reveal_strlit("sta.sub_none");
    reveal_strlit("sta.sub_counted");
    reveal_strlit("sta.sub_every");
}

/// Each tile shows its own figure of the period, digit for digit, and the times
/// to the minute.
pub proof fn tiles_show_the_period(out: Seq<Tile>, s: StatsSummary, before: Option<Before>, pct: i64, vs: Option<Label>, i: int)
    requires
        are_tiles(out, s, before, pct, vs),
        0 <= i < out.len(),
    ensures
        out[i].label == "sta.tile_plays" ==> figures(out[i].value, s.plays as nat),
        out[i].label == "sta.tile_tracks" ==> figures(out[i].value, s.unique_tracks as nat),
        out[i].label == "sta.tile_skips" ==> figures(out[i].value, s.skips as nat),
        out[i].label == "sta.tile_sessions" ==> figures(out[i].value, s.sessions.count as nat),
        out[i].label == "sta.tile_time" ==> 60000 * minutes_in(out[i].value) - 30000 <= s.listened_ms < 60000 * minutes_in(
            out[i].value,
        ) + 30000,
        out[i].label == "sta.tile_streak" ==> out[i].value == days_said(s.streak_days.current as u64) && (
        out[i].detail matches Msg::One(_, Fill { name, arg: Arg::Count(n) }) && n == s.streak_days.longest),
        out[i].label == "sta.tile_sessions" && s.sessions.avg_ms is Some && s.sessions.avg_ms->0 > 0 ==> {
            &&& out[i].detail matches Msg::One(_, Fill { name, arg: Arg::Phrase(d) })
            &&& 60000 * minutes_in(*d) - 30000 <= s.sessions.avg_ms->0 < 60000 * minutes_in(*d) + 30000
        },
        out[i].label == "sta.tile_skips" && s.skip_pct is Some ==> (out[i].detail matches Msg::One(
            key,
            Fill { name, arg: Arg::Num(n) },
        ) && n == s.skip_pct->0 && key == "sta.sub_starts"),
        out[i].label == "sta.tile_tracks" && s.library_pct is Some ==> (out[i].detail matches Msg::One(
            key,
            Fill { name, arg: Arg::Num(n) },
        ) && n == s.library_pct->0 && key == "sta.sub_library"),
        out.len() == 6,
        i == 0 <==> out[i].label == "sta.tile_plays",
        i == 1 <==> out[i].label == "sta.tile_time",
        i == 2 <==> out[i].label == "sta.tile_tracks",
        i == 3 <==> out[i].label == "sta.tile_skips",
        i == 4 <==> out[i].label == "sta.tile_streak",
        i == 5 <==> out[i].label == "sta.tile_sessions",
{
    tiles_are_told_apart();
    grouping_only_adds_commas(s.plays as nat);
    grouping_only_adds_commas(s.unique_tracks as nat);
    grouping_only_adds_commas(s.skips as nat);
    grouping_only_adds_commas(s.sessions.count as nat);
    totals_are_to_the_nearest_minute(s.listened_ms);
    if let Some(avg) = s.sessions.avg_ms {
        totals_are_to_the_nearest_minute(avg);
    }
}

/// The tiles of plays and of time say up only against less before, and down only
/// against more; without a period to name they compare with nothing.
pub proof fn tiles_compare_with_the_period_before(out: Seq<Tile>, s: StatsSummary, before: Before, pct: i64, l: Label)
    requires
        are_tiles(out, s, Some(before), pct, Some(l)),
    ensures
        says_more(Some(out[1].detail)) ==> s.listened_ms > before.listened_ms > 0,
        says_less(Some(out[1].detail)) ==> s.listened_ms < before.listened_ms,
        before.listened_ms > 0 && s.listened_ms >= before.listened_ms + 60000 ==> says_more(Some(out[1].detail)),
        before.listened_ms >= s.listened_ms + 60000 ==> says_less(Some(out[1].detail)),
        out[0].detail matches Msg::Two(key, _, _) ==> before.plays > 0 && (key == "sta.sub_up" <==> pct > 0) && (key
            == "sta.sub_down" <==> pct < 0),
        before.plays == 0 ==> out[0].detail == Msg::Key("sta.sub_none"),
        before.listened_ms == 0 ==> out[1].detail == Msg::Key("sta.sub_none"),
{
    time_phrases_are_told_apart();
    if before.listened_ms > 0 {
        a_fall_is_no_rise(Some(out[1].detail), s.listened_ms, Some(before.listened_ms), l);
    }
    if before.plays > 0 {
        percents_keep_their_sign(Some(out[0].detail), Some(before.plays), pct, l);
    }
}

/// One thing has its own phrase, any other count its number.
pub proof fn counts_say_their_number(n: u64)
    ensures
        plays_said(n) is Key <==> n == 1,
        tracks_said(n) is Key <==> n == 1,
        days_said(n) is Key <==> n == 1,
        n != 1 ==> (plays_said(n) matches Msg::One(_, f) && f.arg == Arg::Count(n)),
        n != 1 ==> (tracks_said(n) matches Msg::One(_, f) && f.arg == Arg::Count(n)),
        n != 1 ==> (days_said(n) matches Msg::One(_, f) && f.arg == Arg::Count(n)),
{
}

/// The time of a play is written to the nearest second: hours only from one on,
/// minutes, and two digits of seconds.
pub proof fn play_times_are_to_the_nearest_second(ms: u64)
    ensures
        exists|h: nat, m: nat, s: nat|
            {
                &&& #[trigger] written_as(clock_words(ms as int), h, m, s)
                &&& 1000 * (3600 * h + 60 * m + s) - 500 <= ms < 1000 * (3600 * h + 60 * m + s) + 500
            },
{
    let secs = rounded(ms as int, 1000);
    assert(secs == (ms + 500) / 1000);
    let (h, m, s) = ((secs / 3600) as nat, (secs % 3600 / 60) as nat, (secs % 60) as nat);
    assert(3600 * h + 60 * m + s == secs) by {
        assert(secs % 3600 % 60 == secs % 60);
    }
    crate::clock::padded_two(m);
    crate::clock::padded_two(s);
    let two = |n: nat| seq![crate::text::digit((n / 10) as int), crate::text::digit((n % 10) as int)];
    if h > 0 {
        assert(clock_words(ms as int) =~= dec(h) + seq![':'] + two(m) + seq![':'] + two(s));
    } else {
        assert(clock_words(ms as int) =~= dec(m) + seq![':'] + two(s));
    }
    assert(written_as(clock_words(ms as int), h, m, s));
}

/// A time of day or of a play, in figures.
pub open spec fn written_as(t: Seq<char>, h: nat, m: nat, s: nat) -> bool {
    let two = |n: nat| seq![crate::text::digit((n / 10) as int), crate::text::digit((n % 10) as int)];
    &&& m < 60 && s < 60
    &&& t == (if h > 0 { dec(h) + seq![':'] + two(m) + seq![':'] + two(s) } else { dec(m) + seq![':'] + two(s) })
}

// ── Days ─────────────────────────────────────────────────────────────────

/// How the phrases for days are written: no two alike.
proof fn days_are_told_apart()
    ensures
        "sta.today"@.len() == 9 && "sta.today"@[4] == 't',
        "sta.yesterday"@.len() == 13 && "sta.yesterday"@[4] == 'y',
        "sta.day_label"@.len() == 13 && "sta.day_label"@[4] == 'd',
        "sta.day_label_year"@.len() == 18 && "sta.day_label_year"@[4] == 'd',
{
    reveal_strlit("sta.today");
    reveal_strlit("sta.yesterday");
    reveal_strlit("sta.day_label");
    reveal_strlit("sta.day_label_year");
}

/// A play is of today exactly where its local day is, of yesterday where that
/// was the day before; any other day is said by a date that is that very day.
pub proof fn days_are_said_as_they_are(t: int, now: int, offset: int, now_offset: int)
    ensures
        ({
            let day = (t + offset) / 86400;
            let today = (now + now_offset) / 86400;
            let said = day_said(t, now, offset, now_offset);
            &&& said == Msg::Key("sta.today") <==> day == today
            &&& said == Msg::Key("sta.yesterday") <==> day + 1 == today
            &&& day != today && day + 1 != today && date_of(day).0 == date_of(today).0 ==> exists|y: int, m: int, d: int|
                valid_date(y, m, d) && #[trigger] epoch_day(y, m, d) == day && y == date_of(today).0 && names_day(said, m, d)
            &&& day != today && day + 1 != today && date_of(day).0 != date_of(today).0 ==> exists|y: int, m: int, d: int|
                valid_date(y, m, d) && #[trigger] epoch_day(y, m, d) == day && names_day(said, m, d) && (said matches Msg::Three(
                    _,
                    _,
                    _,
                    year,
                ) && year.arg == Arg::Num(y as i64))
        }),
{
    let day = (t + offset) / 86400;
    let (y, m, d) = date_of(day);
    day_has_a_date(day);
    days_are_told_apart();
    assert(valid_date(y, m, d) && epoch_day(y, m, d) == day);
    let said = day_said(t, now, offset, now_offset);
    if day != (now + now_offset) / 86400 && day + 1 != (now + now_offset) / 86400 {
        assert(names_day(said, m, d));
    }
}

/// A date by the place of its month's name and its day.
pub open spec fn names_day(said: Msg, m: int, d: int) -> bool {
    let month = Msg::Listed("sta.months_short", (m - 1) as u32);
    ||| said matches Msg::Two(_, a, b) && a.arg == Arg::Phrase(Box::new(month)) && b.arg == Arg::Nat(d as u64)
    ||| said matches Msg::Three(_, a, b, _) && a.arg == Arg::Phrase(Box::new(month)) && b.arg == Arg::Nat(d as u64)
}

/// A date with its month's name is the very day of the instant.
pub proof fn dates_are_said_as_they_are(t: int, offset: int)
    ensures
        exists|y: int, m: int, d: int|
            {
                &&& valid_date(y, m, d)
                &&& #[trigger] epoch_day(y, m, d) == (t + offset) / 86400
                &&& date_said(t, offset) matches Msg::Three(_, day, month, year)
                &&& day.arg == Arg::Nat(d as u64)
                &&& month.arg == Arg::Phrase(Box::new(Msg::Listed("sta.months_long", (m - 1) as u32)))
                &&& year.arg == Arg::Num(y as i64)
            },
{
    let (y, m, d) = date_of((t + offset) / 86400);
    day_has_a_date((t + offset) / 86400);
    assert(valid_date(y, m, d) && epoch_day(y, m, d) == (t + offset) / 86400);
}

/// A time of day is the local hour and minute.
pub proof fn times_are_said_as_they_are(t: int, offset: int)
    ensures
        exists|h: int, m: int|
            {
                &&& 0 <= h < 24 && 0 <= m < 60
                &&& 3600 * h + 60 * m <= (t + offset) % 86400 < 3600 * h + 60 * m + 60
                &&& time_said(t, offset) == #[trigger] hour_and_minute(h, m)
            },
{
    let local = t + offset;
    let (h, m) = (local % 86400 / 3600, local % 3600 / 60);
    assert(local % 86400 % 3600 == local % 3600);
    crate::clock::padded_two(h as nat);
    crate::clock::padded_two(m as nat);
    assert(time_said(t, offset) =~= hour_and_minute(h, m));
}

/// `HH:MM`.
pub open spec fn hour_and_minute(h: int, m: int) -> Seq<char> {
    seq![
        crate::text::digit(h / 10),
        crate::text::digit(h % 10),
        ':',
        crate::text::digit(m / 10),
        crate::text::digit(m % 10),
    ]
}

/// The days of the week follow one another, and 1 January 1970 was a Thursday.
pub proof fn weekdays_follow_one_another(day: int)
    ensures
        0 <= weekday_of(day) < 7,
        weekday_of(day + 1) == (if weekday_of(day) == 6 { 0 } else { weekday_of(day) + 1 }),
        weekday_of(epoch_day(1970, 1, 1)) == 4,
{
}

// ── Plays ────────────────────────────────────────────────────────────────

/// How the phrases for a play's end are written: no two alike.
proof fn outcomes_are_told_apart()
    ensures
        "sta.out_scrobbled"@.len() == 17 && "sta.out_scrobbled"@[9] == 'c',
        "sta.out_completed"@.len() == 17 && "sta.out_completed"@[9] == 'o',
        "sta.out_skipped"@.len() == 15 && "sta.out_skipped"@[9] == 'k',
        "sta.out_stopped"@.len() == 15 && "sta.out_stopped"@[9] == 't',
{
    reveal_strlit("sta.out_scrobbled");
    reveal_strlit("sta.out_completed");
    reveal_strlit("sta.out_skipped");
    reveal_strlit("sta.out_stopped");
}

/// How a play ended is said as its client reported it: completed only of a play
/// that ran to its end, skipped only of one that was skipped, and of an older
/// client's play only that it was scrobbled.
pub proof fn ends_are_said_as_reported(msg: Msg, item: HistoryItem)
    requires
        is_outcome(msg, item),
    ensures
        msg == Msg::Key("sta.out_completed") <==> item.outcome@ == "completed"@ && !(item.source is Some && item.source->0@
            == "legacy"@),
        (msg matches Msg::One(key, _) && key == "sta.out_skipped") <==> item.outcome@ == "skipped"@ && !(item.source is Some
            && item.source->0@ == "legacy"@),
        (msg matches Msg::One(key, _) && key == "sta.out_scrobbled") <==> item.source is Some && item.source->0@ == "legacy"@,
        msg matches Msg::One(_, f) ==> filled(f, "t", clock_words(item.played_ms as int)),
{
    outcomes_are_told_apart();
    reveal_strlit("completed");
    reveal_strlit("skipped");
    assert("completed"@.len() == 9 && "skipped"@.len() == 7);
}

/// What was listened is the time played, out of the track's length where it is
/// known; a completed play was heard whole.
pub proof fn listening_is_out_of_the_length(msg: Msg, item: HistoryItem, whole: u64)
    requires
        is_listened(msg, item),
        item.duration_ms == Some(whole),
        whole > 0,
    ensures
        msg matches Msg::Two(_, played, of) ==> filled(played, "played", clock_words(item.played_ms as int)) && filled(
            of,
            "total",
            clock_words(whole as int),
        ),
        msg is Two <==> !(item.outcome@ == "completed"@ && !(item.source is Some && item.source->0@ == "legacy"@)),
        !(msg is Two) ==> reads(msg, clock_words(whole as int)),
{
}

// ── Shares and bars ──────────────────────────────────────────────────────

/// A share's bar is filled to the nearest cell.
pub proof fn shares_are_the_nearest(v: int, whole: int)
    requires
        0 <= v <= whole,
        0 < whole,
    ensures
        2 * (share(v, whole) * whole - 10 * v) <= whole,
        2 * (10 * v - share(v, whole) * whole) <= whole + 1,
        share(whole, whole) == 10,
{
    let n = v * 10 + whole / 2;
    vstd::arithmetic::div_mod::lemma_fundamental_div_mod(n, whole);
    assert(whole * (n / whole) == share(v, whole) * whole) by (nonlinear_arith)
        requires
            share(v, whole) == n / whole,
    ;
    vstd::arithmetic::div_mod::lemma_mod_bound(n, whole);
    crate::stats_view::shares_fit(whole, whole);
}

/// The leader's figure is one of the ranking's, unless none is above one: whoever
/// leads has a full bar.
pub proof fn the_leader_is_in_the_ranking(items: Seq<TopItem>, metric: Metric)
    ensures
        leader(items, metric) == 1 || exists|i: int| 0 <= i < items.len() && measure(metric, #[trigger] items[i]) == leader(
            items,
            metric,
        ),
        leader(items, metric) >= 1,
    decreases items.len(),
{
    if items.len() > 0 {
        let rest = items.drop_last();
        the_leader_is_in_the_ranking(rest, metric);
        assert(items[items.len() - 1] == items.last());
        if leader(rest, metric) != 1 {
            let i = choose|i: int| 0 <= i < rest.len() && measure(metric, #[trigger] rest[i]) == leader(rest, metric);
            assert(items[i] == rest[i]);
        }
    }
}

/// A ranking is measured by what it is asked for: plays by plays, time by time.
pub proof fn rankings_measure_what_is_asked(item: TopItem)
    ensures
        measure(Metric::Plays, item) == item.plays,
        measure(Metric::Time, item) == item.listened_ms,
{
}

/// A row of the ranking shows its item's plays digit for digit and its time to
/// the minute.
pub proof fn rows_show_their_item(row: TopRow, item: TopItem, entity: Entity, filled: int, now: i64, zone: Option<Zone>, unknown: Seq<char>)
    requires
        is_top_row(row, item, entity, filled, now, zone, unknown),
    ensures
        row.plays@.filter(|c: char| c != ',') == dec(item.plays as nat),
        60000 * minutes_in(row.time) - 30000 <= item.listened_ms < 60000 * minutes_in(row.time) + 30000,
        row.filled == filled,
        entity != Entity::Tracks && item.tracks is Some && item.tracks->0 != 1 ==> (row.extra matches Some(Msg::One(_, f))
            && f.arg == Arg::Count(item.tracks->0)),
        row.via is Some <==> entity == Entity::Tracks && item.origin is Some && item.origin->0@ == "peer"@,
{
    grouping_only_adds_commas(item.plays as nat);
    totals_are_to_the_nearest_minute(item.listened_ms);
}

/// A bar of the chart has the plays of the one item with its key.
pub proof fn bars_have_their_plays(items: Seq<TimeBucket>, i: int)
    requires
        0 <= i < items.len(),
        forall|j: int| 0 <= j < items.len() && j != i ==> (#[trigger] items[j]).bucket@ != items[i].bucket@,
    ensures
        plays_of(items, items[i].bucket@) == items[i].plays,
    decreases items.len(),
{
    if i < items.len() - 1 {
        let rest = items.drop_last();
        assert(items[items.len() - 1] == items.last());
        assert(rest[i] == items[i]);
        assert forall|j: int| 0 <= j < rest.len() && j != i implies (#[trigger] rest[j]).bucket@ != rest[i].bucket@ by {
            assert(items[j] == rest[j]);
        }
        bars_have_their_plays(rest, i);
    }
}

/// An hour of the chart has the plays of the one item that names it.
pub proof fn hours_have_their_plays(items: Seq<TimeBucket>, i: int, h: nat)
    requires
        0 <= i < items.len(),
        h < 24,
        items[i].bucket@ == dec(h),
        forall|j: int| 0 <= j < items.len() && j != i ==> crate::text::number_upto((#[trigger] items[j]).bucket@, 23) != Some(h),
    ensures
        hour_plays(items, h as int) == items[i].plays,
    decreases items.len(),
{
    crate::text::numbers_read_back(h, 23);
    if i < items.len() - 1 {
        let rest = items.drop_last();
        assert(items[items.len() - 1] == items.last());
        assert(rest[i] == items[i]);
        assert forall|j: int| 0 <= j < rest.len() && j != i implies crate::text::number_upto(
            (#[trigger] rest[j]).bucket@,
            23,
        ) != Some(h) by {
            assert(items[j] == rest[j]);
        }
        hours_have_their_plays(rest, i, h);
    }
}

/// Where every bar has a column of its own, the columns are the bars.
pub proof fn unfolded_bars_stay(values: Seq<u64>, i: int)
    requires
        0 <= i < values.len(),
    ensures
        folded(values, 1).len() == values.len(),
        folded(values, 1)[i] == values[i],
{
    let one = values.subrange(i, i + 1);
    assert(folded(values, 1)[i] == total(one));
    reveal_with_fuel(total, 2);
    assert(one.drop_last() =~= Seq::<u64>::empty());
}

// ── What is asked for ────────────────────────────────────────────────────

/// A question about the period, whoever's plays, in the reader's zone.
pub open spec fn asks_for(page: Page, period: Period, origin: Origin) -> bool {
    page.queued matches Some(Op::Load { seq, period: p, origin: o, entity, metric, tz }) && seq == page.seq && p == period && o
        == origin && entity == page.entity && metric == page.metric && tz == page.tz
}

/// The period that is chosen from the list is the one that is asked for, of the
/// same plays as before.
pub proof fn the_chosen_period_is_asked_for(pre: Page, i: usize, post: Page, out: Option<Outcome>)
    requires
        pre.can_ask(),
        pre.modal == Modal::Period(i),
        i < pre.options@.len(),
        !same_period(pre.phrases, pre.options@[i as int], pre.period),
        acted(pre, Act::PeriodChoose, post, out),
    ensures
        post.period == pre.options@[i as int],
        asks_for(post, pre.options@[i as int], pre.origin),
        post.modal is Closed,
        post.seq == pre.seq + 1,
{
}

/// The list opens on the period that is shown.
pub proof fn the_list_opens_on_the_period(pre: Page, i: int, post: Page, out: Option<Outcome>)
    requires
        0 <= i < pre.options@.len() <= usize::MAX,
        pre.options@[i].preset == pre.period.preset && pre.options@[i].offset == pre.period.offset,
        forall|j: int|
            0 <= j < pre.options@.len() && j != i ==> (#[trigger] pre.options@[j]).preset != pre.period.preset
                || pre.options@[j].offset != pre.period.offset,
        acted(pre, Act::PeriodList, post, out),
    ensures
        post.modal == Modal::Period(i as usize),
{
    found_in_the_list(pre.options@, pre.period, i);
}

proof fn found_in_the_list(v: Seq<Period>, p: Period, i: int)
    requires
        0 <= i < v.len(),
        v[i].preset == p.preset && v[i].offset == p.offset,
        forall|j: int| 0 <= j < v.len() && j != i ==> (#[trigger] v[j]).preset != p.preset || v[j].offset != p.offset,
    ensures
        period_at(v, p.preset, p.offset as int) == Some(i),
    decreases v.len(),
{
    let rest = v.drop_last();
    assert(v[v.len() - 1] == v.last());
    if i < v.len() - 1 {
        assert(rest[i] == v[i]);
        assert forall|j: int| 0 <= j < rest.len() && j != i implies (#[trigger] rest[j]).preset != p.preset || rest[j].offset
            != p.offset by {
            assert(v[j] == rest[j]);
        }
        found_in_the_list(rest, p, i);
    } else {
        nothing_found(rest, p);
    }
}

proof fn nothing_found(v: Seq<Period>, p: Period)
    requires
        forall|j: int| 0 <= j < v.len() ==> (#[trigger] v[j]).preset != p.preset || v[j].offset != p.offset,
    ensures
        period_at(v, p.preset, p.offset as int) is None,
    decreases v.len(),
{
    if v.len() > 0 {
        let rest = v.drop_last();
        assert(v[v.len() - 1] == v.last());
        assert forall|j: int| 0 <= j < rest.len() implies (#[trigger] rest[j]).preset != p.preset || rest[j].offset != p.offset by {
            assert(v[j] == rest[j]);
        }
        nothing_found(rest, p);
    }
}

/// A step goes to the neighbour in the list, the ends kept.
pub proof fn steps_go_to_the_neighbour(pre: Page, i: int, back: bool, post: Page, out: Option<Outcome>)
    requires
        pre.can_ask(),
        0 <= i < pre.options@.len(),
        pre.options@[i].preset == pre.period.preset && pre.options@[i].offset == pre.period.offset,
        forall|j: int|
            0 <= j < pre.options@.len() && j != i ==> (#[trigger] pre.options@[j]).preset != pre.period.preset
                || pre.options@[j].offset != pre.period.offset,
        acted(pre, Act::PeriodStep(if back { (0 - 1) as i8 } else { 1 }), post, out),
    ensures
        !back && i + 1 < pre.options@.len() ==> post.period == pre.options@[i + 1] && asks_for(post, post.period, pre.origin),
        back && i > 0 ==> post.period == pre.options@[i - 1] && asks_for(post, post.period, pre.origin),
{
    found_in_the_list(pre.options@, pre.period, i);
}

/// Whose plays are chosen is whose are asked for; the third choice wraps.
pub proof fn the_chosen_origin_is_asked_for(pre: Page, o: Origin, post: Page, out: Option<Outcome>)
    requires
        pre.can_ask(),
        o != pre.origin,
        acted(pre, Act::Origin(origin_index(o) as usize), post, out),
    ensures
        post.origin == o,
        asks_for(post, pre.period, o),
{
}

/// What is ranked, and by what, is what is asked for.
pub proof fn the_chosen_ranking_is_asked_for(pre: Page, e: Entity, m: Metric, post: Page, out: Option<Outcome>)
    requires
        pre.can_ask(),
    ensures
        e != pre.entity && acted(pre, Act::Entity(entity_index(e) as usize), post, out) ==> post.entity == e && post.queued == Some(
            Op::Top { seq: post.seq, period: pre.period, origin: pre.origin, entity: e, metric: pre.metric, tz: pre.tz },
        ),
        m != pre.metric && acted(pre, Act::Metric(if m == Metric::Plays { 0 } else { 1 }), post, out) ==> post.metric == m
            && post.queued == Some(
            Op::Top { seq: post.seq, period: pre.period, origin: pre.origin, entity: pre.entity, metric: m, tz: pre.tz },
        ),
{
}

/// The places of the choices are all different, and lead back to them.
pub proof fn choices_have_their_places(o: Origin, e: Entity)
    ensures
        origin_at(origin_index(o)) == o,
        entity_at(entity_index(e)) == e,
        0 <= origin_index(o) < 3,
        0 <= entity_index(e) < 4,
{
}

/// The keys that go round the choices come back to where they began, after
/// every other choice.
pub proof fn choices_go_round(o: Origin, e: Entity)
    ensures
        origin_at((origin_index(o) + 1) % 3) != o,
        origin_at((origin_index(origin_at((origin_index(origin_at((origin_index(o) + 1) % 3)) + 1) % 3)) + 1) % 3) == o,
        entity_at((entity_index(e) + 1) % 4) != e,
        entity_at((entity_index(e) + 2) % 4) != e,
        entity_at((entity_index(e) + 3) % 4) != e,
        entity_at((entity_index(e) + 4) % 4) == e,
{
}

/// A period is compared with the one right before it of the same kind, by its
/// own name where it has one; all time with nothing.
pub proof fn a_period_is_compared_with_the_one_before(period: Period, options: Seq<Period>, i: int)
    requires
        0 <= i < options.len(),
        period.preset != Preset::All,
        options[i].preset == period.preset && options[i].offset + 1 == period.offset,
        forall|j: int|
            0 <= j < options.len() && j != i ==> (#[trigger] options[j]).preset != options[i].preset || options[j].offset
                != options[i].offset,
    ensures
        options[i].detail is Some ==> versus(period, options) == options[i].detail,
        options[i].detail is None ==> versus(period, options) == Some(options[i].name),
{
    found_in_the_list(options, options[i], i);
}

/// All time has nothing to compare with, and everything else has.
pub proof fn only_all_time_stands_alone(period: Period, options: Seq<Period>)
    ensures
        versus(period, options) is None <==> period.preset == Preset::All,
{
}

/// An entry of the period list is of its kind and as far back as the server
/// says.
pub proof fn entries_keep_their_distance(x: PeriodOption, preset: Preset, zone: Option<Zone>)
    ensures
        entry(x, preset, zone) matches Some(p) ==> p.preset == preset && p.offset == x.offset,
        -1 <= x.offset <= 0 ==> entry(x, preset, zone) is Some,
{
}

// ── What comes back ──────────────────────────────────────────────────────

/// What a read brings is what the page shows: the totals, the period before, the
/// charts, the ranking, the log and where it goes on.
pub proof fn answers_are_shown(m: Page, l: Loaded, post: Page)
    requires
        applied(m, Done::Loaded { seq: m.seq, result: Ok(l) }, post),
    ensures
        post.data == Some(
            Data { periods: l.periods, summary: l.summary, previous: l.previous, series: l.series, hours: l.hours },
        ),
        post.top == l.top,
        post.history@ == l.history.items@,
        post.next == l.history.next,
        !post.no_api,
        l.summary.events > 0 ==> post.period == m.period && post.queued == m.queued && post.seq == m.seq,
{
}

/// The log grows at its end by the page that was asked for.
pub proof fn the_log_grows_at_its_end(m: Page, page: StatsHistory, post: Page)
    requires
        applied(m, Done::History { seq: m.seq, result: Ok(page) }, post),
    ensures
        post.history@.len() == m.history@.len() + page.items@.len(),
        forall|i: int| 0 <= i < m.history@.len() ==> post.history@[i] == m.history@[i],
        forall|i: int| 0 <= i < page.items@.len() ==> post.history@[m.history@.len() + i] == page.items@[i],
        post.next == page.next,
{
}

/// A forgotten play leaves the log, and no other: those before it stay, those
/// behind it move up.
pub proof fn only_the_forgotten_play_leaves(m: Page, row: usize, post: Page)
    requires
        row < m.history@.len(),
        applied(m, Done::Forgot { id: m.history@[row as int].id, row, result: Ok(()) }, post),
    ensures
        post.history@.len() == m.history@.len() - 1,
        forall|i: int| 0 <= i < row ==> post.history@[i] == m.history@[i],
        forall|i: int| row <= i < post.history@.len() ==> post.history@[i] == m.history@[i + 1],
{
}

/// The play under the cursor is the one that is forgotten: the warning is on its
/// row, and `y` names it to the server.
pub proof fn the_play_under_the_cursor_is_forgotten(pre: Page, row: usize, open: Page, post: Page, out: Option<Outcome>, x: Key, y: Key)
    requires
        pre.modal is Closed,
        pre.tab == Tab::Recent,
        pre.sel == Some(row),
        row < pre.history@.len(),
        x.code == Code::Char('x') || x.code == Code::Delete,
        y.code == Code::Char('y'),
        keyed(pre, x, open, out),
        keyed(open, y, post, out),
    ensures
        post.queued == Some(Op::Forget { id: pre.history@[row as int].id, row }),
        open.queued == pre.queued,
        post.modal is Closed,
{
}

} // verus!
