//! What holds of the plays as they are told: the tracks, the clients, the days,
//! the notes and the charts.

use vstd::prelude::*;

use crate::msg::{Arg, Msg};
use crate::stats::{Entity, Page, Preset, StatsSummary, TopItem};
use crate::stats_series::{Bucket, StatsTimeseries};
use crate::stats_view::{client_cell, overview, Overview, RecentRow};
use crate::stats_words::{HistoryItem, Track};
use crate::zone::Zone;

verus! {

use crate::clock::{date_of, day_has_a_date, is_timestamp, padded_four, padded_two, timestamp_value, valid_date, weekday_of};
use crate::outside::{json_is_object, json_member};
use crate::stats_series::{are_keys, bucket_named, calendar_keys, cell_width, day_in, day_key, fold_for, is_week_label, local_day, marked, month_key, month_of, tallest};
use crate::stats_view::{
    all_plays, chart_start, chart_title, cut, is_days_note, is_hours_note, is_nothing_hint, is_play_words, is_recent_row, is_top_words, picker_start,
};
use crate::stats_words::{
    all_digits, client_name, client_version, completed, counted_day, date_said, days_said, digits_of, duration, file_name, hour_said, is_client,
    is_day_key, legacy, number_in, plays_said, slash_at, tags_doc, title_of, track_is, tracks_said,
};
use crate::text::{dec, printed, trimmed};
use crate::zone::offset_of;
use vstd::utf8::{encode_utf8, is_ascii_chars, is_ascii_chars_encode_utf8};

// ── Tracks and clients ───────────────────────────────────────────────────

/// A file's name is what follows the last slash of its path.
pub proof fn files_go_by_their_names(dir: Seq<char>, name: Seq<char>)
    requires
        forall|i: int| 0 <= i < name.len() ==> #[trigger] name[i] != '/',
    ensures
        file_name(dir.push('/') + name) == name,
        file_name(name) == name,
    decreases name.len(),
{
    if name.len() > 0 {
        let fewer = name.drop_last();
        assert forall|i: int| 0 <= i < fewer.len() implies #[trigger] fewer[i] != '/' by {
            assert(fewer[i] == name[i]);
        }
        files_go_by_their_names(dir, fewer);
        assert((dir.push('/') + name).drop_last() =~= dir.push('/') + fewer);
        assert(fewer.push(name.last()) =~= name);
        assert(name[name.len() - 1] != '/');
    } else {
        assert(dir.push('/') + name =~= dir.push('/'));
        assert(name =~= Seq::<char>::empty());
    }
}

/// A track is told by its title where that says something, else by the name of
/// its file, and is unknown only without either.
pub proof fn tracks_are_told_by_what_is_known(title: Option<Seq<char>>, path: Option<Seq<char>>, unknown: Seq<char>)
    ensures
        title matches Some(t) ==> trimmed(t).len() > 0 ==> title_of(title, path, unknown) == trimmed(t),
        (title is None || trimmed(title->0).len() == 0) && path is Some && file_name(path->0).len() > 0 ==> title_of(title, path, unknown)
            == file_name(path->0),
        (title is None || trimmed(title->0).len() == 0) && (path is None || file_name(path->0).len() == 0) ==> title_of(
            title,
            path,
            unknown,
        ) == unknown,
{
}

/// A track has the artist, the album and the year of its own tags.
pub proof fn tracks_have_their_own_tags(
    t: Track,
    title: Option<Seq<char>>,
    artist: Option<Seq<char>>,
    album: Option<Seq<char>>,
    path: Option<Seq<char>>,
    year: Option<i64>,
    unknown: Seq<char>,
)
    requires
        track_is(t, title, artist, album, path, year, unknown),
    ensures
        t.artist@ == (match artist {
            Some(a) => trimmed(a),
            None => Seq::empty(),
        }),
        t.album@ == (match album {
            Some(a) => trimmed(a),
            None => Seq::empty(),
        }),
        t.year matches Some(y) ==> y > 0 && year == Some(y),
        t.year is None ==> year is None || year->0 <= 0,
{
    if let Some(a) = artist {
        if trimmed(a).len() == 0 {
            assert(trimmed(a) =~= Seq::<char>::empty());
        }
    }
    if let Some(a) = album {
        if trimmed(a).len() == 0 {
            assert(trimmed(a) =~= Seq::<char>::empty());
        }
    }
}

/// The first slash of a text that has one behind a beginning without any.
proof fn the_slash_is_found(name: Seq<char>, rest: Seq<char>)
    requires
        forall|i: int| 0 <= i < name.len() ==> #[trigger] name[i] != '/',
        rest.len() > 0 ==> rest[0] == '/',
    ensures
        slash_at(name + rest) == name.len(),
    decreases name.len(),
{
    let whole = name + rest;
    if name.len() > 0 {
        assert(whole[0] == name[0]);
        assert(whole.skip(1) =~= name.skip(1) + rest);
        assert forall|i: int| 0 <= i < name.skip(1).len() implies #[trigger] name.skip(1)[i] != '/' by {
            assert(name.skip(1)[i] == name[i + 1]);
        }
        the_slash_is_found(name.skip(1), rest);
    } else {
        assert(whole =~= rest);
    }
}

/// A client gives its name before a slash and its version behind it.
pub proof fn clients_give_name_and_version(name: Seq<char>, version: Seq<char>)
    requires
        forall|i: int| 0 <= i < name.len() ==> #[trigger] name[i] != '/',
    ensures
        client_name(name + seq!['/'] + version) == printed(name, 40),
        client_version(name + seq!['/'] + version) == version,
        client_name(name) == printed(name, 40),
        client_version(name) == Seq::<char>::empty(),
{
    let rest = seq!['/'] + version;
    let whole = name + seq!['/'] + version;
    assert(whole =~= name + rest);
    the_slash_is_found(name, rest);
    assert(whole.take(name.len() as int) =~= name);
    assert(whole.skip(name.len() as int + 1) =~= version);
    the_slash_is_found(name, Seq::empty());
    assert(name + Seq::<char>::empty() =~= name);
    assert(name.take(name.len() as int) =~= name);
}

/// How the known clients are written: no two alike.
proof fn clients_are_told_apart()
    ensures
        "sta.client_old"@.len() == 14 && "sta.client_old"@[11] == 'o',
        "sta.client_web_old"@.len() == 18 && "sta.client_web_old"@[11] == 'w',
        "sta.client_web"@.len() == 14 && "sta.client_web"@[11] == 'w',
        "sta.client_this"@.len() == 15 && "sta.client_this"@[11] == 't',
{
    reveal_strlit("sta.client_old");
    reveal_strlit("sta.client_web_old");
    reveal_strlit("sta.client_web");
    reveal_strlit("sta.client_this");
}

/// This program, the web's and the older ones are known by what they call
/// themselves; any other goes by its own name, with its version where there is
/// room.
pub proof fn clients_are_known(words: (Msg, Msg), item: HistoryItem, c: String)
    requires
        is_client(words, item),
        item.client == Some(c),
        c@.len() > 0,
    ensures
        words.0 == Msg::Key("sta.client_this") ==> crate::paths::begins(c@, "mstream-player"@),
        words.0 == Msg::Key("sta.client_web") ==> crate::paths::begins(c@, "mstream-webapp"@),
        words.0 == Msg::Key("sta.client_web_old") <==> c@ == "legacy"@,
        words.0 != Msg::Key("sta.client_old"),
        words.0 is Key ==> words.1 == words.0,
        words.0 matches Msg::Raw(long) ==> (words.1 matches Msg::Raw(short) && short@ == client_name(c@) && (client_version(c@).len()
            == 0 ==> long@ == short@)),
{
    clients_are_told_apart();
}

/// The client has its room, unless the play was not counted, which is said in
/// its place.
pub proof fn uncounted_plays_say_so(row: RecentRow, not_counted: Msg, width: usize, m: Msg)
    requires
        call_ensures(client_cell, (&row, &not_counted, width), &m),
    ensures
        !row.counted ==> m == not_counted,
        row.counted ==> m == row.client || m == row.client_short,
{
}

// ── Days and hours ───────────────────────────────────────────────────────

/// The first years whose days have keys of ten characters, and the day behind
/// the last.
pub open spec fn four_figures(day: int) -> bool {
    0 <= date_of(day).0 < 10000
}

/// A day's key, character by character.
proof fn keys_are_written_out(day: int)
    requires
        four_figures(day),
    ensures
        ({
            let (y, m, d) = date_of(day);
            let b = encode_utf8(day_key(day));
            &&& valid_date(y, m, d)
            &&& b.len() == 10
            &&& b[0] == 48 + y / 1000 && b[1] == 48 + y / 100 % 10 && b[2] == 48 + y / 10 % 10 && b[3] == 48 + y % 10
            &&& b[5] == 48 + m / 10 && b[6] == 48 + m % 10
            &&& b[8] == 48 + d / 10 && b[9] == 48 + d % 10
        }),
{
    let (y, m, d) = date_of(day);
    day_has_a_date(day);
    padded_four(y as nat);
    padded_two(m as nat);
    padded_two(d as nat);
    let key = day_key(day);
    assert(key.len() == 10);
    assert(is_ascii_chars(key));
    is_ascii_chars_encode_utf8(key);
}

/// Two digits are the number they stand for.
proof fn two_digits_are_their_number(b: Seq<u8>, from: int, n: int)
    requires
        0 <= from,
        from + 2 <= b.len(),
        0 <= n < 100,
        b[from] == 48 + n / 10,
        b[from + 1] == 48 + n % 10,
    ensures
        number_in(b, from, from + 2) == Some(n),
{
    let s = b.subrange(from, from + 2);
    assert(s[0] == b[from] && s[1] == b[from + 1]);
    assert(all_digits(s));
    assert(s.drop_last() =~= seq![s[0]]);
    assert(seq![s[0]].drop_last() =~= Seq::<u8>::empty());
    reveal_with_fuel(digits_of, 3);
}

/// Four digits are the number they stand for.
proof fn four_digits_are_their_number(b: Seq<u8>, n: int)
    requires
        4 <= b.len(),
        0 <= n < 10000,
        b[0] == 48 + n / 1000,
        b[1] == 48 + n / 100 % 10,
        b[2] == 48 + n / 10 % 10,
        b[3] == 48 + n % 10,
    ensures
        number_in(b, 0, 4) == Some(n),
{
    let s = b.subrange(0, 4);
    assert(s[0] == b[0] && s[1] == b[1] && s[2] == b[2] && s[3] == b[3]);
    assert(all_digits(s));
    assert(s.drop_last() =~= seq![s[0], s[1], s[2]]);
    assert(seq![s[0], s[1], s[2]].drop_last() =~= seq![s[0], s[1]]);
    assert(seq![s[0], s[1]].drop_last() =~= seq![s[0]]);
    assert(seq![s[0]].drop_last() =~= Seq::<u8>::empty());
    reveal_with_fuel(digits_of, 5);
    assert(n == n / 1000 * 1000 + n / 100 % 10 * 100 + n / 10 % 10 * 10 + n % 10);
}

/// A day is told from its key by its own weekday and its own day of the month.
pub proof fn days_are_told_from_their_keys(msg: Msg, day: int)
    requires
        four_figures(day),
        is_day_key(msg, day_key(day)),
    ensures
        msg matches Msg::Two(_, weekday, of_month) && of_month.arg == Arg::Num(date_of(day).2 as i64) && (weekday.arg matches Arg::Phrase(
            w,
        ) && *w == Msg::Listed("sta.weekdays_short", weekday_of(day) as u32)),
{
    let (y, m, d) = date_of(day);
    let b = encode_utf8(day_key(day));
    day_has_a_date(day);
    keys_are_written_out(day);
    four_digits_are_their_number(b, y);
    two_digits_are_their_number(b, 5, m);
    two_digits_are_their_number(b, 8, d);
    assert(counted_day(y, m, d) == day);
}

/// The label of a week's bar is the day and the month of its first day, and the
/// day under a column is the one of its key.
pub proof fn labels_are_read_from_their_keys(msg: Msg, day: int)
    requires
        four_figures(day),
    ensures
        day_in(day_key(day)) == date_of(day).2,
        is_week_label(msg, day_key(day)) ==> (msg matches Msg::Both(of_month, month) && *month == Msg::Listed(
            "sta.months_short",
            (date_of(day).1 - 1) as u32,
        ) && (*of_month matches Msg::Raw(s) && s@ == dec(date_of(day).2 as nat).push(' '))),
{
    let (y, m, d) = date_of(day);
    let b = encode_utf8(day_key(day));
    day_has_a_date(day);
    keys_are_written_out(day);
    two_digits_are_their_number(b, 5, m);
    two_digits_are_their_number(b, 8, d);
}

/// An hour of the day is written in two digits, before two zeros.
pub proof fn hours_are_written_in_full(h: int)
    requires
        0 <= h < 24,
    ensures
        hour_said(h).len() == 5,
        (hour_said(h)[0] as int - 48) * 10 + (hour_said(h)[1] as int - 48) == h,
        hour_said(h).skip(2) == seq![':', '0', '0'],
{
    padded_two(h as nat);
    assert(hour_said(h).skip(2) =~= seq![':', '0', '0']);
}

// ── Notes ────────────────────────────────────────────────────────────────

/// The busiest day is told where there is one, with its own plays, and with its
/// time where it has some.
pub proof fn the_busiest_day_is_told(out: Option<Msg>, s: StatsSummary)
    requires
        is_days_note(out, s),
    ensures
        out is Some <==> s.top_day is Some && s.top_day->0.date@.len() > 0,
        out matches Some(Msg::Three(_, _, plays, time)) ==> s.top_day->0.listened_ms > 0 && plays.arg == Arg::Phrase(
            Box::new(plays_said(s.top_day->0.plays)),
        ) && time.arg == Arg::Phrase(Box::new(duration(s.top_day->0.listened_ms as int))),
        out matches Some(Msg::Two(_, _, plays)) ==> s.top_day->0.listened_ms == 0 && plays.arg == Arg::Phrase(
            Box::new(plays_said(s.top_day->0.plays)),
        ),
{
}

/// The busiest hour is told where there is one, with the weekday where that is
/// known.
pub proof fn the_busiest_hour_is_told(out: Option<Msg>, s: StatsSummary)
    requires
        is_hours_note(out, s),
    ensures
        out is Some <==> s.peak_hour is Some,
        out matches Some(Msg::Two(_, hour, days)) ==> (hour.arg matches Arg::Text(h) && h@ == hour_said(s.peak_hour->0 as int))
            && s.peak_weekday is Some && days.arg == Arg::Phrase(
            Box::new(Msg::Listed("sta.weekdays_plural", s.peak_weekday->0 as u32)),
        ),
        out matches Some(m) ==> (m is Two <==> s.peak_weekday is Some && 0 <= s.peak_weekday->0 < 7),
{
}

/// Where nothing was played, the day that the log begins on is told where it
/// is known, by the clock of the place.
pub proof fn the_logs_beginning_is_told(msg: Msg, earliest: Option<Seq<char>>, zone: Option<Zone>)
    requires
        is_nothing_hint(msg, earliest, zone),
    ensures
        msg is One <==> earliest is Some && is_timestamp(earliest->0),
        msg matches Msg::One(_, f) ==> f.arg == Arg::Phrase(
            Box::new(date_said(timestamp_value(earliest->0), offset_of(zone, timestamp_value(earliest->0)) as int)),
        ),
{
}

/// The overview is blank before anything is known, and says that nothing was
/// played exactly where nothing was.
pub proof fn the_overview_says_what_there_is(page: Page, out: Overview)
    requires
        call_ensures(overview, (&page,), out),
    ensures
        out == Overview::Blank <==> page.no_api || page.data is None,
        out == Overview::Empty ==> page.log_is_empty(),
        out == Overview::Nothing ==> page.data is Some && page.data->0.summary.events == 0,
        out == Overview::Full ==> page.data is Some && page.data->0.summary.events > 0,
{
}

/// A chart of all time begins with the log, any other with its period.
pub proof fn charts_begin_with_what_they_show(preset: Preset, earliest: Option<Seq<char>>, from: Seq<char>)
    ensures
        preset != Preset::All ==> chart_start(preset, earliest, from) == from,
        preset == Preset::All && earliest is Some ==> chart_start(preset, earliest, from) == earliest->0,
        earliest is None ==> chart_start(preset, earliest, from) == from,
{
}

/// A row of the log has its play: who played it where a peer did, whether it ran
/// to its end, and whether it was counted.
pub proof fn rows_show_their_play(row: RecentRow, item: HistoryItem, now: i64, zone: Option<Zone>, unknown: Seq<char>)
    requires
        is_recent_row(row, item, now, zone, unknown),
    ensures
        row.via is Some <==> item.origin@ == "peer"@,
        row.completed <==> item.outcome@ == "completed"@ && !legacy(item),
        row.counted == item.counted,
        row.via matches Some(Msg::One(_, f)) ==> (f.arg is Text <==> item.peer_name is Some && item.peer_name->0@.len() > 0),
{
}

/// A play that ran to its end is told without its length, one cut short with
/// the length it has.
pub proof fn plays_are_told_as_they_went(words: Seq<Msg>, item: HistoryItem, now: i64, zone: Option<Zone>, unknown: Seq<char>)
    requires
        is_play_words(words, item, now, zone, unknown),
    ensures
        completed(item) ==> words.len() == 1,
        !completed(item) && item.duration_ms is Some && item.duration_ms->0 > 0 ==> words.len() == 2,
        words.len() == 2 ==> !completed(item),
{
}

/// An entry of the ranking is told with its own plays and its own time.
pub proof fn entries_are_told_with_their_own(msg: Msg, item: TopItem, entity: Entity, now: i64, zone: Option<Zone>, unknown: Seq<char>)
    requires
        is_top_words(msg, item, entity, now, zone, unknown),
    ensures
        ({
            let plays = Arg::Phrase(Box::new(plays_said(item.plays)));
            let time = Arg::Phrase(Box::new(duration(item.listened_ms as int)));
            &&& entity != Entity::Tracks ==> (msg matches Msg::Four(_, _, _, p, t) && p.arg == plays && t.arg == time)
            &&& entity == Entity::Tracks && msg is Four ==> (msg matches Msg::Four(_, _, p, t, _) && p.arg == plays && t.arg == time)
            &&& msg matches Msg::Five(_, _, _, p, t, _) ==> p.arg == plays && t.arg == time
            &&& msg is Four || msg is Five
        }),
{
}

/// A text that is cut fits, begins as it did, and is left alone where it fits.
pub proof fn cut_texts_fit(s: Seq<char>, w: nat)
    ensures
        cut(s, w).len() <= w,
        s.len() <= w ==> cut(s, w) == s,
        0 < w < s.len() ==> cut(s, w).len() == w && cut(s, w).drop_last() == s.take(w - 1),
{
    if 0 < w < s.len() {
        assert(cut(s, w).drop_last() =~= s.take(w - 1));
    }
}

/// A picker stands as far right as it can, never over what is before it, nor
/// over the edge.
pub proof fn pickers_stand_against_the_edge(from: int, need: int, right: int)
    requires
        0 <= from,
        0 <= need,
        0 <= right,
    ensures
        picker_start(from, need, right) is Some <==> from + need <= right,
        picker_start(from, need, right) matches Some(x) ==> x >= from && x + need == right,
{
}

/// Both origins' plays are counted together.
pub proof fn both_origins_count(o: crate::stats::Origins)
    ensures
        all_plays(o) >= o.local.plays,
        all_plays(o) >= o.peers.plays,
        all_plays(o) >= 1,
        o.local.plays + o.peers.plays > 0 ==> all_plays(o) - o.local.plays == o.peers.plays,
{
}

/// The names of the kinds of bars: no two alike.
proof fn kinds_are_told_apart()
    ensures
        "day"@.len() == 3,
        "week"@.len() == 4,
        "month"@.len() == 5,
{
    reveal_strlit("day");
    reveal_strlit("week");
    reveal_strlit("month");
}

// ── Charts ───────────────────────────────────────────────────────────────

/// As few bars share a column as lets all columns fit.
pub proof fn as_few_bars_share_as_can(n: int, width: int)
    requires
        0 <= n,
        1 <= width,
    ensures
        fold_for(n, width) >= 1,
        fold_for(n, width) * width >= n,
        fold_for(n, width) > 1 ==> (fold_for(n, width) - 1) * width < n,
{
    let f = (n + width - 1) / width;
    vstd::arithmetic::div_mod::lemma_fundamental_div_mod(n + width - 1, width);
    vstd::arithmetic::div_mod::lemma_mod_bound(n + width - 1, width);
    assert(width * f == f * width && (f - 1) * width == f * width - width) by (nonlinear_arith);
    if f < 1 {
        assert(f * width <= 0) by (nonlinear_arith)
            requires
                f < 1,
                1 <= width,
        ;
    }
}

/// Columns are one to three cells wide, and as wide as fits.
pub proof fn columns_are_as_wide_as_fits(n: int, width: int)
    requires
        1 <= n <= width,
    ensures
        1 <= cell_width(n, width) <= 3,
        cell_width(n, width) * n <= width,
        cell_width(n, width) < 3 ==> (cell_width(n, width) + 1) * n > width,
{
    let w = width / n;
    vstd::arithmetic::div_mod::lemma_fundamental_div_mod(width, n);
    vstd::arithmetic::div_mod::lemma_mod_bound(width, n);
    assert(n * w == w * n && (w + 1) * n == w * n + n) by (nonlinear_arith);
    if w < 1 {
        assert(w * n <= 0) by (nonlinear_arith)
            requires
                w < 1,
                1 <= n,
        ;
    }
    if w > 3 {
        assert(3 * n <= w * n) by (nonlinear_arith)
            requires
                w > 3,
                1 <= n,
        ;
    }
}

/// The tallest column is one of the columns, and none is taller.
pub proof fn none_is_taller(values: Seq<u64>, i: int)
    requires
        0 <= i < values.len(),
    ensures
        values[i] <= tallest(values),
        tallest(values) == 1 || values.contains(tallest(values)),
    decreases values.len(),
{
    let fewer = values.drop_last();
    if i < fewer.len() {
        none_is_taller(fewer, i);
        assert(fewer[i] == values[i]);
    } else if fewer.len() > 0 {
        none_is_taller(fewer, 0);
    }
    assert(values[values.len() - 1] == values.last());
    if fewer.contains(tallest(fewer)) {
        let k = choose|k: int| 0 <= k < fewer.len() && fewer[k] == tallest(fewer);
        assert(values[k] == tallest(fewer));
    }
}

/// The places that are marked: in order, each marked, and none left out.
pub proof fn marked_places_are_all(n: nat, mark: spec_fn(int) -> bool, i: int)
    ensures
        forall|k: int| 0 <= k < marked(n, mark).len() ==> 0 <= #[trigger] marked(n, mark)[k] < n && mark(marked(n, mark)[k]),
        forall|k: int, l: int| 0 <= k < l < marked(n, mark).len() ==> #[trigger] marked(n, mark)[k] < #[trigger] marked(n, mark)[l],
        0 <= i < n && mark(i) ==> marked(n, mark).contains(i),
    decreases n,
{
    if n > 0 {
        marked_places_are_all((n - 1) as nat, mark, i);
        let before = marked((n - 1) as nat, mark);
        if mark(n - 1) {
            assert(marked(n, mark)[before.len() as int] == n - 1);
        }
        if 0 <= i < n - 1 && mark(i) {
            let k = choose|k: int| 0 <= k < before.len() && before[k] == i;
            assert(marked(n, mark)[k] == i);
        }
    }
}

/// The days from one through another begin with the one and end with the other.
proof fn days_run_from_one_to_the_other(first: int, last: int)
    requires
        first <= last,
    ensures
        ({
            let keys = calendar_keys(Bucket::Day, first, last);
            keys.len() == last - first + 1 && keys[0] == day_key(first) && keys.last() == day_key(last)
        }),
{
    assert(first + (last - first) == last);
}

/// A chart over a range of days has a bar for each, from its first day through
/// its last by the clock of the place, the range's end left out.
pub proof fn charts_cover_their_range(keys: Seq<Seq<char>>, series: StatsTimeseries, from: Seq<char>, to: Seq<char>, zone: Option<Zone>)
    requires
        are_keys(keys, series, from, to, zone),
        is_timestamp(from) && is_timestamp(to) && timestamp_value(from) < timestamp_value(to),
        series.bucket@ == "day"@,
        local_day(zone, timestamp_value(from)) <= local_day(zone, timestamp_value(to) - 1),
    ensures
        keys.len() == local_day(zone, timestamp_value(to) - 1) - local_day(zone, timestamp_value(from)) + 1,
        keys[0] == day_key(local_day(zone, timestamp_value(from))),
        keys.last() == day_key(local_day(zone, timestamp_value(to) - 1)),
{
    kinds_are_told_apart();
    assert(bucket_named(series.bucket@) == Bucket::Day);
    days_run_from_one_to_the_other(local_day(zone, timestamp_value(from)), local_day(zone, timestamp_value(to) - 1));
}

/// A track's tags are in its metadata where that is an object, else in itself.
pub proof fn tags_are_in_the_metadata(doc: Seq<char>, m: Seq<char>)
    ensures
        json_member(doc, "metadata"@) == Some(m) && json_is_object(m) ==> tags_doc(doc) == m,
        json_member(doc, "metadata"@) == Some(m) && !json_is_object(m) ==> tags_doc(doc) == doc,
        json_member(doc, "metadata"@) is None ==> tags_doc(doc) == doc,
{
}

/// A day's month has the key that the day's own begins with.
pub proof fn months_begin_their_days(day: int)
    requires
        four_figures(day),
    ensures
        day_key(day).take(7) == month_key(month_of(day)),
{
    let (y, m, d) = date_of(day);
    day_has_a_date(day);
    padded_four(y as nat);
    padded_two(m as nat);
    padded_two(d as nat);
    let k = month_of(day);
    assert(k / 12 == y && k % 12 + 1 == m);
    assert(day_key(day).take(7) =~= month_key(k));
}

/// How the charts and the counts are titled: no two alike.
proof fn titles_are_told_apart()
    ensures
        "sta.chart_days"@.len() == 14 && "sta.chart_days"@[4] == 'c',
        "sta.chart_days_folded"@.len() == 21 && "sta.chart_days_folded"@[4] == 'c',
        "sta.chart_weeks"@.len() == 15 && "sta.chart_weeks"@[4] == 'c',
        "sta.chart_months"@.len() == 16 && "sta.chart_months"@[4] == 'c',
        "sta.tracks_one"@.len() == 14 && "sta.tracks_one"@[4] == 't',
        "sta.tracks_n"@.len() == 12 && "sta.tracks_n"@[4] == 't',
        "sta.plays_one"@.len() == 13 && "sta.plays_one"@[4] == 'p',
        "sta.plays_n"@.len() == 11 && "sta.plays_n"@[4] == 'p',
        "sta.days_one"@.len() == 12 && "sta.days_one"@[4] == 'd',
        "sta.days_n"@.len() == 10 && "sta.days_n"@[4] == 'd',
{
    reveal_strlit("sta.chart_days");
    reveal_strlit("sta.chart_days_folded");
    reveal_strlit("sta.chart_weeks");
    reveal_strlit("sta.chart_months");
    reveal_strlit("sta.tracks_one");
    reveal_strlit("sta.tracks_n");
    reveal_strlit("sta.plays_one");
    reveal_strlit("sta.plays_n");
    reveal_strlit("sta.days_one");
    reveal_strlit("sta.days_n");
}

/// A chart's title says what its bars are, and how many days share one.
pub proof fn titles_say_what_the_bars_are(bucket: Bucket, fold: int)
    requires
        1 <= fold <= u64::MAX,
    ensures
        chart_title(bucket, fold) == Msg::Key("sta.chart_weeks") <==> bucket == Bucket::Week,
        chart_title(bucket, fold) == Msg::Key("sta.chart_months") <==> bucket == Bucket::Month,
        chart_title(bucket, fold) == Msg::Key("sta.chart_days") <==> bucket == Bucket::Day && fold == 1,
        chart_title(bucket, fold) matches Msg::One(_, f) ==> f.arg == Arg::Nat(fold as u64),
        chart_title(bucket, fold) is One <==> bucket == Bucket::Day && fold > 1,
{
    titles_are_told_apart();
}

/// One thing goes by its own phrase, and plays, tracks and days each by theirs.
pub proof fn counts_go_by_their_things(n: u64)
    ensures
        plays_said(1) == Msg::Key("sta.plays_one"),
        tracks_said(1) == Msg::Key("sta.tracks_one"),
        days_said(1) == Msg::Key("sta.days_one"),
        n != 1 ==> (plays_said(n) matches Msg::One(key, _) && key == "sta.plays_n"),
        n != 1 ==> (tracks_said(n) matches Msg::One(key, _) && key == "sta.tracks_n"),
        n != 1 ==> (days_said(n) matches Msg::One(key, _) && key == "sta.days_n"),
{
}

} // verus!
