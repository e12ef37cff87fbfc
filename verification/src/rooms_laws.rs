//! What holds of all rooms alike: the polls, the cursor, the clock's zone, and
//! the names that the server knows things by.

use vstd::prelude::*;

use crate::backups::Trigger;
use crate::backups_view::State;
use crate::stats::{Entity, Metric, Origin, Preset};
use crate::stats_series::Bucket;
use crate::zone::{Change, Wall};

verus! {

use crate::backups_view::{is_state, switched_on};
use crate::clock::{day_has_a_date, epoch_day, valid_date};
use crate::outside::{clipboard_frame, host_in, shown_host};
use crate::screen::{row_down, row_up, scrolled, within};
use crate::stats::preset_name;
use crate::stats_series::{bucket_for, bucket_named};
use crate::zone::{is_wall, offset_in};

// ── Polls ────────────────────────────────────────────────────────────────

/// The backups are asked for again every two seconds while something runs or
/// waits, else every five; never before the first answer, nor on top of a call.
pub proof fn backups_are_polled(room: crate::backups::Room, now: u64, later: u64)
    ensures
        room.due(now) ==> room.loaded && !room.in_flight && room.queued is None,
        room.due(now) && now <= later ==> room.due(later),
        room.loaded && !room.in_flight && room.queued is None ==> match room.last_load {
            Some(t) => room.due(now) <==> now - t >= (if room.status.active is Some || room.status.queue_length > 0 {
                2_000int
            } else {
                5_000
            }),
            None => room.due(now),
        },
{
}

/// The network is asked for again every ten seconds while this server is on it,
/// never on top of a call.
pub proof fn the_network_is_polled(room: crate::discovery::Room, now: u64, later: u64)
    ensures
        room.due(now) ==> room.on() && !room.in_flight && room.queued is None,
        room.due(now) && now <= later ==> room.due(later),
        room.on() && !room.in_flight && room.queued is None ==> match room.last_load {
            Some(t) => room.due(now) <==> now - t >= 10_000,
            None => room.due(now),
        },
{
}

/// The federation is asked for again every thirty seconds while it is on, never
/// on top of a call.
pub proof fn the_federation_is_polled(room: crate::federation::Room, now: u64, later: u64)
    ensures
        room.due(now) ==> room.on() && !room.in_flight && room.queued is None,
        room.due(now) && now <= later ==> room.due(later),
        room.on() && !room.in_flight && room.queued is None ==> match room.last_load {
            Some(t) => room.due(now) <==> now - t >= 30_000,
            None => room.due(now),
        },
{
}

/// How the two paces are written: not alike.
proof fn paces_are_told_apart()
    ensures
        "bak.polls_2"@.len() == 11 && "bak.polls_2"@[10] == '2',
        "bak.polls_5"@.len() == 11 && "bak.polls_5"@[10] == '5',
{
    reveal_strlit("bak.polls_2");
    reveal_strlit("bak.polls_5");
}

/// The state says that a run is under way exactly where one is, that runs wait
/// where some do, and else how many destinations are on, of how many; and the
/// pace it names is the one kept.
pub proof fn the_state_is_the_rooms(s: State, room: crate::backups::Room, now: i64)
    requires
        is_state(s, room, now),
    ensures
        s.tone == crate::layout::Tone::Fine <==> room.status.active is Some,
        s.tone == crate::layout::Tone::Gold <==> room.status.active is None && room.status.queue_length > 0,
        s.polls == "bak.polls_2" <==> room.status.active is Some || room.status.queue_length > 0,
        room.status.active is None && room.status.queue_length > 1 ==> (s.word matches crate::msg::Msg::One(_, f) && f.arg
            == crate::msg::Arg::Nat(room.status.queue_length)),
        room.status.active is None && room.status.queue_length == 0 ==> (s.detail matches crate::msg::Msg::Two(_, on, all)
            && on.arg == crate::msg::Arg::Nat(switched_on(room.dests@) as u64) && all.arg == crate::msg::Arg::Nat(
            room.dests@.len() as u64,
        )),
        room.status.active matches Some(a) ==> (a.dest_path matches Some(path) ==> (s.detail matches crate::msg::Msg::Four(
            _,
            _,
            to,
            _,
            _,
        ) && (to.arg matches crate::msg::Arg::Text(t) && t@ == path@))),
{
    paces_are_told_apart();
}

// ── The cursor ───────────────────────────────────────────────────────────

/// A step goes to the row beside, stays at the ends, and starts at the end it
/// comes from; a step back undoes it.
pub proof fn steps_go_to_the_row_beside(s: usize, n: int)
    requires
        0 <= s < n <= usize::MAX,
    ensures
        row_down(None, n) == Some(0usize),
        row_up(None, n) == Some((n - 1) as usize),
        s + 1 < n ==> row_down(Some(s), n) == Some((s + 1) as usize) && row_up(row_down(Some(s), n), n) == Some(s),
        s + 1 == n ==> row_down(Some(s), n) == Some(s),
        s > 0 ==> row_up(Some(s), n) == Some((s - 1) as usize) && row_down(row_up(Some(s), n), n) == Some(s),
        s == 0 ==> row_up(Some(s), n) == Some(s),
{
}

/// A cursor that its row is gone from rests on the last row.
pub proof fn cursors_stay_on_a_row(i: int, n: int)
    requires
        0 <= i,
        0 < n,
    ensures
        0 <= within(i, n) < n,
        i < n ==> within(i, n) == i,
        i >= n ==> within(i, n) == n - 1,
{
}

/// The wheel moves by one line, back and forth, and stops at the top.
pub proof fn the_wheel_moves_by_a_line(at: usize)
    ensures
        at < usize::MAX ==> scrolled(at, false) == at + 1 && scrolled(scrolled(at, false), true) == at,
        at > 0 ==> scrolled(at, true) == at - 1,
        scrolled(0, true) == 0,
{
}

// ── The clock's zone ─────────────────────────────────────────────────────

/// A zone's changes in the order of time.
pub open spec fn one_after_another(changes: Seq<Change>) -> bool {
    forall|i: int, j: int| 0 <= i < j < changes.len() ==> #[trigger] changes[i].at < #[trigger] changes[j].at
}

/// The offset at an instant is that of the change in force: the latest at or
/// before it, or the first of all where none is.
pub proof fn the_change_in_force_counts(base: i32, changes: Seq<Change>, t: int, i: int)
    requires
        one_after_another(changes),
    ensures
        0 <= i < changes.len() && changes[i].at <= t && (i + 1 < changes.len() ==> t < changes[i + 1].at) ==> offset_in(
            base,
            changes,
            t,
        ) == changes[i].offset,
        changes.len() == 0 || t < changes[0].at ==> offset_in(base, changes, t) == base,
    decreases changes.len(),
{
    if changes.len() > 0 {
        let fewer = changes.drop_last();
        assert(one_after_another(fewer));
        the_change_in_force_counts(base, fewer, t, i);
        if 0 <= i < changes.len() && changes[i].at <= t && (i + 1 < changes.len() ==> t < changes[i + 1].at) {
            if i + 1 < changes.len() {
                if i + 1 < changes.len() - 1 {
                    assert(changes[i + 1].at < changes[changes.len() - 1].at);
                }
                assert(fewer[i] == changes[i]);
            }
        }
        if t < changes[0].at {
            if changes.len() > 1 {
                assert(changes[0].at < changes[changes.len() - 1].at);
                assert(fewer[0] == changes[0]);
            }
        }
    }
}

/// A second's days, hours and minutes.
proof fn parts_of_a_second(local: int)
    ensures
        0 <= local - (local / 86400 * 86400 + local % 86400 / 3600 * 3600 + local % 3600 / 60 * 60) < 60,
        0 <= local % 86400 / 3600 < 24,
        0 <= local % 3600 / 60 < 60,
{
    let rest = local % 86400;
    assert(local % 3600 == rest % 3600);
}

/// The clock on the wall shows the instant, some seconds ahead: its days, hours
/// and minutes together with less than a minute.
pub proof fn the_wall_shows_the_instant(w: Wall, t: int, offset: int)
    requires
        is_wall(w, t, offset),
    ensures
        0 <= t + offset - (w.days * 86400 + w.hour * 3600 + w.minute * 60) < 60,
        0 <= w.hour < 24,
        0 <= w.minute < 60,
{
    parts_of_a_second(t + offset);
}

/// The date on the wall is that of its day.
pub proof fn the_wall_shows_the_date(w: Wall, t: int, offset: int)
    requires
        is_wall(w, t, offset),
    ensures
        epoch_day(w.year as int, w.month as int, w.day as int) == w.days,
        valid_date(w.year as int, w.month as int, w.day as int),
{
    day_has_a_date(w.days as int);
}

// ── The address and the clipboard ────────────────────────────────────────

/// The header shows the host of an address, or the address where it has none.
pub proof fn hosts_are_shown(server: Seq<char>)
    ensures
        host_in(server) matches Some(host) ==> shown_host(server) == host,
        host_in(server) is None ==> shown_host(server) == server,
{
}

/// What is put on the clipboard stands whole in its frame.
pub proof fn payloads_stand_whole(payload: Seq<char>)
    ensures
        clipboard_frame(payload).len() == payload.len() + 9,
        clipboard_frame(payload).subrange(7, 7 + payload.len() as int) == payload,
        clipboard_frame(payload)[0] == '\x1b',
        clipboard_frame(payload).last() == '\\',
{
}

// ── Names for the server ─────────────────────────────────────────────────

/// The names of the kinds of period and of the bars: no two alike.
proof fn kinds_are_told_apart()
    ensures
        "week"@.len() == 4 && "week"@[0] == 'w',
        "month"@.len() == 5 && "month"@[0] == 'm',
        "quarter"@.len() == 7 && "quarter"@[0] == 'q',
        "half"@.len() == 4 && "half"@[0] == 'h',
        "year"@.len() == 4 && "year"@[0] == 'y',
        "all"@.len() == 3 && "all"@[0] == 'a',
        "day"@.len() == 3 && "day"@[0] == 'd',
{
    reveal_strlit("week");
    reveal_strlit("month");
    reveal_strlit("quarter");
    reveal_strlit("half");
    reveal_strlit("year");
    reveal_strlit("all");
    reveal_strlit("day");
}

/// A week, a month and a quarter are drawn day by day, a half-year week by week,
/// and what is longer month by month: the bars asked for are the bars drawn.
pub proof fn periods_are_drawn_in_their_bars(p: Preset)
    ensures
        bucket_named(bucket_for(preset_name(p)@)@) == Bucket::Day <==> p == Preset::Week || p == Preset::Month || p
            == Preset::Quarter,
        bucket_named(bucket_for(preset_name(p)@)@) == Bucket::Week <==> p == Preset::Half,
        bucket_named(bucket_for(preset_name(p)@)@) == Bucket::Month <==> p == Preset::Year || p == Preset::All,
        preset_name(p) == "week" <==> p == Preset::Week,
        preset_name(p) == "month" <==> p == Preset::Month,
        preset_name(p) == "quarter" <==> p == Preset::Quarter,
        preset_name(p) == "half" <==> p == Preset::Half,
        preset_name(p) == "year" <==> p == Preset::Year,
        preset_name(p) == "all" <==> p == Preset::All,
{
    kinds_are_told_apart();
}

/// The names of the choices: no two alike.
proof fn choices_are_told_apart()
    ensures
        "plays"@.len() == 5 && "plays"@[1] == 'l',
        "time"@.len() == 4 && "time"@[1] == 'i',
        "all"@.len() == 3 && "all"@[1] == 'l',
        "local"@.len() == 5 && "local"@[1] == 'o',
        "peers"@.len() == 5 && "peers"@[1] == 'e',
        "tracks"@.len() == 6 && "tracks"@[1] == 'r',
        "artists"@.len() == 7 && "artists"@[1] == 'r',
        "albums"@.len() == 6 && "albums"@[1] == 'l',
        "genres"@.len() == 6 && "genres"@[1] == 'e',
        "sta.met_plays"@.len() == 13 && "sta.met_plays"@[1] == 't' && "sta.met_plays"@[11] == 'y',
        "sta.met_time"@.len() == 12 && "sta.met_time"@[1] == 't' && "sta.met_time"@[11] == 'e',
        "sta.origin_all"@.len() == 14 && "sta.origin_all"@[1] == 't' && "sta.origin_all"@[11] == 'a',
        "sta.origin_local"@.len() == 16 && "sta.origin_local"@[1] == 't' && "sta.origin_local"@[11] == 'l',
        "sta.origin_peers"@.len() == 16 && "sta.origin_peers"@[1] == 't' && "sta.origin_peers"@[11] == 'p',
        "sta.ent_tracks"@.len() == 14 && "sta.ent_tracks"@[1] == 't' && "sta.ent_tracks"@[11] == 'c',
        "sta.ent_artists"@.len() == 15 && "sta.ent_artists"@[1] == 't' && "sta.ent_artists"@[11] == 'i',
        "sta.ent_albums"@.len() == 14 && "sta.ent_albums"@[1] == 't' && "sta.ent_albums"@[11] == 'u',
        "sta.ent_genres"@.len() == 14 && "sta.ent_genres"@[1] == 't' && "sta.ent_genres"@[11] == 'r',
{
    reveal_strlit("plays");
    reveal_strlit("time");
    reveal_strlit("all");
    reveal_strlit("local");
    reveal_strlit("peers");
    reveal_strlit("tracks");
    reveal_strlit("artists");
    reveal_strlit("albums");
    reveal_strlit("genres");
    reveal_strlit("sta.met_plays");
    reveal_strlit("sta.met_time");
    reveal_strlit("sta.origin_all");
    reveal_strlit("sta.origin_local");
    reveal_strlit("sta.origin_peers");
    reveal_strlit("sta.ent_tracks");
    reveal_strlit("sta.ent_artists");
    reveal_strlit("sta.ent_albums");
    reveal_strlit("sta.ent_genres");
}

/// A measure goes by its own name, to the server and to the reader.
pub proof fn measures_go_by_their_names(m: Metric, name: &'static str, label: &'static str)
    requires
        call_ensures(Metric::param, (m,), name),
        call_ensures(Metric::label, (m,), label),
    ensures
        name == "plays" <==> m == Metric::Plays,
        name == "time" <==> m == Metric::Time,
        label == "sta.met_plays" <==> name == "plays",
        label == "sta.met_time" <==> name == "time",
{
    choices_are_told_apart();
}

/// An origin goes by its own name, to the server and to the reader.
pub proof fn origins_go_by_their_names(o: Origin, name: &'static str, label: &'static str)
    requires
        call_ensures(Origin::param, (o,), name),
        call_ensures(Origin::label, (o,), label),
    ensures
        name == "all" <==> o == Origin::All,
        name == "local" <==> o == Origin::Local,
        name == "peers" <==> o == Origin::Peers,
        label == "sta.origin_all" <==> name == "all",
        label == "sta.origin_local" <==> name == "local",
        label == "sta.origin_peers" <==> name == "peers",
{
    choices_are_told_apart();
}

/// What is ranked goes by its own name, to the server and to the reader.
pub proof fn rankings_go_by_their_names(e: Entity, name: &'static str, label: &'static str)
    requires
        call_ensures(Entity::param, (e,), name),
        call_ensures(Entity::label, (e,), label),
    ensures
        name == "tracks" <==> e == Entity::Tracks,
        name == "artists" <==> e == Entity::Artists,
        name == "albums" <==> e == Entity::Albums,
        name == "genres" <==> e == Entity::Genres,
        label == "sta.ent_tracks" <==> name == "tracks",
        label == "sta.ent_artists" <==> name == "artists",
        label == "sta.ent_albums" <==> name == "albums",
        label == "sta.ent_genres" <==> name == "genres",
{
    choices_are_told_apart();
}

/// The names of the triggers: no two alike.
proof fn triggers_are_told_apart()
    ensures
        "after-scan"@.len() == 10 && "after-scan"@[9] == 'n',
        "daily"@.len() == 5,
        "manual"@.len() == 6,
        "bak.trig_after_scan"@.len() == 19 && "bak.trig_after_scan"@[9] == 'a',
        "bak.trig_daily"@.len() == 14 && "bak.trig_daily"@[9] == 'd',
        "bak.trig_manual"@.len() == 15 && "bak.trig_manual"@[9] == 'm',
        "bak.trig_after_scan_desc"@.len() == 24 && "bak.trig_after_scan_desc"@[9] == 'a',
        "bak.trig_daily_desc"@.len() == 19 && "bak.trig_daily_desc"@[9] == 'd',
        "bak.trig_manual_desc"@.len() == 20 && "bak.trig_manual_desc"@[9] == 'm',
{
    reveal_strlit("after-scan");
    reveal_strlit("daily");
    reveal_strlit("manual");
    reveal_strlit("bak.trig_after_scan");
    reveal_strlit("bak.trig_daily");
    reveal_strlit("bak.trig_manual");
    reveal_strlit("bak.trig_after_scan_desc");
    reveal_strlit("bak.trig_daily_desc");
    reveal_strlit("bak.trig_manual_desc");
}

/// A trigger's name for the server is read back as that trigger, and its label
/// and its help are its own.
pub proof fn triggers_go_by_their_names(t: Trigger, name: &'static str, back: Trigger, label: &'static str, help: &'static str)
    requires
        call_ensures(Trigger::as_str, (t,), name),
        call_ensures(Trigger::parse, (name,), back),
        call_ensures(Trigger::label, (t,), label),
        call_ensures(Trigger::description, (t,), help),
    ensures
        back == t,
        name@ == "daily"@ <==> t == Trigger::Daily,
        name@ == "manual"@ <==> t == Trigger::Manual,
        label == "bak.trig_daily" <==> t == Trigger::Daily,
        label == "bak.trig_manual" <==> t == Trigger::Manual,
        label == "bak.trig_after_scan" <==> t == Trigger::AfterScan,
        help == "bak.trig_daily_desc" <==> t == Trigger::Daily,
        help == "bak.trig_manual_desc" <==> t == Trigger::Manual,
        help == "bak.trig_after_scan_desc" <==> t == Trigger::AfterScan,
{
    triggers_are_told_apart();
}

} // verus!
