//! How the listening report is shown: its tips and state, the tiles and what
//! they compare with, the ranking, the log, and the period list.

use vstd::prelude::*;

use crate::clock::iso_unix;
use crate::layout::{table_view, tone_of, Rect, Tone};
use crate::msg::{Arg, Fill, Msg};
use crate::stats::{Entity, Label, Metric, Modal, OriginSlice, Origins, Page, Period, Preset, StatsSummary, Tab, TopItem};
use crate::stats_series::{cell_width_of, fold_of, fold_values, Bucket};
use crate::stats_words::{client_words, date_long, day_key_label, day_label, days_words, fmt_clock, fmt_duration, hour_label, is_legacy, join_artist, listened_words, outcome_words, plays_words, time_label, track_words, tracks_words, via_words, HistoryItem, Track};
use crate::text::{chars_of, fmt_count, printable, same, text_of};
use crate::zone::{offset_at, Zone};

verus! {

use crate::clock::{is_timestamp, timestamp_value};
use crate::federation::string_at;
use crate::layout::{further, left_of, row_tone, window};
use crate::msg::{filled, one, reads};
use crate::stats::{header_key, is_label_words, measure};
use crate::stats_series::{cell_width, fold_for, folded, total};
use crate::stats_words::{clock_words, completed, date_said, day_said, days_said, duration, hour_said, is_client, is_day_key, is_listened, is_outcome, is_via, joined_artist, or_empty, path_at, plays_said, tag, tags_doc, text_in, time_said, title_of, tracks_said, year_at};
use crate::text::{grouped, printed};
use crate::zone::offset_of;

/// The smallest window that the report is drawn into.
pub const MIN_W: u16 = 80;

pub const MIN_H: u16 = 24;

/// The cap on a name from the log.
pub const TEXT_MAX: usize = 120;

/// How tall a chart is.
pub const CHART_ROWS: u16 = 4;

/// How many cells a share has.
pub const SHARE_W: usize = 10;

/// A text cut to a width, an ellipsis for what is gone; nothing in no cells.
pub open spec fn cut(s: Seq<char>, w: nat) -> Seq<char> {
    if s.len() <= w {
        s
    } else if w == 0 {
        Seq::empty()
    } else {
        s.take(w - 1).push('…')
    }
}

/// A text cut to a width.
pub fn clip(s: &str, w: u16) -> (out: String)
    ensures
        out@ == cut(s@, w as nat),
        out@.len() <= w,
{
    let cs = chars_of(s);
    let n: usize = cs.len();
    if n <= w as usize {
        return text_of(&cs, 0, n);
    }
    if w == 0 {
        return String::new();
    }
    let mut out = text_of(&cs, 0, w as usize - 1);
    out.push('…');
    proof {
        assert(out@ =~= s@.take(w - 1).push('…'));
    }
    out
}

// ── The line of tips ─────────────────────────────────────────────────────

/// What works on the page right now, tip by tip.
pub open spec fn tips(page: Page) -> Seq<&'static str> {
    let none = Seq::<&'static str>::empty();
    let selected = page.sel is Some;
    (if page.tab != Tab::Overview && page.row_count() > 0 {
        seq![if selected { "sta.hint_rows" } else { "sta.hint_select" }]
    } else {
        none
    }) + seq!["sta.hint_tabs"] + (if page.tab == Tab::Top {
        seq!["sta.hint_entity", "sta.hint_metric"]
    } else {
        none
    }) + (if page.tab == Tab::Recent && selected { seq!["sta.hint_forget"] } else { none })
        + (if !page.log_is_empty() && !page.no_api {
        seq!["sta.hint_period"] + (if page.tab == Tab::Overview { seq!["sta.hint_pick"] } else { none })
            + (if page.has_peers() { seq!["sta.hint_origin"] } else { none })
    } else {
        none
    }) + seq![if selected { "sta.hint_deselect" } else { "sta.hint_quit" }]
}

/// The tips of the page, a dot between every two.
pub fn page_hints(page: &Page) -> (out: Vec<&'static str>)
    ensures
        out@ == tips(*page),
{
    let mut out: Vec<&'static str> = Vec::new();
    let selected = page.sel.is_some();
    if page.tab != Tab::Overview && page.rows() > 0 {
        out.push(if selected { "sta.hint_rows" } else { "sta.hint_select" });
    }
    out.push("sta.hint_tabs");
    if page.tab == Tab::Top {
        out.push("sta.hint_entity");
        out.push("sta.hint_metric");
    }
    if page.tab == Tab::Recent && selected {
        out.push("sta.hint_forget");
    }
    if !page.no_plays_ever() && !page.no_api {
        out.push("sta.hint_period");
        if page.tab == Tab::Overview {
            out.push("sta.hint_pick");
        }
        if page.peer_plays() {
            out.push("sta.hint_origin");
        }
    }
    out.push(if selected { "sta.hint_deselect" } else { "sta.hint_quit" });
    proof {
        assert(out@ =~= tips(*page));
    }
    out
}

/// A phrase whose one gap is a period's name.
pub open spec fn names_period(msg: Msg, key: &'static str, l: Label) -> bool {
    &&& msg matches Msg::One(k, fill)
    &&& k == key
    &&& fill.name == "period"
    &&& fill.arg matches Arg::Phrase(m)
    &&& is_label_words(*m, l)
}

fn period_named(key: &'static str, l: &Label) -> (msg: Msg)
    ensures
        names_period(msg, key, *l),
{
    Msg::One(key, Fill { name: "period", arg: Arg::Phrase(Box::new(l.words())) })
}

/// The tips of the card that is open; nothing where none is.
pub fn modal_hint(page: &Page) -> (out: Option<Msg>)
    ensures
        match page.modal {
            Modal::Closed => out is None,
            Modal::Period(_) => out matches Some(m) && names_period(m, "sta.hint_period_modal", page.period.name),
            Modal::Forget(_) => out == Some(Msg::Key("sta.hint_forget_modal")),
        },
{
    match page.modal {
        Modal::Closed => None,
        Modal::Period(_) => Some(period_named("sta.hint_period_modal", &page.period.name)),
        Modal::Forget(_) => Some(Msg::Key("sta.hint_forget_modal")),
    }
}

// ── The state's line ─────────────────────────────────────────────────────

/// What the state's line says.
#[derive(Debug, PartialEq)]
pub enum StateLine {
    /// The server does not know the report.
    NoApi,
    /// Nothing was ever played.
    Empty,
    /// Nothing was played in the period.
    Nothing,
    /// The period in figures.
    Facts(Msg),
}

/// Which clock the report goes by.
pub open spec fn zone_key(zone: Option<Zone>) -> &'static str {
    if zone is Some { "sta.zone_local" } else { "sta.zone_utc" }
}

pub open spec fn phrase(name: &'static str, m: Msg) -> Fill {
    Fill { name, arg: Arg::Phrase(Box::new(m)) }
}

/// A period in figures: plays, time, tracks, and by which clock.
pub open spec fn facts(s: StatsSummary, zone: Option<Zone>) -> Msg {
    Msg::Four(
        "sta.facts",
        phrase("plays", plays_said(s.plays)),
        phrase("time", duration(s.listened_ms as int)),
        phrase("tracks", tracks_said(s.unique_tracks)),
        phrase("zone", Msg::Key(zone_key(zone))),
    )
}

pub open spec fn state_of(page: Page) -> Option<StateLine> {
    if page.no_api {
        Some(StateLine::NoApi)
    } else {
        match page.data {
            Some(d) => Some(
                if page.log_is_empty() {
                    StateLine::Empty
                } else if d.summary.events == 0 {
                    StateLine::Nothing
                } else {
                    StateLine::Facts(facts(d.summary, page.zone))
                },
            ),
            None => None,
        }
    }
}

fn filling(name: &'static str, m: Msg) -> (f: Fill)
    ensures
        f == phrase(name, m),
{
    Fill { name, arg: Arg::Phrase(Box::new(m)) }
}

fn clock_key(zone: &Option<Zone>) -> (key: &'static str)
    ensures
        key == zone_key(*zone),
{
    if zone.is_some() { "sta.zone_local" } else { "sta.zone_utc" }
}

pub fn state_line(page: &Page) -> (out: Option<StateLine>)
    ensures
        out == state_of(*page),
{
    if page.no_api {
        return Some(StateLine::NoApi);
    }
    match &page.data {
        Some(d) => {
            if page.no_plays_ever() {
                Some(StateLine::Empty)
            } else if d.summary.events == 0 {
                Some(StateLine::Nothing)
            } else {
                let s = &d.summary;
                Some(
                    StateLine::Facts(
                        Msg::Four(
                            "sta.facts",
                            filling("plays", plays_words(s.plays)),
                            filling("time", fmt_duration(s.listened_ms)),
                            filling("tracks", tracks_words(s.unique_tracks)),
                            filling("zone", Msg::Key(clock_key(&page.zone))),
                        ),
                    ),
                )
            }
        },
        None => None,
    }
}

// ── The controls ─────────────────────────────────────────────────────────

/// Where the period's control stands: the step back, the name, the step
/// forward, the words that open the list, and the first column past them.
#[derive(Clone, Copy, Debug, PartialEq, Eq, Structural)]
pub struct Controls {
    pub back: u16,
    pub name: u16,
    pub forward: u16,
    pub list: u16,
    pub end: u16,
}

pub fn controls(x: u16, label: u16, name: u16, list: u16) -> (out: Controls)
    ensures
        out.back == further(further(x as int, label as int), 2),
        out.name == further(out.back as int, 2),
        out.forward == further(out.name as int, name as int),
        out.list == further(further(out.forward as int, 2), 3),
        out.end == further(out.list as int, list as int),
{
    let back: u16 = x.saturating_add(label).saturating_add(2);
    let at: u16 = back.saturating_add(2);
    let forward: u16 = at.saturating_add(name);
    let words: u16 = forward.saturating_add(2).saturating_add(3);
    Controls { back, name: at, forward, list: words, end: words.saturating_add(list) }
}

/// What a labelled picker takes: its label, two cells, and every choice with
/// its mark and the cells after it.
pub open spec fn picker_need(label: int, choices: Seq<u16>) -> int
    decreases choices.len(),
{
    if choices.len() == 0 {
        label + 2
    } else {
        picker_need(label, choices.drop_last()) + choices.last() + 7
    }
}

/// Where a picker of `need` cells starts that stands against the right edge,
/// but no further left than `from`; nowhere if it would cross the edge.
pub open spec fn picker_start(from: int, need: int, right: int) -> Option<int> {
    let against = left_of(right, need);
    let start = if against > from { against } else { from };
    if start + need <= right { Some(start) } else { None }
}

/// Where a labelled picker starts, given the widths of its choices.
pub fn picker_place(from: u16, label: u16, choices: &Vec<u16>, right: u16) -> (x: Option<u16>)
    ensures
        match picker_start(from as int, picker_need(label as int, choices@), right as int) {
            Some(start) => x is Some && x->0 == start,
            None => x is None,
        },
{
    let mut need: u128 = label as u128 + 2;
    let mut i: usize = 0;
    proof {
        assert(choices@.take(0) =~= Seq::<u16>::empty());
    }
    while i < choices.len()
        invariant
            i <= choices@.len(),
            need == picker_need(label as int, choices@.take(i as int)),
            need <= 65537 + 65542 * i,
        decreases choices@.len() - i,
    {
        proof {
            assert(choices@.take(i + 1).drop_last() =~= choices@.take(i as int));
        }
        need = need + choices[i] as u128 + 7;
        i = i + 1;
    }
    proof {
        assert(choices@.take(i as int) =~= choices@);
    }
    let against: u128 = if right as u128 > need { right as u128 - need } else { 0 };
    let start: u128 = if against > from as u128 { against } else { from as u128 };
    if start + need <= right as u128 { Some(start as u16) } else { None }
}

// ── The tiles ────────────────────────────────────────────────────────────

/// A figure, its name and a detail.
#[derive(Debug, PartialEq)]
pub struct Tile {
    pub value: Msg,
    pub label: &'static str,
    pub detail: Msg,
}

/// The gap that says what a figure compares with.
pub open spec fn against(fill: Fill, l: Label) -> bool {
    fill.name == "vs" && (fill.arg matches Arg::Phrase(m) && is_label_words(*m, l))
}

/// The same as before.
pub open spec fn is_same(msg: Msg, l: Label) -> bool {
    msg matches Msg::One(key, vs) && key == "sta.sub_same" && against(vs, l)
}

/// A comparison in percent: `pct` is the change from the figure before, and
/// nothing can be said where there was none.
pub open spec fn is_change(out: Option<Msg>, before: Option<u64>, pct: i64, l: Label) -> bool {
    if before is None || before->0 == 0 {
        out is None
    } else if pct == 0 {
        out matches Some(m) && is_same(m, l)
    } else {
        &&& out matches Some(m)
        &&& m matches Msg::Two(key, by, vs)
        &&& key == (if pct > 0 { "sta.sub_up" } else { "sta.sub_down" })
        &&& by == (Fill { name: "pct", arg: Arg::Nat((if pct > 0 { pct as int } else { -pct }) as u64) })
        &&& against(vs, l)
    }
}

fn compared(l: &Label) -> (f: Fill)
    ensures
        against(f, *l),
{
    Fill { name: "vs", arg: Arg::Phrase(Box::new(l.words())) }
}

/// How a count compares with the one before: by so many percent up or down, or
/// the same. Nothing with nothing to compare with.
pub fn delta_text(before: Option<u64>, pct: i64, l: &Label) -> (out: Option<Msg>)
    ensures
        is_change(out, before, pct, *l),
{
    match before {
        Some(b) => {
            if b == 0 {
                None
            } else if pct == 0 {
                Some(Msg::One("sta.sub_same", compared(l)))
            } else if pct > 0 {
                Some(Msg::Two("sta.sub_up", Fill { name: "pct", arg: Arg::Nat(pct as u64) }, compared(l)))
            } else {
                let down: u64 = (-(pct as i128)) as u64;
                Some(Msg::Two("sta.sub_down", Fill { name: "pct", arg: Arg::Nat(down) }, compared(l)))
            }
        },
        None => None,
    }
}

/// A comparison of times, as time: the same within a minute, else the
/// difference.
pub open spec fn is_time_change(out: Option<Msg>, now: u64, before: Option<u64>, l: Label) -> bool {
    if before is None || before->0 == 0 {
        out is None
    } else if -60000 < now - before->0 < 60000 {
        out matches Some(m) && is_same(m, l)
    } else {
        &&& out matches Some(m)
        &&& m matches Msg::Two(key, by, vs)
        &&& key == (if now > before->0 { "sta.sub_time_up" } else { "sta.sub_time_down" })
        &&& by == phrase("d", duration(if now > before->0 { now - before->0 } else { before->0 - now }))
        &&& against(vs, l)
    }
}

/// How a time compares with the one before.
pub fn delta_duration(now: u64, before: Option<u64>, l: &Label) -> (out: Option<Msg>)
    ensures
        is_time_change(out, now, before, *l),
{
    match before {
        Some(b) => {
            if b == 0 {
                return None;
            }
            let diff: u64 = if now > b { now - b } else { b - now };
            if diff < 60_000 {
                Some(Msg::One("sta.sub_same", compared(l)))
            } else if now > b {
                Some(Msg::Two("sta.sub_time_up", filling("d", fmt_duration(diff)), compared(l)))
            } else {
                Some(Msg::Two("sta.sub_time_down", filling("d", fmt_duration(diff)), compared(l)))
            }
        },
        None => None,
    }
}

fn or_nothing(o: Option<Msg>) -> (m: Msg)
    ensures
        o matches Some(x) ==> m == x,
        o is None ==> m == Msg::Key("sta.sub_none"),
{
    match o {
        Some(m) => m,
        None => Msg::Key("sta.sub_none"),
    }
}

/// Whether something can be said against a figure before.
pub open spec fn comparable(before: Option<u64>) -> bool {
    before is Some && before->0 > 0
}

/// What the totals of the period before were.
#[derive(Clone, Copy, Debug, PartialEq, Eq, Structural)]
pub struct Before {
    pub plays: u64,
    pub listened_ms: u64,
}

/// The six tiles: plays, time, tracks, skips, streak and sessions, each with a
/// detail; the first two compare with the period before where there is one
/// that can be named.
pub open spec fn are_tiles(out: Seq<Tile>, s: StatsSummary, before: Option<Before>, pct: i64, vs: Option<Label>) -> bool {
    let plays = match before {
        Some(b) => Some(b.plays),
        None => None,
    };
    let time = match before {
        Some(b) => Some(b.listened_ms),
        None => None,
    };
    &&& out.len() == 6
    &&& reads(out[0].value, grouped(s.plays as nat)) && out[0].label == "sta.tile_plays"
    &&& match vs {
        Some(l) => if comparable(plays) {
            is_change(Some(out[0].detail), plays, pct, l)
        } else {
            out[0].detail == Msg::Key("sta.sub_none")
        },
        None => out[0].detail == Msg::Key("sta.sub_counted"),
    }
    &&& out[1].value == duration(s.listened_ms as int) && out[1].label == "sta.tile_time"
    &&& match vs {
        Some(l) => if comparable(time) {
            is_time_change(Some(out[1].detail), s.listened_ms, time, l)
        } else {
            out[1].detail == Msg::Key("sta.sub_none")
        },
        None => out[1].detail == Msg::Key("sta.sub_every"),
    }
    &&& reads(out[2].value, grouped(s.unique_tracks as nat)) && out[2].label == "sta.tile_tracks" && out[2].detail == (
    match s.library_pct {
        Some(p) => one("sta.sub_library", "pct", Arg::Num(p)),
        None => Msg::Key("sta.sub_different"),
    })
    &&& reads(out[3].value, grouped(s.skips as nat)) && out[3].label == "sta.tile_skips" && out[3].detail == (
    match s.skip_pct {
        Some(p) => one("sta.sub_starts", "pct", Arg::Num(p)),
        None => Msg::Key("sta.sub_early"),
    })
    &&& out[4].value == days_said(s.streak_days.current as u64) && out[4].label == "sta.tile_streak" && out[4].detail == one(
        "sta.sub_longest",
        "n",
        Arg::Count(s.streak_days.longest as u64),
    )
    &&& reads(out[5].value, grouped(s.sessions.count as nat)) && out[5].label == "sta.tile_sessions" && out[5].detail == (
    match s.sessions.avg_ms {
        Some(avg) => if avg > 0 {
            Msg::One("sta.sub_each", phrase("d", duration(avg as int)))
        } else {
            Msg::Key("sta.sub_sittings")
        },
        None => Msg::Key("sta.sub_sittings"),
    })
}

fn percent_or(pct: Option<i64>, key: &'static str, none: &'static str) -> (m: Msg)
    ensures
        m == (match pct {
            Some(p) => one(key, "pct", Arg::Num(p)),
            None => Msg::Key(none),
        }),
{
    match pct {
        Some(p) => Msg::One(key, Fill { name: "pct", arg: Arg::Num(p) }),
        None => Msg::Key(none),
    }
}

/// The six tiles. `pct` is the change of the plays in whole percent, `vs` what
/// the plays and the time compare with.
pub fn tiles(s: &StatsSummary, before: Option<Before>, pct: i64, vs: Option<&Label>) -> (out: Vec<Tile>)
    ensures
        are_tiles(
            out@,
            *s,
            before,
            pct,
            match vs {
                Some(l) => Some(*l),
                None => None,
            },
        ),
{
    let (plays_sub, time_sub) = match vs {
        Some(l) => {
            let (plays, time) = match before {
                Some(x) => (Some(x.plays), Some(x.listened_ms)),
                None => (None, None),
            };
            (or_nothing(delta_text(plays, pct, l)), or_nothing(delta_duration(s.listened_ms, time, l)))
        },
        None => (Msg::Key("sta.sub_counted"), Msg::Key("sta.sub_every")),
    };
    let sessions_sub = match s.sessions.avg_ms {
        Some(avg) => {
            if avg > 0 {
                Msg::One("sta.sub_each", filling("d", fmt_duration(avg)))
            } else {
                Msg::Key("sta.sub_sittings")
            }
        },
        None => Msg::Key("sta.sub_sittings"),
    };
    let mut out: Vec<Tile> = Vec::new();
    out.push(Tile { value: Msg::Raw(fmt_count(s.plays)), label: "sta.tile_plays", detail: plays_sub });
    out.push(Tile { value: fmt_duration(s.listened_ms), label: "sta.tile_time", detail: time_sub });
    out.push(
        Tile {
            value: Msg::Raw(fmt_count(s.unique_tracks)),
            label: "sta.tile_tracks",
            detail: percent_or(s.library_pct, "sta.sub_library", "sta.sub_different"),
        },
    );
    out.push(
        Tile {
            value: Msg::Raw(fmt_count(s.skips)),
            label: "sta.tile_skips",
            detail: percent_or(s.skip_pct, "sta.sub_starts", "sta.sub_early"),
        },
    );
    out.push(
        Tile {
            value: days_words(s.streak_days.current as u64),
            label: "sta.tile_streak",
            detail: Msg::One(
                "sta.sub_longest",
                Fill { name: "n", arg: Arg::Count(s.streak_days.longest as u64) },
            ),
        },
    );
    out.push(Tile { value: Msg::Raw(fmt_count(s.sessions.count)), label: "sta.tile_sessions", detail: sessions_sub });
    out
}

// ── The overview ─────────────────────────────────────────────────────────

/// What the overview shows.
#[derive(Clone, Copy, Debug, PartialEq, Eq, Structural)]
pub enum Overview {
    /// Nothing yet, or nothing at all.
    Blank,
    /// That nothing was ever played.
    Empty,
    /// The controls, and that nothing was played in the period.
    Nothing,
    /// The controls, the tiles and the charts.
    Full,
}

pub fn overview(page: &Page) -> (out: Overview)
    ensures
        out == (if page.no_api || page.data is None {
            Overview::Blank
        } else if page.log_is_empty() {
            Overview::Empty
        } else if page.data->0.summary.events == 0 {
            Overview::Nothing
        } else {
            Overview::Full
        }),
{
    if page.no_api {
        return Overview::Blank;
    }
    match &page.data {
        None => Overview::Blank,
        Some(d) => {
            if page.no_plays_ever() {
                Overview::Empty
            } else if d.summary.events == 0 {
                Overview::Nothing
            } else {
                Overview::Full
            }
        },
    }
}

/// The rows of the overview: the tiles under the controls, as many of their
/// two rows as fit, then each chart that fits whole with its title and axis.
#[derive(Clone, Copy, Debug, PartialEq, Eq, Structural)]
pub struct OverviewRows {
    pub tiles: u16,
    pub tile_rows: u16,
    pub days: Option<u16>,
    pub hours: Option<u16>,
}

pub open spec fn overview_places(y: int, bottom: int) -> OverviewRows {
    let tiles = further(y, 2);
    let days = further(tiles, 8);
    let hours = further(days, 6);
    OverviewRows {
        tiles: tiles as u16,
        tile_rows: if tiles + 3 > bottom {
            0
        } else if tiles + 7 > bottom {
            1
        } else {
            2
        },
        days: if days + 6 > bottom { None } else { Some(days as u16) },
        hours: if days + 6 > bottom || hours + 6 > bottom { None } else { Some(hours as u16) },
    }
}

pub fn overview_rows(body: Rect) -> (out: OverviewRows)
    ensures
        out == overview_places(body.y as int, body.ends_below()),
{
    let bottom: u32 = body.bottom() as u32;
    let tiles: u16 = body.y.saturating_add(2);
    let days: u16 = tiles.saturating_add(8);
    let hours: u16 = days.saturating_add(CHART_ROWS + 2);
    let show_days = days as u32 + 6 <= bottom;
    let show_hours = show_days && hours as u32 + 6 <= bottom;
    OverviewRows {
        tiles,
        tile_rows: if tiles as u32 + 3 > bottom {
            0
        } else if tiles as u32 + 7 > bottom {
            1
        } else {
            2
        },
        days: if show_days { Some(days) } else { None },
        hours: if show_hours { Some(hours) } else { None },
    }
}

/// Nothing of the overview is drawn past the page's bottom: a chart that is
/// shown ends within it, and the tiles before a chart are shown whole.
pub proof fn the_overview_fits(y: int, bottom: int)
    requires
        0 <= y <= bottom <= u16::MAX,
    ensures
        ({
            let o = overview_places(y, bottom);
            &&& o.tile_rows > 0 ==> o.tiles + 4 * o.tile_rows - 1 <= bottom
            &&& o.days matches Some(d) ==> o.tile_rows == 2 && o.tiles + 8 == d && d + CHART_ROWS + 2 <= bottom
            &&& o.hours matches Some(h) ==> o.days is Some && o.days->0 + CHART_ROWS + 2 == h && h + CHART_ROWS + 2 <= bottom
        }),
{
}

/// How wide the hours' chart and its note may be: two cells an hour beside the
/// origins, where there are plays of peers and room, else the whole width.
pub fn hours_width(width: u16, peers: bool) -> (w: u16)
    ensures
        w == (if peers && left_of(width as int, 51) >= 40 { 48 } else { width }),
{
    if peers && width.saturating_sub(51) >= 40 { 48 } else { width }
}

/// Where the chart of the days begins: with all time, where the log does, for
/// the period's own beginning lies long before; else with the period.
pub open spec fn chart_start(preset: Preset, earliest: Option<Seq<char>>, from: Seq<char>) -> Seq<char> {
    match earliest {
        Some(e) => if preset == Preset::All { e } else { from },
        None => from,
    }
}

pub fn chart_from<'a>(preset: Preset, earliest: Option<&'a str>, from: &'a str) -> (s: &'a str)
    ensures
        s@ == chart_start(
            preset,
            match earliest {
                Some(e) => Some(e@),
                None => None,
            },
            from@,
        ),
{
    match earliest {
        Some(e) => match preset {
            Preset::All => e,
            _ => from,
        },
        None => from,
    }
}

/// The chart of the days: its bars, how many days or weeks or months each
/// stands for, how wide it is, and the chart's name.
#[derive(Debug, PartialEq)]
pub struct DayChart {
    pub values: Vec<u64>,
    pub fold: usize,
    pub cell: u16,
    pub title: Msg,
}

pub open spec fn chart_title(bucket: Bucket, fold: int) -> Msg {
    match bucket {
        Bucket::Day => if fold == 1 {
            Msg::Key("sta.chart_days")
        } else {
            one("sta.chart_days_folded", "n", Arg::Nat(fold as u64))
        },
        Bucket::Week => Msg::Key("sta.chart_weeks"),
        Bucket::Month => Msg::Key("sta.chart_months"),
    }
}

pub fn day_chart(values: &Vec<u64>, bucket: Bucket, width: usize) -> (c: DayChart)
    requires
        total(values@) <= u64::MAX,
    ensures
        c.fold == fold_for(values@.len() as int, width as int),
        c.values@.len() == folded(values@, c.fold as int).len(),
        forall|i: int| 0 <= i < c.values@.len() ==> #[trigger] c.values@[i] == folded(values@, c.fold as int)[i],
        c.cell == cell_width(c.values@.len() as int, width as int),
        c.title == chart_title(bucket, c.fold as int),
{
    let fold: usize = fold_of(values.len(), width);
    let bars = fold_values(values, fold);
    let cell: u16 = cell_width_of(bars.len(), width);
    let title = match bucket {
        Bucket::Day => {
            if fold == 1 {
                Msg::Key("sta.chart_days")
            } else {
                Msg::One("sta.chart_days_folded", Fill { name: "n", arg: Arg::Nat(fold as u64) })
            }
        },
        Bucket::Week => Msg::Key("sta.chart_weeks"),
        Bucket::Month => Msg::Key("sta.chart_months"),
    };
    DayChart { values: bars, fold, cell, title }
}

/// The busiest day in words; nothing where there is none.
pub open spec fn is_days_note(out: Option<Msg>, s: StatsSummary) -> bool {
    match s.top_day {
        Some(d) => if d.date@.len() == 0 {
            out is None
        } else if d.listened_ms > 0 {
            &&& out matches Some(m)
            &&& m matches Msg::Three(key, day, plays, time)
            &&& key == "sta.note_days"
            &&& day.name == "day" && (day.arg matches Arg::Phrase(w) && is_day_key(*w, d.date@))
            &&& plays == phrase("plays", plays_said(d.plays))
            &&& time == phrase("time", duration(d.listened_ms as int))
        } else {
            &&& out matches Some(m)
            &&& m matches Msg::Two(key, day, plays)
            &&& key == "sta.note_days_plain"
            &&& day.name == "day" && (day.arg matches Arg::Phrase(w) && is_day_key(*w, d.date@))
            &&& plays == phrase("plays", plays_said(d.plays))
        },
        None => out is None,
    }
}

pub fn days_note(s: &StatsSummary) -> (out: Option<Msg>)
    ensures
        is_days_note(out, *s),
{
    match &s.top_day {
        Some(d) => {
            if d.date.as_str().is_empty() {
                return None;
            }
            let day = filling("day", day_key_label(d.date.as_str()));
            let plays = filling("plays", plays_words(d.plays));
            if d.listened_ms > 0 {
                Some(Msg::Three("sta.note_days", day, plays, filling("time", fmt_duration(d.listened_ms))))
            } else {
                Some(Msg::Two("sta.note_days_plain", day, plays))
            }
        },
        None => None,
    }
}

/// The hour, and the weekday where it is one, that most was played at.
pub open spec fn is_hours_note(out: Option<Msg>, s: StatsSummary) -> bool {
    match s.peak_hour {
        Some(h) => match s.peak_weekday {
            Some(w) => if 0 <= w < 7 {
                &&& out matches Some(m)
                &&& m matches Msg::Two(key, hour, days)
                &&& key == "sta.note_hour_day"
                &&& filled(hour, "hour", hour_said(h as int))
                &&& days == phrase("days", Msg::Listed("sta.weekdays_plural", w as u32))
            } else {
                out matches Some(m) && crate::msg::says(m, "sta.note_hour", "hour", hour_said(h as int))
            },
            None => out matches Some(m) && crate::msg::says(m, "sta.note_hour", "hour", hour_said(h as int)),
        },
        None => out is None,
    }
}

pub fn hours_note(s: &StatsSummary) -> (out: Option<Msg>)
    ensures
        is_hours_note(out, *s),
{
    match s.peak_hour {
        Some(h) => {
            let hour = Fill { name: "hour", arg: Arg::Text(hour_label(h)) };
            match s.peak_weekday {
                Some(w) => {
                    if 0 <= w && w < 7 {
                        let days = filling("days", Msg::Listed("sta.weekdays_plural", w as u32));
                        Some(Msg::Two("sta.note_hour_day", hour, days))
                    } else {
                        Some(Msg::One("sta.note_hour", hour))
                    }
                },
                None => Some(Msg::One("sta.note_hour", hour)),
            }
        },
        None => None,
    }
}

/// What the overview says where nothing was played: where the log begins, if
/// it does.
pub open spec fn is_nothing_hint(msg: Msg, earliest: Option<Seq<char>>, zone: Option<Zone>) -> bool {
    match earliest {
        Some(e) => if is_timestamp(e) {
            let t = timestamp_value(e);
            msg == Msg::One("sta.nothing_hint", phrase("date", date_said(t, offset_of(zone, t) as int)))
        } else {
            msg == Msg::Key("sta.nothing_hint_plain")
        },
        None => msg == Msg::Key("sta.nothing_hint_plain"),
    }
}

/// When the log begins, as a date on the local clock.
fn begins_on(earliest: Option<&str>, zone: &Option<Zone>) -> (out: Option<Msg>)
    ensures
        match earliest {
            Some(e) => if is_timestamp(e@) {
                let t = timestamp_value(e@);
                out == Some(date_said(t, offset_of(*zone, t) as int))
            } else {
                out is None
            },
            None => out is None,
        },
{
    match earliest {
        Some(e) => match iso_unix(e) {
            Some(t) => Some(date_long(t, offset_at(zone, t))),
            None => None,
        },
        None => None,
    }
}

pub fn nothing_hint(earliest: Option<&str>, zone: &Option<Zone>) -> (msg: Msg)
    ensures
        is_nothing_hint(
            msg,
            match earliest {
                Some(e) => Some(e@),
                None => None,
            },
            *zone,
        ),
{
    match begins_on(earliest, zone) {
        Some(date) => Msg::One("sta.nothing_hint", filling("date", date)),
        None => Msg::Key("sta.nothing_hint_plain"),
    }
}

/// The words under the period list: where the log begins, if it does.
pub fn period_foot(earliest: Option<&str>, zone: &Option<Zone>) -> (out: Option<Msg>)
    ensures
        match earliest {
            Some(e) => if is_timestamp(e@) {
                let t = timestamp_value(e@);
                out == Some(Msg::One("sta.period_foot", phrase("date", date_said(t, offset_of(*zone, t) as int))))
            } else {
                out is None
            },
            None => out is None,
        },
{
    match begins_on(earliest, zone) {
        Some(date) => Some(Msg::One("sta.period_foot", filling("date", date))),
        None => None,
    }
}

// ── Shares ───────────────────────────────────────────────────────────────

/// The cells of a share's bar that are filled, to the nearest.
pub open spec fn share(v: int, whole: int) -> int {
    (v * 10 + whole / 2) / whole
}

/// A part of a whole fills no more than the bar, nothing fills none of it, and
/// the whole fills it.
pub proof fn shares_fit(v: int, whole: int)
    requires
        0 <= v <= whole,
        0 < whole,
    ensures
        0 <= share(v, whole) <= SHARE_W,
        share(0, whole) == 0,
        share(whole, whole) == SHARE_W,
{
    let half = whole / 2;
    assert(0 <= half < whole);
    assert(share(v, whole) <= 10) by (nonlinear_arith)
        requires
            0 <= v <= whole,
            0 < whole,
            0 <= half < whole,
            share(v, whole) == (v * 10 + half) / whole,
    ;
    assert(0 <= share(v, whole)) by (nonlinear_arith)
        requires
            0 <= v <= whole,
            0 < whole,
            0 <= half < whole,
            share(v, whole) == (v * 10 + half) / whole,
    ;
    assert(half / whole == 0) by (nonlinear_arith)
        requires
            0 < whole,
            0 <= half < whole,
    ;
    assert((whole * 10 + half) / whole == 10) by (nonlinear_arith)
        requires
            0 < whole,
            0 <= half < whole,
    ;
}

/// A larger part fills no less of the bar.
pub proof fn shares_grow(v: int, w: int, whole: int)
    requires
        0 <= v <= w,
        0 < whole,
    ensures
        share(v, whole) <= share(w, whole),
{
    vstd::arithmetic::div_mod::lemma_div_is_ordered(v * 10 + whole / 2, w * 10 + whole / 2, whole);
}

pub fn share_of(v: u64, whole: u64) -> (filled: usize)
    requires
        0 < whole,
        v <= whole,
    ensures
        filled == share(v as int, whole as int),
        filled <= SHARE_W,
{
    proof {
        shares_fit(v as int, whole as int);
    }
    ((v as u128 * 10 + (whole / 2) as u128) / whole as u128) as usize
}

/// The plays of both origins together, at least one.
pub open spec fn all_plays(o: Origins) -> int {
    if o.local.plays + o.peers.plays > 0 { o.local.plays + o.peers.plays } else { 1 }
}

/// How the bar is split between this server's tracks and the peers'.
pub fn origin_shares(o: &Origins) -> (out: (usize, usize))
    ensures
        out.0 == share(o.local.plays as int, all_plays(*o)),
        out.0 + out.1 == SHARE_W,
{
    let both: u128 = o.local.plays as u128 + o.peers.plays as u128;
    let whole: u128 = if both > 0 { both } else { 1 };
    proof {
        shares_fit(o.local.plays as int, whole as int);
    }
    let local: usize = ((o.local.plays as u128 * 10 + whole / 2) / whole) as usize;
    (local, SHARE_W - local)
}

/// What one origin's row says after its bar.
pub fn origin_words(o: &OriginSlice) -> (msg: Msg)
    ensures
        msg == Msg::Two("sta.plays_time", phrase("plays", plays_said(o.plays)), phrase("time", duration(o.listened_ms as int))),
{
    Msg::Two("sta.plays_time", filling("plays", plays_words(o.plays)), filling("time", fmt_duration(o.listened_ms)))
}

// ── The ranking ──────────────────────────────────────────────────────────

/// The columns of the ranking: tracks show when they were last played, groups
/// how many tracks they have.
#[derive(Clone, Copy, Debug, PartialEq, Eq, Structural)]
pub struct TopColumns {
    pub name: u16,
    pub name_width: u16,
    pub tracks: Option<u16>,
    pub share: u16,
    pub plays: u16,
    pub time: u16,
    pub last: Option<u16>,
}

pub const TOP_PLAYS_W: u16 = 6;

pub const TOP_TIME_W: u16 = 7;

pub const TOP_LAST_W: u16 = 12;

pub const TOP_TRACKS_W: u16 = 10;

/// The columns of the ranking, from the right edge: the names get the rest.
pub open spec fn top_places(x: int, right: int, tracks: bool) -> TopColumns {
    let last = left_of(right, 12);
    let time = if tracks { left_of(last, 9) } else { left_of(right, 7) };
    let plays = left_of(time, 8);
    let shares = left_of(plays, 12);
    let before = if tracks { shares } else { left_of(shares, 12) };
    let name = further(x, 4);
    TopColumns {
        name: name as u16,
        name_width: left_of(left_of(before, 2), name) as u16,
        tracks: if tracks { None } else { Some(before as u16) },
        share: shares as u16,
        plays: plays as u16,
        time: time as u16,
        last: if tracks { Some(last as u16) } else { None },
    }
}

pub fn top_columns(body: Rect, tracks: bool) -> (out: TopColumns)
    ensures
        out == top_places(body.x as int, body.ends_at(), tracks),
{
    let right: u16 = body.right();
    let last: u16 = right.saturating_sub(TOP_LAST_W);
    let time: u16 = if tracks { last.saturating_sub(2 + TOP_TIME_W) } else { right.saturating_sub(TOP_TIME_W) };
    let plays: u16 = time.saturating_sub(2 + TOP_PLAYS_W);
    let shares: u16 = plays.saturating_sub(2 + SHARE_W as u16);
    let before: u16 = if tracks { shares } else { shares.saturating_sub(12) };
    let name: u16 = body.x.saturating_add(4);
    TopColumns {
        name,
        name_width: before.saturating_sub(2).saturating_sub(name),
        tracks: if tracks { None } else { Some(before) },
        share: shares,
        plays,
        time,
        last: if tracks { Some(last) } else { None },
    }
}

/// The columns of the log, from the right edge: the tracks get the rest.
#[derive(Clone, Copy, Debug, PartialEq, Eq, Structural)]
pub struct RecentColumns {
    pub day: u16,
    pub track: u16,
    pub track_width: u16,
    pub outcome: u16,
    pub listened: u16,
    pub client: u16,
}

pub const RECENT_TIME_W: u16 = 5;

pub const RECENT_DAY_W: u16 = 12;

pub const RECENT_OUTCOME_W: u16 = 17;

pub const RECENT_LISTENED_W: u16 = 12;

pub const RECENT_CLIENT_W: u16 = 14;

pub open spec fn recent_places(x: int, right: int) -> RecentColumns {
    let client = left_of(right, 14);
    let listened = left_of(client, 14);
    let outcome = left_of(listened, 19);
    let day = further(x, 7);
    let track = further(day, 14);
    RecentColumns {
        day: day as u16,
        track: track as u16,
        track_width: left_of(left_of(outcome, 2), track) as u16,
        outcome: outcome as u16,
        listened: listened as u16,
        client: client as u16,
    }
}

pub fn recent_columns(body: Rect) -> (out: RecentColumns)
    ensures
        out == recent_places(body.x as int, body.ends_at()),
{
    let client: u16 = body.right().saturating_sub(RECENT_CLIENT_W);
    let listened: u16 = client.saturating_sub(2 + RECENT_LISTENED_W);
    let outcome: u16 = listened.saturating_sub(2 + RECENT_OUTCOME_W);
    let day: u16 = body.x.saturating_add(7);
    let track: u16 = day.saturating_add(RECENT_DAY_W + 2);
    RecentColumns {
        day,
        track,
        track_width: outcome.saturating_sub(2).saturating_sub(track),
        outcome,
        listened,
        client,
    }
}

/// In any window that the report is drawn into, the columns of both tables
/// stand in order, none over another, and end where the page ends.
pub proof fn the_columns_fit(x: int, width: int, tracks: bool)
    requires
        0 <= x,
        MIN_W - 4 <= width,
        x + width <= u16::MAX,
    ensures
        ({
            let c = top_places(x, x + width, tracks);
            let before = if tracks { c.share } else { c.tracks->0 };
            &&& tracks <==> c.tracks is None
            &&& tracks <==> c.last is Some
            &&& c.name == x + 4
            &&& c.name + c.name_width + 2 == before
            &&& c.tracks matches Some(t) ==> t + TOP_TRACKS_W + 2 == c.share
            &&& c.share + SHARE_W + 2 == c.plays
            &&& c.plays + TOP_PLAYS_W + 2 == c.time
            &&& c.time + TOP_TIME_W <= x + width
            &&& c.last matches Some(l) ==> c.time + TOP_TIME_W + 2 == l && l + TOP_LAST_W == x + width
        }),
        ({
            let c = recent_places(x, x + width);
            &&& x + RECENT_TIME_W + 2 == c.day
            &&& c.day + RECENT_DAY_W + 2 == c.track
            &&& c.track + c.track_width + 2 == c.outcome
            &&& c.outcome + RECENT_OUTCOME_W + 2 == c.listened
            &&& c.listened + RECENT_LISTENED_W + 2 == c.client
            &&& c.client + RECENT_CLIENT_W == x + width
        }),
{
}

// ── Tracks in rows ───────────────────────────────────────────────────────

/// The title of a track's document.
pub open spec fn title_in(doc: Option<Seq<char>>, unknown: Seq<char>) -> Seq<char> {
    match doc {
        Some(d) => title_of(string_at(tags_doc(d), "title"@), path_at(d), unknown),
        None => unknown,
    }
}

pub open spec fn artist_in(doc: Option<Seq<char>>) -> Seq<char> {
    match doc {
        Some(d) => or_empty(tag(string_at(tags_doc(d), "artist"@))),
        None => Seq::empty(),
    }
}

pub open spec fn album_in(doc: Option<Seq<char>>) -> Seq<char> {
    match doc {
        Some(d) => or_empty(tag(string_at(tags_doc(d), "album"@))),
        None => Seq::empty(),
    }
}

pub open spec fn year_in(doc: Option<Seq<char>>) -> Option<i64> {
    match doc {
        Some(d) => match year_at(d) {
            Some(y) => if y > 0 { Some(y) } else { None },
            None => None,
        },
        None => None,
    }
}

/// A track for the screen: its artist and title.
pub open spec fn track_said(doc: Option<Seq<char>>, unknown: Seq<char>) -> Seq<char> {
    printed(joined_artist(artist_in(doc), title_in(doc, unknown)), TEXT_MAX as nat)
}

fn read_track(doc: &Option<String>, unknown: &str) -> (t: Track)
    ensures
        t.title@ == title_in(text_in(*doc), unknown@),
        t.artist@ == artist_in(text_in(*doc)),
        t.album@ == album_in(text_in(*doc)),
        t.year == year_in(text_in(*doc)),
{
    let t = match doc {
        Some(d) => track_words(Some(d.as_str()), unknown),
        None => track_words(None, unknown),
    };
    proof {
        if doc is None {
            assert(t.artist@ =~= Seq::<char>::empty());
            assert(t.album@ =~= Seq::<char>::empty());
        }
    }
    t
}

/// A day relative to now, of a timestamp; nothing where it is none.
pub open spec fn day_of(ts: Option<Seq<char>>, now: i64, zone: Option<Zone>) -> Option<Msg> {
    match ts {
        Some(s) => if is_timestamp(s) {
            let t = timestamp_value(s);
            Some(day_said(t, now as int, offset_of(zone, t) as int, offset_of(zone, now as int) as int))
        } else {
            None
        },
        None => None,
    }
}

/// A moment whose local clock can be read.
pub open spec fn readable(now: i64, zone: Option<Zone>) -> bool {
    i64::MIN <= now + offset_of(zone, now as int) <= i64::MAX
}

/// Whether the local clock can be read at a moment.
pub fn clock_reads(now: i64, zone: &Option<Zone>) -> (r: bool)
    ensures
        r == readable(now, *zone),
{
    let local: i128 = now as i128 + offset_at(zone, now) as i128;
    i64::MIN as i128 <= local && local <= i64::MAX as i128
}

fn day_at(ts: Option<&str>, now: i64, zone: &Option<Zone>) -> (out: Option<Msg>)
    requires
        readable(now, *zone),
    ensures
        out == day_of(
            match ts {
                Some(s) => Some(s@),
                None => None,
            },
            now,
            *zone,
        ),
{
    match ts {
        Some(s) => match iso_unix(s) {
            Some(t) => Some(day_label(t, now, offset_at(zone, t), offset_at(zone, now))),
            None => None,
        },
        None => None,
    }
}

/// A row of the ranking.
#[derive(Debug, PartialEq)]
pub struct TopRow {
    pub name: Msg,
    /// Whose track it is, where it is a peer's.
    pub via: Option<Msg>,
    /// When a track was last played, or how many tracks a group has.
    pub extra: Option<Msg>,
    pub plays: String,
    pub time: Msg,
    /// The filled cells of the share's bar.
    pub filled: usize,
}

/// The largest figure of a ranking, at least one.
pub open spec fn leader(items: Seq<TopItem>, metric: Metric) -> int
    decreases items.len(),
{
    if items.len() == 0 {
        1
    } else {
        let before = leader(items.drop_last(), metric);
        if measure(metric, items.last()) > before { measure(metric, items.last()) as int } else { before }
    }
}

/// No figure of a ranking is larger than the leader's.
pub proof fn nobody_passes_the_leader(items: Seq<TopItem>, metric: Metric, i: int)
    requires
        0 <= i < items.len(),
    ensures
        measure(metric, items[i]) <= leader(items, metric),
    decreases items.len(),
{
    if i < items.len() - 1 {
        nobody_passes_the_leader(items.drop_last(), metric, i);
    }
}

pub fn leader_of(items: &Vec<TopItem>, metric: Metric) -> (max: u64)
    ensures
        max == leader(items@, metric),
        max > 0,
{
    let mut max: u64 = 1;
    let mut i: usize = 0;
    proof {
        assert(items@.take(0) =~= Seq::<TopItem>::empty());
    }
    while i < items.len()
        invariant
            i <= items@.len(),
            max > 0,
            max == leader(items@.take(i as int), metric),
        decreases items@.len() - i,
    {
        proof {
            assert(items@.take(i + 1).drop_last() =~= items@.take(i as int));
        }
        let v: u64 = metric.of(&items[i]);
        if v > max {
            max = v;
        }
        i = i + 1;
    }
    proof {
        assert(items@.take(i as int) =~= items@);
    }
    max
}

/// The name of a group, or that it is unknown.
pub open spec fn is_group_name(msg: Msg, name: Option<String>) -> bool {
    if name is Some && name->0@.len() > 0 {
        reads(msg, printed(name->0@, TEXT_MAX as nat))
    } else {
        msg == Msg::Key("sta.unknown")
    }
}

pub open spec fn is_top_row(row: TopRow, item: TopItem, entity: Entity, filled: int, now: i64, zone: Option<Zone>, unknown: Seq<char>) -> bool {
    &&& if entity == Entity::Tracks {
        &&& reads(row.name, track_said(text_in(item.track), unknown))
        &&& row.extra == day_of(text_in(item.last_played), now, zone)
        &&& if item.origin is Some && item.origin->0@ == "peer"@ {
            row.via matches Some(v) && is_via(v, text_in(item.peer_name))
        } else {
            row.via is None
        }
    } else {
        &&& is_group_name(row.name, item.name)
        &&& row.via is None
        &&& row.extra == Some(
            tracks_said(
                match item.tracks {
                    Some(n) => n,
                    None => 0,
                },
            ),
        )
    }
    &&& row.plays@ == grouped(item.plays as nat)
    &&& row.time == duration(item.listened_ms as int)
    &&& row.filled == filled
}

fn via_of(origin: Option<&str>, peer: &Option<String>) -> (out: Option<Msg>)
    ensures
        if origin is Some && origin->0@ == "peer"@ {
            out matches Some(v) && is_via(v, text_in(*peer))
        } else {
            out is None
        },
{
    match origin {
        Some(o) => {
            if same(o, "peer") {
                Some(
                    match peer {
                        Some(p) => via_words(Some(p.as_str())),
                        None => via_words(None),
                    },
                )
            } else {
                None
            }
        },
        None => None,
    }
}

fn text_ref(o: &Option<String>) -> (r: Option<&str>)
    ensures
        match r {
            Some(s) => text_in(*o) == Some(s@),
            None => *o is None,
        },
{
    match o {
        Some(s) => Some(s.as_str()),
        None => None,
    }
}

/// A row of the ranking: the name of the track or group, its figures, and how
/// it compares with the leader. `unknown` names a track without a title.
pub fn top_row(item: &TopItem, entity: Entity, metric: Metric, max: u64, now: i64, zone: &Option<Zone>, unknown: &str) -> (row: TopRow)
    requires
        max > 0,
        measure(metric, *item) <= max,
        readable(now, *zone),
    ensures
        is_top_row(row, *item, entity, share(measure(metric, *item) as int, max as int), now, *zone, unknown@),
        row.filled <= SHARE_W,
{
    let filled: usize = share_of(metric.of(item), max);
    let plays = fmt_count(item.plays);
    let time = fmt_duration(item.listened_ms);
    if entity == Entity::Tracks {
        let t = read_track(&item.track, unknown);
        let name = printable(join_artist(t.artist.as_str(), t.title.as_str()).as_str(), TEXT_MAX);
        TopRow {
            name: Msg::Raw(name),
            via: via_of(text_ref(&item.origin), &item.peer_name),
            extra: day_at(text_ref(&item.last_played), now, zone),
            plays,
            time,
            filled,
        }
    } else {
        let name = match &item.name {
            Some(n) => {
                if n.as_str().is_empty() {
                    Msg::Key("sta.unknown")
                } else {
                    Msg::Raw(printable(n.as_str(), TEXT_MAX))
                }
            },
            None => Msg::Key("sta.unknown"),
        };
        let tracks: u64 = match item.tracks {
            Some(n) => n,
            None => 0,
        };
        TopRow { name, via: None, extra: Some(tracks_words(tracks)), plays, time, filled }
    }
}

// ── The log ──────────────────────────────────────────────────────────────

/// A row of the log.
#[derive(Debug, PartialEq)]
pub struct RecentRow {
    pub time: String,
    pub day: Option<Msg>,
    pub track: String,
    pub via: Option<Msg>,
    pub outcome: Msg,
    pub completed: bool,
    pub listened: Msg,
    pub counted: bool,
    /// The client with its version, and without.
    pub client: Msg,
    pub client_short: Msg,
}

/// The time of day of a timestamp on the local clock; nothing where it is none.
pub open spec fn time_of(ts: Seq<char>, zone: Option<Zone>) -> Seq<char> {
    if is_timestamp(ts) {
        time_said(timestamp_value(ts), offset_of(zone, timestamp_value(ts)) as int)
    } else {
        Seq::empty()
    }
}

pub open spec fn is_recent_row(row: RecentRow, item: HistoryItem, now: i64, zone: Option<Zone>, unknown: Seq<char>) -> bool {
    &&& row.time@ == time_of(item.started_at@, zone)
    &&& row.day == day_of(Some(item.started_at@), now, zone)
    &&& row.track@ == track_said(text_in(item.track), unknown)
    &&& if item.origin@ == "peer"@ {
        row.via matches Some(v) && is_via(v, text_in(item.peer_name))
    } else {
        row.via is None
    }
    &&& is_outcome(row.outcome, item)
    &&& row.completed == completed(item)
    &&& is_listened(row.listened, item)
    &&& row.counted == item.counted
    &&& is_client((row.client, row.client_short), item)
}

/// A row of the log in words. `unknown` names a track without a title.
pub fn recent_row(item: &HistoryItem, now: i64, zone: &Option<Zone>, unknown: &str) -> (row: RecentRow)
    requires
        readable(now, *zone),
    ensures
        is_recent_row(row, *item, now, *zone, unknown@),
{
    let t = read_track(&item.track, unknown);
    let time = match iso_unix(item.started_at.as_str()) {
        Some(at) => time_label(at, offset_at(zone, at)),
        None => {
            let none = String::new();
            proof {
                assert(none@ =~= Seq::<char>::empty());
            }
            none
        },
    };
    let (client, client_short) = client_words(item);
    RecentRow {
        time,
        day: day_at(Some(item.started_at.as_str()), now, zone),
        track: printable(join_artist(t.artist.as_str(), t.title.as_str()).as_str(), TEXT_MAX),
        via: via_of(Some(item.origin.as_str()), &item.peer_name),
        outcome: outcome_words(item),
        completed: same(item.outcome.as_str(), "completed") && !is_legacy(item),
        listened: listened_words(item),
        counted: item.counted,
        client,
        client_short,
    }
}

/// The colours of a row's outcome and of what was listened.
pub fn recent_tones(row: &RecentRow, selected: bool, hovered: bool) -> (out: (Tone, Tone))
    ensures
        out.0 == row_tone(selected, hovered, if row.completed { Tone::Fine } else { Tone::Dim }),
        out.1 == row_tone(selected, hovered, if row.counted { Tone::Plain } else { Tone::Dim }),
{
    (
        tone_of(selected, hovered, if row.completed { Tone::Fine } else { Tone::Dim }),
        tone_of(selected, hovered, if row.counted { Tone::Plain } else { Tone::Dim }),
    )
}

/// What the client's cell says: that the play does not count, else the client,
/// with its version where that fits.
pub fn client_cell<'a>(row: &'a RecentRow, not_counted: &'a Msg, width: usize) -> (m: &'a Msg)
    ensures
        *m == (if !row.counted {
            *not_counted
        } else if width <= RECENT_CLIENT_W {
            row.client
        } else {
            row.client_short
        }),
{
    if !row.counted {
        not_counted
    } else if width <= RECENT_CLIENT_W as usize {
        &row.client
    } else {
        &row.client_short
    }
}

// ── The cursor's row in words ────────────────────────────────────────────

/// A play's row in words: the track, when, how it ended, and of how long it
/// was where it did not run to its end.
pub open spec fn is_play_words(words: Seq<Msg>, item: HistoryItem, now: i64, zone: Option<Zone>, unknown: Seq<char>) -> bool {
    let partial = !completed(item) && item.duration_ms is Some && item.duration_ms->0 > 0;
    &&& words.len() == (if partial { 2int } else { 1 })
    &&& words[0] matches Msg::Four(key, track, day, time, outcome)
    &&& key == "sta.row_recent"
    &&& filled(track, "track", track_said(text_in(item.track), unknown))
    &&& is_day_gap(day, day_of(Some(item.started_at@), now, zone))
    &&& filled(time, "time", time_of(item.started_at@, zone))
    &&& outcome.name == "outcome" && (outcome.arg matches Arg::Phrase(m) && is_outcome(*m, item))
    &&& partial ==> crate::msg::says(words[1], "sta.row_recent_of", "total", clock_words(item.duration_ms->0 as int))
}

/// The gap for a day, empty where there is none.
pub open spec fn is_day_gap(fill: Fill, day: Option<Msg>) -> bool {
    match day {
        Some(d) => fill == phrase("day", d),
        None => fill.name == "day" && (fill.arg matches Arg::Text(s) && s@.len() == 0),
    }
}

fn day_gap(day: Option<Msg>) -> (f: Fill)
    ensures
        is_day_gap(f, day),
{
    match day {
        Some(d) => filling("day", d),
        None => Fill { name: "day", arg: Arg::Text(String::new()) },
    }
}

/// A play in words, part by part.
pub fn play_words(item: &HistoryItem, now: i64, zone: &Option<Zone>, unknown: &str) -> (out: Vec<Msg>)
    requires
        readable(now, *zone),
    ensures
        is_play_words(out@, *item, now, *zone, unknown@),
{
    let r = recent_row(item, now, zone, unknown);
    let mut out: Vec<Msg> = Vec::new();
    out.push(
        Msg::Four(
            "sta.row_recent",
            Fill { name: "track", arg: Arg::Text(r.track) },
            day_gap(r.day),
            Fill { name: "time", arg: Arg::Text(r.time) },
            filling("outcome", r.outcome),
        ),
    );
    if !r.completed {
        if let Some(d) = item.duration_ms {
            if d > 0 {
                out.push(Msg::One("sta.row_recent_of", Fill { name: "total", arg: Arg::Text(fmt_clock(d)) }));
            }
        }
    }
    out
}

/// What the note's line says of a row of the log: the play, whether it counts,
/// and the key that forgets it.
pub fn recent_words(item: &HistoryItem, now: i64, zone: &Option<Zone>, unknown: &str) -> (out: Vec<Msg>)
    requires
        readable(now, *zone),
    ensures
        ({
            let n = out@.len() - (if item.counted { 1int } else { 2 });
            &&& n > 0
            &&& is_play_words(out@.take(n), *item, now, *zone, unknown@)
            &&& !item.counted ==> out@[n] == Msg::Key("sta.not_counted")
            &&& out@.last() == Msg::Key("sta.row_recent_forget")
        }),
{
    let mut out = play_words(item, now, zone, unknown);
    let ghost play = out@;
    if !item.counted {
        out.push(Msg::Key("sta.not_counted"));
    }
    out.push(Msg::Key("sta.row_recent_forget"));
    proof {
        assert(out@.take(play.len() as int) =~= play);
    }
    out
}

/// An album for the screen, with its year where that is known.
pub open spec fn album_said(album: Seq<char>, year: Option<i64>) -> Seq<char> {
    match year {
        Some(y) => printed(album, TEXT_MAX as nat) + seq![' ', '('] + crate::text::dec(y as nat) + seq![')'],
        None => printed(album, TEXT_MAX as nat),
    }
}

/// What the note's line says of a row of the ranking.
pub open spec fn is_top_words(msg: Msg, item: TopItem, entity: Entity, now: i64, zone: Option<Zone>, unknown: Seq<char>) -> bool {
    let doc = text_in(item.track);
    let plays = phrase("plays", plays_said(item.plays));
    let time = phrase("time", duration(item.listened_ms as int));
    if entity != Entity::Tracks {
        &&& msg matches Msg::Four(key, name, tracks, p, t)
        &&& key == "sta.note_top_group"
        &&& filled(name, "name", printed(or_empty(text_in(item.name)), TEXT_MAX as nat))
        &&& tracks == phrase(
            "tracks",
            tracks_said(
                match item.tracks {
                    Some(n) => n,
                    None => 0,
                },
            ),
        )
        &&& p == plays
        &&& t == time
    } else if album_in(doc).len() == 0 {
        &&& msg matches Msg::Four(key, track, p, t, day)
        &&& key == "sta.note_top_track_plain"
        &&& filled(track, "track", track_said(doc, unknown))
        &&& p == plays
        &&& t == time
        &&& is_day_gap(day, day_of(text_in(item.last_played), now, zone))
    } else {
        &&& msg matches Msg::Five(key, track, album, p, t, day)
        &&& key == "sta.note_top_track"
        &&& filled(track, "track", track_said(doc, unknown))
        &&& filled(album, "album", album_said(album_in(doc), year_in(doc)))
        &&& p == plays
        &&& t == time
        &&& is_day_gap(day, day_of(text_in(item.last_played), now, zone))
    }
}

fn album_words(album: &str, year: Option<i64>) -> (out: String)
    requires
        year matches Some(y) ==> y > 0,
    ensures
        out@ == album_said(album@, year),
{
    let mut out = printable(album, TEXT_MAX);
    let ghost name = out@;
    if let Some(y) = year {
        let digits = crate::text::decimal(y as u64);
        out.push(' ');
        out.push('(');
        out.append(digits.as_str());
        out.push(')');
        proof {
            assert(out@ =~= name + seq![' ', '('] + digits@ + seq![')']);
        }
    }
    out
}

pub fn top_words(item: &TopItem, entity: Entity, now: i64, zone: &Option<Zone>, unknown: &str) -> (msg: Msg)
    requires
        readable(now, *zone),
    ensures
        is_top_words(msg, *item, entity, now, *zone, unknown@),
{
    let plays = filling("plays", plays_words(item.plays));
    let time = filling("time", fmt_duration(item.listened_ms));
    if entity != Entity::Tracks {
        let name = match &item.name {
            Some(n) => printable(n.as_str(), TEXT_MAX),
            None => {
                proof {
                    reveal_strlit("");
                    assert(""@ =~= Seq::<char>::empty());
                }
                printable("", TEXT_MAX)
            },
        };
        let tracks: u64 = match item.tracks {
            Some(n) => n,
            None => 0,
        };
        return Msg::Four(
            "sta.note_top_group",
            Fill { name: "name", arg: Arg::Text(name) },
            filling("tracks", tracks_words(tracks)),
            plays,
            time,
        );
    }
    let t = read_track(&item.track, unknown);
    let track = Fill {
        name: "track",
        arg: Arg::Text(printable(join_artist(t.artist.as_str(), t.title.as_str()).as_str(), TEXT_MAX)),
    };
    let day = day_gap(day_at(text_ref(&item.last_played), now, zone));
    if t.album.as_str().is_empty() {
        Msg::Four("sta.note_top_track_plain", track, plays, time, day)
    } else {
        let album = Fill { name: "album", arg: Arg::Text(album_words(t.album.as_str(), t.year)) };
        Msg::Five("sta.note_top_track", track, album, plays, time, day)
    }
}

impl Page {
    /// The rows of a table of `len` that are in view: a cursor that moved
    /// since the last draw is followed, the wheel is left alone.
    pub fn rows_in_view(&mut self, len: usize, room: usize) -> (out: (usize, usize))
        ensures
            (out.0 as int, out.1 as int) == window(
                len as int,
                if old(self).sel != old(self).sel_anchor { old(self).sel } else { None },
                old(self).tscroll as int,
                room as int,
            ),
            *final(self) == (Page { sel_anchor: old(self).sel, tscroll: out.0, ..*old(self) }),
    {
        let moved = match (self.sel, self.sel_anchor) {
            (Some(a), Some(b)) => a != b,
            (None, None) => false,
            _ => true,
        };
        self.sel_anchor = self.sel;
        let reveal = if moved { self.sel } else { None };
        let (first, visible) = table_view(len, reveal, self.tscroll, room);
        self.tscroll = first;
        (first, visible)
    }
}

// ── The period list ──────────────────────────────────────────────────────

/// How many rows of the period list a window has room for.
pub open spec fn list_rows(len: int, height: int) -> int {
    let most = if left_of(height, 8) > 3 { left_of(height, 8) } else { 3 };
    if len < most { len } else { most }
}

/// The period list: how tall its card is, the first entry in view and how many
/// are, the one under the cursor among them.
pub fn period_list(len: usize, cursor: usize, height: u16, foot: bool) -> (out: (u16, usize, usize))
    ensures
        ({
            let rows = list_rows(len as int, height as int);
            &&& out.0 == further(5 + rows, if foot { 1 } else { 0 })
            &&& (out.1 as int, out.2 as int) == window(len as int, Some(cursor), left_of(cursor as int, left_of(rows, 1)), rows)
        }),
{
    let room: u16 = height.saturating_sub(8);
    let most: usize = if room > 3 { room as usize } else { 3 };
    let rows: usize = if len < most { len } else { most };
    let back: usize = if rows > 1 { rows - 1 } else { 0 };
    let scroll: usize = if cursor > back { cursor - back } else { 0 };
    let (first, visible) = table_view(len, Some(cursor), scroll, rows);
    let tall: u16 = (5 + rows as u32) as u16;
    (if foot { tall.saturating_add(1) } else { tall }, first, visible)
}

/// The entry under the cursor is in view, whatever the window.
pub proof fn the_period_is_in_view(len: int, cursor: usize, height: int)
    requires
        cursor < len,
        0 <= height <= u16::MAX,
    ensures
        ({
            let rows = list_rows(len, height);
            let (first, visible) = window(len, Some(cursor), left_of(cursor as int, left_of(rows, 1)), rows);
            first <= cursor < first + visible
        }),
{
}

// ── The fixed words ──────────────────────────────────────────────────────

/// The heads of the ranking's columns.
pub open spec fn top_keys(entity: Entity) -> Seq<&'static str> {
    seq!["sta.col_rank", header_key(entity)] + (if entity == Entity::Tracks { Seq::empty() } else { seq!["sta.col_tracks"] })
        + seq!["sta.col_share", "sta.col_plays", "sta.col_time"] + (if entity == Entity::Tracks {
        seq!["sta.col_last"]
    } else {
        Seq::empty()
    })
}

pub fn top_heads(entity: Entity) -> (out: Vec<&'static str>)
    ensures
        out@ == top_keys(entity),
{
    let mut out: Vec<&'static str> = vec!["sta.col_rank", entity.header()];
    if entity != Entity::Tracks {
        out.push("sta.col_tracks");
    }
    out.push("sta.col_share");
    out.push("sta.col_plays");
    out.push("sta.col_time");
    if entity == Entity::Tracks {
        out.push("sta.col_last");
    }
    proof {
        assert(out@ =~= top_keys(entity));
    }
    out
}

/// The heads of the log's columns.
pub open spec fn recent_keys() -> Seq<&'static str> {
    seq!["sta.col_when", "sta.col_day", "sta.col_track", "sta.col_outcome", "sta.col_listened", "sta.col_client"]
}

pub fn recent_heads() -> (out: Vec<&'static str>)
    ensures
        out@ == recent_keys(),
{
    let out: Vec<&'static str> =
        vec!["sta.col_when", "sta.col_day", "sta.col_track", "sta.col_outcome", "sta.col_listened", "sta.col_client"];
    proof {
        assert(out@ =~= recent_keys());
    }
    out
}

/// What the warning before a play is forgotten says beside the play.
pub open spec fn forget_keys() -> Seq<&'static str> {
    seq!["sta.forget_title", "sta.forget_fact", "sta.forget_keep", "sta.forget_go"]
}

pub fn forget_words() -> (out: Vec<&'static str>)
    ensures
        out@ == forget_keys(),
{
    let out: Vec<&'static str> = vec!["sta.forget_title", "sta.forget_fact", "sta.forget_keep", "sta.forget_go"];
    proof {
        assert(out@ =~= forget_keys());
    }
    out
}

/// What the empty log says: that nothing was played, how plays get there, and
/// by which clock they are told.
pub fn empty_log_words(zone: &Option<Zone>) -> (out: (&'static str, &'static str, Msg))
    ensures
        out == ("sta.empty_1", "sta.empty_2", Msg::One("sta.empty_prov", phrase("zone", Msg::Key(zone_key(*zone))))),
{
    ("sta.empty_1", "sta.empty_2", Msg::One("sta.empty_prov", filling("zone", Msg::Key(clock_key(zone)))))
}

/// What the overview says first where nothing was played in the period.
pub fn nothing_title(period: &Period) -> (msg: Msg)
    ensures
        names_period(msg, "sta.nothing_title", period.name),
{
    period_named("sta.nothing_title", &period.name)
}

/// What stands at the right of the heading: the server, and the account where
/// there is one.
pub fn heading(host: &str, username: &Option<String>) -> (out: String)
    ensures
        out@ == (match *username {
            Some(u) => host@ + seq![' ', '·', ' '] + printed(u@, 64),
            None => host@,
        }),
{
    let mut out: String = host.to_owned();
    if let Some(u) = username {
        let name = printable(u.as_str(), 64);
        out.push(' ');
        out.push('·');
        out.push(' ');
        out.append(name.as_str());
        proof {
            assert(out@ =~= host@ + seq![' ', '·', ' '] + name@);
        }
    }
    out
}

} // verus!
