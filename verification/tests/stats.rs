//! The listening report.

use mstream_admin::clock::{days_from_civil, iso_at};
use mstream_admin::hub::room_column;
use mstream_admin::layout::{choice_places, tab_places, Rect, Tone};
use mstream_admin::line::{Code, Key};
use mstream_admin::msg::{ApiError, Arg, Fill, Msg};
use mstream_admin::screen::Outcome;
use mstream_admin::phrases::{signed_decimal, Phrases};
use mstream_admin::stats::{handle_key, period_keys, start, versus_label, Act, Done, Entity, Label, Loaded, Metric, Modal, Op, Origin, OriginSlice, Origins, Page, Period, PeriodOption, Preset, Sessions, StatsHistory, StatsPeriods, StatsSummary, StreakDays, Tab, TopDay, TopItem};
use mstream_admin::stats_series::{adds_up, calendar_series, cell_width_of, column_level, day_axis, fold_of, fold_values, hour_series, month_axis, place_labels, series_bucket, tallest_of, week_axis, Bucket, StatsTimeseries, TimeBucket};
use mstream_admin::stats_view::{chart_from, client_cell, clip, clock_reads, controls, day_chart, days_note, delta_duration, delta_text, empty_log_words, forget_words, heading, hours_note, hours_width, leader_of, modal_hint, nothing_hint, nothing_title, origin_shares, origin_words, overview, overview_rows, page_hints, period_foot, period_list, picker_place, play_words, recent_columns, recent_heads, recent_row, recent_tones, recent_words, share_of, state_line, tiles, top_columns, top_heads, top_row, top_words, Before, Overview, StateLine, CHART_ROWS, RECENT_CLIENT_W, RECENT_DAY_W, RECENT_LISTENED_W, RECENT_OUTCOME_W, RECENT_TIME_W, SHARE_W, TOP_LAST_W, TOP_PLAYS_W, TOP_TIME_W, TOP_TRACKS_W};
use mstream_admin::stats_words::{client_words, date_long, day_key_label, day_label, fmt_clock, fmt_duration, hour_label, join_artist, month_name, nth_name, time_label, track_words, weekday_plural, weekday_short, HistoryItem, Track};
use mstream_admin::text::{fmt_bytes, fmt_count};
use mstream_admin::zone::{local_parts, Change, Zone};

fn phrase(key: &'static str) -> &'static str {
    match key {
        "sta.busy_loading" => "loading your listening…",
        "sta.title" => "Stats",
        "sta.facts" => " — %{plays} · %{time} · %{tracks} · %{zone}",
        "sta.zone_utc" => "times in UTC",
        "sta.zone_local" => "times on the local clock",
        "sta.plays_one" => "1 play",
        "sta.plays_n" => "%{n} plays",
        "sta.tracks_one" => "1 track",
        "sta.tracks_n" => "%{n} tracks",
        "sta.days_one" => "1 day",
        "sta.days_n" => "%{n} days",
        "sta.minutes" => "%{n} min",
        "sta.hours" => "%{h}h",
        "sta.hours_minutes" => "%{h}h %{m}m",
        "sta.tab_overview" => "Overview",
        "sta.tab_top" => "Top",
        "sta.tab_recent" => "Recent",
        "sta.ctl_period" => "PERIOD",
        "sta.ctl_step" => "[ ] step · p list",
        "sta.ctl_origin" => "ORIGIN",
        "sta.ctl_show" => "SHOW",
        "sta.ctl_rank" => "RANK BY",
        "sta.origin_all" => "all",
        "sta.origin_local" => "this server",
        "sta.origin_peers" => "peers",
        "sta.tile_plays" => "plays",
        "sta.tile_time" => "listening time",
        "sta.tile_tracks" => "tracks",
        "sta.tile_skips" => "skips",
        "sta.tile_streak" => "streak",
        "sta.tile_sessions" => "sessions",
        "sta.sub_up" => "+%{pct}% vs %{vs}",
        "sta.sub_down" => "−%{pct}% vs %{vs}",
        "sta.sub_same" => "same as %{vs}",
        "sta.sub_time_up" => "+%{d} vs %{vs}",
        "sta.sub_time_down" => "−%{d} vs %{vs}",
        "sta.sub_library" => "%{pct}% of the library",
        "sta.sub_starts" => "%{pct}% of starts",
        "sta.sub_longest" => "longest %{n}",
        "sta.sub_each" => "about %{d} each",
        "sta.chart_days" => "PLAYS PER DAY",
        "sta.chart_hours" => "WHEN YOU LISTEN",
        "sta.note_days" => "most on %{day} · %{plays}, %{time}",
        "sta.note_hour" => "most around %{hour}",
        "sta.note_hour_day" => "most around %{hour}, %{days}",
        "sta.day_key" => "%{weekday} %{day}",
        "sta.weekdays_short" => "Sun · Mon · Tue · Wed · Thu · Fri · Sat",
        "sta.weekdays_plural" => "Sundays · Mondays · Tuesdays · Wednesdays · Thursdays · Fridays · Saturdays",
        "sta.months_short" => "Jan · Feb · Mar · Apr · May · Jun · Jul · Aug · Sep · Oct · Nov · Dec",
        "sta.months_long" | "sta.months_title" => "January · February · March · April · May · June · July · August · September · October · November · December",
        "sta.date_long" => "%{day} %{month} %{year}",
        "sta.day_label" => "%{month} %{day}",
        "sta.day_label_year" => "%{month} %{day}, %{year}",
        "sta.month_year" => "%{month} %{year}",
        "sta.week_of" => "Week of %{date}",
        "sta.today" => "today",
        "sta.yesterday" => "yesterday",
        "sta.origins_title" => "WHERE THE TRACKS LIVE",
        "sta.origin_local_row" => "this server",
        "sta.origin_peers_row" => "peers’ tracks",
        "sta.plays_time" => "%{plays} · %{time}",
        "sta.hint_tabs" => "←→ tab",
        "sta.hint_period" => "[ ] period",
        "sta.hint_pick" => "p pick a period",
        "sta.hint_origin" => "o origin",
        "sta.hint_quit" => "q quit",
        "sta.hint_select" => "↑↓ select",
        "sta.hint_rows" => "↑↓ rows",
        "sta.hint_entity" => "t what",
        "sta.hint_metric" => "m rank by",
        "sta.hint_forget" => "x forget this play",
        "sta.hint_deselect" => "Esc deselect",
        "sta.hint_period_modal" => "↑↓ pick · Enter choose · Esc keep %{period}",
        "sta.hint_forget_modal" => "y forget · Esc keep",
        "sta.this_week" => "This week",
        "sta.last_week" => "Last week",
        "sta.this_month" => "This month",
        "sta.last_month" => "Last month",
        "sta.this_quarter" => "This quarter",
        "sta.last_quarter" => "Last quarter",
        "sta.this_half" => "This half-year",
        "sta.last_half" => "Last half-year",
        "sta.this_year" => "This year",
        "sta.last_year" => "Last year",
        "sta.all_time" => "All time",
        "sta.period_title" => "Period",
        "sta.period_foot" => "first play %{date}",
        "sta.ent_tracks" => "tracks",
        "sta.ent_artists" => "artists",
        "sta.ent_albums" => "albums",
        "sta.ent_genres" => "genres",
        "sta.met_plays" => "plays",
        "sta.met_time" => "time",
        "sta.col_rank" => "#",
        "sta.col_track" => "TRACK",
        "sta.col_artist" => "ARTIST",
        "sta.col_tracks" => "TRACKS",
        "sta.col_share" => "SHARE",
        "sta.col_plays" => "PLAYS",
        "sta.col_time" => "TIME",
        "sta.col_last" => "LAST",
        "sta.via" => " · via %{peer}",
        "sta.note_top_track" => "%{track} · %{album} · %{plays} · %{time} · last played %{day}",
        "sta.note_top_track_plain" => "%{track} · %{plays} · %{time} · last played %{day}",
        "sta.note_top_group" => "%{name} · %{tracks} · %{plays} · %{time}",
        "sta.col_when" => "TIME",
        "sta.col_day" => "DAY",
        "sta.col_outcome" => "OUTCOME",
        "sta.col_listened" => "LISTENED",
        "sta.col_client" => "CLIENT",
        "sta.out_completed" => "completed",
        "sta.out_skipped" => "skipped at %{t}",
        "sta.out_stopped" => "stopped at %{t}",
        "sta.out_scrobbled" => "scrobbled at %{t}",
        "sta.listened_of" => "%{played} of %{total}",
        "sta.not_counted" => "not counted",
        "sta.client_web" => "web player",
        "sta.client_this" => "this player",
        "sta.client_old" => "older client",
        "sta.busy_more" => "loading older plays…",
        "sta.row_recent" => "%{track} · %{day} %{time} · %{outcome}",
        "sta.row_recent_of" => " of %{total}",
        "sta.row_recent_forget" => "x forgets it",
        "sta.forget_title" => "Forget this play?",
        "sta.forget_fact" => "It leaves the log and the counts. Nothing else changes.",
        "sta.forget_keep" => "◂ Keep",
        "sta.forget_go" => "Forget",
        "sta.busy_forget" => "forgetting the play…",
        "sta.done_forgot" => "the play is forgotten — the log and the totals reload",
        "sta.fail_forget" => "could not forget the play",
        "sta.fail_load" => "could not load your listening",
        "sta.gate_forbidden" => "this session has no account behind it — the log is per account; sign in with `mstream-player login`",
        "sta.empty_state" => "• no plays yet",
        "sta.empty_state_detail" => " — plays land here as you listen",
        "sta.empty_1" => "The web player reports each track when it ends",
        "sta.empty_2" => "or is skipped.",
        "sta.empty_prov" => "Plays this account reports through this server · %{zone}",
        "sta.nothing_state" => " — no plays started in this period",
        "sta.nothing_title" => "Nothing in %{period}",
        "sta.nothing_hint" => "Your log begins on %{date} — [ ] walks the periods, p lists them.",
        "sta.noapi_state" => "• no Stats API",
        "sta.noapi_detail" => " — this server does not have it yet; it arrived in mStream 6.27",
        other => other,
    }
}

fn error_words(e: &ApiError) -> String {
    match e {
        ApiError::Unauthorized => "unauthorized".to_string(),
        ApiError::Forbidden(m) | ApiError::NotFound(m) => m.clone(),
        ApiError::Network(m) => format!("could not reach server: {m}"),
        ApiError::Server { status, message } => format!("server error {status}: {message}"),
        ApiError::Decode { endpoint, message } => format!("{endpoint}: {message}"),
    }
}

fn arg_words(a: &Arg) -> String {
    match a {
        Arg::Text(s) => s.clone(),
        Arg::Num(n) => n.to_string(),
        Arg::Nat(n) => n.to_string(),
        Arg::Count(n) => fmt_count(*n),
        Arg::TwoDigits(n) => format!("{n:02}"),
        Arg::Bytes(n) => fmt_bytes(*n),
        Arg::Ratio(a, b) => {
            let s = format!("{:.1}", *a as f64 / *b as f64);
            s.strip_suffix(".0").map(str::to_string).unwrap_or(s)
        }
        Arg::Phrase(m) => words(m),
    }
}

fn filled(key: &'static str, fills: &[&Fill]) -> String {
    let mut out = phrase(key).to_string();
    for f in fills {
        out = out.replace(&format!("%{{{}}}", f.name), &arg_words(&f.arg));
    }
    out
}

fn words(m: &Msg) -> String {
    match m {
        Msg::Raw(s) => s.clone(),
        Msg::Key(k) => phrase(k).to_string(),
        Msg::One(k, a) => filled(k, &[a]),
        Msg::Two(k, a, b) => filled(k, &[a, b]),
        Msg::Three(k, a, b, c) => filled(k, &[a, b, c]),
        Msg::Four(k, a, b, c, d) => filled(k, &[a, b, c, d]),
        Msg::Five(k, a, b, c, d, e) => filled(k, &[a, b, c, d, e]),
        Msg::Listed(k, i) => nth_name(phrase(k), *i as usize),
        Msg::Failed(k, e) => format!("{}: {}", phrase(k), error_words(e)),
        Msg::FailedOn(k, f, e) => format!("{}: {}", filled(k, &[f]), error_words(e)),
        Msg::Both(a, b) => format!("{}{}", words(a), words(b)),
    }
}

fn key(code: Code) -> Key {
    Key { code, shift: false, ctrl: false, alt: false, sup: false, hyper: false, meta: false }
}

/// A screen of cells.
struct Grid {
    cells: Vec<Vec<char>>,
}

impl Grid {
    fn new() -> Grid {
        Grid { cells: vec![vec![' '; 100]; 30] }
    }

    fn set(&mut self, x: usize, y: usize, c: char) {
        if y < self.cells.len() && x < self.cells[y].len() {
            self.cells[y][x] = c;
        }
    }

    fn put(&mut self, x: u16, y: u16, width: u16, text: &str) {
        for (i, c) in text.chars().take(width as usize).enumerate() {
            self.set(x as usize + i, y as usize, c);
        }
    }

    fn put_right(&mut self, x: u16, y: u16, width: u16, text: &str) {
        let n = text.chars().count().min(width as usize) as u16;
        self.put(x + width - n, y, n, text);
    }

    /// A card over the middle of the screen, cleared; its inside.
    fn card(&mut self, width: u16, height: u16) -> Rect {
        let (w, h) = (width.min(100), height.min(30));
        let (x, y) = ((100 - w) / 2, (30 - h) / 2);
        for j in y..y + h {
            for i in x..x + w {
                self.set(i as usize, j as usize, if i == x || i == x + w - 1 { '│' } else { ' ' });
            }
        }
        Rect { x: x + 1, y: y + 1, width: w - 2, height: h - 2 }
    }

    fn text(&self) -> String {
        let mut out = String::new();
        for row in &self.cells {
            out.extend(row.iter());
            out.push('\n');
        }
        out
    }
}

/// A text over several rows, broken at blanks.
fn wrap(text: &str, width: usize) -> Vec<String> {
    let mut rows: Vec<String> = vec![];
    for word in text.split(' ') {
        match rows.last_mut() {
            Some(r) if r.chars().count() + 1 + word.chars().count() <= width => {
                r.push(' ');
                r.push_str(word);
            }
            _ => rows.push(word.to_string()),
        }
    }
    rows
}

fn count(text: &str) -> u16 {
    text.chars().count() as u16
}

/// The tests' clock, in seconds from 1970.
const NOW: i64 = 1_790_000_000;

/// What stands for a track without a title.
const UNKNOWN: &str = "Unknown track";

/// A page in UTC (no zone), so every label is deterministic.
fn page() -> Page {
    Page::new(Some("anna".into()), None, phrases())
}

/// What periods are called here.
fn phrases() -> Phrases {
    Phrases { list: period_keys().into_iter().map(|k| (k.to_string(), phrase(k).to_string())).collect() }
}

fn press(page: &mut Page, code: Code) -> Option<Outcome> {
    handle_key(page, key(code))
}

/// The start of today (UTC): fixture instants hang off it, so their day labels
/// hold whatever the hour.
fn today0() -> i64 {
    NOW / 86_400 * 86_400
}

fn track(artist: &str, title: &str, album: &str, year: i64) -> String {
    format!("{{\"filepath\":\"music/{artist}/{title}.flac\",\"metadata\":{{\"title\":\"{title}\",\"artist\":\"{artist}\",\"album\":\"{album}\",\"year\":{year},\"duration\":495.2}}}}")
}

fn slice(plays: u64, listened_ms: u64) -> OriginSlice {
    OriginSlice { plays, listened_ms }
}

fn blank() -> StatsSummary {
    StatsSummary {
        from: String::new(),
        to: String::new(),
        events: 0,
        plays: 0,
        unique_tracks: 0,
        listened_ms: 0,
        skips: 0,
        skip_pct: None,
        library_pct: None,
        sessions: Sessions { count: 0, avg_ms: None },
        streak_days: StreakDays { current: 0, longest: 0 },
        top_day: None,
        peak_hour: None,
        peak_weekday: None,
        origins: Origins { local: slice(0, 0), peers: slice(0, 0) },
    }
}

fn summary(plays: u64, events: u64) -> StatsSummary {
    StatsSummary {
        events,
        plays,
        unique_tracks: 188,
        listened_ms: 112_320_000,
        skips: 37,
        skip_pct: Some(8),
        library_pct: Some(14),
        sessions: Sessions { count: 42, avg_ms: Some(44 * 60_000) },
        streak_days: StreakDays { current: 6, longest: 11 },
        top_day: Some(TopDay { date: "2026-09-08".into(), plays: 41, listened_ms: 7_800_000 }),
        peak_hour: Some(21),
        peak_weekday: Some(0),
        origins: Origins { local: slice(374, 103_200_000), peers: slice(38, 9_120_000) },
        ..blank()
    }
}

fn option(period: &str, offset: i32, label: &str, from: &str) -> PeriodOption {
    PeriodOption { period: period.into(), offset, label: label.into(), from: from.into(), to: String::new() }
}

fn periods() -> StatsPeriods {
    StatsPeriods {
        earliest: Some("2026-03-03T14:00:00.000Z".into()),
        latest: Some(iso_at(today0())),
        periods: vec![
            option("week", 0, "Week of 2026-09-07", "2026-09-07T00:00:00.000Z"),
            option("week", -1, "Week of 2026-08-31", "2026-08-31T00:00:00.000Z"),
            option("month", 0, "September 2026", "2026-09-01T00:00:00.000Z"),
            option("month", -1, "August 2026", "2026-08-01T00:00:00.000Z"),
            option("month", -2, "July 2026", "2026-07-01T00:00:00.000Z"),
            option("quarter", 0, "Q3 2026", "2026-07-01T00:00:00.000Z"),
            option("quarter", -1, "Q2 2026", "2026-04-01T00:00:00.000Z"),
            option("half", 0, "H2 2026", "2026-07-01T00:00:00.000Z"),
            option("year", 0, "2026", "2026-01-01T00:00:00.000Z"),
            option("year", -1, "2025", "2025-01-01T00:00:00.000Z"),
        ],
    }
}

fn bucket(key: &str, plays: u64) -> TimeBucket {
    TimeBucket { bucket: key.into(), plays, skips: 0, listened_ms: plays * 240_000 }
}

fn series(name: &str, items: Vec<TimeBucket>) -> StatsTimeseries {
    StatsTimeseries { bucket: name.into(), items }
}

fn top_item(plays: u64, ms: u64, track: Option<String>, name: Option<&str>, peer: Option<&str>) -> TopItem {
    TopItem {
        plays,
        listened_ms: ms,
        name: name.map(str::to_string),
        tracks: name.map(|_| 14),
        last_played: Some(iso_at(today0() + 60)),
        origin: Some(if peer.is_some() { "peer" } else { "local" }.into()),
        peer_name: peer.map(str::to_string),
        track,
    }
}

fn play(id: &str, started: i64, outcome: &str, played: u64, duration: Option<u64>, counted: bool, client: Option<&str>, source: Option<&str>) -> HistoryItem {
    HistoryItem {
        id: id.into(),
        started_at: iso_at(started),
        played_ms: played,
        duration_ms: duration,
        outcome: outcome.into(),
        counted,
        source: source.map(str::to_string),
        client: client.map(str::to_string),
        origin: "local".into(),
        peer_name: None,
        track: Some(track("Nils Frahm", "Says", "Spaces", 2013)),
    }
}

fn loaded(summary: StatsSummary, periods: Option<StatsPeriods>) -> Loaded {
    let n = today0();
    let mut summary = summary;
    summary.from = "2026-09-01T00:00:00.000Z".into();
    summary.to = "2026-10-01T00:00:00.000Z".into();
    let mut previous = self::summary(346, 400);
    previous.listened_ms = 112_320_000 - 72 * 60_000;
    Loaded {
        periods,
        summary,
        previous: Some(previous),
        series: series("day", vec![bucket("2026-09-08", 41), bucket("2026-09-02", 12)]),
        hours: series("hourOfDay", vec![bucket("21", 47), bucket("9", 6)]),
        top: vec![
            top_item(38, 9_060_000, Some(track("Boards of Canada", "Roygbiv", "Music Has the Right to Children", 1998)), None, None),
            top_item(31, 9_120_000, Some(track("Aphex Twin", "Xtal", "Selected Ambient Works 85-92", 1992)), None, None),
            top_item(19, 5_040_000, Some(track("Bassnectar", "Rewind The Track", "", 0)), None, Some("attic")),
        ],
        history: StatsHistory {
            items: vec![
                play("p1", n + 1200, "completed", 151_000, Some(151_000), true, Some("mstream-webapp/6.27.0"), Some("manual")),
                play("p2", n + 600, "skipped", 8_000, Some(495_000), false, Some("mstream-player/0.7.0"), Some("shuffle")),
                play("p3", n - 86_400 + 3600, "stopped", 340_000, Some(545_000), true, Some("mStream Mobile/2.4.1"), Some("manual")),
                play("p4", n - 86_400 * 9, "completed", 30_000, None, true, None, Some("legacy")),
            ],
            next: Some("cursor-2".into()),
        },
    }
}

fn ready() -> Page {
    let mut p = page();
    p.reload(true);
    p.queued = None;
    p.busy = None;
    let seq = p.seq;
    p.apply(Done::Loaded { seq, result: Ok(loaded(summary(388, 425), Some(periods()))) });
    p
}

fn note(page: &Page) -> String {
    page.note.as_ref().map(|n| words(&n.msg)).unwrap_or_default()
}

fn busy(page: &Page) -> Option<String> {
    page.busy.as_ref().map(words)
}

fn name(p: &Period) -> String {
    words(&p.name.words())
}

/// The change from one count to another in whole percent.
fn percent(now: u64, before: u64) -> i64 {
    if before == 0 { 0 } else { ((now as f64 - before as f64) / before as f64 * 100.0).round() as i64 }
}

fn draw_choices(g: &mut Grid, x: u16, y: u16, right: u16, names: &[&str], on: usize) -> u16 {
    let places = choice_places(x, &names.iter().map(|n| count(n)).collect(), right);
    for (i, (r, n)) in places.iter().zip(names).enumerate() {
        g.put(r.x, y, r.width, &format!("{} {n}", if i == on { "(•)" } else { "( )" }));
    }
    places.last().map(|r| r.right() + 3).unwrap_or(x)
}

fn draw_controls(g: &mut Grid, p: &Page, at: Rect) {
    let (label, list) = (phrase("sta.ctl_period"), phrase("sta.ctl_step"));
    let shown = name(&p.period);
    let c = controls(at.x, count(label), count(&shown), count(list));
    g.put(at.x, at.y, at.width, label);
    g.put(c.back, at.y, 2, "‹ ");
    g.put(c.name, at.y, at.width, &shown);
    g.put(c.forward, at.y, 2, " ›");
    g.put(c.list, at.y, at.width, list);
    if p.peer_plays() {
        let names: Vec<&str> = [Origin::All, Origin::Local, Origin::Peers].iter().map(|o| phrase(o.label())).collect();
        let label = phrase("sta.ctl_origin");
        if let Some(x) = picker_place(c.end + 4, count(label), &names.iter().map(|n| count(n)).collect(), at.right()) {
            g.put(x, at.y, at.width, label);
            draw_choices(g, x + count(label) + 2, at.y, at.right(), &names, p.origin.index());
        }
    }
}

fn draw_columns(g: &mut Grid, at: Rect, values: &Vec<u64>, cell: u16) {
    let blocks = [' ', '▁', '▂', '▃', '▄', '▅', '▆', '▇', '█'];
    let max = tallest_of(values);
    for (i, v) in values.iter().enumerate() {
        for row in 0..CHART_ROWS {
            let level = column_level(*v, max, CHART_ROWS, row);
            g.put(at.x + i as u16 * cell, at.y + row, 1, &blocks[level].to_string());
        }
    }
}

fn draw_charts(g: &mut Grid, p: &Page, body: Rect) {
    let d = p.data.as_ref().unwrap();
    let rows = overview_rows(body);
    let vs = versus_label(&p.period, &p.options);
    let before = d.previous.as_ref().map(|s| Before { plays: s.plays, listened_ms: s.listened_ms });
    let pct = before.map(|b| percent(d.summary.plays, b.plays)).unwrap_or(0);
    for (i, t) in tiles(&d.summary, before, pct, vs.as_ref()).iter().enumerate() {
        let (col, row) = (i as u16 % 3, i as u16 / 3);
        if row < rows.tile_rows {
            let x = body.x + col * (body.width / 3);
            let y = rows.tiles + row * 4;
            g.put(x, y, body.width / 3 - 1, &words(&t.value));
            g.put(x, y + 1, body.width / 3 - 1, phrase(t.label));
            g.put(x, y + 2, body.width / 3 - 1, &words(&t.detail));
        }
    }
    if let Some(y) = rows.days {
        let earliest = d.periods.as_ref().and_then(|x| x.earliest.as_deref());
        let from = chart_from(p.period.preset, earliest, &d.summary.from);
        let (_, values, kind) = calendar_series(&d.series, from, &d.summary.to, &p.zone);
        assert!(adds_up(&values));
        let c = day_chart(&values, kind, body.width as usize);
        g.put(body.x, y, body.width, &words(&c.title));
        g.put_right(body.x, y, body.width, &days_note(&d.summary).as_ref().map(words).unwrap_or_default());
        draw_columns(g, Rect { y: y + 1, ..body }, &c.values, c.cell);
    }
    if let Some(y) = rows.hours {
        let title = phrase("sta.chart_hours");
        g.put(body.x, y, body.width, title);
        let said = hours_note(&d.summary).as_ref().map(words).unwrap_or_default();
        let width = hours_width(body.width, p.peer_plays());
        if count(title) + 2 + count(&said) <= width {
            g.put(body.x + count(title) + 2, y, width, &said);
        }
        draw_columns(g, Rect { y: y + 1, ..body }, &hour_series(&d.hours), 2);
        if width < body.width {
            let x = body.x + width + 3;
            g.put(x, y, body.width, phrase("sta.origins_title"));
            let o = &d.summary.origins;
            let (local, peers) = origin_shares(o);
            for (dy, k, filled, slice) in [(1, "sta.origin_local_row", local, &o.local), (3, "sta.origin_peers_row", peers, &o.peers)] {
                let line = format!("{:<14}{}{}  {}", phrase(k), "▰".repeat(filled), "▱".repeat(SHARE_W - filled), words(&origin_words(slice)));
                g.put(x, y + dy, body.width, &line);
            }
        }
    }
}

fn draw_top(g: &mut Grid, p: &mut Page, body: Rect) {
    let show = phrase("sta.ctl_show");
    g.put(body.x, body.y, body.width, show);
    let entities: Vec<&str> = [Entity::Tracks, Entity::Artists, Entity::Albums, Entity::Genres].iter().map(|e| phrase(e.label())).collect();
    let end = draw_choices(g, body.x + count(show) + 2, body.y, body.right(), &entities, p.entity.index());
    let metrics = [phrase(Metric::Plays.label()), phrase(Metric::Time.label())];
    let rank = phrase("sta.ctl_rank");
    if let Some(x) = picker_place(end + 2, count(rank), &metrics.iter().map(|m| count(m)).collect(), body.right()) {
        g.put(x, body.y, body.width, rank);
        draw_choices(g, x + count(rank) + 2, body.y, body.right(), &metrics, if p.metric == Metric::Plays { 0 } else { 1 });
    }
    let c = top_columns(body, p.entity == Entity::Tracks);
    let mut xs = vec![body.x, c.name];
    xs.extend(c.tracks);
    xs.extend([c.share, c.plays, c.time]);
    xs.extend(c.last);
    for (x, k) in xs.iter().zip(top_heads(p.entity)) {
        g.put(*x, body.y + 2, 12, phrase(k));
    }
    let max = leader_of(&p.top, p.metric).max(1);
    let (first, visible) = p.rows_in_view(p.top.len(), body.height as usize - 4);
    assert!(clock_reads(NOW, &p.zone));
    for i in first..first + visible {
        let r = top_row(&p.top[i], p.entity, p.metric, max, NOW, &p.zone, UNKNOWN);
        let y = body.y + 4 + (i - first) as u16;
        let via = r.via.as_ref().map(words).unwrap_or_default();
        let title = clip(&words(&r.name), c.name_width - count(&via));
        g.put(body.x, y, 2, &format!("{:>2}", i + 1));
        g.put(c.name, y, c.name_width, &format!("{title}{via}"));
        let extra = r.extra.as_ref().map(words).unwrap_or_default();
        if let Some(x) = c.tracks {
            g.put(x, y, TOP_TRACKS_W, &clip(&extra, TOP_TRACKS_W));
        }
        g.put(c.share, y, SHARE_W as u16, &format!("{}{}", "▰".repeat(r.filled), "▱".repeat(SHARE_W - r.filled)));
        g.put_right(c.plays, y, TOP_PLAYS_W, &r.plays);
        g.put(c.time, y, TOP_TIME_W, &clip(&words(&r.time), TOP_TIME_W));
        if let Some(x) = c.last {
            g.put(x, y, TOP_LAST_W, &clip(&extra, TOP_LAST_W));
        }
    }
}

fn draw_recent(g: &mut Grid, p: &mut Page, body: Rect) {
    let c = recent_columns(body);
    for (x, k) in [body.x, c.day, c.track, c.outcome, c.listened, c.client].iter().zip(recent_heads()) {
        g.put(*x, body.y, 12, phrase(k));
    }
    let (first, visible) = p.rows_in_view(p.history.len(), body.height as usize - 2);
    assert!(clock_reads(NOW, &p.zone));
    for i in first..first + visible {
        let r = recent_row(&p.history[i], NOW, &p.zone, UNKNOWN);
        let y = body.y + 2 + (i - first) as u16;
        g.put(body.x, y, RECENT_TIME_W, &r.time);
        g.put(c.day, y, RECENT_DAY_W, &clip(&r.day.as_ref().map(words).unwrap_or_default(), RECENT_DAY_W));
        g.put(c.track, y, c.track_width, &clip(&r.track, c.track_width));
        g.put(c.outcome, y, RECENT_OUTCOME_W, &clip(&words(&r.outcome), RECENT_OUTCOME_W));
        g.put(c.listened, y, RECENT_LISTENED_W, &clip(&words(&r.listened), RECENT_LISTENED_W));
        let not_counted = Msg::Key("sta.not_counted");
        let client = client_cell(&r, &not_counted, words(&r.client).chars().count());
        g.put(c.client, y, RECENT_CLIENT_W, &clip(&words(client), RECENT_CLIENT_W));
    }
}

/// The play, then what else there is to say, a dot before each.
fn said_of_play(item: &HistoryItem) -> String {
    let parts = recent_words(item, NOW, &None, UNKNOWN);
    let play = play_words(item, NOW, &None, UNKNOWN).len();
    let mut out: String = parts[..play].iter().map(words).collect();
    for m in &parts[play..] {
        out.push_str(&format!(" · {}", words(m)));
    }
    out
}

fn draw_card(g: &mut Grid, p: &Page) {
    let earliest = p.data.as_ref().and_then(|d| d.periods.as_ref()).and_then(|x| x.earliest.as_deref());
    match p.modal {
        Modal::Closed => {}
        Modal::Period(cursor) => {
            let foot = period_foot(earliest, &p.zone);
            let (height, first, visible) = period_list(p.options.len(), cursor, 30, foot.is_some());
            let inner = g.card(46, height);
            g.put(inner.x + 1, inner.y, inner.width - 2, phrase("sta.period_title"));
            g.put_right(inner.x, inner.y, inner.width, "[X]");
            for i in first..first + visible {
                let o = &p.options[i];
                let mut line = format!(" {}", name(o));
                if let Some(d) = &o.detail {
                    line.push_str(&format!("  {}", words(&d.words())));
                }
                g.put(inner.x + 1, inner.y + 2 + (i - first) as u16, inner.width - 2, &line);
            }
            if let Some(f) = foot {
                g.put(inner.x + 2, inner.y + 3 + visible as u16, inner.width - 3, &words(&f));
            }
        }
        Modal::Forget(row) => {
            let inner = g.card(70, 10);
            let fixed = forget_words();
            g.put(inner.x + 1, inner.y, inner.width - 2, phrase(fixed[0]));
            let play: String = play_words(&p.history[row], NOW, &p.zone, UNKNOWN).iter().map(words).collect();
            g.put(inner.x + 1, inner.y + 2, inner.width - 2, &play);
            g.put(inner.x + 1, inner.y + 4, inner.width - 2, phrase(fixed[1]));
            g.put(inner.x + 1, inner.y + 7, inner.width - 2, &format!("  {}    {}  ", phrase(fixed[2]), phrase(fixed[3])));
        }
    }
}

fn draw(p: &mut Page) -> String {
    let mut g = Grid::new();
    let whole = room_column(Rect { x: 0, y: 0, width: 100, height: 30 });
    let column = Rect { height: whole.height + 1, ..whole };
    g.put(2, 0, 96, phrase("sta.title"));
    g.put_right(2, 0, 96, &heading("home.mstream.example", &p.username));
    let bullet = format!("• {}", name(&p.period));
    let state = match state_line(p) {
        None => String::new(),
        Some(StateLine::NoApi) => format!("{}{}", phrase("sta.noapi_state"), phrase("sta.noapi_detail")),
        Some(StateLine::Empty) => format!("{}{}", phrase("sta.empty_state"), phrase("sta.empty_state_detail")),
        Some(StateLine::Nothing) => format!("{bullet}{}", phrase("sta.nothing_state")),
        Some(StateLine::Facts(m)) => format!("{bullet}{}", words(&m)),
    };
    g.put(column.x, column.y, column.width, &state);
    let names: Vec<&str> = [Tab::Overview, Tab::Top, Tab::Recent].iter().map(|t| phrase(t.name())).collect();
    let places = tab_places(column.x, &names.iter().map(|n| count(n)).collect());
    for (r, n) in places.iter().zip(&names) {
        g.put(r.x, column.y + 2, r.width, &format!(" {n} "));
    }
    let body = Rect { y: column.y + 4, height: column.height - 4, ..column };
    match (p.tab, overview(p)) {
        (_, Overview::Blank) => {}
        (Tab::Overview, Overview::Empty) => {
            let (one, two, clock) = empty_log_words(&p.zone);
            g.put(body.x, body.y + 1, body.width, phrase(one));
            g.put(body.x, body.y + 2, body.width, phrase(two));
            g.put(body.x, body.y + 4, body.width, &words(&clock));
        }
        (Tab::Overview, kind) => {
            draw_controls(&mut g, p, Rect { height: 1, ..body });
            if kind == Overview::Nothing {
                let earliest = p.data.as_ref().and_then(|d| d.periods.as_ref()).and_then(|x| x.earliest.as_deref());
                g.put(body.x, body.y + 3, body.width, &words(&nothing_title(&p.period)));
                g.put(body.x, body.y + 5, body.width, &words(&nothing_hint(earliest, &p.zone)));
            } else {
                draw_charts(&mut g, p, body);
            }
        }
        (Tab::Top, _) => draw_top(&mut g, p, body),
        (Tab::Recent, _) => draw_recent(&mut g, p, body),
    }
    if let Some(b) = &p.busy {
        g.put(2, 28, 96, &words(b));
    } else if let Some(n) = &p.note {
        g.put(2, 28, 96, &words(&n.msg));
    } else if let (Some(i), Modal::Closed) = (p.sel, &p.modal) {
        let line = match p.tab {
            Tab::Overview => String::new(),
            Tab::Top => words(&top_words(&p.top[i], p.entity, NOW, &p.zone, UNKNOWN)),
            Tab::Recent => said_of_play(&p.history[i]),
        };
        g.put(2, 28, 96, &line);
    }
    let tips = match modal_hint(p) {
        Some(m) => words(&m),
        None => page_hints(p).iter().map(|k| phrase(k)).collect::<Vec<_>>().join(" · "),
    };
    g.put(2, 29, 96, &tips);
    draw_card(&mut g, p);
    g.text()
}

fn row(frame: &str, needle: &str) -> String {
    frame.lines().find(|l| l.contains(needle)).map(|l| l.to_string()).unwrap_or_else(|| panic!("no row with {needle:?}:\n{frame}"))
}

#[test]
fn boots_loading_then_draws_the_overview_with_its_tiles_charts_and_state_line() {
    let mut p = start(Some("anna".into()), None, phrases());
    assert!(matches!(p.queued, Some(Op::Load { .. })), "the first load is queued");
    assert_eq!(busy(&p).as_deref(), Some("loading your listening…"));
    p.zone = None;
    p.queued = None;
    p.busy = None;
    let frame = draw(&mut p);
    assert!(frame.contains("Stats") && frame.contains("home.mstream.example · anna"), "{frame}");
    assert!(!frame.contains("• This month"), "no state line before the load lands:\n{frame}");

    let seq = p.seq;
    p.apply(Done::Loaded { seq, result: Ok(loaded(summary(388, 425), Some(periods()))) });
    let frame = draw(&mut p);
    assert!(frame.contains("• This month — 388 plays · 31h 12m · 188 tracks · times in UTC"), "{frame}");
    assert!(frame.contains(" Overview ") && frame.contains(" Top ") && frame.contains(" Recent "), "{frame}");
    assert!(frame.contains("PERIOD  ‹ This month ›   [ ] step · p list"), "{frame}");
    assert!(frame.contains("ORIGIN  (•) all   ( ) this server   ( ) peers"), "the log holds peer plays:\n{frame}");
    // The six tiles and their details, against August by its own name.
    let tiles = [
        ("388", "plays", "+12% vs August 2026"),
        ("31h 12m", "listening time", "+1h 12m vs August 2026"),
        ("188", "tracks", "14% of the library"),
        ("37", "skips", "8% of starts"),
        ("6 days", "streak", "longest 11"),
        ("42", "sessions", "about 44 min each"),
    ];
    for (value, label, detail) in tiles {
        assert!(frame.contains(value) && frame.contains(label) && frame.contains(detail), "tile {label}:\n{frame}");
    }
    assert!(row(&frame, "PLAYS PER DAY").contains("most on Tue 8 · 41 plays, 2h 10m"), "{frame}");
    assert!(frame.contains("WHEN YOU LISTEN  most around 21:00, Sundays"), "{frame}");
    assert!(frame.contains("WHERE THE TRACKS LIVE"), "{frame}");
    assert!(row(&frame, "this server   ▰").contains("▰▰▰▰▰▰▰▰▰▱  374 plays · 28h 40m"), "{frame}");
    assert!(row(&frame, "peers’ tracks").contains("▰▱▱▱▱▱▱▱▱▱  38 plays · 2h 32m"), "{frame}");
    assert!(frame.contains("█"), "the tallest day is a full column:\n{frame}");
    assert!(frame.contains("←→ tab · [ ] period · p pick a period · o origin · q quit"), "{frame}");
    // Every period the fixture names, in order, then All time.
    let names: Vec<String> = p.options.iter().map(name).collect();
    assert_eq!(names, ["This week", "Last week", "This month", "Last month", "July 2026", "This quarter", "Last quarter", "This half-year", "This year", "Last year", "All time"]);
    assert_eq!(p.options[0].detail.as_ref().map(|d| words(&d.words())).as_deref(), Some("Week of 2026-09-07"));
    assert_eq!(p.options[2].detail.as_ref().map(|d| words(&d.words())).as_deref(), Some("September 2026"));
}

#[test]
fn the_period_steps_on_brackets_lists_on_p_and_a_new_choice_reloads() {
    let mut p = ready();
    let seq = p.seq;
    press(&mut p, Code::Char('['));
    assert_eq!(name(&p.period), "Last week");
    assert!(p.data.is_none(), "the old numbers go before the new arrive");
    assert!(matches!(&p.queued, Some(Op::Load { seq: s, period, .. }) if *s > seq && period.preset == Preset::Week && period.offset == -1), "{:?}", p.queued);
    assert_eq!(busy(&p).as_deref(), Some("loading your listening…"));
    let frame = draw(&mut p);
    assert!(frame.contains("loading your listening…"), "{frame}");

    // An answer to the older question is dropped.
    p.apply(Done::Loaded { seq, result: Ok(loaded(summary(1, 1), Some(periods()))) });
    assert!(p.data.is_none());
    let live = p.seq;
    p.apply(Done::Loaded { seq: live, result: Ok(loaded(summary(120, 130), Some(periods()))) });
    assert!(draw(&mut p).contains("• Last week — 120 plays"));

    press(&mut p, Code::Char('p'));
    assert_eq!(p.modal, Modal::Period(1));
    let frame = draw(&mut p);
    assert!(frame.contains("Period") && frame.contains("[X]"), "{frame}");
    assert!(frame.contains("Last week  Week of 2026-08-31"), "{frame}");
    assert!(frame.contains("first play 3 March 2026"), "{frame}");
    assert!(frame.contains("↑↓ pick · Enter choose · Esc keep Last week"), "{frame}");
    press(&mut p, Code::Down);
    press(&mut p, Code::Down);
    press(&mut p, Code::Esc);
    assert_eq!(p.modal, Modal::Closed);
    assert_eq!(name(&p.period), "Last week", "Esc keeps");
    press(&mut p, Code::Char('p'));
    press(&mut p, Code::Down);
    press(&mut p, Code::Down);
    press(&mut p, Code::Enter);
    assert_eq!(name(&p.period), "Last month");
    assert!(matches!(&p.queued, Some(Op::Load { period, .. }) if period.is(Preset::Month, -1)));
    // The last option is All time; stepping past it stays there.
    for _ in 0..20 {
        press(&mut p, Code::Char(']'));
    }
    assert_eq!(name(&p.period), "All time");
    assert!(matches!(&p.queued, Some(Op::Load { period, .. }) if period.preset == Preset::All));
}

#[test]
fn the_origin_cycles_on_o_only_while_the_log_holds_peer_plays() {
    let mut p = ready();
    press(&mut p, Code::Char('o'));
    assert_eq!(p.origin, Origin::Local);
    assert!(matches!(&p.queued, Some(Op::Load { origin: Origin::Local, .. })));
    let live = p.seq;
    let mut only_local = summary(374, 400);
    only_local.origins.peers = slice(0, 0);
    p.apply(Done::Loaded { seq: live, result: Ok(loaded(only_local, Some(periods()))) });
    let frame = draw(&mut p);
    assert!(frame.contains("(•) this server"), "the control stays while the filter is on:\n{frame}");
    press(&mut p, Code::Char('o'));
    press(&mut p, Code::Char('o'));
    assert_eq!(p.origin, Origin::All);

    let mut p = page();
    p.reload(true);
    p.queued = None;
    let mut no_peers = summary(374, 400);
    no_peers.origins.peers = slice(0, 0);
    let live = p.seq;
    p.apply(Done::Loaded { seq: live, result: Ok(loaded(no_peers, Some(periods()))) });
    let frame = draw(&mut p);
    assert!(!frame.contains("ORIGIN") && !frame.contains("WHERE THE TRACKS LIVE") && !frame.contains("o origin"), "{frame}");
    assert!(press(&mut p, Code::Char('o')).is_none());
    assert_eq!(p.origin, Origin::All);
    assert!(p.queued.is_none());
}

#[test]
fn the_top_tab_ranks_with_a_share_bar_and_reranks_on_t_and_m() {
    let mut p = ready();
    press(&mut p, Code::Right);
    assert_eq!(p.tab, Tab::Top);
    let frame = draw(&mut p);
    assert!(frame.contains("SHOW  (•) tracks   ( ) artists   ( ) albums   ( ) genres"), "{frame}");
    assert!(frame.contains("RANK BY  (•) plays   ( ) time"), "{frame}");
    assert!(frame.contains("#   TRACK") && frame.contains("SHARE") && frame.contains("PLAYS") && frame.contains("TIME") && frame.contains("LAST"), "{frame}");
    let first = row(&frame, "Boards of Canada - Roygbiv");
    assert!(first.contains("▰▰▰▰▰▰▰▰▰▰") && first.contains("38") && first.contains("2h 31m") && first.contains("today"), "{first}");
    let peer = row(&frame, "Bassnectar - Rewind The Track");
    assert!(peer.contains(" · via attic") && peer.contains("▰▰▰▰▰▱▱▱▱▱") && peer.contains("1h 24m"), "{peer}");
    assert!(frame.contains("↑↓ select · ←→ tab · t what · m rank by · [ ] period · o origin · q quit"), "{frame}");

    press(&mut p, Code::Down);
    press(&mut p, Code::Down);
    let frame = draw(&mut p);
    assert!(frame.contains("Aphex Twin - Xtal · Selected Ambient Works 85-92 (1992) · 31 plays · 2h 32m · last played today"), "{frame}");
    assert!(frame.contains("↑↓ rows · ←→ tab · t what · m rank by · [ ] period · o origin · Esc deselect"), "{frame}");

    press(&mut p, Code::Char('m'));
    assert_eq!(p.metric, Metric::Time);
    assert!(matches!(&p.queued, Some(Op::Top { metric: Metric::Time, entity: Entity::Tracks, .. })));
    assert!(p.sel.is_none(), "a re-rank drops the cursor");
    p.queued = None;
    let frame = draw(&mut p);
    let first = row(&frame, "Aphex Twin - Xtal");
    assert!(first.contains("▰▰▰▰▰▰▰▰▰▰"), "the share follows the metric:\n{first}");

    press(&mut p, Code::Char('t'));
    assert_eq!(p.entity, Entity::Artists);
    assert!(matches!(&p.queued, Some(Op::Top { entity: Entity::Artists, metric: Metric::Time, .. })));
    p.queued = None;
    let live = p.seq;
    let artists = vec![top_item(96, 25_320_000, None, Some("Boards of Canada"), None), top_item(61, 17_880_000, None, Some("Aphex Twin"), None)];
    p.apply(Done::Top { seq: live, result: Ok(artists) });
    let frame = draw(&mut p);
    assert!(frame.contains("#   ARTIST") && frame.contains("TRACKS") && !frame.contains("LAST"), "{frame}");
    assert!(row(&frame, "Boards of Canada").contains("14 tracks"), "{frame}");
    press(&mut p, Code::Down);
    assert!(draw(&mut p).contains("Boards of Canada · 14 tracks · 96 plays · 7h 02m"));
}

#[test]
fn the_recent_tab_words_each_play_and_pages_as_the_cursor_nears_the_end() {
    let mut p = ready();
    press(&mut p, Code::Left);
    assert_eq!(p.tab, Tab::Recent);
    let frame = draw(&mut p);
    assert!(frame.contains("TIME   DAY") && frame.contains("TRACK") && frame.contains("OUTCOME") && frame.contains("LISTENED") && frame.contains("CLIENT"), "{frame}");
    let done = row(&frame, "completed");
    assert!(done.contains("today") && done.contains("2:31") && done.contains("web player"), "{done}");
    let skipped = row(&frame, "skipped at 0:08");
    assert!(skipped.contains("0:08 of 8:15") && skipped.contains("not counted") && !skipped.contains("this player"), "not counted takes the client's place:\n{skipped}");
    let stopped = row(&frame, "stopped at 5:40");
    assert!(stopped.contains("yesterday") && stopped.contains("5:40 of 9:05") && stopped.contains("mStream Mobile") && !stopped.contains("2.4.1"), "the name alone where the version does not fit:\n{stopped}");
    let legacy = row(&frame, "scrobbled at 0:30");
    assert!(legacy.contains("older client"), "{legacy}");

    press(&mut p, Code::Down);
    press(&mut p, Code::Down);
    // Four rows and a cursor near the end: the next page is asked for once.
    assert!(matches!(&p.queued, Some(Op::History { before, .. }) if before == "cursor-2"), "{:?}", p.queued);
    assert!(p.next.is_none());
    assert_eq!(busy(&p).as_deref(), Some("loading older plays…"));
    let frame = draw(&mut p);
    assert!(frame.contains("loading older plays…"), "the busy line wins the note line:\n{frame}");
    p.busy = None;
    let frame = draw(&mut p);
    assert!(row(&frame, "Nils Frahm - Says · today").contains("· skipped at 0:08 of 8:15 · not counted · x forgets it"), "{frame}");
    assert!(frame.contains("↑↓ rows · ←→ tab · x forget this play · [ ] period · o origin · Esc deselect"), "{frame}");
    p.queued = None;
    press(&mut p, Code::Down);
    assert!(p.queued.is_none(), "no second ask while the cursor is taken");
    let live = p.seq;
    let more = StatsHistory { items: vec![play("p5", today0() - 86_400 * 12, "completed", 200_000, Some(200_000), true, Some("mstream-webapp/6.27.0"), None)], next: None };
    p.apply(Done::History { seq: live, result: Ok(more) });
    assert_eq!(p.history.len(), 5);
    press(&mut p, Code::Down);
    press(&mut p, Code::Down);
    assert!(p.queued.is_none(), "the log has no more pages");
}

#[test]
fn the_forget_gate_keeps_on_enter_and_forgets_on_y_then_reloads() {
    let mut p = ready();
    press(&mut p, Code::Left);
    press(&mut p, Code::Down);
    press(&mut p, Code::Down);
    p.queued = None;
    p.busy = None;
    press(&mut p, Code::Char('x'));
    assert_eq!(p.modal, Modal::Forget(1));
    let frame = draw(&mut p);
    assert!(frame.contains("Forget this play?"), "{frame}");
    assert!(frame.contains("Nils Frahm - Says · today") && frame.contains("skipped at 0:08 of 8:15"), "{frame}");
    assert!(frame.contains("It leaves the log and the counts. Nothing else changes."), "{frame}");
    assert!(frame.contains("◂ Keep") && frame.contains("  Forget  ") && frame.contains("y forget · Esc keep"), "{frame}");
    press(&mut p, Code::Enter);
    assert_eq!(p.modal, Modal::Closed, "Enter is the safe choice");
    assert!(p.queued.is_none());

    press(&mut p, Code::Char('x'));
    press(&mut p, Code::Char('y'));
    assert!(matches!(&p.queued, Some(Op::Forget { id, row: 1 }) if id == "p2"));
    assert_eq!(busy(&p).as_deref(), Some("forgetting the play…"));
    p.queued = None;
    p.apply(Done::Forgot { id: "p2".into(), row: 1, result: Ok(()) });
    assert_eq!(p.history.len(), 3);
    assert!(p.history.iter().all(|h| h.id != "p2"));
    assert_eq!(note(&p), "the play is forgotten — the log and the totals reload");
    assert!(matches!(&p.queued, Some(Op::Load { .. })), "the totals reload");
    assert!(p.busy.is_none(), "quietly");

    p.queued = None;
    press(&mut p, Code::Char('x'));
    press(&mut p, Code::Char('y'));
    p.apply(Done::Forgot { id: "p3".into(), row: 1, result: Err(ApiError::Server { status: 404, message: "No such play".into() }) });
    assert_eq!(note(&p), "could not forget the play: server error 404: No such play");
    assert_eq!(p.history.len(), 3);
}

#[test]
fn a_log_with_nothing_in_it_and_a_period_with_nothing_in_it_say_so() {
    let mut p = page();
    p.reload(true);
    p.queued = None;
    let live = p.seq;
    let empty = StatsPeriods { earliest: None, latest: None, periods: Vec::new() };
    p.apply(Done::Loaded { seq: live, result: Ok(loaded(blank(), Some(empty))) });
    let frame = draw(&mut p);
    assert!(frame.contains("• no plays yet — plays land here as you listen"), "{frame}");
    assert!(frame.contains("The web player reports each track when it ends"), "{frame}");
    assert!(frame.contains("Plays this account reports through this server · times in UTC"), "{frame}");
    assert!(!frame.contains("PERIOD"), "nothing to step through:\n{frame}");
    assert!(frame.contains("←→ tab · q quit"), "{frame}");
    assert_eq!(p.options.iter().map(name).collect::<Vec<_>>(), ["This month", "All time"]);

    // A period the log covers but nothing was started in.
    let mut p = page();
    p.reload(true);
    p.queued = None;
    let live = p.seq;
    let mut nothing = blank();
    nothing.from = "2026-08-01T00:00:00.000Z".into();
    p.period = Period { preset: Preset::Month, offset: -1, name: Label::Key("sta.last_month"), detail: Some(Label::MonthOf(8, 2026)) };
    p.apply(Done::Loaded { seq: live, result: Ok(loaded(nothing, Some(periods()))) });
    let frame = draw(&mut p);
    assert!(frame.contains("• Last month — no plays started in this period"), "{frame}");
    assert!(frame.contains("Nothing in Last month"), "{frame}");
    assert!(frame.contains("Your log begins on 3 March 2026 — [ ] walks the periods, p lists them."), "{frame}");
    assert!(frame.contains("PERIOD  ‹ Last month ›"), "{frame}");

    // The default period with nothing in it, on a log that has data
    // elsewhere: the first period with data.
    let mut p = page();
    p.reload(true);
    p.queued = None;
    let live = p.seq;
    let only_old = StatsPeriods {
        earliest: Some("2025-03-03T14:00:00.000Z".into()),
        latest: None,
        periods: vec![option("year", -1, "2025", "2025-01-01T00:00:00.000Z")],
    };
    p.apply(Done::Loaded { seq: live, result: Ok(loaded(blank(), Some(only_old))) });
    assert_eq!(name(&p.period), "Last year");
    assert!(matches!(&p.queued, Some(Op::Load { period, .. }) if period.is(Preset::Year, -1)));
}

#[test]
fn load_errors_name_the_gate_and_an_old_server_is_told_apart() {
    let mut p = page();
    p.reload(true);
    p.queued = None;
    let live = p.seq;
    p.apply(Done::Loaded { seq: live, result: Err(ApiError::NotFound("api/v1/stats/summary".into())) });
    assert!(p.no_api);
    let frame = draw(&mut p);
    assert!(frame.contains("• no Stats API — this server does not have it yet; it arrived in mStream 6.27"), "{frame}");
    assert!(frame.contains("←→ tab · q quit"), "{frame}");

    let mut p = page();
    p.reload(true);
    p.queued = None;
    let live = p.seq;
    p.apply(Done::Loaded { seq: live, result: Err(ApiError::Forbidden("Forbidden".into())) });
    assert_eq!(note(&p), "this session has no account behind it — the log is per account; sign in with `mstream-player login`");
    let mut p = page();
    p.reload(true);
    p.queued = None;
    let live = p.seq;
    p.apply(Done::Loaded { seq: live, result: Err(ApiError::Network("connection refused".into())) });
    assert_eq!(note(&p), "could not load your listening: could not reach server: connection refused");
    assert!(p.note.as_ref().is_some_and(|n| n.error));
}

fn delta(now: u64, before: Option<u64>, l: &Label) -> Option<String> {
    delta_text(before, percent(now, before.unwrap_or(0)), l).as_ref().map(words)
}

fn fixed_zone(offset: i32) -> Option<Zone> {
    Some(Zone { name: "somewhere".into(), base: offset, changes: vec![] })
}

#[test]
fn the_words_follow_the_webapp() {
    assert_eq!(words(&fmt_duration(0)), "0 min");
    assert_eq!(words(&fmt_duration(58 * 60_000)), "58 min");
    assert_eq!(words(&fmt_duration(2 * 3_600_000)), "2h");
    assert_eq!(words(&fmt_duration(9 * 3_600_000 + 24 * 60_000 + 40_000)), "9h 25m");
    assert_eq!(fmt_clock(247_000), "4:07");
    assert_eq!(fmt_clock(3_735_000), "1:02:15");
    let august = Label::Server("August 2026".into());
    let x = Label::Server("x".into());
    assert_eq!(delta(388, Some(346), &august).as_deref(), Some("+12% vs August 2026"));
    assert_eq!(delta(300, Some(346), &Label::Server("last week".into())).as_deref(), Some("−13% vs last week"));
    assert_eq!(delta(346, Some(346), &august).as_deref(), Some("same as August 2026"));
    assert_eq!(delta(10, Some(0), &x), None);
    assert_eq!(delta(10, None, &x), None);
    let lasting = |now: u64, before: Option<u64>, l: &Label| delta_duration(now, before, l).as_ref().map(words);
    assert_eq!(lasting(3_900_000, Some(0), &x), None);
    assert_eq!(lasting(3_900_000, Some(3_870_000), &august).as_deref(), Some("same as August 2026"));
    assert_eq!(lasting(7_500_000, Some(3_600_000), &august).as_deref(), Some("+1h 05m vs August 2026"));
    assert_eq!(words(&day_key_label("2026-09-11")), "Fri 11");
    // Any three numbers are a day: what is too much counts on.
    assert_eq!(words(&day_key_label("2026-13-05")), "Tue 5");
    assert_eq!(words(&day_key_label("2026-00-10")), "Wed 10");
    assert_eq!(words(&day_key_label("2026-09-31")), "Thu 31");
    assert_eq!(words(&day_key_label("2026-09--5")), "Sun -5");
    assert_eq!(words(&day_key_label("2026--5-11")), "Fri 11");
    assert_eq!(words(&day_key_label("2026-09-x1")), "2026-09-x1");
    assert_eq!(hour_label(21), "21:00");
    let flat = "{\"title\":\"Xtal\",\"artist\":\"Aphex Twin\"}";
    assert_eq!(track_words(Some(flat), UNKNOWN), Track { title: "Xtal".into(), artist: "Aphex Twin".into(), album: String::new(), year: None });
    let bare = "{\"filepath\":\"music/Unknown Artist/07 - Untitled.mp3\",\"metadata\":{\"title\":\"\",\"artist\":null}}";
    assert_eq!(track_words(Some(bare), UNKNOWN).title, "07 - Untitled.mp3");
    assert_eq!(track_words(None, UNKNOWN).title, "Unknown track");
    // Local clocks: an offset moves the day label across midnight.
    let t = days_from_civil(2026, 9, 8) * 86_400 + 23 * 3600;
    let n = days_from_civil(2026, 9, 13) * 86_400;
    assert_eq!(words(&day_label(t, n, 0, 0)), "Sep 8");
    assert_eq!(words(&day_label(t, n, 3600 * 2, 0)), "Sep 9");
    assert_eq!(words(&day_label(t, n, 0, 0)).len(), 5);
    assert_eq!(words(&day_label(days_from_civil(2025, 9, 8) * 86_400, n, 0, 0)), "Sep 8, 2025");
    assert_eq!(time_label(t, -4 * 3600), "19:00");
    assert_eq!(words(&date_long(t, 0)), "8 September 2026");
    // The calendar series covers the whole range, zeros where nothing played.
    let days = series("day", vec![bucket("2026-09-03", 5)]);
    let (keys, values, kind) = calendar_series(&days, "2026-09-01T04:00:00.000Z", "2026-10-01T04:00:00.000Z", &fixed_zone(-4 * 3600));
    assert_eq!((keys.len(), kind.param()), (30, "day"));
    assert_eq!(keys[0], "2026-09-01");
    assert_eq!(values[2], 5);
    assert_eq!(values.iter().sum::<u64>(), 5);
    let months = series("month", vec![bucket("2026-03", 9)]);
    let (keys, values, _) = calendar_series(&months, "2026-01-01T05:00:00.000Z", "2027-01-01T05:00:00.000Z", &fixed_zone(-5 * 3600));
    assert_eq!(keys.len(), 12);
    assert_eq!(values[2], 9);
    assert_eq!(words(&month_axis(&keys, 1)[0].1), "Jan 2026");
    let weeks = series("week", vec![bucket("2026-07-06", 3)]);
    let (keys, values, _) = calendar_series(&weeks, "2026-07-01T04:00:00.000Z", "2027-01-01T05:00:00.000Z", &fixed_zone(-4 * 3600));
    assert_eq!(keys[0], "2026-06-29", "weeks start on their Monday");
    assert_eq!(values[1], 3);
}

#[test]
fn charts_fold_scale_and_label() {
    assert_eq!(fold_of(30, 96), 1);
    assert_eq!(fold_of(365, 96), 4);
    assert_eq!(fold_of(10, 0), 10);
    assert_eq!(fold_values(&vec![1, 2, 3, 4, 5], 2), vec![3, 7, 5]);
    assert_eq!(cell_width_of(30, 96), 3);
    assert_eq!(cell_width_of(60, 96), 1);
    assert_eq!(tallest_of(&vec![3, 9, 4]), 9);
    assert_eq!(column_level(9, 9, 4, 0), 8);
    assert_eq!(column_level(9, 9, 4, 3), 8);
    assert_eq!(column_level(0, 9, 4, 0), 0);
    assert!(!adds_up(&vec![u64::MAX, 1]));
    let keys: Vec<String> = (1..=30).map(|d| format!("2026-09-{d:02}")).collect();
    let axis = day_axis(&keys, 1);
    assert_eq!(axis[0], (0, "1".to_string()));
    assert!(axis.windows(2).all(|w| w[0].0 < w[1].0));
    let mondays = vec!["2026-06-29".to_string(), "2026-07-06".to_string()];
    assert_eq!(words(&week_axis(&mondays, 1)[0].1), "29 Jun");
    let placed = place_labels(&vec![(0, 2), (1, 2), (5, 2)], 1, 10);
    assert_eq!(placed, vec![Some(0), None, Some(5)], "labels never touch");
    let hours = hour_series(&series("hourOfDay", vec![bucket("21", 47), bucket("9", 6), bucket("99", 5)]));
    assert_eq!((hours.len(), hours[21], hours[9], hours.iter().sum::<u64>()), (24, 47, 6, 53));
}

/// The days of two months on end, as keys.
fn autumn(days: usize) -> Vec<String> {
    let months = (1..=30).map(|d| format!("2026-09-{d:02}")).chain((1..=31).map(|d| format!("2026-10-{d:02}")));
    months.chain((1..=30).map(|d| format!("2026-11-{d:02}"))).take(days).collect()
}

#[test]
fn a_long_range_keeps_every_bar() {
    let none = series("day", vec![]);
    let (keys, values, _) = calendar_series(&none, "2025-01-01T00:00:00Z", "2026-06-01T00:00:00Z", &fixed_zone(0));
    assert_eq!((keys.len(), values.len()), (516, 516));
    assert_eq!((keys[0].as_str(), keys[515].as_str()), ("2025-01-01", "2026-05-31"));
    assert!(values.iter().all(|v| *v == 0));
    let months = series("month", vec![bucket("2026-03", 9)]);
    let (keys, values, _) = calendar_series(&months, "1980-01-01T00:00:00Z", "2027-01-01T00:00:00Z", &fixed_zone(0));
    assert_eq!((keys.len(), keys[0].as_str(), keys[563].as_str()), (564, "1980-01", "2026-12"));
    assert_eq!(values[554], 9);
    let weeks = series("week", vec![]);
    let (keys, _, _) = calendar_series(&weeks, "2016-01-01T00:00:00Z", "2026-01-01T00:00:00Z", &fixed_zone(0));
    assert_eq!((keys.len(), keys[0].as_str(), keys[522].as_str()), (523, "2015-12-28", "2025-12-29"));
}

#[test]
fn folded_days_keep_the_labels_of_their_columns() {
    let label = |i: usize, text: &str| (i, text.to_string());
    // The first and the last column have one, however many days they hold.
    assert_eq!(day_axis(&autumn(4), 2), vec![label(0, "1"), label(1, "4")]);
    assert_eq!(day_axis(&autumn(3), 5), vec![label(0, "1")]);
    // A fifth day labels the column that holds it.
    let axis = day_axis(&autumn(60), 2);
    assert_eq!(axis[..4], [label(0, "1"), label(2, "5"), label(4, "10"), label(7, "15")]);
    assert_eq!(axis[axis.len() - 1], label(29, "30"));
    // Past forty columns every seventh, and the last.
    let columns: Vec<usize> = day_axis(&autumn(50), 1).into_iter().map(|l| l.0).collect();
    assert_eq!(columns, vec![0, 7, 14, 21, 28, 35, 42, 49]);
    let axis = day_axis(&autumn(90), 2);
    assert_eq!(axis.iter().map(|l| l.0).collect::<Vec<_>>(), vec![0, 7, 14, 21, 28, 35, 42, 44]);
    assert_eq!((axis[1].1.as_str(), axis[7].1.as_str()), ("15", "29"));
    for (days, fold) in [(31, 1), (60, 2), (61, 7), (90, 2), (91, 4)] {
        assert!(day_axis(&autumn(days), fold).windows(2).all(|w| w[0].0 < w[1].0), "{days} by {fold}");
    }
    assert!(day_axis(&vec![], 3).is_empty());
}

/// How high a column is, in eighths of a row.
fn height(v: u64, max: u64, rows: u16) -> usize {
    (0..rows).map(|row| column_level(v, max, rows, row)).sum()
}

#[test]
fn columns_are_measured_in_doubles() {
    let wanted = |v: u64, max: u64, rows: u16| ((v as f64 / max as f64) * (rows * 8) as f64).round() as usize;
    assert_eq!(height(61, 112, 7), 30, "just below the half");
    for max in 1..=160 {
        for v in 0..=max {
            for rows in [1, 3, 4, 7, 12, 64] {
                assert_eq!(height(v, max, rows), wanted(v, max, rows), "{v} of {max}, {rows} rows");
            }
        }
    }
    let most = u64::MAX;
    let near = 1 << 53;
    for (v, max) in [(most, most), (most - 1, most), (1, most), (most / 2, most), (near + 1, 2 * near + 3), (near - 1, near + 1), (3, 1 << 60), (most / 3, most - 2047)] {
        for rows in [1, 4, 5, 1000] {
            assert_eq!(height(v, max, rows), wanted(v, max, rows), "{v} of {max}, {rows} rows");
        }
    }
}

#[test]
fn a_period_that_reads_the_same_is_the_same() {
    let text = |l: Label| l.text(&phrases());
    assert_eq!(text(Label::MonthOf(9, 2026)), "September 2026");
    assert_eq!(text(Label::WeekOf(2026, 8, 31)), "Week of 2026-08-31");
    assert_eq!(text(Label::Key("sta.all_time")), "All time");
    assert_eq!(text(Label::Key("sta.nowhere")), "sta.nowhere");
    assert_eq!(text(Label::Server("Q3 2026".into())), "Q3 2026");
    assert_eq!((signed_decimal(i64::MIN), signed_decimal(-7), signed_decimal(2026)), ("-9223372036854775808".to_string(), "-7".to_string(), "2026".to_string()));
    let month = |detail: Label| Period { preset: Preset::Month, offset: 0, name: Label::Key("sta.this_month"), detail: Some(detail) };
    // The month by its date and the month in the server's equal words.
    for (detail, same) in [("September 2026", true), ("Sept. 2026", false)] {
        let mut p = page();
        p.period = month(Label::MonthOf(9, 2026));
        p.options = vec![month(Label::Server(detail.into()))];
        p.act(Act::PeriodList);
        p.act(Act::PeriodChoose);
        assert_eq!(p.queued.is_none(), same, "{detail}");
    }
    let mut p = page();
    p.take_period(Period::all_time(), true);
    assert!(p.queued.is_none() && p.period.is(Preset::Month, 0));
    p.take_period(Period::all_time(), false);
    assert!(p.queued.is_some() && p.period.is(Preset::All, 0));
}

#[test]
fn the_bars_follow_the_length_of_the_period() {
    for (period, wanted) in [("week", "day"), ("month", "day"), ("quarter", "day"), ("half", "week"), ("year", "month"), ("all", "month")] {
        assert_eq!(series_bucket(period), wanted, "{period}");
    }
}

#[test]
fn shares_never_pass_the_leader() {
    assert_eq!(share_of(38, 38), 10);
    assert_eq!(share_of(19, 38), 5);
    assert_eq!(share_of(0, 38), 0);
    assert_eq!(origin_shares(&Origins { local: slice(0, 0), peers: slice(0, 0) }), (0, 10));
    assert_eq!(origin_shares(&Origins { local: slice(374, 0), peers: slice(38, 0) }), (9, 1));
}

#[test]
fn local_clocks_change_with_the_season() {
    let at = days_from_civil(2026, 10, 25) * 86_400 + 3600;
    let z = Zone { name: "Europe/Berlin".into(), base: 7200, changes: vec![Change { at, offset: 3600 }] };
    assert_eq!(z.offset_at(at - 1), 7200);
    assert_eq!(z.offset_at(at), 3600);
    let w = local_parts(at, 3600);
    assert_eq!((w.year, w.month, w.day, w.hour, w.minute), (2026, 10, 25, 2, 0));
}

#[test]
fn names_are_read_from_lists_and_paths() {
    assert_eq!(month_name(9, "a · b · c · d · e · f · g · h · i"), "i");
    assert_eq!(weekday_short(1, "Sun · Mon"), "Mon");
    assert_eq!(weekday_plural(0, "Sundays"), "Sundays");
    assert_eq!(month_name(13, "a · b"), "", "no such month");
    assert_eq!(join_artist("", "Xtal"), "Xtal");
    assert_eq!(join_artist("Aphex Twin", "Xtal"), "Aphex Twin - Xtal");
    let year = track_words(Some(&track("A", "B", "C", 1998)), UNKNOWN);
    assert_eq!((year.album.as_str(), year.year), ("C", Some(1998)));
    assert_eq!(track_words(Some("no document"), UNKNOWN).title, UNKNOWN);
}

#[test]
fn clients_are_named_with_and_without_their_version() {
    let of = |client: Option<&str>, source: Option<&str>| {
        let (long, short) = client_words(&play("p", 0, "completed", 1, None, true, client, source));
        (words(&long), words(&short))
    };
    assert_eq!(of(Some("mStream Mobile/2.4.1"), None), ("mStream Mobile 2.4.1".into(), "mStream Mobile".into()));
    assert_eq!(of(Some("mstream-player/0.7.0"), None), ("this player".into(), "this player".into()));
    assert_eq!(of(None, Some("legacy")).0, "older client");
}

#[test]
fn a_completed_play_stands_out_and_an_uncounted_one_recedes() {
    let good = recent_row(&play("p", today0(), "completed", 1000, None, true, None, None), NOW, &None, UNKNOWN);
    assert_eq!(recent_tones(&good, false, false), (Tone::Fine, Tone::Plain));
    let bad = recent_row(&play("p", today0(), "skipped", 1000, None, false, None, None), NOW, &None, UNKNOWN);
    assert_eq!(recent_tones(&bad, false, false), (Tone::Dim, Tone::Dim));
    assert_eq!(recent_tones(&bad, true, false), (Tone::Selected, Tone::Selected));
}

#[test]
fn the_page_follows_the_account_and_its_calls_go_one_at_a_time() {
    let mut p = start(None, None, phrases());
    assert_eq!(heading("host", &p.username), "host");
    assert!(matches!(p.dispatch_queued(), Some(Op::Load { .. })));
    p.act(Act::Tab(Tab::Top));
    p.reload(false);
    assert!(p.dispatch_queued().is_none(), "the first has not come back");
    p.send_failed();
    assert!(p.dispatch_queued().is_some());
    p.worker_gone();
    assert_eq!(note(&p), "note.worker_gone");
    assert_eq!(clip("abcdef", 4), "abc…");
    assert_eq!(clip("abc", 4), "abc");
    assert_eq!(clip("abc", 0), "");
}

#[test]
fn periods_of_the_half_and_the_longer_axis() {
    let kinds = [Bucket::Day, Bucket::Week, Bucket::Month];
    assert_eq!(kinds.map(|k| k.param()), ["day", "week", "month"]);
    let c = day_chart(&vec![1; 200], Bucket::Day, 96);
    assert_eq!((c.fold, c.values.len(), c.cell), (3, 67, 1));
    assert_eq!(c.title, Msg::One("sta.chart_days_folded", Fill { name: "n", arg: Arg::Nat(3) }));
}

#[test]
fn the_list_is_never_empty() {
    let p = page();
    assert!(p.options.is_empty());
    assert_eq!(p.listed().iter().map(name).collect::<Vec<_>>(), ["This month", "All time"]);
    let p = ready();
    assert_eq!(p.listed(), p.options);
}
