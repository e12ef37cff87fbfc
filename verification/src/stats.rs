//! The listening report: one page for any account, with a period and an
//! origin, an overview, a ranking and the log.

use vstd::prelude::*;

use crate::clock::{civil_from_days, floor_div, fmt_date, iso_unix};
use crate::line::{Code, Key};
use crate::msg::{gate_message, ApiError, Arg, Fill, Msg, Note};
use crate::phrases::{signed_decimal, Phrases};
use crate::screen::{clamp_row, scroll, Outcome};
use crate::stats_series::StatsTimeseries;
use crate::stats_words::{nth_name, HistoryItem};
use crate::text::same;
use crate::zone::{offset_at, Zone};

verus! {

use crate::clock::{date_of, date_of_is, date_text, is_timestamp, timestamp_value};
use crate::msg::{error, gate, remark};
use crate::outside::gaps_filled;
use crate::phrases::signed;
use crate::screen::{row_down, row_up, scrolled, within};
use crate::stats_series::local_day;
use crate::stats_words::{month_place, name_at};

/// The rows of a ranking.
pub const TOP_LIMIT: u32 = 20;

/// One page of the log.
pub const HISTORY_PAGE: u32 = 50;

/// The next page is asked for this many rows before the end.
pub const PAGE_AHEAD: usize = 10;

// ── The page's vocabulary ────────────────────────────────────────────────

#[derive(Clone, Copy, Debug, PartialEq, Eq, Structural)]
pub enum Tab {
    Overview,
    Top,
    Recent,
}

/// The tab beside a tab, around the end.
pub open spec fn tab_beside(tab: Tab, forward: bool) -> Tab {
    match (tab, forward) {
        (Tab::Overview, true) => Tab::Top,
        (Tab::Top, true) => Tab::Recent,
        (Tab::Recent, true) => Tab::Overview,
        (Tab::Overview, false) => Tab::Recent,
        (Tab::Top, false) => Tab::Overview,
        (Tab::Recent, false) => Tab::Top,
    }
}

impl Tab {
    /// The tab beside this one, around the end.
    pub fn next(self, forward: bool) -> (t: Tab)
        ensures
            t == tab_beside(self, forward),
    {
        match self {
            Tab::Overview => if forward { Tab::Top } else { Tab::Recent },
            Tab::Top => if forward { Tab::Recent } else { Tab::Overview },
            Tab::Recent => if forward { Tab::Overview } else { Tab::Top },
        }
    }

    /// The tab's name.
    pub fn name(self) -> (key: &'static str)
        ensures
            key == (match self {
                Tab::Overview => "sta.tab_overview",
                Tab::Top => "sta.tab_top",
                Tab::Recent => "sta.tab_recent",
            }),
    {
        match self {
            Tab::Overview => "sta.tab_overview",
            Tab::Top => "sta.tab_top",
            Tab::Recent => "sta.tab_recent",
        }
    }

    /// What the tab is about.
    pub fn note(self) -> (key: &'static str)
        ensures
            key == (match self {
                Tab::Overview => "sta.note_overview",
                Tab::Top => "sta.note_top",
                Tab::Recent => "sta.note_recent",
            }),
    {
        match self {
            Tab::Overview => "sta.note_overview",
            Tab::Top => "sta.note_top",
            Tab::Recent => "sta.note_recent",
        }
    }
}

/// A step to the next tab and one back lead to the same tab.
pub proof fn tabs_step_back(tab: Tab)
    ensures
        tab_beside(tab_beside(tab, true), false) == tab,
        tab_beside(tab_beside(tab, false), true) == tab,
{
}

/// Whose tracks: every play, the plays of this server's own library, or those
/// of peers' tracks.
#[derive(Clone, Copy, Debug, PartialEq, Eq, Structural)]
pub enum Origin {
    All,
    Local,
    Peers,
}

/// The place of an origin among the three.
pub open spec fn origin_index(o: Origin) -> int {
    match o {
        Origin::All => 0,
        Origin::Local => 1,
        Origin::Peers => 2,
    }
}

/// The origin at a place, the last of them past the end.
pub open spec fn origin_at(i: int) -> Origin {
    if i == 0 {
        Origin::All
    } else if i == 1 {
        Origin::Local
    } else {
        Origin::Peers
    }
}

impl Origin {
    /// The origin's name for the server.
    pub fn param(self) -> (s: &'static str)
        ensures
            s == (match self {
                Origin::All => "all",
                Origin::Local => "local",
                Origin::Peers => "peers",
            }),
    {
        match self {
            Origin::All => "all",
            Origin::Local => "local",
            Origin::Peers => "peers",
        }
    }

    /// The origin's name for the reader.
    pub fn label(self) -> (key: &'static str)
        ensures
            key == (match self {
                Origin::All => "sta.origin_all",
                Origin::Local => "sta.origin_local",
                Origin::Peers => "sta.origin_peers",
            }),
    {
        match self {
            Origin::All => "sta.origin_all",
            Origin::Local => "sta.origin_local",
            Origin::Peers => "sta.origin_peers",
        }
    }

    /// The origin's place among the three.
    pub fn index(self) -> (i: usize)
        ensures
            i == origin_index(self),
    {
        match self {
            Origin::All => 0,
            Origin::Local => 1,
            Origin::Peers => 2,
        }
    }

    /// The origin at a place.
    pub fn at(i: usize) -> (o: Origin)
        ensures
            o == origin_at(i as int),
    {
        if i == 0 {
            Origin::All
        } else if i == 1 {
            Origin::Local
        } else {
            Origin::Peers
        }
    }
}

/// What the ranking is of.
#[derive(Clone, Copy, Debug, PartialEq, Eq, Structural)]
pub enum Entity {
    Tracks,
    Artists,
    Albums,
    Genres,
}

/// The place of an entity among the four.
pub open spec fn entity_index(e: Entity) -> int {
    match e {
        Entity::Tracks => 0,
        Entity::Artists => 1,
        Entity::Albums => 2,
        Entity::Genres => 3,
    }
}

/// The entity at a place, the last of them past the end.
pub open spec fn entity_at(i: int) -> Entity {
    if i == 0 {
        Entity::Tracks
    } else if i == 1 {
        Entity::Artists
    } else if i == 2 {
        Entity::Albums
    } else {
        Entity::Genres
    }
}

/// The head of the names' column.
pub open spec fn header_key(e: Entity) -> &'static str {
    match e {
        Entity::Tracks => "sta.col_track",
        Entity::Artists => "sta.col_artist",
        Entity::Albums => "sta.col_album",
        Entity::Genres => "sta.col_genre",
    }
}

impl Entity {
    /// The entity's name for the server.
    pub fn param(self) -> (s: &'static str)
        ensures
            s == (match self {
                Entity::Tracks => "tracks",
                Entity::Artists => "artists",
                Entity::Albums => "albums",
                Entity::Genres => "genres",
            }),
    {
        match self {
            Entity::Tracks => "tracks",
            Entity::Artists => "artists",
            Entity::Albums => "albums",
            Entity::Genres => "genres",
        }
    }

    /// The entity's name for the reader.
    pub fn label(self) -> (key: &'static str)
        ensures
            key == (match self {
                Entity::Tracks => "sta.ent_tracks",
                Entity::Artists => "sta.ent_artists",
                Entity::Albums => "sta.ent_albums",
                Entity::Genres => "sta.ent_genres",
            }),
    {
        match self {
            Entity::Tracks => "sta.ent_tracks",
            Entity::Artists => "sta.ent_artists",
            Entity::Albums => "sta.ent_albums",
            Entity::Genres => "sta.ent_genres",
        }
    }

    /// The heading of the name column.
    pub fn header(self) -> (key: &'static str)
        ensures
            key == header_key(self),
    {
        match self {
            Entity::Tracks => "sta.col_track",
            Entity::Artists => "sta.col_artist",
            Entity::Albums => "sta.col_album",
            Entity::Genres => "sta.col_genre",
        }
    }

    /// The entity's place among the four.
    pub fn index(self) -> (i: usize)
        ensures
            i == entity_index(self),
    {
        match self {
            Entity::Tracks => 0,
            Entity::Artists => 1,
            Entity::Albums => 2,
            Entity::Genres => 3,
        }
    }

    /// The entity at a place.
    pub fn at(i: usize) -> (e: Entity)
        ensures
            e == entity_at(i as int),
    {
        if i == 0 {
            Entity::Tracks
        } else if i == 1 {
            Entity::Artists
        } else if i == 2 {
            Entity::Albums
        } else {
            Entity::Genres
        }
    }
}

/// One row of a ranking.
#[derive(Debug, PartialEq)]
pub struct TopItem {
    pub plays: u64,
    pub listened_ms: u64,
    pub name: Option<String>,
    pub tracks: Option<u64>,
    pub last_played: Option<String>,
    pub origin: Option<String>,
    pub peer_name: Option<String>,
    /// The track's document.
    pub track: Option<String>,
}

/// What the ranking orders by, and the share bar measures.
#[derive(Clone, Copy, Debug, PartialEq, Eq, Structural)]
pub enum Metric {
    Plays,
    Time,
}

/// A row's measure.
pub open spec fn measure(m: Metric, item: TopItem) -> u64 {
    match m {
        Metric::Plays => item.plays,
        Metric::Time => item.listened_ms,
    }
}

impl Metric {
    /// The measure's name for the server.
    pub fn param(self) -> (s: &'static str)
        ensures
            s == (match self {
                Metric::Plays => "plays",
                Metric::Time => "time",
            }),
    {
        match self {
            Metric::Plays => "plays",
            Metric::Time => "time",
        }
    }

    /// The measure's name for the reader.
    pub fn label(self) -> (key: &'static str)
        ensures
            key == (match self {
                Metric::Plays => "sta.met_plays",
                Metric::Time => "sta.met_time",
            }),
    {
        match self {
            Metric::Plays => "sta.met_plays",
            Metric::Time => "sta.met_time",
        }
    }

    /// A row's measure.
    pub fn of(self, item: &TopItem) -> (v: u64)
        ensures
            v == measure(self, *item),
    {
        match self {
            Metric::Plays => item.plays,
            Metric::Time => item.listened_ms,
        }
    }
}

// ── Periods ──────────────────────────────────────────────────────────────

/// The kinds of period.
#[derive(Clone, Copy, Debug, PartialEq, Eq, Structural)]
pub enum Preset {
    Week,
    Month,
    Quarter,
    Half,
    Year,
    All,
}

/// A kind's name for the server.
pub open spec fn preset_name(p: Preset) -> &'static str {
    match p {
        Preset::Week => "week",
        Preset::Month => "month",
        Preset::Quarter => "quarter",
        Preset::Half => "half",
        Preset::Year => "year",
        Preset::All => "all",
    }
}

/// The current one of a kind.
pub open spec fn this_key(p: Preset) -> &'static str {
    match p {
        Preset::Week => "sta.this_week",
        Preset::Quarter => "sta.this_quarter",
        Preset::Half => "sta.this_half",
        Preset::Year => "sta.this_year",
        _ => "sta.this_month",
    }
}

/// The one of a kind before the current.
pub open spec fn last_key(p: Preset) -> &'static str {
    match p {
        Preset::Week => "sta.last_week",
        Preset::Quarter => "sta.last_quarter",
        Preset::Half => "sta.last_half",
        Preset::Year => "sta.last_year",
        _ => "sta.last_month",
    }
}

impl Preset {
    /// The kind's name for the server.
    pub fn param(self) -> (s: &'static str)
        ensures
            s == preset_name(self),
    {
        match self {
            Preset::Week => "week",
            Preset::Month => "month",
            Preset::Quarter => "quarter",
            Preset::Half => "half",
            Preset::Year => "year",
            Preset::All => "all",
        }
    }

    fn this_name(self) -> (key: &'static str)
        ensures
            key == this_key(self),
    {
        match self {
            Preset::Week => "sta.this_week",
            Preset::Quarter => "sta.this_quarter",
            Preset::Half => "sta.this_half",
            Preset::Year => "sta.this_year",
            _ => "sta.this_month",
        }
    }

    fn last_name(self) -> (key: &'static str)
        ensures
            key == last_key(self),
    {
        match self {
            Preset::Week => "sta.last_week",
            Preset::Quarter => "sta.last_quarter",
            Preset::Half => "sta.last_half",
            Preset::Year => "sta.last_year",
            _ => "sta.last_month",
        }
    }
}

/// What a period is called.
#[derive(Debug, PartialEq)]
pub enum Label {
    /// A phrase of the catalogue.
    Key(&'static str),
    /// A week, by its first day.
    WeekOf(i64, u32, u32),
    /// A month of a year.
    MonthOf(u32, i64),
    /// As the server calls it.
    Server(String),
}

/// The keys of the phrases that periods are named by.
pub fn period_keys() -> (keys: Vec<&'static str>)
    ensures
        keys@ == seq![
            "sta.week_of",
            "sta.month_year",
            "sta.months_title",
            "sta.this_week",
            "sta.last_week",
            "sta.this_month",
            "sta.last_month",
            "sta.this_quarter",
            "sta.last_quarter",
            "sta.this_half",
            "sta.last_half",
            "sta.this_year",
            "sta.last_year",
            "sta.all_time",
        ],
{
    vec![
        "sta.week_of",
        "sta.month_year",
        "sta.months_title",
        "sta.this_week",
        "sta.last_week",
        "sta.this_month",
        "sta.last_month",
        "sta.this_quarter",
        "sta.last_quarter",
        "sta.this_half",
        "sta.last_half",
        "sta.this_year",
        "sta.last_year",
        "sta.all_time",
    ]
}

/// A label as the reader's language has it.
pub open spec fn label_text(phrases: Phrases, l: Label) -> Seq<char> {
    match l {
        Label::Key(key) => phrases.of(key@),
        Label::WeekOf(y, m, d) => gaps_filled(
            phrases.of("sta.week_of"@),
            seq!["date"@],
            seq![date_text(y as int, m as int, d as int)],
        ),
        Label::MonthOf(m, y) => gaps_filled(
            phrases.of("sta.month_year"@),
            seq!["month"@, "year"@],
            seq![name_at(phrases.of("sta.months_title"@), month_place(m) as int), signed(y as int)],
        ),
        Label::Server(s) => s@,
    }
}

/// Two labels that read the same.
pub open spec fn same_label(phrases: Phrases, a: Label, b: Label) -> bool {
    label_text(phrases, a) == label_text(phrases, b)
}

/// A label in words.
pub open spec fn is_label_words(msg: Msg, l: Label) -> bool {
    match l {
        Label::Key(key) => msg == Msg::Key(key),
        Label::WeekOf(y, m, d) => crate::msg::says(msg, "sta.week_of", "date", date_text(y as int, m as int, d as int)),
        Label::MonthOf(m, y) => msg == Msg::Two(
            "sta.month_year",
            Fill {
                name: "month",
                arg: Arg::Phrase(Box::new(Msg::Listed("sta.months_title", month_place(m)))),
            },
            Fill { name: "year", arg: Arg::Num(y) },
        ),
        Label::Server(s) => msg == Msg::Raw(s),
    }
}

impl Label {
    fn copy(&self) -> (l: Label)
        ensures
            l == *self,
    {
        match self {
            Label::Key(key) => Label::Key(*key),
            Label::WeekOf(y, m, d) => Label::WeekOf(*y, *m, *d),
            Label::MonthOf(m, y) => Label::MonthOf(*m, *y),
            Label::Server(s) => Label::Server(s.clone()),
        }
    }

    /// The label as the reader's language has it.
    pub fn text(&self, phrases: &Phrases) -> (out: String)
        ensures
            out@ == label_text(*phrases, *self),
    {
        proof {
            reveal_strlit("date");
            reveal_strlit("month");
            reveal_strlit("year");
        }
        match self {
            Label::Key(key) => phrases.phrase(*key),
            Label::WeekOf(y, m, d) => phrases.with_one("sta.week_of", "date", fmt_date(*y, *m, *d)),
            Label::MonthOf(m, y) => {
                let place: u32 = if *m == 0 { 0 } else { *m - 1 };
                let name = nth_name(phrases.phrase("sta.months_title").as_str(), place as usize);
                phrases.with_two("sta.month_year", "month", name, "year", signed_decimal(*y))
            },
            Label::Server(s) => s.clone(),
        }
    }

    fn reads_as(&self, other: &Label, phrases: &Phrases) -> (r: bool)
        ensures
            r == same_label(*phrases, *self, *other),
    {
        same(self.text(phrases).as_str(), other.text(phrases).as_str())
    }

    /// The label in words.
    pub fn words(&self) -> (out: Msg)
        ensures
            is_label_words(out, *self),
    {
        match self {
            Label::Key(key) => Msg::Key(*key),
            Label::WeekOf(y, m, d) => Msg::One(
                "sta.week_of",
                Fill { name: "date", arg: Arg::Text(fmt_date(*y, *m, *d)) },
            ),
            Label::MonthOf(m, y) => {
                let place: u32 = if *m == 0 { 0 } else { *m - 1 };
                Msg::Two(
                    "sta.month_year",
                    Fill { name: "month", arg: Arg::Phrase(Box::new(Msg::Listed("sta.months_title", place))) },
                    Fill { name: "year", arg: Arg::Num(*y) },
                )
            },
            Label::Server(s) => Msg::Raw(s.clone()),
        }
    }
}

/// One entry of the period list: a kind and how many back, and its name.
#[derive(Debug, PartialEq)]
pub struct Period {
    pub preset: Preset,
    pub offset: i32,
    pub name: Label,
    pub detail: Option<Label>,
}

/// The current month.
pub open spec fn month_now() -> Period {
    Period { preset: Preset::Month, offset: 0, name: Label::Key("sta.this_month"), detail: None }
}

/// All time.
pub open spec fn all_of_it() -> Period {
    Period { preset: Preset::All, offset: 0, name: Label::Key("sta.all_time"), detail: None }
}

/// Two periods that are the same, and named the same.
pub open spec fn same_period(phrases: Phrases, a: Period, b: Period) -> bool {
    &&& a.preset == b.preset
    &&& a.offset == b.offset
    &&& same_label(phrases, a.name, b.name)
    &&& match (a.detail, b.detail) {
        (Some(x), Some(y)) => same_label(phrases, x, y),
        (None, None) => true,
        _ => false,
    }
}

/// The name that a comparison gives a period.
pub open spec fn versus_name(p: Period) -> Label {
    match p.detail {
        Some(d) => d,
        None => p.name,
    }
}

impl Period {
    pub fn this_month() -> (p: Period)
        ensures
            p == month_now(),
    {
        Period { preset: Preset::Month, offset: 0, name: Label::Key("sta.this_month"), detail: None }
    }

    pub fn all_time() -> (p: Period)
        ensures
            p == all_of_it(),
    {
        Period { preset: Preset::All, offset: 0, name: Label::Key("sta.all_time"), detail: None }
    }

    /// Whether this is the period of a kind, so many back.
    pub fn is(&self, preset: Preset, offset: i32) -> (r: bool)
        ensures
            r == (self.preset == preset && self.offset == offset),
    {
        self.preset == preset && self.offset == offset
    }

    /// The words that a comparison names it by.
    pub fn versus(&self) -> (l: Label)
        ensures
            l == versus_name(*self),
    {
        match &self.detail {
            Some(d) => d.copy(),
            None => self.name.copy(),
        }
    }

    /// The same period again.
    pub fn copy(&self) -> (p: Period)
        ensures
            p == *self,
    {
        Period {
            preset: self.preset,
            offset: self.offset,
            name: self.name.copy(),
            detail: match &self.detail {
                Some(d) => Some(d.copy()),
                None => None,
            },
        }
    }

    /// Whether this is the same period, and named the same in the reader's
    /// language.
    pub fn reads_as(&self, other: &Period, phrases: &Phrases) -> (r: bool)
        ensures
            r == same_period(*phrases, *self, *other),
    {
        let details = match (&self.detail, &other.detail) {
            (Some(x), Some(y)) => x.reads_as(y, phrases),
            (None, None) => true,
            _ => false,
        };
        self.preset == other.preset && self.offset == other.offset && self.name.reads_as(&other.name, phrases) && details
    }
}

/// A period that the log has data in, as the server lists it.
#[derive(Debug, PartialEq)]
pub struct PeriodOption {
    pub period: String,
    pub offset: i32,
    pub label: String,
    pub from: String,
    pub to: String,
}

#[derive(Debug, PartialEq)]
pub struct StatsPeriods {
    pub earliest: Option<String>,
    pub latest: Option<String>,
    pub periods: Vec<PeriodOption>,
}

/// A period's own name: the week by its first day, the month by its name, the
/// rest as the server calls it.
pub open spec fn own_label(x: PeriodOption, preset: Preset, zone: Option<Zone>) -> Label {
    let (y, m, d) = date_of(local_day(zone, timestamp_value(x.from@)));
    if is_timestamp(x.from@) && preset == Preset::Week {
        Label::WeekOf(y as i64, m as u32, d as u32)
    } else if is_timestamp(x.from@) && preset == Preset::Month {
        Label::MonthOf(m as u32, y as i64)
    } else {
        Label::Server(x.label)
    }
}

/// A label as a detail: none where it says nothing.
pub open spec fn as_detail(l: Label) -> Option<Label> {
    match l {
        Label::Server(s) => if s@.len() == 0 {
            None
        } else {
            Some(l)
        },
        _ => Some(l),
    }
}

/// The entry for a period of a kind: the current one and the one before by
/// those names, older months and years by their own; no other.
pub open spec fn entry(x: PeriodOption, preset: Preset, zone: Option<Zone>) -> Option<Period> {
    let label = own_label(x, preset, zone);
    if x.offset == 0 {
        Some(Period { preset, offset: 0, name: Label::Key(this_key(preset)), detail: as_detail(label) })
    } else if x.offset == -1 {
        Some(Period { preset, offset: x.offset, name: Label::Key(last_key(preset)), detail: as_detail(label) })
    } else if preset == Preset::Month || preset == Preset::Year {
        Some(Period { preset, offset: x.offset, name: label, detail: None })
    } else {
        None
    }
}

/// A period of a kind, so many back, is in a list.
pub open spec fn listed(v: Seq<Period>, preset: Preset, offset: i32) -> bool {
    exists|i: int| 0 <= i < v.len() && (#[trigger] v[i]).preset == preset && v[i].offset == offset
}

/// The entries of a kind, in the server's order, each once.
pub open spec fn entries(list: Seq<PeriodOption>, preset: Preset, zone: Option<Zone>) -> Seq<Period>
    decreases list.len(),
{
    if list.len() == 0 {
        Seq::empty()
    } else {
        let before = entries(list.drop_last(), preset, zone);
        let x = list.last();
        if x.period@ == preset_name(preset)@ && !listed(before, preset, x.offset) && entry(x, preset, zone) is Some {
            before.push(entry(x, preset, zone)->0)
        } else {
            before
        }
    }
}

/// The period list: each kind's entries, then all time. A log with nothing in
/// it gets the current month.
pub open spec fn all_options(list: Seq<PeriodOption>, zone: Option<Zone>) -> Seq<Period> {
    let all = entries(list, Preset::Week, zone) + entries(list, Preset::Month, zone) + entries(list, Preset::Quarter, zone)
        + entries(list, Preset::Half, zone) + entries(list, Preset::Year, zone);
    (if all.len() == 0 { seq![month_now()] } else { all }).push(all_of_it())
}

fn is_listed(v: &Vec<Period>, preset: Preset, offset: i32) -> (r: bool)
    ensures
        r == listed(v@, preset, offset),
{
    let mut i: usize = 0;
    while i < v.len()
        invariant
            i <= v@.len(),
            forall|k: int| 0 <= k < i ==> !((#[trigger] v@[k]).preset == preset && v@[k].offset == offset),
        decreases v@.len() - i,
    {
        if v[i].is(preset, offset) {
            return true;
        }
        i += 1;
    }
    false
}

fn period_label(x: &PeriodOption, preset: Preset, zone: &Option<Zone>) -> (l: Label)
    ensures
        l == own_label(*x, preset, *zone),
{
    if let Some(t) = iso_unix(x.from.as_str()) {
        let days: i64 = floor_div(t + offset_at(zone, t) as i64, 86_400);
        let (y, m, d) = civil_from_days(days);
        proof {
            date_of_is(days as int, y as int, m as int, d as int);
        }
        if preset == Preset::Week {
            return Label::WeekOf(y, m, d);
        }
        if preset == Preset::Month {
            return Label::MonthOf(m, y);
        }
    }
    Label::Server(x.label.clone())
}

fn make_entry(x: &PeriodOption, preset: Preset, zone: &Option<Zone>) -> (p: Option<Period>)
    ensures
        p == entry(*x, preset, *zone),
{
    let label = period_label(x, preset, zone);
    let empty = match &label {
        Label::Server(s) => s.as_str().is_empty(),
        _ => false,
    };
    if x.offset == 0 {
        let detail = if empty { None } else { Some(label) };
        Some(Period { preset, offset: 0, name: Label::Key(preset.this_name()), detail })
    } else if x.offset == -1 {
        let detail = if empty { None } else { Some(label) };
        Some(Period { preset, offset: -1, name: Label::Key(preset.last_name()), detail })
    } else if preset == Preset::Month || preset == Preset::Year {
        Some(Period { preset, offset: x.offset, name: label, detail: None })
    } else {
        None
    }
}

fn preset_entries(list: &Vec<PeriodOption>, preset: Preset, zone: &Option<Zone>) -> (out: Vec<Period>)
    ensures
        out@ == entries(list@, preset, *zone),
{
    let mut out: Vec<Period> = Vec::new();
    let mut i: usize = 0;
    proof {
        assert(list@.take(0) =~= Seq::<PeriodOption>::empty());
    }
    while i < list.len()
        invariant
            i <= list@.len(),
            out@ == entries(list@.take(i as int), preset, *zone),
        decreases list@.len() - i,
    {
        proof {
            assert(list@.take(i + 1).drop_last() =~= list@.take(i as int));
        }
        let x = &list[i];
        if same(x.period.as_str(), preset.param()) && !is_listed(&out, preset, x.offset) {
            if let Some(p) = make_entry(x, preset, zone) {
                out.push(p);
            }
        }
        i += 1;
    }
    proof {
        assert(list@.take(i as int) =~= list@);
    }
    out
}

/// The period list, from the periods that the log has data in.
pub fn period_options(periods: &StatsPeriods, zone: &Option<Zone>) -> (out: Vec<Period>)
    ensures
        out@ == all_options(periods.periods@, *zone),
{
    let list = &periods.periods;
    let mut out = preset_entries(list, Preset::Week, zone);
    let mut more = preset_entries(list, Preset::Month, zone);
    out.append(&mut more);
    let mut more = preset_entries(list, Preset::Quarter, zone);
    out.append(&mut more);
    let mut more = preset_entries(list, Preset::Half, zone);
    out.append(&mut more);
    let mut more = preset_entries(list, Preset::Year, zone);
    out.append(&mut more);
    if out.len() == 0 {
        out.push(Period::this_month());
        proof {
            assert(out@ =~= seq![month_now()]);
        }
    }
    out.push(Period::all_time());
    out
}

/// The place of a period of a kind, so many back, in a list.
pub open spec fn period_at(v: Seq<Period>, preset: Preset, offset: int) -> Option<int>
    decreases v.len(),
{
    if v.len() == 0 {
        None
    } else {
        match period_at(v.drop_last(), preset, offset) {
            Some(i) => Some(i),
            None => if v.last().preset == preset && v.last().offset == offset {
                Some(v.len() - 1)
            } else {
                None
            },
        }
    }
}

proof fn period_early(v: Seq<Period>, preset: Preset, offset: int, n: int)
    requires
        0 <= n <= v.len(),
        period_at(v.take(n), preset, offset) is Some,
    ensures
        period_at(v, preset, offset) == period_at(v.take(n), preset, offset),
    decreases v.len() - n,
{
    if n < v.len() {
        assert(v.take(n + 1).drop_last() =~= v.take(n));
        period_early(v, preset, offset, n + 1);
    } else {
        assert(v.take(n) =~= v);
    }
}

fn find_period(v: &Vec<Period>, preset: Preset, offset: i64) -> (r: Option<usize>)
    ensures
        match period_at(v@, preset, offset as int) {
            Some(i) => r is Some && r->0 == i && 0 <= i < v@.len(),
            None => r is None,
        },
{
    let mut i: usize = 0;
    proof {
        assert(v@.take(0) =~= Seq::<Period>::empty());
    }
    while i < v.len()
        invariant
            i <= v@.len(),
            period_at(v@.take(i as int), preset, offset as int) is None,
        decreases v@.len() - i,
    {
        proof {
            assert(v@.take(i + 1).drop_last() =~= v@.take(i as int));
        }
        if v[i].preset == preset && v[i].offset as i64 == offset {
            proof {
                period_early(v@, preset, offset as int, i + 1);
            }
            return Some(i);
        }
        i += 1;
    }
    proof {
        assert(v@.take(i as int) =~= v@);
    }
    None
}

/// The phrase for the one before, of a kind.
pub open spec fn versus_key(p: Preset) -> &'static str {
    match p {
        Preset::Week => "sta.vs_week",
        Preset::Month => "sta.vs_month",
        Preset::Quarter => "sta.vs_quarter",
        Preset::Half => "sta.vs_half",
        Preset::Year => "sta.vs_year",
        Preset::All => "sta.vs_previous",
    }
}

/// What a period is compared with: the one before by its own name where the
/// list has it, else by its kind; nothing for all time.
pub open spec fn versus(period: Period, options: Seq<Period>) -> Option<Label> {
    if period.preset == Preset::All {
        None
    } else {
        match period_at(options, period.preset, period.offset - 1) {
            Some(i) => Some(versus_name(options[i])),
            None => Some(Label::Key(versus_key(period.preset))),
        }
    }
}

/// What a period is compared with.
pub fn versus_label(period: &Period, options: &Vec<Period>) -> (l: Option<Label>)
    ensures
        l == versus(*period, options@),
{
    if period.preset == Preset::All {
        return None;
    }
    match find_period(options, period.preset, period.offset as i64 - 1) {
        Some(i) => Some(options[i].versus()),
        None => Some(
            Label::Key(
                match period.preset {
                    Preset::Week => "sta.vs_week",
                    Preset::Month => "sta.vs_month",
                    Preset::Quarter => "sta.vs_quarter",
                    Preset::Half => "sta.vs_half",
                    Preset::Year => "sta.vs_year",
                    Preset::All => "sta.vs_previous",
                },
            ),
        ),
    }
}

// ── The page ─────────────────────────────────────────────────────────────

#[derive(Clone, Copy, Debug, PartialEq, Eq, Structural)]
pub struct OriginSlice {
    pub plays: u64,
    pub listened_ms: u64,
}

#[derive(Clone, Copy, Debug, PartialEq, Eq, Structural)]
pub struct Origins {
    pub local: OriginSlice,
    pub peers: OriginSlice,
}

#[derive(Clone, Copy, Debug, PartialEq, Eq, Structural)]
pub struct Sessions {
    pub count: u64,
    pub avg_ms: Option<u64>,
}

#[derive(Clone, Copy, Debug, PartialEq, Eq, Structural)]
pub struct StreakDays {
    pub current: u32,
    pub longest: u32,
}

#[derive(Debug, PartialEq)]
pub struct TopDay {
    pub date: String,
    pub plays: u64,
    pub listened_ms: u64,
}

/// A period's totals.
#[derive(Debug, PartialEq)]
pub struct StatsSummary {
    /// The period's first instant, and the first after it.
    pub from: String,
    pub to: String,
    pub events: u64,
    pub plays: u64,
    pub unique_tracks: u64,
    pub listened_ms: u64,
    pub skips: u64,
    /// The skips among the starts, in whole percent.
    pub skip_pct: Option<i64>,
    /// The tracks heard among the library's, in whole percent.
    pub library_pct: Option<i64>,
    pub sessions: Sessions,
    pub streak_days: StreakDays,
    pub top_day: Option<TopDay>,
    pub peak_hour: Option<i32>,
    pub peak_weekday: Option<i32>,
    pub origins: Origins,
}

/// One page of the log, and where the next begins.
#[derive(Debug, PartialEq)]
pub struct StatsHistory {
    pub items: Vec<HistoryItem>,
    pub next: Option<String>,
}

/// What one read of a period comes back as.
#[derive(Debug, PartialEq)]
pub struct Loaded {
    pub periods: Option<StatsPeriods>,
    pub summary: StatsSummary,
    pub previous: Option<StatsSummary>,
    pub series: StatsTimeseries,
    pub hours: StatsTimeseries,
    pub top: Vec<TopItem>,
    pub history: StatsHistory,
}

/// What the overview is drawn from.
#[derive(Debug, PartialEq)]
pub struct Data {
    pub periods: Option<StatsPeriods>,
    pub summary: StatsSummary,
    pub previous: Option<StatsSummary>,
    pub series: StatsTimeseries,
    pub hours: StatsTimeseries,
}

#[derive(Clone, Copy, Debug, PartialEq, Eq, Structural)]
pub enum Modal {
    Closed,
    /// The period list, with its cursor.
    Period(usize),
    /// The warning before a play is forgotten, on a row of the log.
    Forget(usize),
}

/// Everything that a click can mean.
#[derive(Clone, Copy, Debug, PartialEq, Eq, Structural)]
pub enum Act {
    Tab(Tab),
    Select(usize),
    TableScroll(i8),
    TableScrollTo(usize),
    PeriodStep(i8),
    PeriodList,
    PeriodRow(usize),
    PeriodChoose,
    PeriodClose,
    Origin(usize),
    Entity(usize),
    Metric(usize),
    Forget,
    ForgetConfirm,
    ForgetCancel,
    Quit,
}

/// The reads and the one write. `seq` marks the state that a read was asked
/// for.
#[derive(Debug, PartialEq)]
pub enum Op {
    Load { seq: u64, period: Period, origin: Origin, entity: Entity, metric: Metric, tz: String },
    Top { seq: u64, period: Period, origin: Origin, entity: Entity, metric: Metric, tz: String },
    History { seq: u64, period: Period, origin: Origin, tz: String, before: String },
    Forget { id: String, row: usize },
}

/// What comes back for each [`Op`].
#[derive(Debug, PartialEq)]
#[allow(inconsistent_fields)]
pub enum Done {
    Loaded { seq: u64, result: Result<Loaded, ApiError> },
    Top { seq: u64, result: Result<Vec<TopItem>, ApiError> },
    History { seq: u64, result: Result<StatsHistory, ApiError> },
    Forgot { id: String, row: usize, result: Result<(), ApiError> },
}

pub struct Page {
    /// The account, for the header; none on a server without accounts.
    pub username: Option<String>,
    /// The machine's zone; without one the clock is UTC's.
    pub zone: Option<Zone>,
    /// The zone's name for the server.
    pub tz: String,
    /// What periods are called in the reader's language.
    pub phrases: Phrases,
    pub tab: Tab,
    pub period: Period,
    /// The period list.
    pub options: Vec<Period>,
    pub origin: Origin,
    pub entity: Entity,
    pub metric: Metric,
    pub data: Option<Data>,
    /// The log so far.
    pub history: Vec<HistoryItem>,
    /// Where the log's next page begins.
    pub next: Option<String>,
    pub top: Vec<TopItem>,
    /// The server does not know the report.
    pub no_api: bool,
    pub sel: Option<usize>,
    pub modal: Modal,
    pub note: Option<Note>,
    pub busy: Option<Msg>,
    pub queued: Option<Op>,
    pub in_flight: bool,
    pub seq: u64,
    pub tscroll: usize,
    pub sel_anchor: Option<usize>,
}

/// The list to step through: the page's, or the current month and all time
/// while it has none.
pub open spec fn steps(options: Seq<Period>) -> Seq<Period> {
    if options.len() == 0 { seq![month_now(), all_of_it()] } else { options }
}

impl Page {
    /// The page with a call queued and its busy line.
    pub open spec fn calling(self, op: Op, busy: Msg) -> Page {
        Page { queued: Some(op), busy: Some(busy), ..self }
    }

    /// The page with a message on the status line.
    pub open spec fn saying(self, note: Option<Note>) -> Page {
        Page { note, ..self }
    }

    /// The page can ask one more question.
    pub open spec fn can_ask(self) -> bool {
        self.seq < u64::MAX
    }

    /// The page asking for everything again, with a busy line or quietly.
    pub open spec fn reloading(self, loud: bool) -> Page {
        let seq = (self.seq + 1) as u64;
        let op = Op::Load {
            seq,
            period: self.period,
            origin: self.origin,
            entity: self.entity,
            metric: self.metric,
            tz: self.tz,
        };
        Page { seq, queued: Some(op), busy: if loud { Some(Msg::Key("sta.busy_loading")) } else { self.busy }, ..self }
    }

    /// The page asking for the ranking again; the cursor is gone.
    pub open spec fn reranking(self) -> Page {
        let seq = (self.seq + 1) as u64;
        let op = Op::Top {
            seq,
            period: self.period,
            origin: self.origin,
            entity: self.entity,
            metric: self.metric,
            tz: self.tz,
        };
        Page { seq, sel: None, tscroll: 0, ..self }.calling(op, Msg::Key("sta.busy_top"))
    }

    /// Whether the log holds plays of peers' tracks, or is asked for them.
    pub open spec fn has_peers(self) -> bool {
        (self.data matches Some(d) && d.summary.origins.peers.plays > 0) || self.origin != Origin::All
    }

    /// Whether the log has nothing at all, not just nothing in this period.
    pub open spec fn log_is_empty(self) -> bool {
        self.data matches Some(d) && d.summary.events == 0 && (d.periods matches Some(p) ==> p.periods@.len() == 0
            && p.earliest is None)
    }

    /// How many rows the tab has.
    pub open spec fn row_count(self) -> nat {
        match self.tab {
            Tab::Overview => 0,
            Tab::Top => self.top@.len(),
            Tab::Recent => self.history@.len(),
        }
    }

    /// Whether the cursor is near the end of the log.
    pub open spec fn near_end(self) -> bool {
        self.sel matches Some(s) && s + PAGE_AHEAD >= self.history@.len()
    }

    /// The page asking for the log's next page, where the cursor is near the
    /// end of what is loaded; the edge asks only once.
    pub open spec fn paging(self) -> Page {
        if self.tab == Tab::Recent && !self.in_flight && self.queued is None && self.near_end() && self.next is Some {
            Page { next: None, ..self }.calling(
                Op::History { seq: self.seq, period: self.period, origin: self.origin, tz: self.tz, before: self.next->0 },
                Msg::Key("sta.busy_more"),
            )
        } else {
            self
        }
    }

    /// A failed call: a session without an account is told apart.
    pub open spec fn failing(self, what: &'static str, e: ApiError) -> Page {
        self.saying(
            error(
                if e is Forbidden {
                    Msg::Key("sta.gate_forbidden")
                } else {
                    gate(e, what)
                },
            ),
        )
    }

    /// The page, with nothing known yet.
    pub open spec fn fresh(self, username: Option<String>, zone: Option<Zone>, phrases: Phrases) -> bool {
        &&& self.username == username
        &&& self.zone == zone
        &&& self.phrases == phrases
        &&& self.tz@ == (match zone {
            Some(z) => z.name@,
            None => "UTC"@,
        })
        &&& self.tab == Tab::Overview
        &&& self.period == month_now()
        &&& self.options@.len() == 0
        &&& self.origin == Origin::All
        &&& self.entity == Entity::Tracks
        &&& self.metric == Metric::Plays
        &&& self.data is None
        &&& self.history@.len() == 0
        &&& self.next is None
        &&& self.top@.len() == 0
        &&& !self.no_api
        &&& self.sel is None
        &&& self.modal is Closed
        &&& self.note is None
        &&& !self.in_flight
        &&& self.tscroll == 0
        &&& self.sel_anchor is None
    }

    pub fn new(username: Option<String>, zone: Option<Zone>, phrases: Phrases) -> (page: Page)
        ensures
            page.fresh(username, zone, phrases),
            page.busy is None,
            page.queued is None,
            page.seq == 0,
    {
        let tz = match &zone {
            Some(z) => z.name.clone(),
            None => "UTC".to_owned(),
        };
        Page {
            username,
            zone,
            tz,
            phrases,
            tab: Tab::Overview,
            period: Period::this_month(),
            options: Vec::new(),
            origin: Origin::All,
            entity: Entity::Tracks,
            metric: Metric::Plays,
            data: None,
            history: Vec::new(),
            next: None,
            top: Vec::new(),
            no_api: false,
            sel: None,
            modal: Modal::Closed,
            note: None,
            busy: None,
            queued: None,
            in_flight: false,
            seq: 0,
            tscroll: 0,
            sel_anchor: None,
        }
    }

    fn queue(&mut self, op: Op, busy: Msg)
        ensures
            *final(self) == old(self).calling(op, busy),
    {
        self.queued = Some(op);
        self.busy = Some(busy);
    }

    /// Whether the log holds plays of peers' tracks, or is asked for them.
    pub fn peer_plays(&self) -> (r: bool)
        ensures
            r == self.has_peers(),
    {
        let held = match &self.data {
            Some(d) => d.summary.origins.peers.plays > 0,
            None => false,
        };
        held || self.origin != Origin::All
    }

    /// Whether the log has nothing at all.
    pub fn no_plays_ever(&self) -> (r: bool)
        ensures
            r == self.log_is_empty(),
    {
        match &self.data {
            Some(d) => d.summary.events == 0 && match &d.periods {
                Some(p) => p.periods.len() == 0 && p.earliest.is_none(),
                None => true,
            },
            None => false,
        }
    }

    /// How many rows the tab has.
    pub fn rows(&self) -> (n: usize)
        ensures
            n == self.row_count(),
    {
        match self.tab {
            Tab::Overview => 0,
            Tab::Top => self.top.len(),
            Tab::Recent => self.history.len(),
        }
    }

    /// Asks for everything again, for the period and origin as they stand.
    pub fn reload(&mut self, loud: bool)
        requires
            old(self).can_ask(),
        ensures
            *final(self) == old(self).reloading(loud),
    {
        self.seq += 1;
        let op = Op::Load {
            seq: self.seq,
            period: self.period.copy(),
            origin: self.origin,
            entity: self.entity,
            metric: self.metric,
            tz: self.tz.clone(),
        };
        if loud {
            self.queue(op, Msg::Key("sta.busy_loading"));
        } else {
            self.queued = Some(op);
        }
    }

    fn change_range(&mut self)
        requires
            old(self).can_ask(),
        ensures
            ranged(*old(self), *final(self)),
    {
        self.data = None;
        self.history.clear();
        self.next = None;
        self.top.clear();
        self.sel = None;
        self.tscroll = 0;
        self.note = None;
        self.reload(true);
    }

    fn reload_top(&mut self)
        requires
            old(self).can_ask(),
        ensures
            *final(self) == old(self).reranking(),
    {
        self.seq += 1;
        self.sel = None;
        self.tscroll = 0;
        let op = Op::Top {
            seq: self.seq,
            period: self.period.copy(),
            origin: self.origin,
            entity: self.entity,
            metric: self.metric,
            tz: self.tz.clone(),
        };
        self.queue(op, Msg::Key("sta.busy_top"));
    }

    fn page_history(&mut self)
        ensures
            *final(self) == old(self).paging(),
    {
        if self.tab != Tab::Recent || self.in_flight || self.queued.is_some() {
            return;
        }
        let n: usize = self.history.len();
        let near = match self.sel {
            Some(s) => n <= PAGE_AHEAD || s >= n - PAGE_AHEAD,
            None => false,
        };
        if !near {
            return;
        }
        if let Some(before) = self.next.take() {
            let op = Op::History {
                seq: self.seq,
                period: self.period.copy(),
                origin: self.origin,
                tz: self.tz.clone(),
                before,
            };
            self.queue(op, Msg::Key("sta.busy_more"));
        }
    }

    fn fail(&mut self, what: &'static str, e: ApiError)
        ensures
            *final(self) == old(self).failing(what, e),
    {
        let msg = match e {
            ApiError::Forbidden(_) => Msg::Key("sta.gate_forbidden"),
            other => gate_message(other, what),
        };
        self.note = Some(Note { msg, error: true });
    }

    fn set_period(&mut self, period: Period)
        requires
            old(self).can_ask(),
        ensures
            period_set(*old(self), period, *final(self)),
    {
        let same = period.reads_as(&self.period, &self.phrases);
        self.take_period(period, same);
    }

    /// A period was chosen; `same` is whether it is the one that is shown, and
    /// called the same.
    pub fn take_period(&mut self, period: Period, same: bool)
        requires
            old(self).can_ask(),
        ensures
            period_taken(*old(self), period, same, *final(self)),
    {
        if !same {
            self.period = period;
            self.change_range();
        }
    }
}

/// What a new period or origin makes of the page: the old numbers go before
/// the new arrive.
pub open spec fn ranged(pre: Page, post: Page) -> bool {
    &&& post == (Page {
        data: None,
        history: post.history,
        next: None,
        top: post.top,
        sel: None,
        tscroll: 0,
        note: None,
        ..pre
    }).reloading(true)
    &&& post.history@.len() == 0
    &&& post.top@.len() == 0
}

/// What choosing a period makes of the page: nothing if it is the same.
pub open spec fn period_taken(pre: Page, period: Period, same: bool, post: Page) -> bool {
    if same { post == pre } else { ranged(Page { period, ..pre }, post) }
}

/// What choosing a period makes of the page.
pub open spec fn period_set(pre: Page, period: Period, post: Page) -> bool {
    period_taken(pre, period, same_period(pre.phrases, period, pre.period), post)
}

/// Choosing the period that is shown changes nothing.
pub proof fn choosing_the_shown_period_changes_nothing(pre: Page, post: Page)
    requires
        period_set(pre, pre.period, post),
    ensures
        post == pre,
{
}

/// Where the page's period is in a list, or its start.
pub open spec fn place_in(v: Seq<Period>, period: Period) -> int {
    match period_at(v, period.preset, period.offset as int) {
        Some(i) => i,
        None => 0,
    }
}

/// The place one step along a list, its ends kept.
pub open spec fn stepped(i: int, n: int, back: bool) -> int {
    if back {
        if i > 0 { i - 1 } else { 0 }
    } else {
        if i + 1 < n { i + 1 } else { n - 1 }
    }
}

/// What an action makes of the page, and whether it ends it.
pub open spec fn acted(pre: Page, act: Act, post: Page, out: Option<Outcome>) -> bool {
    &&& out == (if act == Act::Quit { Some(Outcome::Quit) } else { None })
    &&& match act {
        Act::Tab(tab) => post == (if tab == pre.tab {
            pre
        } else {
            Page { tab, sel: None, tscroll: 0, note: None, ..pre }
        }),
        Act::Select(i) => post == (if i < pre.row_count() { (Page { sel: Some(i), note: None, ..pre }).paging() } else { pre }),
        Act::TableScroll(d) => post == (Page { tscroll: scrolled(pre.tscroll, d < 0), ..pre }),
        Act::TableScrollTo(row) => post == (Page { tscroll: row, ..pre }),
        Act::PeriodStep(d) => {
            let v = steps(pre.options@);
            period_set(pre, v[stepped(place_in(v, pre.period), v.len() as int, d < 0)], post)
        },
        Act::PeriodList => post == (Page { modal: Modal::Period(place_in(pre.options@, pre.period) as usize), ..pre }),
        Act::PeriodRow(i) => post == (if pre.modal is Period {
            Page { modal: Modal::Period(within(i as int, pre.options@.len() as int) as usize), ..pre }
        } else {
            pre
        }),
        Act::PeriodChoose => match pre.modal {
            Modal::Period(i) => if i < pre.options@.len() {
                period_set(Page { modal: Modal::Closed, ..pre }, pre.options@[i as int], post)
            } else {
                post == (Page { modal: Modal::Closed, ..pre })
            },
            _ => post == pre,
        },
        Act::PeriodClose => post == (Page { modal: Modal::Closed, ..pre }),
        Act::Origin(i) => if origin_at(i as int) == pre.origin {
            post == pre
        } else {
            ranged(Page { origin: origin_at(i as int), ..pre }, post)
        },
        Act::Entity(i) => post == (if entity_at(i as int) == pre.entity {
            pre
        } else {
            (Page { entity: entity_at(i as int), ..pre }).reranking()
        }),
        Act::Metric(i) => {
            let metric = if i == 0 { Metric::Plays } else { Metric::Time };
            post == (if metric == pre.metric { pre } else { (Page { metric, ..pre }).reranking() })
        },
        Act::Forget => post == (if pre.tab == Tab::Recent && pre.sel is Some && pre.sel->0 < pre.history@.len() {
            Page { modal: Modal::Forget(pre.sel->0), ..pre }
        } else {
            pre
        }),
        Act::ForgetConfirm => match pre.modal {
            Modal::Forget(row) => if row < pre.history@.len() {
                post == (Page { modal: Modal::Closed, ..pre }).calling(
                    Op::Forget { id: pre.history@[row as int].id, row },
                    Msg::Key("sta.busy_forget"),
                )
            } else {
                post == (Page { modal: Modal::Closed, ..pre })
            },
            _ => post == pre,
        },
        Act::ForgetCancel => post == (Page { modal: Modal::Closed, ..pre }),
        Act::Quit => post == pre,
    }
}

impl Page {
    /// The list that the period is stepped through and picked from.
    pub fn listed(&self) -> (out: Vec<Period>)
        ensures
            out@ == steps(self.options@),
    {
        let mut out: Vec<Period> = Vec::new();
        if self.options.len() == 0 {
            out.push(Period::this_month());
            out.push(Period::all_time());
            proof {
                assert(out@ =~= steps(self.options@));
            }
            return out;
        }
        let mut i: usize = 0;
        while i < self.options.len()
            invariant
                i <= self.options@.len(),
                out@ == self.options@.take(i as int),
            decreases self.options@.len() - i,
        {
            out.push(self.options[i].copy());
            proof {
                assert(out@ =~= self.options@.take(i + 1));
            }
            i = i + 1;
        }
        proof {
            assert(out@ =~= steps(self.options@));
        }
        out
    }

    fn step_period(&mut self, back: bool)
        requires
            old(self).can_ask(),
        ensures
            ({
                let v = steps(old(self).options@);
                period_set(
                    *old(self),
                    v[stepped(place_in(v, old(self).period), v.len() as int, back)],
                    *final(self),
                )
            }),
    {
        let v = self.listed();
        let i: usize = match find_period(&v, self.period.preset, self.period.offset as i64) {
            Some(i) => i,
            None => 0,
        };
        let j: usize = if back {
            if i > 0 { i - 1 } else { 0 }
        } else {
            if i < v.len() - 1 { i + 1 } else { v.len() - 1 }
        };
        let chosen = v[j].copy();
        self.set_period(chosen);
    }

    /// A click, or the action behind a key.
    pub fn act(&mut self, act: Act) -> (out: Option<Outcome>)
        requires
            old(self).can_ask(),
        ensures
            acted(*old(self), act, *final(self), out),
    {
        match act {
            Act::Tab(tab) => {
                if tab != self.tab {
                    self.tab = tab;
                    self.sel = None;
                    self.tscroll = 0;
                    self.note = None;
                }
            },
            Act::Select(i) => {
                if i < self.rows() {
                    self.sel = Some(i);
                    self.note = None;
                    self.page_history();
                }
            },
            Act::TableScroll(d) => {
                self.tscroll = scroll(self.tscroll, d < 0);
            },
            Act::TableScrollTo(row) => {
                self.tscroll = row;
            },
            Act::PeriodStep(d) => self.step_period(d < 0),
            Act::PeriodList => {
                let i: usize = match find_period(&self.options, self.period.preset, self.period.offset as i64) {
                    Some(i) => i,
                    None => 0,
                };
                self.modal = Modal::Period(i);
            },
            Act::PeriodRow(i) => {
                if let Modal::Period(_) = self.modal {
                    self.modal = Modal::Period(clamp_row(i, self.options.len()));
                }
            },
            Act::PeriodChoose => {
                if let Modal::Period(i) = self.modal {
                    self.modal = Modal::Closed;
                    if i < self.options.len() {
                        let chosen = self.options[i].copy();
                        self.set_period(chosen);
                    }
                }
            },
            Act::PeriodClose => {
                self.modal = Modal::Closed;
            },
            Act::Origin(i) => {
                let origin = Origin::at(i);
                if origin != self.origin {
                    self.origin = origin;
                    self.change_range();
                }
            },
            Act::Entity(i) => {
                let entity = Entity::at(i);
                if entity != self.entity {
                    self.entity = entity;
                    self.reload_top();
                }
            },
            Act::Metric(i) => {
                let metric = if i == 0 { Metric::Plays } else { Metric::Time };
                if metric != self.metric {
                    self.metric = metric;
                    self.reload_top();
                }
            },
            Act::Forget => {
                if self.tab == Tab::Recent {
                    if let Some(row) = self.sel {
                        if row < self.history.len() {
                            self.modal = Modal::Forget(row);
                        }
                    }
                }
            },
            Act::ForgetConfirm => {
                if let Modal::Forget(row) = self.modal {
                    self.modal = Modal::Closed;
                    if row < self.history.len() {
                        let id = self.history[row].id.clone();
                        self.queue(Op::Forget { id, row }, Msg::Key("sta.busy_forget"));
                    }
                }
            },
            Act::ForgetCancel => {
                self.modal = Modal::Closed;
            },
            Act::Quit => return Some(Outcome::Quit),
        }
        None
    }
}

// ── What an answer does ──────────────────────────────────────────────────

/// The page once a call has answered, before the answer is looked at.
pub open spec fn settled(pre: Page) -> Page {
    Page { in_flight: false, busy: None, ..pre }
}

/// The page with a read's answer in it.
pub open spec fn with_load(m: Page, l: Loaded, options: Vec<Period>) -> Page {
    Page {
        no_api: false,
        note: None,
        options,
        top: l.top,
        history: l.history.items,
        next: l.history.next,
        data: Some(
            Data { periods: l.periods, summary: l.summary, previous: l.previous, series: l.series, hours: l.hours },
        ),
        ..m
    }
}

/// What a read's answer makes of the page: where the period has nothing in it
/// and is not in the list, the first period that is gets asked for.
pub open spec fn loaded_into(m: Page, l: Loaded, post: Page) -> bool {
    let new = with_load(m, l, post.options);
    &&& post.options@ == (match l.periods {
        Some(p) => all_options(p.periods@, m.zone),
        None => seq![month_now(), all_of_it()],
    })
    &&& post == (if l.summary.events == 0 && !listed(post.options@, m.period.preset, m.period.offset) {
        (Page { period: post.options@[0], ..new }).reloading(true)
    } else {
        new
    })
}

/// The cursor once a row has left the log.
pub open spec fn cursor_left(sel: Option<usize>, n: int) -> Option<usize> {
    if n == 0 {
        None
    } else {
        match sel {
            Some(s) => Some(within(s as int, n) as usize),
            None => None,
        }
    }
}

/// What a forgotten play makes of the page: its row leaves the log, and
/// everything is asked for again, quietly.
pub open spec fn forgotten(m: Page, id: Seq<char>, row: usize, post: Page) -> bool {
    let there = row < m.history@.len() && m.history@[row as int].id@ == id;
    let n = m.history@.len() - 1;
    &&& post == (Page {
        history: post.history,
        sel: if there { cursor_left(m.sel, n) } else { m.sel },
        note: remark(Msg::Key("sta.done_forgot")),
        ..m
    }).reloading(false)
    &&& post.history@ == (if there { m.history@.remove(row as int) } else { m.history@ })
}

/// What an answer makes of the settled page: an answer to an older question is
/// dropped.
pub open spec fn applied(m: Page, done: Done, post: Page) -> bool {
    match done {
        Done::Loaded { seq, result } => if seq != m.seq {
            post == m
        } else {
            match result {
                Ok(l) => loaded_into(m, l, post),
                Err(e) => post == (if e is NotFound {
                    Page { no_api: true, data: None, ..m }
                } else {
                    m.failing("sta.fail_load", e)
                }),
            }
        },
        Done::Top { seq, result } => if seq != m.seq {
            post == m
        } else {
            match result {
                Ok(items) => post == (Page { top: items, ..m }),
                Err(e) => post == m.failing("sta.fail_top", e),
            }
        },
        Done::History { seq, result } => if seq != m.seq {
            post == m
        } else {
            match result {
                Ok(page) => {
                    &&& post == (Page { history: post.history, next: page.next, ..m })
                    &&& post.history@ == m.history@ + page.items@
                },
                Err(e) => post == m.failing("sta.fail_more", e),
            }
        },
        Done::Forgot { id, row, result } => match result {
            Ok(_) => forgotten(m, id@, row, post),
            Err(e) => post == m.failing("sta.fail_forget", e),
        },
    }
}

impl Page {
    fn take_load(&mut self, l: Loaded)
        requires
            old(self).can_ask(),
        ensures
            loaded_into(*old(self), l, *final(self)),
    {
        self.no_api = false;
        self.note = None;
        self.options = match &l.periods {
            Some(p) => period_options(p, &self.zone),
            None => {
                let mut v: Vec<Period> = Vec::new();
                v.push(Period::this_month());
                v.push(Period::all_time());
                proof {
                    assert(v@ =~= seq![month_now(), all_of_it()]);
                }
                v
            },
        };
        let empty = l.summary.events == 0;
        self.top = l.top;
        self.history = l.history.items;
        self.next = l.history.next;
        self.data = Some(
            Data { periods: l.periods, summary: l.summary, previous: l.previous, series: l.series, hours: l.hours },
        );
        if empty && !is_listed(&self.options, self.period.preset, self.period.offset) {
            self.period = self.options[0].copy();
            self.reload(true);
        }
    }

    fn take_forgotten(&mut self, id: String, row: usize)
        requires
            old(self).can_ask(),
        ensures
            forgotten(*old(self), id@, row, *final(self)),
    {
        if row < self.history.len() && same(self.history[row].id.as_str(), id.as_str()) {
            let _ = self.history.remove(row);
            if self.history.len() == 0 {
                self.sel = None;
            } else if let Some(s) = self.sel {
                self.sel = Some(clamp_row(s, self.history.len()));
            }
        }
        self.note = Some(Note { msg: Msg::Key("sta.done_forgot"), error: false });
        self.reload(false);
    }

    /// Folds one answer back into the state.
    pub fn apply(&mut self, done: Done)
        requires
            old(self).can_ask(),
        ensures
            applied(settled(*old(self)), done, *final(self)),
    {
        self.in_flight = false;
        self.busy = None;
        match done {
            Done::Loaded { seq, result } => {
                if seq != self.seq {
                    return;
                }
                match result {
                    Ok(l) => self.take_load(l),
                    Err(ApiError::NotFound(_)) => {
                        self.no_api = true;
                        self.data = None;
                    },
                    Err(e) => self.fail("sta.fail_load", e),
                }
            },
            Done::Top { seq, result } => {
                if seq != self.seq {
                    return;
                }
                match result {
                    Ok(items) => {
                        self.top = items;
                    },
                    Err(e) => self.fail("sta.fail_top", e),
                }
            },
            Done::History { seq, result } => {
                if seq != self.seq {
                    return;
                }
                match result {
                    Ok(page) => {
                        let mut items = page.items;
                        self.history.append(&mut items);
                        self.next = page.next;
                    },
                    Err(e) => self.fail("sta.fail_more", e),
                }
            },
            Done::Forgot { id, row, result } => match result {
                Ok(_) => self.take_forgotten(id, row),
                Err(e) => self.fail("sta.fail_forget", e),
            },
        }
    }

    /// Hands out the queued call, while none is running.
    pub fn dispatch_queued(&mut self) -> (op: Option<Op>)
        ensures
            old(self).in_flight ==> op is None && *final(self) == *old(self),
            !old(self).in_flight ==> op == old(self).queued && *final(self) == (if old(self).queued is Some {
                Page { queued: None, in_flight: true, ..*old(self) }
            } else {
                *old(self)
            }),
            op is Some <==> !old(self).in_flight && old(self).queued is Some,
            op is Some ==> op == old(self).queued && final(self).in_flight && final(self).queued is None,
    {
        if self.in_flight {
            return None;
        }
        let op = self.queued.take();
        if op.is_some() {
            self.in_flight = true;
        }
        op
    }

    /// A call could not be handed to the worker.
    pub fn send_failed(&mut self)
        ensures
            *final(self) == (Page { in_flight: false, note: error(Msg::Key("note.worker_gone")), ..*old(self) }),
    {
        self.in_flight = false;
        self.note = Some(Note { msg: Msg::Key("note.worker_gone"), error: true });
    }

    /// The worker is gone.
    pub fn worker_gone(&mut self)
        ensures
            *final(self) == old(self).saying(error(Msg::Key("note.worker_gone"))),
    {
        self.note = Some(Note { msg: Msg::Key("note.worker_gone"), error: true });
    }

    /// The wheel scrolls the table, or walks the period list; the warning stops
    /// it.
    pub fn wheel(&mut self, up: bool)
        ensures
            *final(self) == (match old(self).modal {
                Modal::Closed => Page { tscroll: scrolled(old(self).tscroll, up), ..*old(self) },
                Modal::Period(cursor) => if old(self).options@.len() == 0 {
                    *old(self)
                } else {
                    Page { modal: Modal::Period(stepped(cursor as int, old(self).options@.len() as int, up) as usize), ..*old(self) }
                },
                Modal::Forget(_) => *old(self),
            }),
    {
        match self.modal {
            Modal::Closed => {
                self.tscroll = scroll(self.tscroll, up);
            },
            Modal::Period(cursor) => {
                let n: usize = self.options.len();
                if n > 0 {
                    self.modal = Modal::Period(
                        if up {
                            if cursor > 0 { cursor - 1 } else { 0 }
                        } else {
                            if cursor < n - 1 { cursor + 1 } else { n - 1 }
                        },
                    );
                }
            },
            Modal::Forget(_) => {},
        }
    }
}

/// The page, loading.
pub fn start(username: Option<String>, zone: Option<Zone>, phrases: Phrases) -> (page: Page)
    ensures
        page.fresh(username, zone, phrases),
        page.seq == 1,
        page.busy == Some(Msg::Key("sta.busy_loading")),
        page.queued == Some(
            Op::Load {
                seq: 1,
                period: month_now(),
                origin: Origin::All,
                entity: Entity::Tracks,
                metric: Metric::Plays,
                tz: page.tz,
            },
        ),
{
    let mut page = Page::new(username, zone, phrases);
    page.reload(true);
    page
}

// ── Keys ─────────────────────────────────────────────────────────────────

/// What a character makes of a page with nothing over it.
pub open spec fn char_keyed(pre: Page, c: char, post: Page, out: Option<Outcome>) -> bool {
    if c == 'q' {
        acted(pre, Act::Quit, post, out)
    } else if c == '[' {
        acted(pre, Act::PeriodStep((0 - 1) as i8), post, out)
    } else if c == ']' {
        acted(pre, Act::PeriodStep(1), post, out)
    } else if c == 'p' {
        acted(pre, Act::PeriodList, post, out)
    } else if c == 'o' && pre.has_peers() {
        acted(pre, Act::Origin(((origin_index(pre.origin) + 1) % 3) as usize), post, out)
    } else if c == 't' && pre.tab == Tab::Top {
        acted(pre, Act::Entity(((entity_index(pre.entity) + 1) % 4) as usize), post, out)
    } else if c == 'm' && pre.tab == Tab::Top {
        acted(pre, Act::Metric(if pre.metric == Metric::Plays { 1 } else { 0 }), post, out)
    } else if c == 'x' && pre.tab == Tab::Recent {
        acted(pre, Act::Forget, post, out)
    } else {
        post == pre && out is None
    }
}

/// What a key makes of a page with nothing over it.
pub open spec fn page_keyed(pre: Page, key: Key, post: Page, out: Option<Outcome>) -> bool {
    let n = pre.row_count() as int;
    match key.code {
        Code::Left => acted(pre, Act::Tab(tab_beside(pre.tab, false)), post, out),
        Code::Right => acted(pre, Act::Tab(tab_beside(pre.tab, true)), post, out),
        Code::Up => if n > 0 {
            acted(pre, Act::Select(row_up(pre.sel, n)->0), post, out)
        } else {
            post == pre && out is None
        },
        Code::Down => if n > 0 {
            acted(pre, Act::Select(row_down(pre.sel, n)->0), post, out)
        } else {
            post == pre && out is None
        },
        Code::Esc => if pre.sel is Some {
            post == (Page { sel: None, note: None, ..pre }) && out is None
        } else {
            acted(pre, Act::Quit, post, out)
        },
        Code::Delete => if pre.tab == Tab::Recent {
            acted(pre, Act::Forget, post, out)
        } else {
            post == pre && out is None
        },
        Code::Char(c) => char_keyed(pre, c, post, out),
        _ => post == pre && out is None,
    }
}

/// What a key makes of the page, and whether it ends it.
pub open spec fn keyed(pre: Page, key: Key, post: Page, out: Option<Outcome>) -> bool {
    match pre.modal {
        Modal::Closed => page_keyed(pre, key, post, out),
        Modal::Period(cursor) => match key.code {
            Code::Esc => acted(pre, Act::PeriodClose, post, out),
            Code::Enter => acted(pre, Act::PeriodChoose, post, out),
            Code::Up | Code::BackTab => acted(pre, Act::PeriodRow(if cursor > 0 { (cursor - 1) as usize } else { 0 }), post, out),
            Code::Down | Code::Tab => acted(
                pre,
                Act::PeriodRow(within(cursor + 1, pre.options@.len() as int) as usize),
                post,
                out,
            ),
            _ => post == pre && out is None,
        },
        Modal::Forget(_) => if key.code == Code::Char('y') {
            acted(pre, Act::ForgetConfirm, post, out)
        } else if key.code == Code::Esc || key.code == Code::Enter || key.code == Code::Char('n') {
            acted(pre, Act::ForgetCancel, post, out)
        } else {
            post == pre && out is None
        },
    }
}

fn char_key(page: &mut Page, c: char) -> (out: Option<Outcome>)
    requires
        old(page).can_ask(),
    ensures
        char_keyed(*old(page), c, *final(page), out),
{
    if c == 'q' {
        page.act(Act::Quit)
    } else if c == '[' {
        page.act(Act::PeriodStep(-1))
    } else if c == ']' {
        page.act(Act::PeriodStep(1))
    } else if c == 'p' {
        page.act(Act::PeriodList)
    } else if c == 'o' && page.peer_plays() {
        let i: usize = (page.origin.index() + 1) % 3;
        page.act(Act::Origin(i))
    } else if c == 't' && page.tab == Tab::Top {
        let i: usize = (page.entity.index() + 1) % 4;
        page.act(Act::Entity(i))
    } else if c == 'm' && page.tab == Tab::Top {
        let i: usize = if page.metric == Metric::Plays { 1 } else { 0 };
        page.act(Act::Metric(i))
    } else if c == 'x' && page.tab == Tab::Recent {
        page.act(Act::Forget)
    } else {
        None
    }
}

fn page_key(page: &mut Page, key: Key) -> (out: Option<Outcome>)
    requires
        old(page).can_ask(),
    ensures
        page_keyed(*old(page), key, *final(page), out),
{
    let n: usize = page.rows();
    match key.code {
        Code::Left => {
            let to = page.tab.next(false);
            page.act(Act::Tab(to))
        },
        Code::Right => {
            let to = page.tab.next(true);
            page.act(Act::Tab(to))
        },
        Code::Up => {
            if n > 0 {
                let i: usize = match page.sel {
                    Some(s) => if s > 0 { s - 1 } else { 0 },
                    None => n - 1,
                };
                page.act(Act::Select(i))
            } else {
                None
            }
        },
        Code::Down => {
            if n > 0 {
                let i: usize = match page.sel {
                    Some(s) => if s < n - 1 { s + 1 } else { n - 1 },
                    None => 0,
                };
                page.act(Act::Select(i))
            } else {
                None
            }
        },
        Code::Esc => {
            if page.sel.is_some() {
                page.sel = None;
                page.note = None;
                None
            } else {
                page.act(Act::Quit)
            }
        },
        Code::Delete => if page.tab == Tab::Recent {
            page.act(Act::Forget)
        } else {
            None
        },
        Code::Char(c) => char_key(page, c),
        _ => None,
    }
}

/// A key press.
pub fn handle_key(page: &mut Page, key: Key) -> (out: Option<Outcome>)
    requires
        old(page).can_ask(),
    ensures
        keyed(*old(page), key, *final(page), out),
{
    match page.modal {
        Modal::Closed => page_key(page, key),
        Modal::Period(cursor) => {
            let n: usize = page.options.len();
            match key.code {
                Code::Esc => page.act(Act::PeriodClose),
                Code::Enter => page.act(Act::PeriodChoose),
                Code::Up | Code::BackTab => page.act(Act::PeriodRow(if cursor > 0 { cursor - 1 } else { 0 })),
                Code::Down | Code::Tab => {
                    let i: usize = if n > 0 && cursor < n - 1 {
                        cursor + 1
                    } else if n > 0 {
                        n - 1
                    } else {
                        0
                    };
                    page.act(Act::PeriodRow(i))
                },
                _ => None,
            }
        },
        Modal::Forget(_) => match key.code {
            Code::Char(c) => if c == 'y' {
                page.act(Act::ForgetConfirm)
            } else if c == 'n' {
                page.act(Act::ForgetCancel)
            } else {
                None
            },
            Code::Esc | Code::Enter => page.act(Act::ForgetCancel),
            _ => None,
        },
    }
}

// ── Laws ─────────────────────────────────────────────────────────────────

/// An answer to an older question is dropped: it changes nothing that the page
/// shows.
pub proof fn old_answers_are_dropped(m: Page, done: Done, post: Page)
    requires
        applied(m, done, post),
        match done {
            Done::Loaded { seq, result } => seq != m.seq,
            Done::Top { seq, result } => seq != m.seq,
            Done::History { seq, result } => seq != m.seq,
            Done::Forgot { id, row, result } => false,
        },
    ensures
        post == m,
{
}

/// Enter and Esc are the safe choice on the warning: they close it, and nothing
/// is queued.
pub proof fn the_gate_is_safe_on_enter(pre: Page, key: Key, post: Page, out: Option<Outcome>)
    requires
        pre.modal is Forget,
        key.code == Code::Enter || key.code == Code::Esc,
        keyed(pre, key, post, out),
    ensures
        post == (Page { modal: Modal::Closed, ..pre }),
        out is None,
{
}

/// A play is forgotten only from the warning, the row that the warning is on, and
/// only by `y`.
pub proof fn forgetting_needs_the_gate(pre: Page, key: Key, post: Page, out: Option<Outcome>, id: String, row: usize)
    requires
        keyed(pre, key, post, out),
        post.queued == Some(Op::Forget { id, row }),
        pre.queued != post.queued,
    ensures
        pre.modal == Modal::Forget(row),
        key.code == Code::Char('y'),
        row < pre.history@.len() && pre.history@[row as int].id == id,
{
}

/// A new question outdates every one before: the page's answers so far are
/// gone, and only the answer to the new one counts.
pub proof fn a_new_range_starts_over(pre: Page, post: Page)
    requires
        pre.can_ask(),
        ranged(pre, post),
    ensures
        post.data is None && post.history@.len() == 0 && post.top@.len() == 0 && post.sel is None && post.next is None,
        post.seq > pre.seq,
        post.queued matches Some(Op::Load { seq, period, origin, entity, metric, tz }) && seq == post.seq && period
            == pre.period && origin == pre.origin,
{
}

/// The edge of the log asks for its next page only once: while the cursor for
/// it is taken, no move of the selection asks again.
pub proof fn the_edge_asks_once(pre: Page)
    ensures
        pre.paging().queued != pre.queued ==> pre.next is Some && pre.paging().next is None,
        pre.next is None ==> pre.paging() == pre,
{
}

/// After a play was forgotten the cursor is on a row that exists, or nowhere.
pub proof fn the_cursor_stays_on_a_row(m: Page, id: Seq<char>, row: usize, post: Page)
    requires
        m.tab == Tab::Recent,
        m.sel matches Some(s) ==> s < m.history@.len(),
        forgotten(m, id, row, post),
    ensures
        post.sel matches Some(s) ==> s < post.history@.len(),
{
}

/// The period list ends with all time, and has no period twice.
pub proof fn the_list_has_each_period_once(list: Seq<PeriodOption>, zone: Option<Zone>)
    ensures
        all_options(list, zone).len() >= 2,
        all_options(list, zone).last() == all_of_it(),
        forall|i: int, j: int|
            0 <= i < j < all_options(list, zone).len() ==> (#[trigger] all_options(list, zone)[i]).preset != (
            #[trigger] all_options(list, zone)[j]).preset || all_options(list, zone)[i].offset != all_options(list, zone)[j].offset,
{
    entries_are_distinct(list, Preset::Week, zone);
    entries_are_distinct(list, Preset::Month, zone);
    entries_are_distinct(list, Preset::Quarter, zone);
    entries_are_distinct(list, Preset::Half, zone);
    entries_are_distinct(list, Preset::Year, zone);
}

proof fn entries_are_distinct(list: Seq<PeriodOption>, preset: Preset, zone: Option<Zone>)
    ensures
        forall|i: int| 0 <= i < entries(list, preset, zone).len() ==> (#[trigger] entries(list, preset, zone)[i]).preset == preset,
        forall|i: int, j: int|
            0 <= i < j < entries(list, preset, zone).len() ==> (#[trigger] entries(list, preset, zone)[i]).offset != (
            #[trigger] entries(list, preset, zone)[j]).offset,
    decreases list.len(),
{
    if list.len() > 0 {
        entries_are_distinct(list.drop_last(), preset, zone);
    }
}

/// Every entry of a kind is one that the server lists.
pub proof fn entries_come_from_the_server(list: Seq<PeriodOption>, preset: Preset, zone: Option<Zone>, i: int)
    requires
        0 <= i < entries(list, preset, zone).len(),
    ensures
        exists|k: int|
            0 <= k < list.len() && (#[trigger] list[k]).period@ == preset_name(preset)@ && list[k].offset == entries(
                list,
                preset,
                zone,
            )[i].offset,
    decreases list.len(),
{
    if list.len() > 0 {
        let rest = list.drop_last();
        let before = entries(rest, preset, zone);
        if i < before.len() {
            assert(entries(list, preset, zone)[i] == before[i]);
            entries_come_from_the_server(rest, preset, zone, i);
            let k = choose|k: int|
                0 <= k < rest.len() && (#[trigger] rest[k]).period@ == preset_name(preset)@ && rest[k].offset == before[i].offset;
            assert(list[k] == rest[k]);
        } else {
            assert(list[list.len() - 1] == list.last());
        }
    }
}

} // verus!
