//! How the backups room is shown: the run in flight, the table of
//! destinations, the form, the browser and the history of runs.

use vstd::prelude::*;

use crate::backups::{ActiveBackup, BackupDestination, BackupRun, Field, Form, Modal, Room, Trigger};
use crate::clock::{age_since, elapsed_since, iso_unix};
use crate::layout::{table_view, tone_of, wrap_places, Cell, Rect, Tone};
use crate::msg::{dash, Arg, Fill, Msg};
use crate::text::{clip, fmt_bytes, fmt_count, printable, same, same_texts, trim};

verus! {

use crate::clock::{age, elapsed, is_timestamp, timestamp_value};
use crate::layout::{further, left_of, row_tone, rows_taken, window};
use crate::msg::{filled, one, reads};
use crate::screen::{first_place, place_of};
use crate::text::{bytes_text, clipped, grouped, is_text, printed, texts, trimmed};

/// The smallest window that the room is drawn into.
pub const MIN_W: u16 = 80;

pub const MIN_H: u16 = 24;

// ── Words ────────────────────────────────────────────────────────────────

/// Why a run was started, in a word: the server's own token where it is not
/// known.
pub open spec fn is_trigger_words(msg: Msg, reason: Seq<char>) -> bool {
    if reason == "after-scan"@ {
        msg == Msg::Key("bak.trig_after_scan")
    } else if reason == "daily"@ {
        msg == Msg::Key("bak.trig_daily_word")
    } else if reason == "manual"@ {
        msg == Msg::Key("bak.trig_manual")
    } else {
        reads(msg, printed(reason, 30))
    }
}

pub fn trigger_words(reason: &str) -> (msg: Msg)
    ensures
        is_trigger_words(msg, reason@),
{
    if same(reason, "after-scan") {
        Msg::Key("bak.trig_after_scan")
    } else if same(reason, "daily") {
        Msg::Key("bak.trig_daily_word")
    } else if same(reason, "manual") {
        Msg::Key("bak.trig_manual")
    } else {
        Msg::Raw(printable(reason, 30))
    }
}

/// When a destination is backed up: a daily one with its hour.
pub open spec fn is_trigger_cell(msg: Msg, d: BackupDestination) -> bool {
    if d.trigger_type@ == "daily"@ {
        msg == one(
            "bak.trig_daily_at",
            "hour",
            Arg::TwoDigits(
                match d.daily_at_hour {
                    Some(h) => h as u64,
                    None => 0,
                },
            ),
        )
    } else {
        is_trigger_words(msg, d.trigger_type@)
    }
}

pub fn trigger_cell(d: &BackupDestination) -> (msg: Msg)
    ensures
        is_trigger_cell(msg, *d),
{
    if same(d.trigger_type.as_str(), "daily") {
        let hour: u64 = match d.daily_at_hour {
            Some(h) => h as u64,
            None => 0,
        };
        Msg::One("bak.trig_daily_at", Fill { name: "hour", arg: Arg::TwoDigits(hour) })
    } else {
        trigger_words(d.trigger_type.as_str())
    }
}

/// How a run ended, in a word: the server's own token where it is not known.
pub open spec fn is_status_word(msg: Msg, status: Seq<char>) -> bool {
    if status == "success"@ {
        msg == Msg::Key("bak.st_success")
    } else if status == "failed"@ {
        msg == Msg::Key("bak.st_failed")
    } else if status == "partial"@ {
        msg == Msg::Key("bak.st_partial")
    } else if status == "skipped"@ {
        msg == Msg::Key("bak.st_skipped")
    } else if status == "running"@ {
        msg == Msg::Key("bak.st_running")
    } else {
        reads(msg, printed(status, 20))
    }
}

pub fn status_word(status: &str) -> (msg: Msg)
    ensures
        is_status_word(msg, status@),
{
    if same(status, "success") {
        Msg::Key("bak.st_success")
    } else if same(status, "failed") {
        Msg::Key("bak.st_failed")
    } else if same(status, "partial") {
        Msg::Key("bak.st_partial")
    } else if same(status, "skipped") {
        Msg::Key("bak.st_skipped")
    } else if same(status, "running") {
        Msg::Key("bak.st_running")
    } else {
        Msg::Raw(printable(status, 20))
    }
}

/// The colour of a status.
pub open spec fn status_tone(status: Seq<char>) -> Tone {
    if status == "success"@ {
        Tone::Fine
    } else if status == "failed"@ || status == "partial"@ || status == "skipped"@ {
        Tone::Gold
    } else if status == "running"@ {
        Tone::Accent
    } else {
        Tone::Dim
    }
}

pub fn status_style(status: &str) -> (t: Tone)
    ensures
        t == status_tone(status@),
{
    if same(status, "success") {
        Tone::Fine
    } else if same(status, "failed") || same(status, "partial") || same(status, "skipped") {
        Tone::Gold
    } else if same(status, "running") {
        Tone::Accent
    } else {
        Tone::Dim
    }
}

pub open spec fn counted(key: &'static str, n: u64) -> Msg {
    one(key, "n", Arg::Count(n))
}

fn count(key: &'static str, n: u64) -> (msg: Msg)
    ensures
        msg == counted(key, n),
{
    Msg::One(key, Fill { name: "n", arg: Arg::Count(n) })
}

/// A run's counts, each that is not zero; of a success without any, that
/// nothing changed.
pub open spec fn summary(run: BackupRun) -> Seq<Msg> {
    let none = Seq::<Msg>::empty();
    let parts = (if run.files_copied > 0 { seq![counted("bak.sum_copied", run.files_copied)] } else { none })
        + (if run.files_unchanged > 0 { seq![counted("bak.sum_unchanged", run.files_unchanged)] } else { none })
        + (if run.files_trashed > 0 { seq![counted("bak.sum_trashed", run.files_trashed)] } else { none });
    if parts.len() == 0 && run.status@ == "success"@ {
        seq![Msg::Key("bak.sum_no_changes")]
    } else {
        parts
    }
}

/// A run in words: its counts, to be joined by commas, and what it wrote.
pub fn run_summary(run: &BackupRun) -> (out: (Vec<Msg>, Option<String>))
    ensures
        out.0@ == summary(*run),
        is_text(out.1, if run.bytes_copied > 0 { Some(bytes_text(run.bytes_copied as nat)) } else { None }),
{
    let mut parts: Vec<Msg> = Vec::new();
    if run.files_copied > 0 {
        parts.push(count("bak.sum_copied", run.files_copied));
    }
    if run.files_unchanged > 0 {
        parts.push(count("bak.sum_unchanged", run.files_unchanged));
    }
    if run.files_trashed > 0 {
        parts.push(count("bak.sum_trashed", run.files_trashed));
    }
    if parts.len() == 0 && same(run.status.as_str(), "success") {
        parts.push(Msg::Key("bak.sum_no_changes"));
    }
    proof {
        assert(parts@ =~= summary(*run));
    }
    let bytes = if run.bytes_copied > 0 { Some(fmt_bytes(run.bytes_copied)) } else { None };
    (parts, bytes)
}

/// How long ago a timestamp was; nothing where it is none.
pub open spec fn ago(ts: Seq<char>, now: i64) -> Option<Msg> {
    if is_timestamp(ts) { Some(age(now - timestamp_value(ts))) } else { None }
}

fn ago_words(ts: &str, now: i64) -> (out: Option<Msg>)
    ensures
        out == ago(ts@, now),
{
    match iso_unix(ts) {
        Some(t) => Some(age_since(now, t)),
        None => None,
    }
}

/// The tips for what has the keys.
pub open spec fn hint(room: Room) -> &'static str {
    match room.modal {
        Modal::Form(f) => if f.editing is Some { "bak.hint_edit" } else { "bak.hint_add" },
        Modal::Browser { .. } => "bak.hint_browser",
        Modal::History { .. } => "bak.hint_history",
        Modal::Remove(_) => "bak.hint_remove",
        Modal::Closed => if !room.loaded {
            "bak.hint_loading"
        } else if room.dests@.len() == 0 {
            "bak.hint_empty"
        } else if room.sel is None {
            "bak.hint_rows"
        } else {
            "bak.hint_selected"
        },
    }
}

pub fn footer_hint(room: &Room) -> (key: &'static str)
    ensures
        key == hint(*room),
{
    match &room.modal {
        Modal::Form(f) => if f.editing.is_some() { "bak.hint_edit" } else { "bak.hint_add" },
        Modal::Browser { .. } => "bak.hint_browser",
        Modal::History { .. } => "bak.hint_history",
        Modal::Remove(_) => "bak.hint_remove",
        Modal::Closed => {
            if !room.loaded {
                "bak.hint_loading"
            } else if room.dests.len() == 0 {
                "bak.hint_empty"
            } else if room.sel.is_none() {
                "bak.hint_rows"
            } else {
                "bak.hint_selected"
            }
        },
    }
}

// ── The state's line ─────────────────────────────────────────────────────

/// The state's line: what is under way and its colour, the details, and how
/// often the room asks.
#[derive(Debug, PartialEq)]
pub struct State {
    pub word: Msg,
    pub tone: Tone,
    pub detail: Msg,
    pub polls: &'static str,
}

/// The text of an optional string, or none.
pub open spec fn text_or_none(o: Option<String>) -> Seq<char> {
    match o {
        Some(s) => s@,
        None => Seq::empty(),
    }
}

/// The destinations that are switched on.
pub open spec fn switched_on(dests: Seq<BackupDestination>) -> nat
    decreases dests.len(),
{
    if dests.len() == 0 {
        0
    } else {
        switched_on(dests.drop_last()) + (if dests.last().enabled { 1nat } else { 0 })
    }
}

/// How long the run has taken; nothing where its start is not known.
pub open spec fn running_for(a: ActiveBackup, now: i64) -> Seq<char> {
    if a.started_at is Some && is_timestamp(a.started_at->0@) {
        elapsed(now - timestamp_value(a.started_at->0@))
    } else {
        Seq::empty()
    }
}

/// The run in flight: whose library, where to, why, and for how long.
pub open spec fn is_running_detail(msg: Msg, a: ActiveBackup, now: i64) -> bool {
    &&& msg matches Msg::Four(key, library, path, trigger, time)
    &&& key == "bak.state_running_detail"
    &&& filled(library, "library", printed(text_or_none(a.library_name), 64))
    &&& filled(path, "path", text_or_none(a.dest_path))
    &&& trigger.name == "trigger" && match a.trigger_reason {
        Some(r) => trigger.arg matches Arg::Phrase(m) && is_trigger_words(*m, r@),
        None => trigger.arg matches Arg::Text(s) && s@.len() == 0,
    }
    &&& filled(time, "elapsed", running_for(a, now))
}

pub open spec fn is_state(s: State, room: Room, now: i64) -> bool {
    match room.status.active {
        Some(a) => {
            &&& s.word == Msg::Key("bak.state_running")
            &&& s.tone == Tone::Fine
            &&& is_running_detail(s.detail, a, now)
            &&& s.polls == "bak.polls_2"
        },
        None => if room.status.queue_length > 0 {
            s == (State {
                word: if room.status.queue_length == 1 {
                    Msg::Key("bak.state_queued_one")
                } else {
                    one("bak.state_queued", "n", Arg::Nat(room.status.queue_length))
                },
                tone: Tone::Gold,
                detail: Msg::Key("bak.state_queued_detail"),
                polls: "bak.polls_2",
            })
        } else {
            s == (State {
                word: Msg::Key("bak.state_idle"),
                tone: Tone::Dim,
                detail: Msg::Two(
                    "bak.state_idle_detail",
                    Fill { name: "on", arg: Arg::Nat(switched_on(room.dests@) as u64) },
                    Fill { name: "total", arg: Arg::Nat(room.dests@.len() as u64) },
                ),
                polls: "bak.polls_5",
            })
        },
    }
}

fn count_on(dests: &Vec<BackupDestination>) -> (n: usize)
    ensures
        n == switched_on(dests@),
{
    let mut n: usize = 0;
    let mut i: usize = 0;
    proof {
        assert(dests@.take(0) =~= Seq::<BackupDestination>::empty());
    }
    while i < dests.len()
        invariant
            i <= dests@.len(),
            n <= i,
            n == switched_on(dests@.take(i as int)),
        decreases dests@.len() - i,
    {
        proof {
            assert(dests@.take(i + 1).drop_last() =~= dests@.take(i as int));
        }
        if dests[i].enabled {
            n = n + 1;
        }
        i = i + 1;
    }
    proof {
        assert(dests@.take(i as int) =~= dests@);
    }
    n
}

fn copy_or_none(o: &Option<String>) -> (s: String)
    ensures
        s@ == text_or_none(*o),
{
    match o {
        Some(s) => s.clone(),
        None => {
            let none = String::new();
            proof {
                assert(none@ =~= Seq::<char>::empty());
            }
            none
        },
    }
}

fn running_detail(a: &ActiveBackup, now: i64) -> (msg: Msg)
    ensures
        is_running_detail(msg, *a, now),
{
    let mut time: String = String::new();
    proof {
        assert(time@ =~= Seq::<char>::empty());
    }
    if let Some(s) = &a.started_at {
        if let Some(t) = iso_unix(s.as_str()) {
            time = elapsed_since(now, t);
        }
    }
    let trigger = match &a.trigger_reason {
        Some(r) => Arg::Phrase(Box::new(trigger_words(r.as_str()))),
        None => Arg::Text(String::new()),
    };
    let library = copy_or_none(&a.library_name);
    Msg::Four(
        "bak.state_running_detail",
        Fill { name: "library", arg: Arg::Text(printable(library.as_str(), 64)) },
        Fill { name: "path", arg: Arg::Text(copy_or_none(&a.dest_path)) },
        Fill { name: "trigger", arg: trigger },
        Fill { name: "elapsed", arg: Arg::Text(time) },
    )
}

/// The run in flight, the queue, or that nothing is under way.
pub fn state_line(room: &Room, now: i64) -> (s: State)
    ensures
        is_state(s, *room, now),
{
    match &room.status.active {
        Some(a) => State {
            word: Msg::Key("bak.state_running"),
            tone: Tone::Fine,
            detail: running_detail(a, now),
            polls: "bak.polls_2",
        },
        None => {
            let queued: u64 = room.status.queue_length;
            if queued > 0 {
                State {
                    word: if queued == 1 {
                        Msg::Key("bak.state_queued_one")
                    } else {
                        Msg::One("bak.state_queued", Fill { name: "n", arg: Arg::Nat(queued) })
                    },
                    tone: Tone::Gold,
                    detail: Msg::Key("bak.state_queued_detail"),
                    polls: "bak.polls_2",
                }
            } else {
                let on: usize = count_on(&room.dests);
                let all: usize = room.dests.len();
                State {
                    word: Msg::Key("bak.state_idle"),
                    tone: Tone::Dim,
                    detail: Msg::Two(
                        "bak.state_idle_detail",
                        Fill { name: "on", arg: Arg::Nat(on as u64) },
                        Fill { name: "total", arg: Arg::Nat(all as u64) },
                    ),
                    polls: "bak.polls_5",
                }
            }
        },
    }
}

/// The files that a run has dealt with.
pub open spec fn handled(a: ActiveBackup) -> int {
    a.files_copied + a.files_unchanged + a.files_trashed
}

/// How far a run is, in whole percent, where it can be told.
pub open spec fn progress_pct(a: ActiveBackup) -> Option<int> {
    match a.expected_files {
        Some(e) => if e > 0 {
            let pct = handled(a) * 100 / e as int;
            Some(if pct > 100 { 100 } else { pct })
        } else {
            None
        },
        None => None,
    }
}

/// A run's progress is never more than all of it.
pub proof fn progress_ends_at_all(a: ActiveBackup)
    ensures
        progress_pct(a) matches Some(p) ==> 0 <= p <= 100,
        a.expected_files matches Some(e) ==> (e > 0 && handled(a) >= e ==> progress_pct(a) == Some(100int)),
{
    if let Some(e) = a.expected_files {
        if e > 0 {
            vstd::arithmetic::div_mod::lemma_div_pos_is_pos(handled(a) * 100, e as int);
            if handled(a) >= e {
                vstd::arithmetic::div_mod::lemma_div_is_ordered(e * 100, handled(a) * 100, e as int);
                vstd::arithmetic::div_mod::lemma_div_multiples_vanish(100, e as int);
            }
        }
    }
}

fn percent(a: &ActiveBackup) -> (pct: Option<u64>)
    ensures
        match progress_pct(*a) {
            Some(p) => pct is Some && pct->0 == p && 0 <= p <= 100,
            None => pct is None,
        },
{
    match a.expected_files {
        Some(e) => {
            if e > 0 {
                let done: u128 = a.files_copied as u128 + a.files_unchanged as u128 + a.files_trashed as u128;
                let p: u128 = done * 100 / e as u128;
                Some(if p > 100 { 100 } else { p as u64 })
            } else {
                None
            }
        },
        None => None,
    }
}

/// The bar of a run: the filled cells of ten, the words after them, and the
/// counts that follow while there is room.
#[derive(Debug, PartialEq)]
pub struct Progress {
    pub filled: usize,
    pub words: Msg,
    pub groups: Vec<Msg>,
}

/// The counts of a run, and what it wrote.
pub open spec fn progress_counts(a: ActiveBackup) -> Seq<Msg> {
    seq![
        counted("bak.sum_copied", a.files_copied),
        counted("bak.sum_unchanged", a.files_unchanged),
        counted("bak.sum_trashed", a.files_trashed),
        if a.bytes_copied > 0 {
            one("bak.progress_written", "bytes", Arg::Bytes(a.bytes_copied))
        } else {
            Msg::Key("bak.progress_no_bytes")
        },
    ]
}

pub open spec fn is_progress(p: Progress, a: ActiveBackup) -> bool {
    &&& match progress_pct(a) {
        Some(pct) => {
            &&& p.filled == pct / 10
            &&& p.words == Msg::Three(
                "bak.progress_pct",
                Fill { name: "pct", arg: Arg::Nat(pct as u64) },
                Fill { name: "done", arg: Arg::Count(handled(a) as u64) },
                Fill { name: "expected", arg: Arg::Count(a.expected_files->0) },
            )
        },
        None => p.filled == 0 && p.words == Msg::Key("bak.progress_no_estimate"),
    }
    &&& p.groups@ == progress_counts(a)
}

pub fn progress_line(a: &ActiveBackup) -> (p: Progress)
    requires
        handled(*a) <= u64::MAX,
    ensures
        is_progress(p, *a),
        p.filled <= 10,
{
    let done: u64 = a.files_copied + a.files_unchanged + a.files_trashed;
    let (filled, words) = match percent(a) {
        Some(pct) => {
            let expected: u64 = match a.expected_files {
                Some(e) => e,
                None => 0,
            };
            (
                (pct / 10) as usize,
                Msg::Three(
                    "bak.progress_pct",
                    Fill { name: "pct", arg: Arg::Nat(pct) },
                    Fill { name: "done", arg: Arg::Count(done) },
                    Fill { name: "expected", arg: Arg::Count(expected) },
                ),
            )
        },
        None => (0, Msg::Key("bak.progress_no_estimate")),
    };
    let mut groups: Vec<Msg> = Vec::new();
    groups.push(count("bak.sum_copied", a.files_copied));
    groups.push(count("bak.sum_unchanged", a.files_unchanged));
    groups.push(count("bak.sum_trashed", a.files_trashed));
    groups.push(
        if a.bytes_copied > 0 {
            Msg::One("bak.progress_written", Fill { name: "bytes", arg: Arg::Bytes(a.bytes_copied) })
        } else {
            Msg::Key("bak.progress_no_bytes")
        },
    );
    proof {
        assert(groups@ =~= progress_counts(*a));
    }
    Progress { filled, words, groups }
}

// ── The table of destinations ────────────────────────────────────────────

/// The columns of the table: the trigger's and the retention's as wide as
/// their words need, within bounds; the destination gets what is left, and
/// twelve cells at least.
#[derive(Clone, Copy, Debug, PartialEq, Eq, Structural)]
pub struct DestColumns {
    pub dest: u16,
    pub dest_width: u16,
    pub trigger: u16,
    pub trigger_width: u16,
    pub retention: u16,
    pub retention_width: u16,
    pub last: u16,
    pub on: u16,
}

pub const LIBRARY_W: u16 = 10;

pub const LAST_W: u16 = 18;

pub const ON_W: u16 = 3;

pub open spec fn between(v: int, low: int, high: int) -> int {
    if v < low {
        low
    } else if v > high {
        high
    } else {
        v
    }
}

/// The widest of some words.
pub open spec fn widest(words: Seq<u16>) -> int
    decreases words.len(),
{
    if words.len() == 0 {
        0
    } else if words.last() > widest(words.drop_last()) {
        words.last() as int
    } else {
        widest(words.drop_last())
    }
}

fn widest_of(words: &Vec<u16>) -> (w: u16)
    ensures
        w == widest(words@),
{
    let mut w: u16 = 0;
    let mut i: usize = 0;
    proof {
        assert(words@.take(0) =~= Seq::<u16>::empty());
    }
    while i < words.len()
        invariant
            i <= words@.len(),
            w == widest(words@.take(i as int)),
        decreases words@.len() - i,
    {
        proof {
            assert(words@.take(i + 1).drop_last() =~= words@.take(i as int));
        }
        if words[i] > w {
            w = words[i];
        }
        i = i + 1;
    }
    proof {
        assert(words@.take(i as int) =~= words@);
    }
    w
}

pub open spec fn dest_places(x: int, width: int, triggers: Seq<u16>, retentions: Seq<u16>) -> DestColumns {
    let t = between(widest(triggers), 12, 18);
    let r = between(widest(retentions), 9, 14);
    let rest = left_of(width, 41 + t + r);
    let w = if rest > 12 { rest } else { 12 };
    let dest = further(x, 12);
    let trigger = further(further(dest, w), 2);
    let retention = further(trigger, t + 2);
    let last = further(retention, r + 2);
    DestColumns {
        dest: dest as u16,
        dest_width: w as u16,
        trigger: trigger as u16,
        trigger_width: t as u16,
        retention: retention as u16,
        retention_width: r as u16,
        last: last as u16,
        on: further(last, 20) as u16,
    }
}

fn held_between(v: u16, low: u16, high: u16) -> (r: u16)
    requires
        low <= high,
    ensures
        r == between(v as int, low as int, high as int),
{
    if v < low {
        low
    } else if v > high {
        high
    } else {
        v
    }
}

/// The columns for a table and the widths of the words that its trigger and
/// retention columns may hold.
pub fn dest_columns(table: Rect, triggers: &Vec<u16>, retentions: &Vec<u16>) -> (out: DestColumns)
    ensures
        out == dest_places(table.x as int, table.width as int, triggers@, retentions@),
{
    let trigger_width: u16 = held_between(widest_of(triggers), 12, 18);
    let retention_width: u16 = held_between(widest_of(retentions), 9, 14);
    let taken: u16 = LIBRARY_W + 2 + trigger_width + 2 + retention_width + 2 + LAST_W + 2 + ON_W + 2;
    let rest: u16 = table.width.saturating_sub(taken);
    let dest_width: u16 = if rest > 12 { rest } else { 12 };
    let dest: u16 = table.x.saturating_add(LIBRARY_W + 2);
    let trigger: u16 = dest.saturating_add(dest_width).saturating_add(2);
    let retention: u16 = trigger.saturating_add(trigger_width + 2);
    let last: u16 = retention.saturating_add(retention_width + 2);
    DestColumns {
        dest,
        dest_width,
        trigger,
        trigger_width,
        retention,
        retention_width,
        last,
        on: last.saturating_add(LAST_W + 2),
    }
}

/// The columns stand in order, none over another; with room for the
/// destination's twelve cells they end within the table.
pub proof fn the_columns_fit(x: int, width: int, triggers: Seq<u16>, retentions: Seq<u16>)
    requires
        0 <= x,
        MIN_W - 4 <= width,
        x + width + 12 <= u16::MAX,
    ensures
        ({
            let c = dest_places(x, width, triggers, retentions);
            &&& 12 <= c.trigger_width <= 18
            &&& 9 <= c.retention_width <= 14
            &&& c.dest == x + LIBRARY_W + 2
            &&& c.dest + c.dest_width + 2 == c.trigger
            &&& c.trigger + c.trigger_width + 2 == c.retention
            &&& c.retention + c.retention_width + 2 == c.last
            &&& c.last + LAST_W + 2 == c.on
            &&& width >= 53 + c.trigger_width + c.retention_width ==> c.on + ON_W <= x + width
        }),
{
}

/// A row of the table.
#[derive(Debug, PartialEq)]
pub struct DestRow {
    pub library: String,
    pub bold: bool,
    pub base: Tone,
    pub trigger: Msg,
    pub retention: Cell,
    pub last: Cell,
    /// How long ago the last run was, after a dot.
    pub age: Option<Msg>,
    pub on: bool,
    pub on_tone: Tone,
}

/// How long what is replaced is kept.
pub open spec fn retention_cell(days: u32, selected: bool, hovered: bool) -> Cell {
    if days == 0 {
        Cell { msg: Msg::Key("bak.no_trash"), tone: row_tone(selected, hovered, Tone::Dim) }
    } else {
        Cell { msg: one("bak.days", "n", Arg::Nat(days as u64)), tone: row_tone(selected, hovered, Tone::Plain) }
    }
}

/// The last run: the one in flight with its percentage, how the last ended, or
/// that there was none.
pub open spec fn is_last_run(c: Cell, d: BackupDestination, running: bool, pct: Option<u64>, selected: bool, hovered: bool) -> bool {
    if running {
        &&& c.msg == (match pct {
            Some(p) => one("bak.running_pct", "pct", Arg::Nat(p)),
            None => Msg::Key("bak.running"),
        })
        &&& c.tone == row_tone(selected, hovered, Tone::Accent)
    } else {
        match d.last_run {
            None => c.msg == Msg::Key("bak.never") && c.tone == row_tone(selected, hovered, Tone::Dim),
            Some(run) => is_status_word(c.msg, run.status@) && c.tone == row_tone(selected, hovered, status_tone(run.status@)),
        }
    }
}

pub open spec fn is_dest_row(row: DestRow, d: BackupDestination, running: bool, pct: Option<u64>, now: i64, selected: bool, hovered: bool, box_hovered: bool) -> bool {
    &&& row.library@ == clipped(printed(d.library_name@, 64), LIBRARY_W as nat)
    &&& row.bold == (selected || hovered)
    &&& row.base == row_tone(selected, hovered, Tone::Plain)
    &&& is_trigger_cell(row.trigger, d)
    &&& row.retention == retention_cell(d.retention_days, selected, hovered)
    &&& is_last_run(row.last, d, running, pct, selected, hovered)
    &&& row.age == (match d.last_run {
        Some(run) => if running { None } else { ago(run.started_at@, now) },
        None => None,
    })
    &&& row.on == d.enabled
    &&& row.on_tone == row_tone(selected, box_hovered, if d.enabled { Tone::Fine } else { Tone::Dim })
}

pub fn dest_row(d: &BackupDestination, running: bool, pct: Option<u64>, now: i64, selected: bool, hovered: bool, box_hovered: bool) -> (row: DestRow)
    ensures
        is_dest_row(row, *d, running, pct, now, selected, hovered, box_hovered),
{
    let retention = if d.retention_days == 0 {
        Cell { msg: Msg::Key("bak.no_trash"), tone: tone_of(selected, hovered, Tone::Dim) }
    } else {
        let days = Fill { name: "n", arg: Arg::Nat(d.retention_days as u64) };
        Cell { msg: Msg::One("bak.days", days), tone: tone_of(selected, hovered, Tone::Plain) }
    };
    let mut age: Option<Msg> = None;
    let last = if running {
        let msg = match pct {
            Some(p) => Msg::One("bak.running_pct", Fill { name: "pct", arg: Arg::Nat(p) }),
            None => Msg::Key("bak.running"),
        };
        Cell { msg, tone: tone_of(selected, hovered, Tone::Accent) }
    } else {
        match &d.last_run {
            None => Cell { msg: Msg::Key("bak.never"), tone: tone_of(selected, hovered, Tone::Dim) },
            Some(run) => {
                age = ago_words(run.started_at.as_str(), now);
                Cell {
                    msg: status_word(run.status.as_str()),
                    tone: tone_of(selected, hovered, status_style(run.status.as_str())),
                }
            },
        }
    };
    DestRow {
        library: clip(printable(d.library_name.as_str(), 64).as_str(), LIBRARY_W),
        bold: selected || hovered,
        base: tone_of(selected, hovered, Tone::Plain),
        trigger: trigger_cell(d),
        retention,
        last,
        age,
        on: d.enabled,
        on_tone: tone_of(selected, box_hovered, if d.enabled { Tone::Fine } else { Tone::Dim }),
    }
}

/// How far the run in flight is, for its row.
pub fn active_percent(room: &Room) -> (pct: Option<u64>)
    ensures
        match room.status.active {
            Some(a) => match progress_pct(a) {
                Some(p) => pct is Some && pct->0 == p,
                None => pct is None,
            },
            None => pct is None,
        },
{
    match &room.status.active {
        Some(a) => percent(a),
        None => None,
    }
}

impl Room {
    /// The rows of the table that are in view: a cursor that moved since the
    /// last draw is followed, the wheel is left alone.
    pub fn rows_in_view(&mut self, room: usize) -> (out: (usize, usize))
        ensures
            (out.0 as int, out.1 as int) == window(
                old(self).dests@.len() as int,
                if old(self).sel != old(self).sel_anchor { old(self).sel } else { None },
                old(self).tscroll as int,
                room as int,
            ),
            *final(self) == (Room { sel_anchor: old(self).sel, tscroll: out.0, ..*old(self) }),
    {
        let moved = match (self.sel, self.sel_anchor) {
            (Some(a), Some(b)) => a != b,
            (None, None) => false,
            _ => true,
        };
        self.sel_anchor = self.sel;
        let reveal = if moved { self.sel } else { None };
        let (first, visible) = table_view(self.dests.len(), reveal, self.tscroll, room);
        self.tscroll = first;
        (first, visible)
    }
}

/// What the note's line says of a destination: where it is, its throttle, its
/// patterns, and how the last run went.
#[derive(Debug, PartialEq)]
pub struct DestStory {
    pub path: String,
    pub throttle: Option<Msg>,
    pub excludes: Msg,
    /// What went wrong with the last run, and why.
    pub wrong: Option<(Msg, String)>,
    /// What the last run did.
    pub did: Option<(Vec<Msg>, Option<String>)>,
}

/// A run that did not go well.
pub open spec fn went_wrong(status: Seq<char>) -> bool {
    status == "failed"@ || status == "partial"@
}

pub open spec fn is_dest_story(s: DestStory, d: BackupDestination, defaults: Seq<String>) -> bool {
    &&& s.path@ == d.dest_path@
    &&& s.throttle == (if d.inter_file_delay_ms > 0 {
        Some(one("bak.note_throttle", "ms", Arg::Nat(d.inter_file_delay_ms as u64)))
    } else {
        None
    })
    &&& s.excludes == (if texts(d.exclude_globs@) == texts(defaults) {
        Msg::Key("bak.note_default_excludes")
    } else if d.exclude_globs@.len() == 0 {
        Msg::Key("bak.note_no_excludes")
    } else {
        one("bak.note_patterns", "n", Arg::Nat(d.exclude_globs@.len() as u64))
    })
    &&& match d.last_run {
        Some(run) => if went_wrong(run.status@) {
            &&& s.wrong matches Some(w)
            &&& is_status_word(w.0, run.status@)
            &&& w.1@ == printed(text_or_none(run.error_message), 200)
            &&& s.did is None
        } else {
            &&& s.wrong is None
            &&& s.did matches Some(did)
            &&& did.0@ == summary(run)
            &&& is_text(did.1, if run.bytes_copied > 0 { Some(bytes_text(run.bytes_copied as nat)) } else { None })
        },
        None => s.wrong is None && s.did is None,
    }
}

pub fn dest_story(d: &BackupDestination, defaults: &Vec<String>) -> (s: DestStory)
    ensures
        is_dest_story(s, *d, defaults@),
{
    let throttle = if d.inter_file_delay_ms > 0 {
        Some(Msg::One("bak.note_throttle", Fill { name: "ms", arg: Arg::Nat(d.inter_file_delay_ms as u64) }))
    } else {
        None
    };
    let n: usize = d.exclude_globs.len();
    let excludes = if same_texts(&d.exclude_globs, defaults) {
        Msg::Key("bak.note_default_excludes")
    } else if n == 0 {
        Msg::Key("bak.note_no_excludes")
    } else {
        Msg::One("bak.note_patterns", Fill { name: "n", arg: Arg::Nat(n as u64) })
    };
    let mut wrong: Option<(Msg, String)> = None;
    let mut did: Option<(Vec<Msg>, Option<String>)> = None;
    if let Some(run) = &d.last_run {
        if same(run.status.as_str(), "failed") || same(run.status.as_str(), "partial") {
            let why = copy_or_none(&run.error_message);
            wrong = Some((status_word(run.status.as_str()), printable(why.as_str(), 200)));
        } else {
            did = Some(run_summary(run));
        }
    }
    DestStory { path: d.dest_path.clone(), throttle, excludes, wrong, did }
}

// ── The form ─────────────────────────────────────────────────────────────

/// How wide the library's choices may be.
pub const CHOICES_W: u16 = 60;

/// The rows that the library's line takes: one while editing, else as many as
/// its choices wrap to.
pub open spec fn library_rows(editing: bool, names: Seq<u16>) -> int {
    if editing { 1 } else { rows_taken(names, CHOICES_W as int) }
}

/// Which row of the form each part stands on, counted from the first inside
/// the frame.
#[derive(Clone, Copy, Debug, PartialEq, Eq, Structural)]
pub struct FormRows {
    /// The whole, frame and all.
    pub height: u64,
    pub library: u64,
    /// The three triggers.
    pub trigger: u64,
    /// The destination's field, four rows, and the server's verdict, two.
    pub dest: u64,
    pub verdict: u64,
    /// The numbers' fields, four rows, and the hints under them.
    pub numbers: u64,
    pub hints: u64,
    /// The patterns' field, four rows.
    pub excludes: u64,
    pub buttons: u64,
}

pub open spec fn form_places(rows: int) -> FormRows {
    FormRows {
        height: (25 + rows) as u64,
        library: 2,
        trigger: (3 + rows) as u64,
        dest: (7 + rows) as u64,
        verdict: (11 + rows) as u64,
        numbers: (13 + rows) as u64,
        hints: (17 + rows) as u64,
        excludes: (18 + rows) as u64,
        buttons: (22 + rows) as u64,
    }
}

pub fn form_layout(f: &Form, names: &Vec<u16>) -> (r: FormRows)
    requires
        names@.len() <= u32::MAX,
    ensures
        r == form_places(library_rows(f.editing is Some, names@)),
        library_rows(f.editing is Some, names@) <= u32::MAX + 1,
{
    let rows: u64 = if f.editing.is_some() || names.len() == 0 {
        1
    } else {
        let places = wrap_places(names, CHOICES_W);
        let last = places[places.len() - 1];
        proof {
            crate::layout::choices_wrap_within(names@, CHOICES_W as int, names@.len() - 1);
        }
        last.0 as u64 + 1
    };
    FormRows {
        height: 25 + rows,
        library: 2,
        trigger: 3 + rows,
        dest: 7 + rows,
        verdict: 11 + rows,
        numbers: 13 + rows,
        hints: 17 + rows,
        excludes: 18 + rows,
        buttons: 22 + rows,
    }
}

/// No part of the form stands on another's rows, and the buttons stand on the
/// last row inside the frame.
pub proof fn the_form_has_room(rows: int)
    requires
        1 <= rows <= u32::MAX,
    ensures
        ({
            let r = form_places(rows);
            &&& r.library + rows < r.trigger
            &&& r.trigger + 3 < r.dest
            &&& r.dest + 4 <= r.verdict
            &&& r.verdict + 2 <= r.numbers
            &&& r.numbers + 4 <= r.hints
            &&& r.hints < r.excludes
            &&& r.excludes + 4 <= r.buttons
            &&& r.buttons == r.height - 3
        }),
{
}

/// The title of the form.
pub open spec fn is_form_title(msg: Msg, f: Form) -> bool {
    if f.editing is Some {
        &&& msg matches Msg::Two(key, library, path)
        &&& key == "bak.edit_title"
        &&& filled(library, "library", f.library_name@)
        &&& filled(
            path,
            "path",
            match f.original {
                Some(d) => d.dest_path@,
                None => Seq::empty(),
            },
        )
    } else {
        msg == Msg::Key("bak.add_title")
    }
}

pub fn form_title(f: &Form) -> (msg: Msg)
    ensures
        is_form_title(msg, *f),
{
    if f.editing.is_none() {
        return Msg::Key("bak.add_title");
    }
    let path = match &f.original {
        Some(d) => d.dest_path.clone(),
        None => {
            let none = String::new();
            proof {
                assert(none@ =~= Seq::<char>::empty());
            }
            none
        },
    };
    Msg::Two(
        "bak.edit_title",
        Fill { name: "library", arg: Arg::Text(f.library_name.clone()) },
        Fill { name: "path", arg: Arg::Text(path) },
    )
}

/// What the server makes of the destination.
#[derive(Debug, PartialEq)]
pub enum Verdict {
    /// There is nothing to ask about.
    Silent,
    /// The answer is on its way.
    Checking,
    Wrong(String),
    /// A warning, and how many more there are.
    Warned(String, usize),
    Good,
}

pub open spec fn is_verdict(v: Verdict, f: Form) -> bool {
    if f.path().len() == 0 {
        v is Silent
    } else if f.checked_for@ != f.path() || f.check is None {
        v is Checking
    } else {
        let c = f.check->0;
        if c.errors@.len() > 0 {
            v matches Verdict::Wrong(s) && s@ == printed(c.errors@[0]@, 200)
        } else if c.warnings@.len() > 0 {
            v matches Verdict::Warned(s, more) && s@ == printed(c.warnings@[0]@, 200) && more == c.warnings@.len() - 1
        } else {
            v is Good
        }
    }
}

/// The line under the destination: only the answer for what is typed counts.
pub fn verdict(f: &Form) -> (v: Verdict)
    ensures
        is_verdict(v, *f),
{
    let typed = trim(f.dest.value());
    if typed.as_str().is_empty() {
        return Verdict::Silent;
    }
    if !same(f.checked_for.as_str(), typed.as_str()) {
        return Verdict::Checking;
    }
    match &f.check {
        None => Verdict::Checking,
        Some(c) => {
            if c.errors.len() > 0 {
                Verdict::Wrong(printable(c.errors[0].as_str(), 200))
            } else if c.warnings.len() > 0 {
                Verdict::Warned(printable(c.warnings[0].as_str(), 200), c.warnings.len() - 1)
            } else {
                Verdict::Good
            }
        },
    }
}

/// The place of a field in the order of the fields, or the first.
pub open spec fn place_of_field(f: Form, field: Field) -> int {
    match place_of(f.field_list(), field) {
        Some(i) => i,
        None => 0,
    }
}

/// The place that a click on a field takes the focus to.
pub fn index_of(f: &Form, field: Field) -> (i: usize)
    ensures
        i == place_of_field(*f, field),
{
    let fields = f.fields();
    let mut i: usize = 0;
    while i < fields.len()
        invariant
            i <= fields@.len(),
            fields@ == f.field_list(),
            forall|k: int| 0 <= k < i ==> #[trigger] fields@[k] != field,
        decreases fields@.len() - i,
    {
        if fields[i] == field {
            proof {
                first_place(fields@, field, i as int);
            }
            return i;
        }
        i = i + 1;
    }
    proof {
        first_place(fields@, field, i as int);
    }
    0
}

/// A field of the numbers' row.
#[derive(Clone, Copy, Debug, PartialEq)]
pub struct NumberField {
    pub field: Field,
    pub label: &'static str,
    pub hint: &'static str,
    pub x: u16,
    /// How wide the field is, and its label.
    pub width: u16,
    pub label_width: u16,
    /// Whether it cannot be typed into as things are.
    pub muted: bool,
}

pub open spec fn number_field(field: Field, label: &'static str, hint: &'static str, muted: bool, x: int, width: int, i: int) -> NumberField {
    let rest = left_of(width, i * 21);
    NumberField {
        field,
        label,
        hint,
        x: further(x, i * 21) as u16,
        width: (if rest < 12 { rest } else { 12 }) as u16,
        label_width: (if rest < 20 { rest } else { 20 }) as u16,
        muted,
    }
}

/// The numbers: retention, throttle, and the hour, which only a daily trigger
/// has.
pub open spec fn number_row(trigger: Trigger, x: int, width: int) -> Seq<NumberField> {
    seq![
        number_field(Field::Retention, "bak.field_retention", "bak.hint_retention", false, x, width, 0),
        number_field(Field::Throttle, "bak.field_throttle", "bak.hint_throttle", false, x, width, 1),
        number_field(Field::Hour, "bak.field_hour", "bak.hint_hour", trigger != Trigger::Daily, x, width, 2),
    ]
}

fn placed_number(field: Field, label: &'static str, hint: &'static str, muted: bool, x: u16, width: u16, i: u16) -> (n: NumberField)
    requires
        i < 3,
    ensures
        n == number_field(field, label, hint, muted, x as int, width as int, i as int),
{
    let rest: u16 = width.saturating_sub(i * 21);
    NumberField {
        field,
        label,
        hint,
        x: x.saturating_add(i * 21),
        width: if rest < 12 { rest } else { 12 },
        label_width: if rest < 20 { rest } else { 20 },
        muted,
    }
}

pub fn number_fields(trigger: Trigger, x: u16, width: u16) -> (out: Vec<NumberField>)
    ensures
        out@ == number_row(trigger, x as int, width as int),
{
    let muted = match trigger {
        Trigger::Daily => false,
        _ => true,
    };
    let mut out: Vec<NumberField> = Vec::new();
    out.push(placed_number(Field::Retention, "bak.field_retention", "bak.hint_retention", false, x, width, 0));
    out.push(placed_number(Field::Throttle, "bak.field_throttle", "bak.hint_throttle", false, x, width, 1));
    out.push(placed_number(Field::Hour, "bak.field_hour", "bak.hint_hour", muted, x, width, 2));
    proof {
        assert(out@ =~= number_row(trigger, x as int, width as int));
    }
    out
}

/// The mark of a choice: under the cursor, chosen, or neither.
pub fn choice_tone(on: bool, focused: bool) -> (t: Tone)
    ensures
        t == (if on && focused {
            Tone::Selected
        } else if on {
            Tone::Accent
        } else {
            Tone::Dim
        }),
{
    if on && focused {
        Tone::Selected
    } else if on {
        Tone::Accent
    } else {
        Tone::Dim
    }
}

// ── The browser and the history ──────────────────────────────────────────

/// The rows of a list that follows its cursor down: the first in view, and how
/// many are.
pub open spec fn trailing(len: int, sel: int, room: int) -> (int, int) {
    let first = left_of(sel, left_of(room, 1));
    (first, if len - first < room { left_of(len, first) } else { room })
}

/// The folders of the browser in view.
pub fn folders_in_view(len: usize, sel: usize, inner_height: u16) -> (out: (usize, usize))
    ensures
        (out.0 as int, out.1 as int) == trailing(len as int, sel as int, left_of(inner_height as int, 5)),
{
    let room: usize = inner_height.saturating_sub(5) as usize;
    let back: usize = if room > 1 { room - 1 } else { 0 };
    let first: usize = if sel > back { sel - back } else { 0 };
    let rest: usize = if len > first { len - first } else { 0 };
    (first, if rest < room { rest } else { room })
}

/// The runs of the history in view: eight at most, the one under the cursor
/// among them.
pub open spec fn runs_window(len: int, sel: int) -> (int, int) {
    let visible = if len < 8 { len } else { 8 };
    let first = left_of(sel, left_of(visible, 1));
    (if first < len - visible { first } else { len - visible }, visible)
}

pub fn runs_in_view(len: usize, sel: usize) -> (out: (usize, usize))
    ensures
        (out.0 as int, out.1 as int) == runs_window(len as int, sel as int),
{
    let visible: usize = if len < 8 { len } else { 8 };
    let back: usize = if visible > 1 { visible - 1 } else { 0 };
    let first: usize = if sel > back { sel - back } else { 0 };
    let last: usize = len - visible;
    (if first < last { first } else { last }, visible)
}

/// The row under the cursor is in view, of the folders and of the runs, and
/// every row in view is a row of its list.
pub proof fn the_cursor_is_in_view(len: int, sel: int, room: int)
    requires
        0 <= sel < len,
        0 < room,
    ensures
        ({
            let (first, n) = trailing(len, sel, room);
            first <= sel < first + n && first + n <= len && n <= room
        }),
        ({
            let (first, n) = runs_window(len, sel);
            0 <= first <= sel < first + n && first + n <= len && n <= 8
        }),
{
}

/// The columns of the history.
#[derive(Clone, Copy, Debug, PartialEq, Eq, Structural)]
pub struct RunColumns {
    pub started: u16,
    pub status: u16,
    pub trigger: u16,
    pub copied: u16,
    pub unchanged: u16,
    pub trashed: u16,
    pub bytes: u16,
}

pub const RUN_STARTED_W: u16 = 9;

pub const RUN_STATUS_W: u16 = 8;

pub const RUN_TRIGGER_W: u16 = 15;

pub const RUN_COUNT_W: u16 = 9;

pub const RUN_BYTES_W: u16 = 9;

pub fn run_columns(x: u16) -> (out: RunColumns)
    ensures
        out.started == x,
        out.status == further(x as int, RUN_STARTED_W + 2),
        out.trigger == further(out.status as int, RUN_STATUS_W + 2),
        out.copied == further(out.trigger as int, RUN_TRIGGER_W + 2),
        out.unchanged == further(out.copied as int, RUN_COUNT_W + 2),
        out.trashed == further(out.unchanged as int, RUN_COUNT_W + 2),
        out.bytes == further(out.trashed as int, RUN_COUNT_W + 2),
{
    let status: u16 = x.saturating_add(RUN_STARTED_W + 2);
    let trigger: u16 = status.saturating_add(RUN_STATUS_W + 2);
    let copied: u16 = trigger.saturating_add(RUN_TRIGGER_W + 2);
    let unchanged: u16 = copied.saturating_add(RUN_COUNT_W + 2);
    let trashed: u16 = unchanged.saturating_add(RUN_COUNT_W + 2);
    RunColumns { started: x, status, trigger, copied, unchanged, trashed, bytes: trashed.saturating_add(RUN_COUNT_W + 2) }
}

/// A row of the history.
#[derive(Debug, PartialEq)]
pub struct RunRow {
    pub started: Option<Msg>,
    pub status: Cell,
    pub trigger: Msg,
    pub copied: String,
    pub unchanged: String,
    pub trashed: String,
    pub bytes: Cell,
}

pub open spec fn is_run_row(row: RunRow, run: BackupRun, now: i64, selected: bool) -> bool {
    &&& row.started == ago(run.started_at@, now)
    &&& is_status_word(row.status.msg, run.status@)
    &&& row.status.tone == (if selected { Tone::Selected } else { status_tone(run.status@) })
    &&& is_trigger_words(row.trigger, text_or_none(run.trigger_reason))
    &&& row.copied@ == grouped(run.files_copied as nat)
    &&& row.unchanged@ == grouped(run.files_unchanged as nat)
    &&& row.trashed@ == grouped(run.files_trashed as nat)
    &&& if run.bytes_copied > 0 {
        reads(row.bytes.msg, bytes_text(run.bytes_copied as nat)) && row.bytes.tone == (if selected {
            Tone::Selected
        } else {
            Tone::Plain
        })
    } else {
        reads(row.bytes.msg, "—"@) && row.bytes.tone == (if selected { Tone::Selected } else { Tone::Dim })
    }
}

pub fn run_row(run: &BackupRun, now: i64, selected: bool) -> (row: RunRow)
    ensures
        is_run_row(row, *run, now, selected),
{
    let reason = copy_or_none(&run.trigger_reason);
    let bytes = if run.bytes_copied > 0 {
        Cell {
            msg: Msg::Raw(fmt_bytes(run.bytes_copied)),
            tone: if selected { Tone::Selected } else { Tone::Plain },
        }
    } else {
        Cell { msg: dash(), tone: if selected { Tone::Selected } else { Tone::Dim } }
    };
    RunRow {
        started: ago_words(run.started_at.as_str(), now),
        status: Cell {
            msg: status_word(run.status.as_str()),
            tone: if selected { Tone::Selected } else { status_style(run.status.as_str()) },
        },
        trigger: trigger_words(reason.as_str()),
        copied: fmt_count(run.files_copied),
        unchanged: fmt_count(run.files_unchanged),
        trashed: fmt_count(run.files_trashed),
        bytes,
    }
}

/// How long a run took; nothing where its ends are not known, or turned
/// round.
pub open spec fn took(run: BackupRun) -> Seq<char> {
    match run.finished_at {
        Some(f) => if is_timestamp(run.started_at@) && is_timestamp(f@) && timestamp_value(f@) >= timestamp_value(
            run.started_at@,
        ) {
            elapsed(timestamp_value(f@) - timestamp_value(run.started_at@))
        } else {
            Seq::empty()
        },
        None => Seq::empty(),
    }
}

/// How long a run took, in words.
pub fn run_time(run: &BackupRun) -> (out: String)
    ensures
        out@ == took(*run),
{
    if let Some(f) = &run.finished_at {
        if let (Some(a), Some(b)) = (iso_unix(run.started_at.as_str()), iso_unix(f.as_str())) {
            if b >= a {
                return elapsed_since(b, a);
            }
        }
    }
    let none = String::new();
    proof {
        assert(none@ =~= Seq::<char>::empty());
    }
    none
}

/// What went wrong with a run, in the server's words, gated for the screen;
/// nothing where it says nothing.
pub fn run_message(run: &BackupRun) -> (out: Option<String>)
    ensures
        is_text(
            out,
            match run.error_message {
                Some(m) => if trimmed(m@).len() > 0 { Some(printed(m@, 400)) } else { None },
                None => None,
            },
        ),
{
    match &run.error_message {
        Some(m) => {
            if trim(m.as_str()).as_str().is_empty() {
                None
            } else {
                Some(printable(m.as_str(), 400))
            }
        },
        None => None,
    }
}

// ── The warning ──────────────────────────────────────────────────────────

/// The title of the warning that takes a destination away: its library and path,
/// where it is still there.
pub fn remove_title(room: &Room, id: i64) -> (msg: Msg)
    ensures
        msg matches Msg::Two(key, library, path) && key == "bak.remove_title" && match room.dest_of(id) {
            Some(d) => filled(library, "library", printed(d.library_name@, 64)) && filled(path, "path", d.dest_path@),
            None => filled(library, "library", Seq::empty()) && filled(path, "path", Seq::empty()),
        },
{
    let (library, path) = match room.dest(id) {
        Some(d) => (printable(d.library_name.as_str(), 64), d.dest_path.clone()),
        None => {
            let none = String::new();
            proof {
                assert(none@ =~= Seq::<char>::empty());
            }
            (none.clone(), none)
        },
    };
    Msg::Two("bak.remove_title", Fill { name: "library", arg: Arg::Text(library) }, Fill { name: "path", arg: Arg::Text(path) })
}

// ── The fixed words ──────────────────────────────────────────────────────

/// The heads of the table's columns.
pub open spec fn column_keys() -> Seq<&'static str> {
    seq![
        "bak.col_library",
        "bak.col_destination",
        "bak.col_trigger",
        "bak.col_retention",
        "bak.col_last_run",
        "bak.col_on",
    ]
}

/// What the room says whatever is in it: its title and, once it is loaded, the
/// card that adds, the columns, and that there is nothing where there is
/// nothing.
pub open spec fn page_keys(room: Room) -> Seq<&'static str> {
    seq!["bak.title", "bak.beta"] + (if room.loaded {
        seq!["bak.add_card"] + column_keys() + (if room.dests@.len() == 0 { seq!["bak.empty"] } else { Seq::empty() })
    } else {
        Seq::empty()
    })
}

pub fn page_words(room: &Room) -> (out: Vec<&'static str>)
    ensures
        out@ == page_keys(*room),
{
    let mut out: Vec<&'static str> = vec!["bak.title", "bak.beta"];
    if room.loaded {
        out.push("bak.add_card");
        out.push("bak.col_library");
        out.push("bak.col_destination");
        out.push("bak.col_trigger");
        out.push("bak.col_retention");
        out.push("bak.col_last_run");
        out.push("bak.col_on");
        if room.dests.len() == 0 {
            out.push("bak.empty");
        }
    }
    proof {
        assert(out@ =~= page_keys(*room));
    }
    out
}

/// What the form says beside its fields.
pub open spec fn form_keys(f: Form, libraries: nat) -> Seq<&'static str> {
    let none = Seq::<&'static str>::empty();
    seq!["bak.field_library"] + (if f.editing is Some {
        seq!["bak.library_fixed"]
    } else if libraries == 0 {
        seq!["bak.no_libraries"]
    } else {
        none
    }) + seq!["bak.field_trigger", "bak.field_dest", "bak.browse_button", "bak.field_excludes"] + (if f.editing is Some {
        seq!["bak.reset_patterns", "bak.save"]
    } else {
        seq!["bak.add_submit"]
    })
}

/// What the history says beside its runs.
pub open spec fn history_keys(loaded: bool, runs: nat) -> Seq<&'static str> {
    if !loaded {
        Seq::empty()
    } else if runs == 0 {
        seq!["bak.history_empty"]
    } else {
        seq![
            "bak.hcol_started",
            "bak.hcol_status",
            "bak.hcol_trigger",
            "bak.hcol_copied",
            "bak.hcol_unchanged",
            "bak.hcol_trashed",
            "bak.hcol_bytes",
        ]
    }
}

/// What the open card says, top to bottom, beside what it lists.
pub open spec fn card_keys(room: Room) -> Seq<&'static str> {
    match room.modal {
        Modal::Closed => Seq::empty(),
        Modal::Form(f) => form_keys(*f, room.libraries@.len()),
        Modal::Browser { browse, form } => seq!["bak.browser_title"] + (if browse.dirs@.len() == 0 {
            seq!["browse.empty"]
        } else {
            Seq::empty()
        }) + seq!["browse.up", "browse.open", "bak.browse_use", "browse.close"],
        Modal::History { dest, runs, loaded, sel } => history_keys(loaded, runs@.len()),
        Modal::Remove(_) => seq!["bak.remove_1", "bak.remove_2", "bak.remove_keep", "bak.remove_confirm"],
    }
}

fn form_words(f: &Form, libraries: usize) -> (out: Vec<&'static str>)
    ensures
        out@ == form_keys(*f, libraries as nat),
{
    let mut out: Vec<&'static str> = vec!["bak.field_library"];
    if f.editing.is_some() {
        out.push("bak.library_fixed");
    } else if libraries == 0 {
        out.push("bak.no_libraries");
    }
    out.push("bak.field_trigger");
    out.push("bak.field_dest");
    out.push("bak.browse_button");
    out.push("bak.field_excludes");
    if f.editing.is_some() {
        out.push("bak.reset_patterns");
        out.push("bak.save");
    } else {
        out.push("bak.add_submit");
    }
    proof {
        assert(out@ =~= form_keys(*f, libraries as nat));
    }
    out
}

pub fn card_words(room: &Room) -> (out: Vec<&'static str>)
    ensures
        out@ == card_keys(*room),
{
    let out: Vec<&'static str> = match &room.modal {
        Modal::Closed => Vec::new(),
        Modal::Form(f) => form_words(f, room.libraries.len()),
        Modal::Browser { browse, form } => {
            if browse.dirs.len() == 0 {
                vec!["bak.browser_title", "browse.empty", "browse.up", "browse.open", "bak.browse_use", "browse.close"]
            } else {
                vec!["bak.browser_title", "browse.up", "browse.open", "bak.browse_use", "browse.close"]
            }
        },
        Modal::History { dest, runs, loaded, sel } => {
            if !*loaded {
                Vec::new()
            } else if runs.len() == 0 {
                vec!["bak.history_empty"]
            } else {
                vec![
                    "bak.hcol_started",
                    "bak.hcol_status",
                    "bak.hcol_trigger",
                    "bak.hcol_copied",
                    "bak.hcol_unchanged",
                    "bak.hcol_trashed",
                    "bak.hcol_bytes",
                ]
            }
        },
        Modal::Remove(_) => vec!["bak.remove_1", "bak.remove_2", "bak.remove_keep", "bak.remove_confirm"],
    };
    proof {
        assert(out@ =~= card_keys(*room));
    }
    out
}

/// The title of the history: whose runs they are.
pub fn history_title(dest: &BackupDestination) -> (msg: Msg)
    ensures
        msg matches Msg::Two(key, library, path) && key == "bak.history_title" && filled(
            library,
            "library",
            printed(dest.library_name@, 64),
        ) && filled(path, "path", dest.dest_path@),
{
    Msg::Two(
        "bak.history_title",
        Fill { name: "library", arg: Arg::Text(printable(dest.library_name.as_str(), 64)) },
        Fill { name: "path", arg: Arg::Text(dest.dest_path.clone()) },
    )
}

} // verus!
