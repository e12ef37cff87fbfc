//! The backups room.

use mstream_admin::backups::{handle_key, Act, ActiveBackup, BackupDestination, BackupPatch, BackupRun, BackupStatus, Did, Done, Field, Form, Loaded, Modal, NewBackupDestination, Numbers, Op, PathCheck, Pick, Room, RunAnswer, Trigger};
use mstream_admin::backups_view::{active_percent, card_words, dest_columns, dest_row, dest_story, folders_in_view, footer_hint, form_layout, form_title, history_title, index_of, number_fields, page_words, progress_line, remove_title, run_columns, run_message, run_row, run_summary, run_time, runs_in_view, state_line, status_style, status_word, trigger_cell, trigger_words, verdict, Verdict, CHOICES_W, LAST_W, LIBRARY_W, ON_W, RUN_COUNT_W};
use mstream_admin::clock::{elapsed_text, iso_at};
use mstream_admin::hub::room_column;
use mstream_admin::layout::{strung_kept, wrap_places, Rect, Tone};
use mstream_admin::line::{Code, Key};
use mstream_admin::msg::{ApiError, Arg, Fill, Msg};
use mstream_admin::paths::DirListing;
use mstream_admin::screen::Outcome;
use mstream_admin::text::{clip, clip_tail, fmt_bytes, fmt_count};
use tui_input::Input;

fn phrase(key: &str) -> &'static str {
    match key {
        "bak.title" => "Backups",
        "bak.beta" => "beta",
        "bak.beta_note" => "beta — the configuration may change in a future release",
        "bak.state_idle" => "• idle",
        "bak.state_idle_detail" => " — nothing running · %{on} of %{total} destinations on · trash swept hourly",
        "bak.state_running" => "• running",
        "bak.state_running_detail" => " — %{library} → %{path} · %{trigger} · %{elapsed}",
        "bak.state_queued" => "• %{n} tasks queued",
        "bak.state_queued_one" => "• 1 task queued",
        "bak.state_queued_detail" => " — waiting for the active scan or backup to finish",
        "bak.polls_2" => "polls every 2 s",
        "bak.polls_5" => "polls every 5 s",
        "bak.progress_pct" => " %{pct}% · %{done} of %{expected}",
        "bak.progress_no_estimate" => " first run — no estimate yet",
        "bak.progress_written" => "%{bytes} written",
        "bak.progress_no_bytes" => "no bytes written yet",
        "bak.sum_copied" => "%{n} copied",
        "bak.sum_unchanged" => "%{n} unchanged",
        "bak.sum_trashed" => "%{n} trashed",
        "bak.sum_no_changes" => "no changes",
        "bak.add_card" => "Add a backup destination",
        "bak.col_library" => "LIBRARY",
        "bak.col_destination" => "DESTINATION",
        "bak.col_trigger" => "TRIGGER",
        "bak.col_retention" => "RETENTION",
        "bak.col_last_run" => "LAST RUN",
        "bak.col_on" => "ON",
        "bak.empty" => "(no destinations yet — a adds one)",
        "bak.hint_empty" => "a add a destination · Esc back",
        "bak.hint_rows" => "↑↓ rows · a add a destination · Esc back",
        "bak.hint_selected" => "↑↓ rows · Enter history · n run now · e edit · s on/off · r remove · Esc deselect",
        "bak.hint_add" => "Tab next field · ←→ or Space choose · ^B browse · Enter add · Esc cancel",
        "bak.hint_edit" => "Tab next field · Enter save · Esc cancel",
        "bak.hint_history" => "↑↓ runs · Esc close",
        "bak.hint_remove" => "y remove · Esc keep",
        "bak.hint_browser" => "Enter open · a use · Esc close",
        "bak.trig_after_scan" => "after each scan",
        "bak.trig_daily" => "daily",
        "bak.trig_daily_word" => "daily",
        "bak.trig_daily_at" => "daily at %{hour}:00",
        "bak.trig_manual" => "manual only",
        "bak.trig_after_scan_desc" => "when the library finishes scanning",
        "bak.trig_daily_desc" => "once a day",
        "bak.trig_manual_desc" => "when you say so",
        "bak.days" => "%{n}d",
        "bak.no_trash" => "no trash",
        "bak.never" => "never",
        "bak.running" => "running…",
        "bak.running_pct" => "running… %{pct}%",
        "bak.st_success" => "success",
        "bak.st_failed" => "failed",
        "bak.st_partial" => "partial",
        "bak.st_skipped" => "skipped",
        "bak.st_running" => "running",
        "bak.note_throttle" => "%{ms} ms/file",
        "bak.note_default_excludes" => "default excludes",
        "bak.note_no_excludes" => "no excludes",
        "bak.note_patterns" => "%{n} patterns",
        "bak.add_title" => "Add a backup destination",
        "bak.edit_title" => "Edit — %{library} → %{path}",
        "bak.field_library" => "LIBRARY",
        "bak.library_fixed" => "  — fixed: remove and re-add to retarget",
        "bak.field_trigger" => "TRIGGER",
        "bak.field_dest" => "DESTINATION · another drive, not inside the library",
        "bak.browse_button" => "^B browse",
        "bak.field_retention" => "RETENTION DAYS",
        "bak.field_throttle" => "THROTTLE MS/FILE",
        "bak.field_hour" => "HOUR (0–23)",
        "bak.hint_retention" => "0 keeps no trash",
        "bak.hint_throttle" => "0 runs at full speed",
        "bak.hint_hour" => "the server's clock",
        "bak.field_excludes" => "EXCLUDE PATTERNS",
        "bak.reset_patterns" => "^P reset patterns to the defaults",
        "bak.save" => "Save ▸",
        "bak.add_submit" => "Add ▸",
        "bak.browser_title" => "Choose the destination folder",
        "bak.browse_use" => "Use this folder ▸",
        "browse.up" => "Up",
        "browse.open" => "Open",
        "browse.close" => "Close",
        "browse.empty" => "(no folders here)",
        "bak.history_title" => "History — %{library} → %{path}",
        "bak.hcol_started" => "STARTED",
        "bak.hcol_status" => "STATUS",
        "bak.hcol_trigger" => "TRIGGER",
        "bak.hcol_copied" => "COPIED",
        "bak.hcol_unchanged" => "UNCHANGED",
        "bak.hcol_trashed" => "TRASHED",
        "bak.hcol_bytes" => "BYTES",
        "bak.remove_title" => "Remove %{library} → %{path}?",
        "bak.remove_1" => "The copies on disk are NOT deleted.",
        "bak.remove_2" => "The schedule and its history go.",
        "bak.remove_keep" => "◂ Keep it",
        "bak.remove_confirm" => "Remove",
        "bak.done_added" => "destination added",
        "bak.done_saved" => "saved",
        "bak.done_removed" => "removed — the files on disk stay",
        "bak.run_disabled" => "this destination is off — s turns it on",
        "bak.run_skipped" => "skipped — the previous run is still in progress",
        "bak.run_started" => "backup started",
        "bak.done_on" => "destination on",
        "bak.done_off" => "destination off",
        "bak.fail_add" => "could not add the destination",
        "bak.fail_save" => "could not save",
        "bak.fail_remove" => "could not remove",
        "bak.fail_run" => "could not start the backup",
        "bak.fail_toggle" => "could not switch the destination",
        "bak.fail_history" => "could not load the history",
        "bak.load_failed" => "could not load the backups",
        "bak.err_throttle" => "the throttle takes a whole number of milliseconds, up to 60000",
        "bak.err_hour" => "the hour is 0 to 23",
        "bak.err_retention" => "the retention takes a whole number of days",
        "bak.err_dest" => "pick a destination",
        "bak.err_globs" => "at most %{max} patterns",
        "note.worker_gone" => "the worker is gone",
        "p2p.age_now" => "now",
        "p2p.age_m" => "%{n}m",
        "p2p.age_h" => "%{n}h",
        "p2p.age_d" => "%{n}d",
        "bak.busy_adding" => "adding…",
        "bak.busy_history" => "loading the history…",
        "bak.busy_loading" => "loading the backups…",
        "bak.busy_removing" => "removing…",
        "bak.busy_run" => "starting the backup…",
        "bak.busy_saving" => "saving…",
        "bak.no_libraries" => "no libraries yet",
        "bak.history_empty" => "(no runs yet)",
        "bak.hint_loading" => "Esc back",
        "note.browse_failed" => "could not browse: %{err}",
        "note.no_picker" => "no folder dialog here: %{why}",
        "busy.listing" => "listing…",
        _ => panic!("no phrase for {key}"),
    }
}

fn error_words(e: &ApiError) -> String {
    match e {
        ApiError::Unauthorized => "unauthorized".to_string(),
        ApiError::Forbidden(m) | ApiError::NotFound(m) | ApiError::Network(m) => m.clone(),
        ApiError::Server { status, message } => format!("{status} {message}"),
        ApiError::Decode { endpoint, message } => format!("{endpoint}: {message}"),
    }
}

fn arg_words(a: &Arg) -> String {
    match a {
        Arg::Text(s) => s.clone(),
        Arg::Num(n) => n.to_string(),
        Arg::Nat(n) => n.to_string(),
        Arg::Count(n) => fmt_count(*n),
        Arg::TwoDigits(n) => format!("{n:02}"),
        Arg::Bytes(n) => fmt_bytes(*n),
        Arg::Ratio(a, b) => {
            let s = format!("{:.1}", *a as f64 / *b as f64);
            s.strip_suffix(".0").map(str::to_string).unwrap_or(s)
        }
        Arg::Phrase(m) => words(m),
    }
}

fn filled(key: &str, fills: &[&Fill]) -> String {
    let mut out = phrase(key).to_string();
    for f in fills {
        out = out.replace(&format!("%{{{}}}", f.name), &arg_words(&f.arg));
    }
    out
}

fn words(m: &Msg) -> String {
    match m {
        Msg::Raw(s) => s.clone(),
        Msg::Key(k) => phrase(k).to_string(),
        Msg::One(k, a) => filled(k, &[a]),
        Msg::Two(k, a, b) => filled(k, &[a, b]),
        Msg::Three(k, a, b, c) => filled(k, &[a, b, c]),
        Msg::Four(k, a, b, c, d) => filled(k, &[a, b, c, d]),
        Msg::Five(k, a, b, c, d, e) => filled(k, &[a, b, c, d, e]),
        Msg::Listed(k, i) => phrase(k).split(" · ").nth(*i as usize).unwrap_or("").to_string(),
        Msg::Failed(k, e) => format!("{}: {}", phrase(k), error_words(e)),
        Msg::FailedOn(k, f, e) => format!("{}: {}", filled(k, &[f]), error_words(e)),
        Msg::Both(a, b) => format!("{}{}", words(a), words(b)),
    }
}

fn key(code: Code) -> Key {
    Key { code, shift: false, ctrl: false, alt: false, sup: false, hyper: false, meta: false }
}

/// A screen of cells.
struct Grid {
    cells: Vec<Vec<char>>,
}

impl Grid {
    fn new() -> Grid {
        Grid { cells: vec![vec![' '; 100]; 30] }
    }

    fn set(&mut self, x: usize, y: usize, c: char) {
        if y < self.cells.len() && x < self.cells[y].len() {
            self.cells[y][x] = c;
        }
    }

    fn put(&mut self, x: u16, y: u16, width: u16, text: &str) {
        for (i, c) in text.chars().take(width as usize).enumerate() {
            self.set(x as usize + i, y as usize, c);
        }
    }

    fn put_right(&mut self, x: u16, y: u16, width: u16, text: &str) {
        let n = text.chars().count().min(width as usize) as u16;
        self.put(x + width - n, y, n, text);
    }

    /// A card over the middle of the screen, cleared; its inside.
    fn card(&mut self, width: u16, height: u16) -> Rect {
        let (w, h) = (width.min(100), height.min(30));
        let (x, y) = ((100 - w) / 2, (30 - h) / 2);
        for j in y..y + h {
            for i in x..x + w {
                self.set(i as usize, j as usize, if i == x || i == x + w - 1 { '│' } else { ' ' });
            }
        }
        Rect { x: x + 1, y: y + 1, width: w - 2, height: h - 2 }
    }

    fn text(&self) -> String {
        let mut out = String::new();
        for row in &self.cells {
            out.extend(row.iter());
            out.push('\n');
        }
        out
    }
}

/// A text over several rows, broken at blanks.
fn wrap(text: &str, width: usize) -> Vec<String> {
    let mut rows: Vec<String> = vec![];
    for word in text.split(' ') {
        match rows.last_mut() {
            Some(r) if r.chars().count() + 1 + word.chars().count() <= width => {
                r.push(' ');
                r.push_str(word);
            }
            _ => rows.push(word.to_string()),
        }
    }
    rows
}

fn count(text: &str) -> u16 {
    text.chars().count() as u16
}

/// The tests' clock, in seconds from 1970.
const NOW: i64 = 1_790_000_000;

fn new_room() -> Room {
    Room::new(false)
}

/// SQLite's UTC form, as the rows carry it.
fn sqlite_at(t: i64) -> String {
    iso_at(t).replace('T', " ")[..19].to_string()
}

fn defaults() -> Vec<String> {
    ["Thumbs.db", "desktop.ini", ".DS_Store", "._*"].iter().map(|s| s.to_string()).collect()
}

fn run(status: &str, ago: i64, copied: u64, unchanged: u64, trashed: u64, bytes: u64, error: Option<&str>) -> BackupRun {
    BackupRun {
        id: 7,
        started_at: sqlite_at(NOW - ago),
        finished_at: Some(sqlite_at(NOW - ago + 134)),
        status: status.into(),
        trigger_reason: Some(if status == "failed" { "daily".into() } else { "after-scan".into() }),
        files_copied: copied,
        files_unchanged: unchanged,
        files_trashed: trashed,
        bytes_copied: bytes,
        error_message: error.map(str::to_string),
    }
}

fn dest(id: i64, library: &str, path: &str, trigger: &str, retention: u32, enabled: bool, last: Option<BackupRun>) -> BackupDestination {
    BackupDestination {
        id,
        library_id: id * 10,
        library_name: library.into(),
        dest_path: path.into(),
        trigger_type: trigger.into(),
        daily_at_hour: (trigger == "daily").then_some(3),
        retention_days: retention,
        enabled,
        inter_file_delay_ms: if id == 2 { 200 } else { 0 },
        exclude_globs: defaults(),
        last_run: last,
        created_at: sqlite_at(NOW - 30 * 86_400),
    }
}

const EACCES: &str = "EACCES: permission denied, mkdir '/Volumes/Backup/podcasts/.mstream-trash'";

fn dests() -> Vec<BackupDestination> {
    vec![
        dest(1, "music", "/Volumes/Backup/music", "after-scan", 30, true, Some(run("success", 2 * 3600, 812, 11_204, 3, 3_650_000_000, None))),
        dest(2, "podcasts", "/Volumes/Backup/podcasts", "daily", 30, true, Some(run("failed", 86_400, 0, 0, 0, 0, Some(EACCES)))),
        dest(3, "vinyl", "/mnt/usb/vinyl", "manual", 0, false, None),
    ]
}

fn no_status() -> BackupStatus {
    BackupStatus { active: None, queue_length: 0 }
}

fn loaded(dests: Vec<BackupDestination>, status: BackupStatus) -> Done {
    Done::Loaded(Ok(Loaded {
        dests,
        status,
        libraries: Some(vec![("music".into(), 10), ("podcasts".into(), 20), ("vinyl".into(), 30)]),
    }))
}

fn idle() -> Room {
    let mut room = new_room();
    room.apply(Done::Platform(Ok(defaults())));
    room.queued = None;
    room.busy = None;
    room.apply(loaded(dests(), no_status()));
    room
}

fn press(room: &mut Room, code: Code) -> Option<Outcome> {
    handle_key(room, key(code))
}

fn ctrl(room: &mut Room, c: char) -> Option<Outcome> {
    handle_key(room, Key { ctrl: true, ..key(Code::Char(c)) })
}

fn type_text(room: &mut Room, text: &str) {
    for c in text.chars() {
        press(room, Code::Char(c));
    }
}

fn note(room: &Room) -> String {
    room.note.as_ref().map(|n| words(&n.msg)).unwrap_or_default()
}

fn is_error(room: &Room) -> bool {
    room.note.as_ref().is_some_and(|n| n.error)
}

fn joined(parts: &[Msg], sep: &str) -> String {
    parts.iter().map(words).collect::<Vec<_>>().join(sep)
}

fn summary_words(run: &BackupRun) -> String {
    let (parts, bytes) = run_summary(run);
    let mut s = joined(&parts, ", ");
    if let Some(b) = bytes {
        s.push_str(&format!(" · {b}"));
    }
    s
}

fn draw_state(g: &mut Grid, room: &Room, column: Rect) {
    let s = state_line(room, NOW);
    let line = format!("{}{}", words(&s.word), words(&s.detail));
    g.put(column.x, column.y, column.width, &line);
    let polls = phrase(s.polls);
    if count(&line) + 2 + count(polls) <= column.width {
        g.put_right(column.x, column.y, column.width, polls);
    }
    if let Some(a) = &room.status.active {
        let p = progress_line(a);
        let mut line = format!("{}{}{}", "▰".repeat(p.filled), "▱".repeat(10 - p.filled), words(&p.words));
        let groups: Vec<String> = p.groups.iter().map(words).collect();
        let widths: Vec<u16> = groups.iter().map(|g| count(g)).collect();
        for group in &groups[..strung_kept(count(&line), &widths, column.width)] {
            line.push_str(" · ");
            line.push_str(group);
        }
        g.put(column.x, column.y + 1, column.width, &line);
    }
}

fn draw_table(g: &mut Grid, room: &mut Room, column: Rect) {
    let w = |k: &str| count(phrase(k));
    g.put(column.x + 30, column.y + 3, 40, phrase("bak.add_card"));
    let table = Rect { y: column.y + 6, height: column.height - 6, ..column };
    let triggers = vec![w("bak.col_trigger"), w("bak.trig_after_scan"), count("daily at 23:00"), w("bak.trig_manual")];
    let c = dest_columns(table, &triggers, &vec![w("bak.col_retention"), w("bak.no_trash")]);
    let places = [
        (table.x, LIBRARY_W),
        (c.dest, c.dest_width),
        (c.trigger, c.trigger_width),
        (c.retention, c.retention_width),
        (c.last, LAST_W),
        (c.on, ON_W),
    ];
    let heads = page_words(room);
    for ((x, width), k) in places.iter().zip(&heads[3..9]) {
        g.put(*x, table.y, *width, phrase(k));
    }
    if room.dests.is_empty() {
        g.put(table.x, table.y + 2, table.width, phrase(heads[9]));
        return;
    }
    let running = room.running_id();
    let pct = active_percent(room);
    let (first, visible) = room.rows_in_view(table.height as usize - 2);
    for (row, i) in (first..first + visible).enumerate() {
        let d = &room.dests[i];
        let y = table.y + 2 + row as u16;
        let r = dest_row(d, running == Some(d.id), pct, NOW, room.sel == Some(i), false, false);
        g.put(table.x, y, LIBRARY_W, &r.library);
        g.put(c.dest, y, c.dest_width, &clip_tail(&d.dest_path, c.dest_width));
        g.put(c.trigger, y, c.trigger_width, &clip(&words(&r.trigger), c.trigger_width));
        g.put(c.retention, y, c.retention_width, &words(&r.retention.msg));
        let mut last = words(&r.last.msg);
        if let Some(age) = &r.age {
            last.push_str(" · ");
            last.push_str(&words(age));
        }
        g.put(c.last, y, LAST_W, &clip(&last, LAST_W));
        g.put(c.on, y, ON_W, if r.on { "[✓]" } else { "[ ]" });
    }
    if room.note.is_none() && room.busy.is_none() {
        if let Some(d) = room.selected() {
            let s = dest_story(d, &room.defaults);
            let mut line = s.path.clone();
            if let Some(t) = &s.throttle {
                line.push_str(&format!(" · {}", words(t)));
            }
            line.push_str(&format!(" · {}", words(&s.excludes)));
            if let Some((status, why)) = &s.wrong {
                line.push_str(&format!(" · {}: {why}", words(status)));
            }
            if s.did.is_some() {
                line.push_str(&format!(" · {}", summary_words(d.last_run.as_ref().unwrap())));
            }
            g.put(column.x, column.y + column.height + 1, column.width, &line);
        }
    }
}

fn draw_form(g: &mut Grid, room: &Room, f: &Form) {
    let names: Vec<u16> = room.libraries.iter().map(|l| count(&l.0)).collect();
    let r = form_layout(f, &names);
    let inner = g.card(74, r.height as u16);
    let (x, w) = (inner.x + 1, inner.width - 2);
    let at = |row: u64| inner.y + row as u16;
    let fixed = card_words(room);
    g.put(x, inner.y, w, &words(&form_title(f)));
    g.put(x, at(r.library), 10, phrase("bak.field_library"));
    if f.editing.is_some() {
        g.put(x + 10, at(r.library), w - 10, &format!("{}{}", f.library_name, phrase(fixed[1])));
    } else {
        for (i, (row, dx)) in wrap_places(&names, CHOICES_W).iter().enumerate() {
            let mark = if i == f.library { "(•)" } else { "( )" };
            g.put(x + 10 + *dx as u16, at(r.library) + *row as u16, names[i] + 4, &format!("{mark} {}", room.libraries[i].0));
        }
    }
    for (i, t) in [Trigger::AfterScan, Trigger::Daily, Trigger::Manual].iter().enumerate() {
        let mark = if *t == f.trigger { "(•)" } else { "( )" };
        g.put(x + 10, at(r.trigger) + i as u16, w - 10, &format!("{mark} {} — {}", phrase(t.label()), phrase(t.description())));
    }
    g.put(x, at(r.dest), w, phrase("bak.field_dest"));
    g.put(x + w - 14, at(r.dest), 13, phrase("bak.browse_button"));
    g.put(x + 2, at(r.dest) + 2, w - 4, f.dest.value());
    let line = match verdict(f) {
        Verdict::Silent => String::new(),
        Verdict::Checking => "checking the path…".to_string(),
        Verdict::Wrong(s) => format!("− {s}"),
        Verdict::Warned(s, 0) => format!("− {s}"),
        Verdict::Warned(s, more) => format!("− {s} (+{more})"),
        Verdict::Good => "✓ the path is fine".to_string(),
    };
    for (i, row) in wrap(&line, w as usize).iter().take(2).enumerate() {
        g.put(x, at(r.verdict) + i as u16, w, row);
    }
    for n in number_fields(f.trigger, x, w) {
        g.put(n.x, at(r.numbers), n.label_width, phrase(n.label));
        g.put(n.x, at(r.hints), n.label_width, phrase(n.hint));
    }
    g.put(x, at(r.excludes), w, phrase("bak.field_excludes"));
    let buttons = if f.editing.is_some() { &fixed[fixed.len() - 2..] } else { &fixed[fixed.len() - 1..] };
    g.put(x, at(r.buttons), w, &buttons.iter().map(|k| phrase(k)).collect::<Vec<_>>().join("  "));
}

fn draw_history(g: &mut Grid, room: &Room, d: &BackupDestination, runs: &[BackupRun], sel: usize) {
    let inner = g.card(84, 21);
    let (x, w) = (inner.x + 1, inner.width - 2);
    g.put(x, inner.y, w, &words(&history_title(d)));
    let c = run_columns(x);
    let xs = [c.started, c.status, c.trigger, c.copied, c.unchanged, c.trashed, c.bytes];
    for (x, k) in xs.iter().zip(card_words(room)) {
        g.put(*x, inner.y + 2, 15, phrase(k));
    }
    let (first, visible) = runs_in_view(runs.len(), sel);
    for (row, i) in (first..first + visible).enumerate() {
        let y = inner.y + 4 + row as u16;
        let r = run_row(&runs[i], NOW, i == sel);
        g.put(c.started, y, 9, &r.started.as_ref().map(words).unwrap_or_default());
        g.put(c.status, y, 8, &words(&r.status.msg));
        g.put(c.trigger, y, 15, &clip(&words(&r.trigger), 15));
        g.put_right(c.copied, y, RUN_COUNT_W, &r.copied);
        g.put_right(c.unchanged, y, RUN_COUNT_W, &r.unchanged);
        g.put_right(c.trashed, y, RUN_COUNT_W, &r.trashed);
        g.put_right(c.bytes, y, 9, &words(&r.bytes.msg));
    }
    let after = inner.y + 4 + visible as u16;
    g.put(x, after + 1, w, "50 most recent · newest first");
    let run = &runs[sel];
    let r = run_row(run, NOW, false);
    let started = r.started.as_ref().map(words).unwrap_or_default();
    g.put(x, after + 3, w, &format!("{started} · {} · {} · {}", words(&r.status.msg), words(&r.trigger), run_time(run)));
    let notes = run_message(run).unwrap_or_else(|| summary_words(run));
    for (i, row) in wrap(&notes, w as usize).iter().enumerate() {
        g.put(x, after + 4 + i as u16, w, row);
    }
}

fn draw(room: &mut Room) -> String {
    let mut g = Grid::new();
    let column = room_column(Rect { x: 0, y: 0, width: 100, height: 30 });
    let fixed = page_words(room);
    g.put(2, 0, 96, &format!("{} {}", phrase(fixed[0]), phrase(fixed[1])));
    if room.loaded {
        draw_state(&mut g, room, column);
        draw_table(&mut g, room, column);
    }
    if let Some(b) = &room.busy {
        g.put(2, 28, 96, &words(b));
    } else if let Some(n) = &room.note {
        g.put(2, 28, 96, &words(&n.msg));
    }
    g.put(2, 29, 96, phrase(footer_hint(room)));
    match &room.modal {
        Modal::Closed => {}
        Modal::Form(f) => draw_form(&mut g, room, f),
        Modal::Browser { browse, .. } => {
            let fixed = card_words(room);
            let inner = g.card(66, 18);
            g.put(inner.x, inner.y, inner.width, phrase(fixed[0]));
            let (first, n) = folders_in_view(browse.dirs.len(), browse.sel, inner.height);
            for i in first..first + n {
                g.put(inner.x, inner.y + 3 + (i - first) as u16, inner.width, &format!("▸ {}", browse.dirs[i]));
            }
            let buttons = fixed[fixed.len() - 4..].iter().map(|k| phrase(k)).collect::<Vec<_>>().join("  ");
            g.put(inner.x, inner.y + inner.height - 1, inner.width, &buttons);
        }
        Modal::History { dest, runs, loaded: true, sel } if !runs.is_empty() => draw_history(&mut g, room, dest, runs, *sel),
        Modal::History { .. } => {}
        Modal::Remove(id) => {
            let inner = g.card(68, 10);
            g.put(inner.x + 1, inner.y, inner.width - 2, &words(&remove_title(room, *id)));
            for (i, k) in card_words(room).iter().enumerate() {
                g.put(inner.x + 1, inner.y + 2 + i as u16, inner.width - 2, phrase(k));
            }
        }
    }
    g.text()
}

fn row(frame: &str, name: &str) -> String {
    frame.lines().find(|l| l.starts_with(&format!("  {name}"))).map(str::to_string).unwrap_or_default()
}

fn patch() -> BackupPatch {
    BackupPatch {
        dest_path: None,
        trigger_type: None,
        daily_at_hour: None,
        retention_days: None,
        inter_file_delay_ms: None,
        exclude_globs: None,
        enabled: None,
    }
}

fn active() -> ActiveBackup {
    ActiveBackup {
        destination_id: 2,
        library_name: Some("podcasts".into()),
        dest_path: Some("/Volumes/Backup/podcasts".into()),
        started_at: Some(sqlite_at(NOW - 134)),
        trigger_reason: Some("after-scan".into()),
        files_copied: 812,
        files_unchanged: 380,
        files_trashed: 12,
        bytes_copied: 3_650_000_000,
        expected_files: Some(2930),
    }
}

#[test]
fn the_room_boots_defaults_first_and_draws_the_table() {
    let mut room = new_room();
    room.apply(Done::Platform(Ok(defaults())));
    assert_eq!(room.queued, Some(Op::Load), "the list follows the defaults");
    room.queued = None;
    room.busy = None;
    room.apply(loaded(Vec::new(), no_status()));
    let frame = draw(&mut room);
    assert!(frame.contains("Backups beta"), "{frame}");
    assert!(frame.contains("• idle — nothing running · 0 of 0 destinations on · trash swept hourly"), "{frame}");
    assert!(frame.contains("Add a backup destination"), "{frame}");
    assert!(frame.contains("(no destinations yet — a adds one)"), "{frame}");
    assert!(frame.contains("beta — the configuration may change in a future release"), "{frame}");
    assert!(frame.contains("a add a destination · Esc back"), "{frame}");
    room.apply(loaded(dests(), no_status()));
    let frame = draw(&mut room);
    for word in ["LIBRARY", "DESTINATION", "TRIGGER", "RETENTION", "LAST RUN", "ON", "polls every 5 s"] {
        assert!(frame.contains(word), "{word}\n{frame}");
    }
    let music = row(&frame, "music");
    assert!(music.contains("/Volumes/Backup/music") && music.contains("after each scan") && music.contains("30d") && music.contains("success · 2h") && music.contains("[✓]"), "{music}");
    let podcasts = row(&frame, "podcasts");
    assert!(podcasts.contains("daily at 03:00") && podcasts.contains("failed · 24h"), "{podcasts}");
    let vinyl = row(&frame, "vinyl");
    assert!(vinyl.contains("manual only") && vinyl.contains("no trash") && vinyl.contains("never") && vinyl.contains("[ ]"), "{vinyl}");
    assert!(frame.contains("• idle — nothing running · 2 of 3 destinations on"), "{frame}");
    // The cursor row's extras on the note line, the failure in its words.
    room.note = None;
    press(&mut room, Code::Down);
    press(&mut room, Code::Down);
    let frame = draw(&mut room);
    assert!(frame.contains("/Volumes/Backup/podcasts · 200 ms/file · default excludes · failed: EACCES: permission denied"), "{frame}");
    assert!(frame.contains("↑↓ rows · Enter history · n run now · e edit · s on/off · r remove · Esc deselect"), "{frame}");
    press(&mut room, Code::Up);
    let frame = draw(&mut room);
    assert!(frame.contains("/Volumes/Backup/music · default excludes · 812 copied, 11,204 unchanged, 3 trashed · 3.4 GB"), "{frame}");
}

#[test]
fn the_state_line_shows_the_run_the_queue_and_the_bar() {
    let mut room = idle();
    room.apply(loaded(dests(), BackupStatus { active: Some(active()), queue_length: 1 }));
    let frame = draw(&mut room);
    assert!(frame.contains("• running — podcasts → /Volumes/Backup/podcasts · after each scan · 2m 14s"), "{frame}");
    assert!(frame.contains("▰▰▰▰▱▱▱▱▱▱ 41% · 1,204 of 2,930 · 812 copied · 380 unchanged · 12 trashed · 3.4 GB written"), "{frame}");
    assert!(frame.contains("polls every 2 s"), "{frame}");
    assert!(row(&frame, "podcasts").contains("running… 41%"), "{frame}");
    let first = ActiveBackup { expected_files: None, bytes_copied: 0, ..active() };
    room.apply(loaded(dests(), BackupStatus { active: Some(first), queue_length: 0 }));
    let frame = draw(&mut room);
    assert!(frame.contains("▱▱▱▱▱▱▱▱▱▱ first run — no estimate yet · 812 copied · 380 unchanged · 12 trashed"), "{frame}");
    assert!(!frame.contains("no bytes writ"), "the last group drops off a narrow column\n{frame}");
    assert!(row(&frame, "podcasts").contains("running…"), "{frame}");
    room.apply(loaded(dests(), BackupStatus { active: None, queue_length: 2 }));
    let frame = draw(&mut room);
    assert!(frame.contains("• 2 tasks queued — waiting for the active scan or backup to finish"), "{frame}");
    // The poll cadence follows the state.
    room.last_load = Some(10_000);
    room.queued = None;
    room.tick(13_000);
    assert_eq!(room.queued, Some(Op::Load), "two seconds while tasks wait");
    room.queued = None;
    room.apply(loaded(dests(), no_status()));
    room.last_load = Some(10_000);
    room.queued = None;
    room.tick(13_000);
    assert!(room.queued.is_none(), "five seconds when idle");
}

#[test]
fn the_add_form_walks_its_fields_checks_the_path_and_sends_what_changed() {
    let mut room = idle();
    press(&mut room, Code::Char('a'));
    let Modal::Form(f) = &room.modal else { panic!("the add form") };
    assert_eq!((f.focused(), f.library_name.as_str(), f.library_id, f.trigger), (Field::Library, "music", 10, Trigger::AfterScan));
    assert_eq!(f.excludes.value(), "Thumbs.db, desktop.ini, .DS_Store, ._*");
    let frame = draw(&mut room);
    assert!(frame.contains("Add a backup destination") && frame.contains("(•) music") && frame.contains("( ) podcasts"), "{frame}");
    assert!(frame.contains("(•) after each scan — when the library finishes scanning"), "{frame}");
    assert!(frame.contains("DESTINATION · another drive, not inside the library") && frame.contains("^B browse"), "{frame}");
    assert!(frame.contains("RETENTION DAYS") && frame.contains("THROTTLE MS/FILE") && frame.contains("HOUR (0–23)"), "{frame}");
    assert!(frame.contains("Tab next field · ←→ or Space choose · ^B browse · Enter add · Esc cancel"), "{frame}");
    // Radio fields walk with the arrows; the library choice re-asks the server.
    press(&mut room, Code::Right);
    let Modal::Form(f) = &room.modal else { panic!("the add form") };
    assert_eq!((f.library_name.as_str(), f.library_id), ("podcasts", 20));
    press(&mut room, Code::Tab); // trigger
    press(&mut room, Code::Right);
    press(&mut room, Code::Right);
    let Modal::Form(f) = &room.modal else { panic!("the add form") };
    assert_eq!(f.trigger, Trigger::Manual);
    assert!(!f.fields().contains(&Field::Hour), "the hour is a daily thing");
    press(&mut room, Code::Tab); // destination
    type_text(&mut room, "/Volumes/Backup/pods");
    assert_eq!(room.queued, Some(Op::Check { library_id: 20, dest: "/Volumes/Backup/pods".into(), exclude_dest_id: None }));
    assert!(draw(&mut room).contains("checking the path…"));
    room.queued = None;
    room.apply(Done::Checked {
        dest: "/Volumes/Backup/pods".into(),
        result: Ok(PathCheck {
            ok: true,
            errors: Vec::new(),
            warnings: vec!["Destination does not exist yet. It will be created on the first backup run.".into()],
        }),
    });
    let frame = draw(&mut room);
    assert!(frame.contains("− Destination does not exist yet. It will be created on the first"), "{frame}");
    assert!(frame.lines().any(|l| l.trim_matches(|c| c == ' ' || c == '│') == "backup run."), "the sentence wraps at a word\n{frame}");
    // An untouched pattern field is OMITTED so the row follows the defaults.
    press(&mut room, Code::Enter);
    assert_eq!(
        room.queued,
        Some(Op::Add(NewBackupDestination {
            library_id: 20,
            dest_path: "/Volumes/Backup/pods".into(),
            trigger_type: "manual".into(),
            daily_at_hour: None,
            retention_days: 30,
            inter_file_delay_ms: 0,
            exclude_globs: None,
        }))
    );
    room.queued = None;
    room.busy = None;
    // A hard error from the check blocks the send; a refusal keeps the form.
    room.apply(Done::Checked {
        dest: "/Volumes/Backup/pods".into(),
        result: Ok(PathCheck { ok: false, errors: vec!["Destination is inside the source library".into()], warnings: vec![] }),
    });
    press(&mut room, Code::Enter);
    assert!(room.queued.is_none());
    let Modal::Form(f) = &room.modal else { panic!("the add form") };
    assert_eq!(f.error.as_ref().map(words).as_deref(), Some("Destination is inside the source library"));
    room.apply(Done::Added(Err(ApiError::Server { status: 409, message: "A destination already exists for this library + path".into() })));
    let Modal::Form(f) = &room.modal else { panic!("a refusal keeps the form") };
    assert!(f.error.as_ref().is_some_and(|e| words(e).contains("already exists")));
    room.apply(Done::Added(Ok(())));
    assert!(matches!(room.modal, Modal::Closed));
    assert_eq!(note(&room), "destination added");
    assert_eq!(room.queued, Some(Op::Load));
}

#[test]
fn the_edit_form_sends_only_what_changed_and_resets_patterns_to_null() {
    let mut room = idle();
    press(&mut room, Code::Down);
    press(&mut room, Code::Down); // podcasts: daily at 3, 200 ms
    press(&mut room, Code::Char('e'));
    let Modal::Form(f) = &room.modal else { panic!("the edit form") };
    assert_eq!((f.editing, f.focused(), f.trigger), (Some(2), Field::Trigger, Trigger::Daily));
    assert_eq!(f.fields(), vec![Field::Trigger, Field::Dest, Field::Retention, Field::Throttle, Field::Hour, Field::Excludes]);
    assert_eq!(
        room.queued,
        Some(Op::Check { library_id: 20, dest: "/Volumes/Backup/podcasts".into(), exclude_dest_id: Some(2) }),
        "an edit checks its own path, skipping its own row"
    );
    room.queued = None;
    let frame = draw(&mut room);
    assert!(frame.contains("Edit — podcasts → /Volumes/Backup/podcasts"), "{frame}");
    assert!(frame.contains("podcasts  — fixed: remove and re-add to retarget"), "{frame}");
    assert!(frame.contains("^P reset patterns to the defaults") && frame.contains("Save ▸"), "{frame}");
    // Nothing changed: the form just closes.
    press(&mut room, Code::Enter);
    assert!(matches!(room.modal, Modal::Closed) && room.queued.is_none());
    press(&mut room, Code::Char('e'));
    room.queued = None;
    for _ in 0..4 {
        press(&mut room, Code::Tab); // to the hour
    }
    let Modal::Form(f) = &room.modal else { panic!("the edit form") };
    assert_eq!(f.focused(), Field::Hour);
    press(&mut room, Code::Backspace);
    type_text(&mut room, "2x3");
    press(&mut room, Code::Tab); // excludes
    type_text(&mut room, ", *.log");
    press(&mut room, Code::Enter);
    assert_eq!(
        room.queued,
        Some(Op::Patch {
            id: 2,
            patch: BackupPatch {
                daily_at_hour: Some(Some(23)),
                exclude_globs: Some(Some(vec!["Thumbs.db".into(), "desktop.ini".into(), ".DS_Store".into(), "._*".into(), "*.log".into()])),
                ..patch()
            },
            what: Did::Saved,
        }),
        "digits only reach the hour; only the changed fields go"
    );
    room.queued = None;
    room.busy = None;
    ctrl(&mut room, 'p');
    let Modal::Form(f) = &room.modal else { panic!("the edit form") };
    assert!(f.excludes_reset && f.excludes.value() == "Thumbs.db, desktop.ini, .DS_Store, ._*");
    press(&mut room, Code::Enter);
    assert!(matches!(room.queued, Some(Op::Patch { patch: BackupPatch { exclude_globs: Some(None), .. }, .. })), "the reset sends null");
    room.queued = None;
    room.apply(Done::Patched { id: 2, what: Did::Saved, result: Ok(()) });
    assert!(matches!(room.modal, Modal::Closed));
    assert!(note(&room).starts_with("saved"));
}

#[test]
fn row_keys_run_toggle_and_gate_the_remove() {
    let mut room = idle();
    press(&mut room, Code::Down);
    press(&mut room, Code::Down);
    press(&mut room, Code::Down); // vinyl: off
    press(&mut room, Code::Char('n'));
    assert!(room.queued.is_none());
    assert!(is_error(&room) && note(&room).contains("this destination is off"));
    press(&mut room, Code::Char('s'));
    assert_eq!(room.queued, Some(Op::Patch { id: 3, patch: BackupPatch { enabled: Some(true), ..patch() }, what: Did::Enabled(true) }));
    room.queued = None;
    room.apply(Done::Patched { id: 3, what: Did::Enabled(true), result: Ok(()) });
    assert!(room.dests[2].enabled);
    room.queued = None;
    room.busy = None;
    press(&mut room, Code::Char('n'));
    assert_eq!(room.queued, Some(Op::Run(3)));
    room.queued = None;
    room.apply(Done::Ran(Ok(RunAnswer { status: "skipped".into() })));
    assert!(is_error(&room) && note(&room).contains("previous run is still in progress"));
    room.apply(Done::Ran(Ok(RunAnswer { status: "queued".into() })));
    assert!(!is_error(&room) && note(&room).contains("backup started"));
    room.queued = None;
    press(&mut room, Code::Char('r'));
    assert!(matches!(room.modal, Modal::Remove(3)));
    let frame = draw(&mut room);
    assert!(frame.contains("Remove vinyl → /mnt/usb/vinyl?") && frame.contains("NOT deleted") && frame.contains("y remove · Esc keep"), "{frame}");
    press(&mut room, Code::Enter);
    assert!(matches!(room.modal, Modal::Closed) && room.queued.is_none(), "Enter is the safe choice");
    press(&mut room, Code::Char('r'));
    press(&mut room, Code::Char('y'));
    assert_eq!(room.queued, Some(Op::Remove(3)));
    room.queued = None;
    room.apply(Done::Removed(Ok(())));
    assert!(note(&room).contains("the files on disk stay"));
    assert!(press(&mut room, Code::Esc).is_none());
    assert!(matches!(press(&mut room, Code::Esc), Some(Outcome::Quit)));
}

#[test]
fn the_history_modal_lists_runs_and_tells_the_selected_ones_story() {
    let mut room = idle();
    press(&mut room, Code::Down);
    press(&mut room, Code::Down);
    press(&mut room, Code::Enter);
    assert!(matches!(room.modal, Modal::History { loaded: false, .. }));
    assert_eq!(room.queued, Some(Op::History(2)));
    room.queued = None;
    room.apply(Done::History {
        id: 2,
        result: Ok(vec![
            run("success", 3 * 3600, 12, 11_204, 3, 432_000_000, None),
            run("failed", 86_400, 0, 0, 0, 0, Some(EACCES)),
            run("skipped", 3 * 86_400, 0, 0, 0, 0, None),
        ]),
    });
    let frame = draw(&mut room);
    assert!(frame.contains("History — podcasts → /Volumes/Backup/podcasts"), "{frame}");
    for word in ["STARTED", "STATUS", "TRIGGER", "COPIED", "UNCHANGED", "TRASHED", "BYTES", "50 most recent · newest first"] {
        assert!(frame.contains(word), "{word}\n{frame}");
    }
    let first = frame.lines().find(|l| l.contains("3h") && l.contains("success")).map(str::to_string).unwrap_or_default();
    assert!(first.contains("after each scan") && first.contains("11,204") && first.contains("412.0 MB"), "{first}");
    assert!(frame.contains("3h · success · after each scan · 2m 14s"), "{frame}");
    assert!(frame.contains("12 copied, 11,204 unchanged, 3 trashed"), "{frame}");
    press(&mut room, Code::Down);
    let frame = draw(&mut room);
    assert!(frame.contains("24h · failed · daily · 2m 14s"), "{frame}");
    assert!(frame.contains("EACCES: permission denied, mkdir"), "{frame}");
    assert!(frame.contains("↑↓ runs · Esc close"), "{frame}");
    press(&mut room, Code::Esc);
    assert!(matches!(room.modal, Modal::Closed));
}

fn listing(path: &str, dirs: &[&str]) -> DirListing {
    DirListing { path: path.into(), directories: dirs.iter().map(|s| s.to_string()).collect() }
}

#[test]
fn browsing_fills_the_destination_and_returns_to_the_form() {
    let mut room = idle();
    press(&mut room, Code::Char('a'));
    ctrl(&mut room, 'b');
    assert_eq!(room.queued, Some(Op::Browse("~".into())), "the server's home, as Libraries browses");
    room.queued = None;
    room.apply(Done::Browsed(Ok(listing("/Volumes", &["Backup", "NAS"]))));
    assert!(matches!(room.modal, Modal::Browser { .. }));
    let frame = draw(&mut room);
    assert!(frame.contains("Choose the destination folder") && frame.contains("▸ Backup") && frame.contains("Use this folder ▸"), "{frame}");
    press(&mut room, Code::Enter);
    assert_eq!(room.queued, Some(Op::Browse("/Volumes/Backup".into())));
    room.queued = None;
    room.apply(Done::Browsed(Ok(listing("/Volumes/Backup", &[]))));
    press(&mut room, Code::Char('a'));
    let Modal::Form(f) = &room.modal else { panic!("back in the form") };
    assert_eq!(f.dest.value(), "/Volumes/Backup");
    assert!(matches!(room.queued, Some(Op::Check { .. })), "the chosen path is checked at once");
    // Esc in the browser returns to the form with its draft intact.
    room.queued = None;
    ctrl(&mut room, 'b');
    room.queued = None;
    room.apply(Done::Browsed(Ok(listing("/Volumes/Backup", &[]))));
    press(&mut room, Code::Esc);
    let Modal::Form(f) = &room.modal else { panic!("back in the form") };
    assert_eq!(f.dest.value(), "/Volumes/Backup");
    // On the server's own machine the OS dialog picks instead.
    let mut local = Room::new(true);
    local.apply(Done::Platform(Ok(defaults())));
    local.queued = None;
    local.apply(loaded(dests(), no_status()));
    press(&mut local, Code::Char('a'));
    ctrl(&mut local, 'b');
    assert_eq!(local.queued, Some(Op::PickNative));
    local.queued = None;
    local.apply(Done::Picked(Pick::Folder("/Volumes/USB/music".into())));
    let Modal::Form(f) = &local.modal else { panic!("the form") };
    assert_eq!(f.dest.value(), "/Volumes/USB/music");
}

#[test]
fn words_for_triggers_runs_and_time() {
    assert_eq!(elapsed_text(42), "42s");
    assert_eq!(elapsed_text(134), "2m 14s");
    assert_eq!(elapsed_text(3780), "1h 03m");
    let ok = run("success", 0, 812, 11_204, 3, 3_650_000_000, None);
    assert_eq!(summary_words(&ok), "812 copied, 11,204 unchanged, 3 trashed · 3.4 GB");
    let quiet = run("success", 0, 0, 0, 0, 0, None);
    assert_eq!(summary_words(&quiet), "no changes");
    let failed = run("failed", 0, 0, 0, 0, 0, None);
    assert_eq!(summary_words(&failed), "");
    assert_eq!(words(&trigger_cell(&dest(1, "m", "/x", "daily", 1, true, None))), "daily at 03:00");
    assert_eq!(words(&trigger_cell(&dest(1, "m", "/x", "manual", 1, true, None))), "manual only");
    assert_eq!(words(&trigger_words("after-scan")), "after each scan");
    assert_eq!(words(&status_word("partial")), "partial");
    assert_eq!(clip_tail("/Volumes/Backup/podcasts", 10), "…/podcasts");
    let mut f = Form::add(&vec![("music".to_string(), 10)], &defaults());
    f.throttle = Input::new("60001".into());
    assert_eq!(f.numbers().err().as_ref().map(words).as_deref(), Some("the throttle takes a whole number of milliseconds, up to 60000"));
    f.throttle = Input::new("200".into());
    f.trigger = Trigger::Daily;
    f.hour = Input::new("24".into());
    assert_eq!(f.numbers().err().as_ref().map(words).as_deref(), Some("the hour is 0 to 23"));
    f.hour = Input::new("3".into());
    assert!(matches!(f.numbers(), Ok(Numbers { retention: 30, throttle: 200, hour: Some(3) })));
}

#[test]
fn every_refused_number_has_its_own_sentence() {
    let mut f = Form::add(&vec![("music".to_string(), 10)], &defaults());
    f.retention = Input::new("-1".into());
    assert_eq!(f.numbers().err().as_ref().map(words).as_deref(), Some("the retention takes a whole number of days"));
    let mut room = idle();
    press(&mut room, Code::Char('a'));
    press(&mut room, Code::Enter);
    let Modal::Form(f) = &room.modal else { panic!("the form stays") };
    assert_eq!(f.error.as_ref().map(words).as_deref(), Some("pick a destination"));
    assert!(room.queued.is_none());
}

#[test]
fn failures_name_what_failed_and_the_worker() {
    let mut room = idle();
    let down = || ApiError::Network("down".into());
    room.apply(Done::Removed(Err(down())));
    assert_eq!(note(&room), "could not remove: down");
    room.apply(Done::Ran(Err(down())));
    assert_eq!(note(&room), "could not start the backup: down");
    room.apply(Done::Patched { id: 1, what: Did::Enabled(false), result: Err(down()) });
    assert_eq!(note(&room), "could not switch the destination: down");
    assert!(room.dests[0].enabled, "nothing is switched until the server agrees");
    room.apply(Done::Loaded(Err(down())));
    assert_eq!(note(&room), "could not load the backups: down");
    room.worker_gone();
    assert_eq!(note(&room), "the worker is gone");
}

#[test]
fn unknown_words_of_the_server_are_shown_as_they_are_but_inert() {
    assert_eq!(words(&status_word("odd\u{1b}[31m")), "odd[31m");
    assert_eq!(words(&trigger_words("a very long reason that goes on and on")), "a very long reason that goes o");
    assert_eq!(status_style("success"), Tone::Fine);
    assert_eq!(status_style("skipped"), Tone::Gold);
    assert_eq!(status_style("running"), Tone::Accent);
    assert_eq!(status_style("?"), Tone::Dim);
}

#[test]
fn a_run_past_its_estimate_is_all_of_it() {
    let a = ActiveBackup { files_copied: 5000, expected_files: Some(2930), ..active() };
    let p = progress_line(&a);
    assert_eq!((p.filled, words(&p.words).as_str()), (10, " 100% · 5,392 of 2,930"));
    let zero = ActiveBackup { expected_files: Some(0), ..active() };
    assert_eq!(words(&progress_line(&zero).words), " first run — no estimate yet");
}

#[test]
fn the_cursor_stays_in_view_of_long_lists() {
    assert_eq!(runs_in_view(3, 2), (0, 3));
    assert_eq!(runs_in_view(40, 0), (0, 8));
    assert_eq!(runs_in_view(40, 20), (13, 8));
    assert_eq!(runs_in_view(40, 39), (32, 8));
    assert_eq!(folders_in_view(50, 30, 18), (18, 13));
    assert_eq!(folders_in_view(2, 0, 18), (0, 2));
}

#[test]
fn a_click_picks_and_the_form_knows_its_places() {
    let mut room = idle();
    room.act(Act::Edit(2));
    let Modal::Form(f) = &room.modal else { panic!("the form") };
    assert_eq!(index_of(f, Field::Hour), 4);
    assert_eq!(index_of(f, Field::Library), 0, "not among the fields of an edit");
    room.act(Act::FormPick(0, 2));
    let Modal::Form(f) = &room.modal else { panic!("the form") };
    assert_eq!(f.trigger, Trigger::Manual);
}
