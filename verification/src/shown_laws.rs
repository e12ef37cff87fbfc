//! What holds of what the rooms show: that words, figures and colours are those
//! of what they are about.

use vstd::prelude::*;

use crate::backups::{ActiveBackup, BackupDestination, BackupRun, Form};
use crate::backups_view::{DestRow, DestStory, Progress, RunRow, Verdict};
use crate::discovery::{CatalogPeer, DiscoverySetting, DiscoveryStatus, HeldSnapshot, Relation};
use crate::discovery_view::{ServerRow, SheetFacts};
use crate::federation::{Act, Family, FederationKey, FederationParams, FederationPeer};
use crate::federation_view::Gate;
use crate::layout::{Cell, Tone};
use crate::msg::{ApiError, Arg, Fill, Msg, Note};

verus! {

use crate::backups_view::{
    is_dest_row, is_dest_story, is_progress, is_run_row, is_status_word, is_trigger_words, is_verdict, status_tone, summary, switched_on,
    took,
};
use crate::clock::{age, elapsed, is_timestamp, timestamp_value};
use crate::discovery_view::{are_facts, config, held_in, held_key, is_server_row, online_words, section_words, state_of, tracks_in};
use crate::federation_view::{connected, endpoint_words, family_tone, is_claim, is_gate, is_peer_status};
use crate::hub::status;

use crate::msg::{filled, gate, reads, says};
use crate::text::{bytes_text, dec, grouping_only_adds_commas, printed, texts, trimmed};

// ── The backups ──────────────────────────────────────────────────────────

/// How the server writes a run's end and its reason: no two alike.
proof fn ends_are_told_apart()
    ensures
        "success"@.len() == 7 && "success"@[2] == 'c',
        "failed"@.len() == 6 && "failed"@[2] == 'i',
        "partial"@.len() == 7 && "partial"@[2] == 'r',
        "skipped"@.len() == 7 && "skipped"@[2] == 'i',
        "running"@.len() == 7 && "running"@[2] == 'n',
        "after-scan"@.len() == 10 && "after-scan"@[2] == 't',
        "daily"@.len() == 5 && "daily"@[2] == 'i',
        "manual"@.len() == 6 && "manual"@[2] == 'n',
{
    reveal_strlit("success");
    reveal_strlit("failed");
    reveal_strlit("partial");
    reveal_strlit("skipped");
    reveal_strlit("running");
    reveal_strlit("after-scan");
    reveal_strlit("daily");
    reveal_strlit("manual");
}
/// How the room writes them: no two alike.
proof fn end_words_are_told_apart()
    ensures
        "bak.st_success"@.len() == 14 && "bak.st_success"@[9] == 'c',
        "bak.st_failed"@.len() == 13 && "bak.st_failed"@[9] == 'i',
        "bak.st_partial"@.len() == 14 && "bak.st_partial"@[9] == 'r',
        "bak.st_skipped"@.len() == 14 && "bak.st_skipped"@[9] == 'i',
        "bak.st_running"@.len() == 14 && "bak.st_running"@[9] == 'n',
        "bak.trig_after_scan"@.len() == 19 && "bak.trig_after_scan"@[9] == 'a',
        "bak.trig_daily_word"@.len() == 19 && "bak.trig_daily_word"@[9] == 'd',
        "bak.trig_manual"@.len() == 15 && "bak.trig_manual"@[9] == 'm',
{
    reveal_strlit("bak.st_success");
    reveal_strlit("bak.st_failed");
    reveal_strlit("bak.st_partial");
    reveal_strlit("bak.st_skipped");
    reveal_strlit("bak.st_running");
    reveal_strlit("bak.trig_after_scan");
    reveal_strlit("bak.trig_daily_word");
    reveal_strlit("bak.trig_manual");
}

/// A run is said to have ended as it did, and only a success in the colour of a
/// good sign; what went wrong, in part or whole, or was passed over, warns.
pub proof fn runs_end_as_they_did(msg: Msg, s: Seq<char>)
    requires
        is_status_word(msg, s),
    ensures
        msg == Msg::Key("bak.st_success") <==> s == "success"@,
        msg == Msg::Key("bak.st_failed") <==> s == "failed"@,
        msg == Msg::Key("bak.st_partial") <==> s == "partial"@,
        msg == Msg::Key("bak.st_skipped") <==> s == "skipped"@,
        msg == Msg::Key("bak.st_running") <==> s == "running"@,
        status_tone(s) == Tone::Fine <==> s == "success"@,
        status_tone(s) == Tone::Gold <==> s == "failed"@ || s == "partial"@ || s == "skipped"@,
        status_tone(s) == Tone::Accent <==> s == "running"@,
{
    ends_are_told_apart();
    end_words_are_told_apart();
}

/// Why a run was started is said as it was.
pub proof fn runs_start_as_they_did(msg: Msg, reason: Seq<char>)
    requires
        is_trigger_words(msg, reason),
    ensures
        msg == Msg::Key("bak.trig_after_scan") <==> reason == "after-scan"@,
        msg == Msg::Key("bak.trig_daily_word") <==> reason == "daily"@,
        msg == Msg::Key("bak.trig_manual") <==> reason == "manual"@,
{
    ends_are_told_apart();
    end_words_are_told_apart();
}

/// How a run's counts are written: no two alike.
proof fn counts_are_told_apart()
    ensures
        "bak.sum_copied"@.len() == 14,
        "bak.sum_unchanged"@.len() == 17,
        "bak.sum_trashed"@.len() == 15,
        "bak.sum_no_changes"@.len() == 18,
{
    reveal_strlit("bak.sum_copied");
    reveal_strlit("bak.sum_unchanged");
    reveal_strlit("bak.sum_trashed");
    reveal_strlit("bak.sum_no_changes");
}

/// Whether a phrase says a count of a run, and which.
pub open spec fn says_count(m: Msg, run: BackupRun) -> bool {
    match m {
        Msg::One(key, Fill { name, arg: Arg::Count(n) }) => (key == "bak.sum_copied" && n == run.files_copied) || (key
            == "bak.sum_unchanged" && n == run.files_unchanged) || (key == "bak.sum_trashed" && n == run.files_trashed),
        Msg::Key(key) => key == "bak.sum_no_changes" && run.files_copied == 0 && run.files_unchanged == 0 && run.files_trashed
            == 0,
        _ => false,
    }
}

/// A run's counts are said each once, under its own name, the zeros left out.
pub proof fn counts_are_said_as_they_are(run: BackupRun)
    ensures
        forall|i: int| 0 <= i < summary(run).len() ==> says_count(#[trigger] summary(run)[i], run),
        run.files_copied > 0 || run.files_unchanged > 0 || run.files_trashed > 0 ==> summary(run).len() == (if run.files_copied
            > 0 { 1int } else { 0 }) + (if run.files_unchanged > 0 { 1int } else { 0 }) + (if run.files_trashed > 0 {
            1int
        } else {
            0
        }),
        forall|i: int, j: int| 0 <= i < j < summary(run).len() ==> #[trigger] summary(run)[i] != #[trigger] summary(run)[j],
{
    counts_are_told_apart();
}

/// A row of the history shows the run's counts digit for digit, and how it
/// ended.
pub proof fn history_rows_show_their_run(row: RunRow, run: BackupRun, now: i64, selected: bool)
    requires
        is_run_row(row, run, now, selected),
    ensures
        row.copied@.filter(|c: char| c != ',') == dec(run.files_copied as nat),
        row.unchanged@.filter(|c: char| c != ',') == dec(run.files_unchanged as nat),
        row.trashed@.filter(|c: char| c != ',') == dec(run.files_trashed as nat),
        row.status.msg == Msg::Key("bak.st_success") <==> run.status@ == "success"@,
        row.status.msg == Msg::Key("bak.st_failed") <==> run.status@ == "failed"@,
        run.bytes_copied > 0 ==> reads(row.bytes.msg, bytes_text(run.bytes_copied as nat)),
        is_timestamp(run.started_at@) ==> row.started == Some(age(now - timestamp_value(run.started_at@))),
{
    grouping_only_adds_commas(run.files_copied as nat);
    grouping_only_adds_commas(run.files_unchanged as nat);
    grouping_only_adds_commas(run.files_trashed as nat);
    runs_end_as_they_did(row.status.msg, run.status@);
}

/// A run took as long as lies between its ends.
pub proof fn runs_take_their_time(run: BackupRun)
    requires
        is_timestamp(run.started_at@),
        run.finished_at is Some,
        is_timestamp(run.finished_at->0@),
        timestamp_value(run.finished_at->0@) >= timestamp_value(run.started_at@),
    ensures
        took(run) == elapsed(timestamp_value(run.finished_at->0@) - timestamp_value(run.started_at@)),
{
}

/// A run's progress is the part of the expected files that it has dealt with,
/// whatever became of them: copied, unchanged or put aside.
pub proof fn progress_is_the_part_done(p: Progress, a: ActiveBackup, e: u64)
    requires
        is_progress(p, a),
        a.expected_files == Some(e),
        0 < e,
        a.files_copied + a.files_unchanged + a.files_trashed <= e,
    ensures
        ({
            let done = a.files_copied + a.files_unchanged + a.files_trashed;
            &&& p.words matches Msg::Three(_, Fill { name, arg: Arg::Nat(pct) }, d, x)
            &&& pct <= 100
            &&& pct * e <= 100 * done < (pct + 1) * e
            &&& p.filled == pct / 10
            &&& d.arg == Arg::Count(done as u64)
            &&& x.arg == Arg::Count(e)
        }),
{
    let done = a.files_copied + a.files_unchanged + a.files_trashed;
    let n = done * 100;
    let pct = n / e as int;
    vstd::arithmetic::div_mod::lemma_fundamental_div_mod(n, e as int);
    vstd::arithmetic::div_mod::lemma_mod_bound(n, e as int);
    assert(e * pct == pct * e && (pct + 1) * e == pct * e + e) by (nonlinear_arith);
    assert(pct <= 100) by (nonlinear_arith)
        requires
            pct * e <= n,
            n <= 100 * e,
            0 < e,
    ;
    vstd::arithmetic::div_mod::lemma_div_pos_is_pos(n, e as int);
}

/// As many destinations are said to be on as are.
pub proof fn what_is_on_is_counted(dests: Seq<BackupDestination>)
    ensures
        switched_on(dests) == dests.filter(|d: BackupDestination| d.enabled).len(),
    decreases dests.len(),
{
    reveal(Seq::filter);
    if dests.len() > 0 {
        what_is_on_is_counted(dests.drop_last());
    }
}

/// A row shows its destination: whether it is on, how long what it replaces is
/// kept, and how its last run ended, unless one is under way.
pub proof fn rows_show_their_destination(row: DestRow, d: BackupDestination, running: bool, pct: Option<u64>, now: i64, box_hovered: bool)
    requires
        is_dest_row(row, d, running, pct, now, false, false, box_hovered),
    ensures
        row.on == d.enabled,
        d.retention_days > 0 ==> (row.retention.msg matches Msg::One(_, Fill { name, arg: Arg::Nat(n) }) && n == d.retention_days),
        d.retention_days == 0 ==> row.retention.msg is Key,
        running ==> row.age is None && row.last.tone == Tone::Accent && (pct matches Some(p) ==> row.last.msg matches Msg::One(
            _,
            Fill { name, arg: Arg::Nat(n) },
        ) && n == p),
        !running ==> match d.last_run {
            Some(run) => (row.last.msg == Msg::Key("bak.st_success") <==> run.status@ == "success"@) && (row.last.msg == Msg::Key(
                "bak.st_failed",
            ) <==> run.status@ == "failed"@) && (row.last.tone == Tone::Fine <==> run.status@ == "success"@),
            None => row.last.tone == Tone::Dim && row.age is None,
        },
{
    if !running {
        if let Some(run) = d.last_run {
            runs_end_as_they_did(row.last.msg, run.status@);
        }
    }
}

/// What is said of a destination: where it is, its pause, its patterns, and what
/// its last run did or what went wrong with it, never both.
pub proof fn stories_are_of_their_destination(s: DestStory, d: BackupDestination, defaults: Seq<String>)
    requires
        is_dest_story(s, d, defaults),
    ensures
        s.path@ == d.dest_path@,
        s.throttle is Some <==> d.inter_file_delay_ms > 0,
        s.throttle matches Some(Msg::One(_, f)) ==> f.arg == Arg::Nat(d.inter_file_delay_ms as u64),
        s.excludes matches Msg::One(_, f) ==> f.arg == Arg::Nat(d.exclude_globs@.len() as u64) && texts(d.exclude_globs@) != texts(
            defaults,
        ),
        !(s.wrong is Some && s.did is Some),
        d.last_run matches Some(run) ==> (s.wrong is Some <==> run.status@ == "failed"@ || run.status@ == "partial"@),
        d.last_run matches Some(run) ==> (s.did matches Some(did) ==> did.0@ == summary(run)),
{
}

/// What the server said of the path that is typed is what is shown: its first
/// error before any warning, good only without either, nothing of another path.
pub proof fn verdicts_are_of_the_path(v: Verdict, f: Form)
    requires
        is_verdict(v, f),
    ensures
        v is Silent <==> trimmed(crate::line::input_value(f.dest)).len() == 0,
        v is Good ==> f.check is Some && f.check->0.errors@.len() == 0 && f.check->0.warnings@.len() == 0 && f.checked_for@
            == trimmed(crate::line::input_value(f.dest)),
        v is Wrong ==> f.check is Some && f.check->0.errors@.len() > 0,
        v matches Verdict::Warned(s, more) ==> f.check is Some && f.check->0.errors@.len() == 0 && more + 1
            == f.check->0.warnings@.len(),
        f.check is None && !(v is Silent) ==> v is Checking,
{
}

// ── The network ──────────────────────────────────────────────────────────

/// How a server's cells are written: no two alike.
proof fn server_words_are_told_apart()
    ensures
        "p2p.online"@.len() == 10 && "p2p.online"@[9] == 'e',
        "p2p.offline"@.len() == 11 && "p2p.offline"@[9] == 'n',
        "p2p.offline_age"@.len() == 15 && "p2p.offline_age"@[9] == 'n',
        "p2p.snap_update_pinned"@.len() == 22 && "p2p.snap_update_pinned"@[9] == 'u',
        "p2p.snap_update"@.len() == 15 && "p2p.snap_update"@[9] == 'u',
        "p2p.snap_pinned"@.len() == 15 && "p2p.snap_pinned"@[9] == 'p',
        "p2p.snap_downloaded"@.len() == 19 && "p2p.snap_downloaded"@[9] == 'd',
        "p2p.fed_federated"@.len() == 17 && "p2p.fed_federated"@[9] == 'e',
        "p2p.fed_theirs"@.len() == 14 && "p2p.fed_theirs"@[9] == 'h',
        "p2p.fed_sent"@.len() == 12 && "p2p.fed_sent"@[9] == 'e',
{
    reveal_strlit("p2p.online");
    reveal_strlit("p2p.offline");
    reveal_strlit("p2p.offline_age");
    reveal_strlit("p2p.snap_update_pinned");
    reveal_strlit("p2p.snap_update");
    reveal_strlit("p2p.snap_pinned");
    reveal_strlit("p2p.snap_downloaded");
    reveal_strlit("p2p.fed_federated");
    reveal_strlit("p2p.fed_theirs");
    reveal_strlit("p2p.fed_sent");
}

/// A server is said to be there exactly where it is, and otherwise since when it
/// is not.
pub proof fn servers_are_said_to_be_there(p: CatalogPeer, now: i64)
    ensures
        online_words(p, now) == Msg::Key("p2p.online") <==> p.online,
        !p.online && is_timestamp(p.updated_at@) ==> (online_words(p, now) matches Msg::One(_, f) && f.arg == Arg::Phrase(
            Box::new(age(now - timestamp_value(p.updated_at@))),
        )),
{
    server_words_are_told_apart();
}

/// A snapshot is said to be held, pinned or behind exactly where it is.
pub proof fn snapshots_are_said_as_held(h: HeldSnapshot)
    ensures
        held_key(h) == "p2p.snap_downloaded" <==> !h.stale && !h.pinned,
        held_key(h) == "p2p.snap_pinned" <==> !h.stale && h.pinned,
        held_key(h) == "p2p.snap_update" <==> h.stale && !h.pinned,
        held_key(h) == "p2p.snap_update_pinned" <==> h.stale && h.pinned,
{
    server_words_are_told_apart();
}

/// A server's row shows it: its tracks digit for digit, its seeders, its
/// snapshot, and what it is to this server.
pub proof fn rows_show_their_server(row: ServerRow, p: CatalogPeer, relation: Relation, now: i64)
    requires
        is_server_row(row, p, relation, now, false, false),
    ensures
        row.tracks@.filter(|c: char| c != ',') == dec(p.payload.row_count as nat),
        row.seeders@ == dec(p.seeders as nat),
        row.online.msg == Msg::Key("p2p.online") <==> p.online,
        row.snapshot.msg is Key <==> p.fetched is Some,
        row.federation.msg == Msg::Key("p2p.fed_federated") <==> relation == Relation::Federated,
        row.federation.msg == Msg::Key("p2p.fed_theirs") <==> relation == Relation::Theirs,
        row.federation.msg == Msg::Key("p2p.fed_sent") <==> relation == Relation::Sent,
        row.federation.tone == Tone::Fine <==> relation == Relation::Federated,
        row.federation.tone == Tone::Gold <==> relation == Relation::Theirs,
{
    server_words_are_told_apart();
    grouping_only_adds_commas(p.payload.row_count as nat);
}

/// A server's sheet shows it.
pub proof fn sheets_show_their_server(f: SheetFacts, p: CatalogPeer, relation: Relation, now: i64)
    requires
        are_facts(f, p, relation, now),
    ensures
        f.online == "p2p.online" <==> p.online,
        f.figures matches Msg::Two(_, tracks, seeders) && tracks.arg == Arg::Count(p.payload.row_count) && seeders.arg == Arg::Nat(
            p.seeders as u64,
        ),
        p.fetched matches Some(h) ==> f.stale == h.stale && f.pinned == h.pinned && (f.snapshot matches Msg::Two(_, when, size)
            && size.arg == Arg::Bytes(h.size_bytes)),
        p.fetched is None ==> f.snapshot is Key && !f.stale && !f.pinned,
        f.federation.tone == Tone::Fine <==> relation == Relation::Federated,
        f.federation.tone == Tone::Gold <==> relation == Relation::Theirs,
{
    server_words_are_told_apart();
}

/// The snapshots held are counted, and their tracks summed.
pub proof fn held_snapshots_are_counted(peers: Seq<CatalogPeer>, p: CatalogPeer)
    ensures
        held_in(peers) == peers.filter(|q: CatalogPeer| q.fetched is Some).len(),
        p.fetched is Some ==> tracks_in(peers.push(p)) == tracks_in(peers) + p.payload.row_count,
        p.fetched is None ==> tracks_in(peers.push(p)) == tracks_in(peers),
        tracks_in(Seq::<CatalogPeer>::empty()) == 0,
    decreases peers.len(),
{
    reveal(Seq::filter);
    assert(peers.push(p).drop_last() =~= peers);
    if peers.len() > 0 {
        held_snapshots_are_counted(peers.drop_last(), p);
    }
}

/// How the states of the network are written: no two alike.
proof fn states_are_told_apart()
    ensures
        "p2p.state_unavailable"@.len() == 21,
        "p2p.state_connected"@.len() == 19,
        "p2p.state_reconnecting"@.len() == 22,
        "p2p.state_waiting"@.len() == 17,
        "p2p.state_not_joined"@.len() == 20,
{
    reveal_strlit("p2p.state_unavailable");
    reveal_strlit("p2p.state_connected");
    reveal_strlit("p2p.state_reconnecting");
    reveal_strlit("p2p.state_waiting");
    reveal_strlit("p2p.state_not_joined");
}

/// The network is said to be connected exactly where there are neighbours to
/// talk to, and in the colour of a good sign only there.
pub proof fn connections_are_said_as_they_are(s: DiscoveryStatus)
    ensures
        state_of(s).word == "p2p.state_connected" <==> s.binary_found && s.neighbors > 0,
        state_of(s).tone == Tone::Fine <==> s.binary_found && s.neighbors > 0,
        state_of(s).word == "p2p.state_unavailable" <==> !s.binary_found,
        s.binary_found && s.neighbors > 1 ==> (state_of(s).detail matches Some(Msg::One(_, f)) && f.arg == Arg::Nat(s.neighbors as u64)),
        state_of(s).word == "p2p.state_not_joined" ==> !s.joined && s.neighbors == 0,
        state_of(s).word == "p2p.state_waiting" ==> s.joined && s.neighbors == 0,
        state_of(s).word == "p2p.state_reconnecting" ==> s.neighbors == 0 && (s.recovery.attempts > 0 || s.recovery.retry_pending),
{
    states_are_told_apart();
}

/// The settings are listed with their values, each under the key that opens it.
pub proof fn settings_are_listed_with_their_values(s: DiscoveryStatus, auto_fetch: bool, i: int)
    requires
        0 <= i < config(s, auto_fetch).len(),
    ensures
        ({
            let row = config(s, auto_fetch)[i];
            let shows = |n: int| row.value matches Msg::One(_, f) ==> f.arg == Arg::Nat(n as u64);
            &&& row.setting == Some(DiscoverySetting::MaxStorageMb) ==> shows(s.max_peer_db_storage_mb as int) && row.value is One
            &&& row.setting == Some(DiscoverySetting::PeerRetentionDays) ==> shows(s.peer_retention_days as int) && (row.value
                is One <==> s.peer_retention_days > 0)
            &&& row.setting == Some(DiscoverySetting::AutoFetchCount) ==> shows(s.auto_fetch_count as int) && (row.value
                is One <==> auto_fetch && s.auto_fetch_count > 0)
            &&& row.setting == Some(DiscoverySetting::RotationDays) ==> shows(s.rotation_days as int) && (row.value is One
                <==> s.rotation_days > 0)
            &&& row.setting == Some(DiscoverySetting::SidecarMaxRssMb) ==> shows(s.watchdog.max_rss_mb as int) && (row.value
                is One <==> s.watchdog.max_rss_mb > 0)
            &&& row.setting == crate::discovery::setting_at(row.key)
        }),
{
}

/// As many servers are said to be hidden and blocked as are.
pub proof fn hidden_and_blocked_are_counted(hidden: u32, showing: bool, blocked: nat)
    requires
        blocked <= u64::MAX,
    ensures
        ({
            let words = section_words(hidden, showing, blocked);
            &&& words.len() == (if showing || hidden > 0 { 2int } else { 0 }) + (if blocked > 0 { 2int } else { 0 })
            &&& !showing && hidden > 1 ==> (words[0] matches Msg::One(_, f) && f.arg == Arg::Nat(hidden as u64))
            &&& blocked > 0 ==> (words[words.len() - 2] matches Msg::One(_, f) && f.arg == Arg::Nat(blocked as u64))
        }),
{
}

// ── The federation ───────────────────────────────────────────────────────

/// A pairing shows in the colour of a good sign, what waits on the reader in that
/// of a warning, and nothing else in either.
pub proof fn colours_go_with_the_state(f: Family)
    ensures
        family_tone(f) == Tone::Fine <==> f == Family::Good,
        family_tone(f) == Tone::Gold <==> f == Family::Theirs,
        family_tone(f) == Tone::Dim <==> f == Family::Dead || f == Family::Mute,
{
}

/// The endpoint is said to be reachable exactly where it runs and is on line,
/// and to be missing where it is not available.
pub proof fn the_endpoint_is_said_as_it_is(p: FederationParams)
    ensures
        endpoint_words(p)[0].tone == Tone::Fine <==> p.available && p.running && p.online,
        endpoint_words(p).len() == 1 <==> !p.available,
{
}

/// A peer is said to be fine exactly where its last test was, and otherwise what
/// the test said, or that there was none.
pub proof fn tests_are_said_as_they_went(c: Cell, p: FederationPeer)
    requires
        is_peer_status(c, p, false, false),
    ensures
        c.tone == Tone::Fine <==> p.last_status is Some && p.last_status->0@ == "ok"@,
        c.tone == Tone::Dim <==> p.last_status is None,
        p.last_status matches Some(s) ==> s@ != "ok"@ ==> reads(c.msg, printed(s@, 200)),
{
}

/// Who claimed a ticket is said where it was claimed.
pub proof fn claims_are_said_as_they_are(msg: Msg, k: FederationKey, now: i64)
    requires
        is_claim(msg, k, now),
    ensures
        msg is Two <==> k.bound_endpoint_id is Some,
        msg is Key <==> k.bound_endpoint_id is None,
{
}

/// A warning offers its own way back and its own way through: going through
/// does what the warning asks.
pub proof fn warnings_offer_their_own_ways(shown: Option<Gate>, room: crate::federation::Room)
    requires
        is_gate(shown, room),
    ensures
        room.modal is Decline ==> (shown matches Some(g) && g.safe.1 == Act::DeclineCancel && g.go.1 == Act::DeclineConfirm),
        room.modal is Revoke ==> (shown matches Some(g) && g.safe.1 == Act::RevokeCancel && g.go.1 == Act::RevokeConfirm),
        room.modal is Forget ==> (shown matches Some(g) && g.safe.1 == Act::ForgetCancel && g.go.1 == Act::ForgetConfirm),
        room.modal is TurnOff ==> (shown matches Some(g) && g.safe.1 == Act::TurnOffCancel && g.go.1 == Act::TurnOffConfirm),
        shown is Some <==> room.modal is Decline || room.modal is Revoke || room.modal is Forget || room.modal is TurnOff,
{
}

// ── The status line ──────────────────────────────────────────────────────

/// What is under way comes before any note, and a note in the colour of a
/// warning is an error.
pub proof fn errors_warn(note: Option<Note>, busy: Option<Msg>)
    ensures
        busy matches Some(b) ==> status(note, busy) == Some((b, Tone::Accent)),
        busy is None && note is Some ==> (status(note, busy) matches Some((m, tone)) && m == note->0.msg && (tone == Tone::Gold
            <==> note->0.error)),
        status(note, busy) is None <==> note is None && busy is None,
{
}

/// How the refusals are written: no two alike.
proof fn refusals_are_told_apart()
    ensures
        "admin.gate_unauthorized"@.len() == 23,
        "admin.gate_forbidden"@.len() == 20,
        "admin.gate_locked"@.len() == 17,
{
    reveal_strlit("admin.gate_unauthorized");
    reveal_strlit("admin.gate_forbidden");
    reveal_strlit("admin.gate_locked");
}

/// A refusal for want of a session, of rights, or because the panel is locked is
/// told from every other failure, which keeps its reason.
pub proof fn refusals_are_told_from_failures(e: ApiError, what: &'static str)
    ensures
        gate(e, what) == Msg::Key("admin.gate_unauthorized") <==> e is Unauthorized,
        gate(e, what) == Msg::Key("admin.gate_locked") <==> (e matches ApiError::Server { status, message } && status == 405),
        gate(e, what) is One <==> e is Forbidden,
        e matches ApiError::Forbidden(why) ==> (gate(e, what) matches Msg::One(_, f) && f.arg == Arg::Text(why)),
        gate(e, what) is Failed ==> gate(e, what) == Msg::Failed(what, e),
{
    refusals_are_told_apart();
}

} // verus!
