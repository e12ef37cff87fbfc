//! How the discovery room is shown: its state in words, the tiles, the
//! settings, the table of servers and the cards over them.

use vstd::prelude::*;

use crate::clock::{age_since, iso_unix};
use crate::discovery::{display_name, Act, ActivityEntry, CatalogPeer, DiscoverySetting, DiscoveryStatus, HeldSnapshot, Modal, Relation, Room, Tab, DESCRIPTION_MAX, NAME_MAX, PANE_ROWS};
use crate::federation::age_of;
use crate::layout::{grid_place, table_view, tone_of, Cell, Rect, Tone};
use crate::msg::{dash, Arg, Fill, Msg};
use crate::text::{decimal, fmt_count, printable, same, short_id, trim};

verus! {

use crate::clock::{age, is_timestamp, timestamp_value};
use crate::federation::{is_age_of, shown_name};
use crate::layout::{further, in_grid, left_of, row_tone, window};
use crate::line::input_value;
use crate::msg::{one, reads, says};
use crate::text::{dec, fingerprint, grouped, is_text, printed, trimmed};

/// The smallest window that the room is drawn into.
pub const MIN_W: u16 = 80;

pub const MIN_H: u16 = 24;

// ── The table of servers ─────────────────────────────────────────────────

/// Where the columns of the table stand; the narrowest windows do without the
/// seeders, then without the tracks.
#[derive(Clone, Copy, Debug, PartialEq, Eq, Structural)]
pub struct ServerColumns {
    pub server_width: u16,
    pub tracks: Option<u16>,
    pub seeders: Option<u16>,
    pub online: u16,
    pub snapshot: u16,
    pub federation: u16,
}

pub const TRACKS_W: u16 = 7;

pub const SEEDERS_W: u16 = 7;

pub const ONLINE_W: u16 = 13;

pub const SNAPSHOT_W: u16 = 19;

pub const FEDERATION_W: u16 = 14;

/// What the fixed columns take, with the two cells before each but the first.
pub open spec fn fixed(seeders: bool, tracks: bool) -> int {
    50 + (if seeders { 9int } else { 0 }) + (if tracks { 9int } else { 0 })
}

pub open spec fn shows_seeders(width: int) -> bool {
    left_of(width, fixed(true, true)) >= 16
}

pub open spec fn shows_tracks(width: int) -> bool {
    left_of(width, fixed(false, true)) >= 16
}

/// The columns of a table of that place and width: the servers' names get what
/// the fixed columns leave.
pub open spec fn columns(x: int, width: int) -> ServerColumns {
    let (seeders, tracks) = (shows_seeders(width), shows_tracks(width));
    let server = left_of(width, fixed(seeders, tracks));
    let x0 = further(x, server);
    let x1 = if tracks { further(x0, 9) } else { x0 };
    let x2 = if seeders { further(x1, 9) } else { x1 };
    ServerColumns {
        server_width: server as u16,
        tracks: if tracks { Some(x0 as u16) } else { None },
        seeders: if seeders { Some(x1 as u16) } else { None },
        online: x2 as u16,
        snapshot: further(x2, 15) as u16,
        federation: further(further(x2, 15), 21) as u16,
    }
}

pub fn server_columns(table: Rect) -> (out: ServerColumns)
    ensures
        out == columns(table.x as int, table.width as int),
{
    let always: u16 = ONLINE_W + 2 + SNAPSHOT_W + 2 + FEDERATION_W;
    let show_seeders = table.width.saturating_sub(always + SEEDERS_W + 2 + TRACKS_W + 2) >= 16;
    let show_tracks = table.width.saturating_sub(always + TRACKS_W + 2) >= 16;
    let mut taken: u16 = always;
    if show_seeders {
        taken = taken + SEEDERS_W + 2;
    }
    if show_tracks {
        taken = taken + TRACKS_W + 2;
    }
    let server_width: u16 = table.width.saturating_sub(taken);
    let x0: u16 = table.x.saturating_add(server_width);
    let x1: u16 = if show_tracks { x0.saturating_add(TRACKS_W + 2) } else { x0 };
    let x2: u16 = if show_seeders { x1.saturating_add(SEEDERS_W + 2) } else { x1 };
    let snapshot: u16 = x2.saturating_add(ONLINE_W + 2);
    ServerColumns {
        server_width,
        tracks: if show_tracks { Some(x0) } else { None },
        seeders: if show_seeders { Some(x1) } else { None },
        online: x2,
        snapshot,
        federation: snapshot.saturating_add(SNAPSHOT_W + 2),
    }
}

/// In any window that the room is drawn into, the columns stand in order,
/// none over another, the last ending where the table ends.
pub proof fn the_columns_fill_the_table(x: int, width: int)
    requires
        0 <= x,
        MIN_W - 4 <= width,
        x + width <= u16::MAX,
    ensures
        ({
            let c = columns(x, width);
            &&& c.server_width >= 16
            &&& c.tracks matches Some(t) ==> t == x + c.server_width && t + TRACKS_W + 2 <= c.online
            &&& c.seeders matches Some(s) ==> s + SEEDERS_W + 2 == c.online
            &&& c.tracks is Some && c.seeders is Some ==> c.tracks->0 + TRACKS_W + 2 == c.seeders->0
            &&& x + c.server_width <= c.online
            &&& c.online + ONLINE_W + 2 == c.snapshot
            &&& c.snapshot + SNAPSHOT_W + 2 == c.federation
            &&& c.federation + FEDERATION_W == x + width
        }),
{
}

/// A row of the table.
#[derive(Debug, PartialEq)]
pub struct ServerRow {
    pub name: String,
    /// Whether the name stands out.
    pub bold: bool,
    pub base: Tone,
    pub tracks: String,
    pub seeders: String,
    pub online: Cell,
    pub snapshot: Cell,
    pub federation: Cell,
    /// What the server says of itself, if it says anything.
    pub tip: Option<String>,
}

/// Whether a server is there: on line, or since when it is not.
pub open spec fn online_words(p: CatalogPeer, now: i64) -> Msg {
    if p.online {
        Msg::Key("p2p.online")
    } else if is_timestamp(p.updated_at@) {
        one("p2p.offline_age", "age", Arg::Phrase(Box::new(age(now - timestamp_value(p.updated_at@)))))
    } else {
        Msg::Key("p2p.offline")
    }
}

/// The phrase for a snapshot held.
pub open spec fn held_key(h: HeldSnapshot) -> &'static str {
    if h.stale {
        if h.pinned { "p2p.snap_update_pinned" } else { "p2p.snap_update" }
    } else {
        if h.pinned { "p2p.snap_pinned" } else { "p2p.snap_downloaded" }
    }
}

/// What the snapshot's cell says.
pub open spec fn is_snapshot_cell(c: Cell, p: CatalogPeer, base: Tone, faint: Tone) -> bool {
    match p.fetched {
        Some(h) => c.msg == Msg::Key(held_key(h)) && c.tone == base,
        None => reads(c.msg, "—"@) && c.tone == faint,
    }
}

/// What the cell on federation says: a pairing in the colour of a good sign, a
/// request of theirs in that of a warning, unless the row is lit.
pub open spec fn is_relation_cell(c: Cell, r: Relation, lit: bool, base: Tone, faint: Tone) -> bool {
    match r {
        Relation::Unrelated => reads(c.msg, "—"@) && c.tone == faint,
        Relation::Federated => c.msg == Msg::Key("p2p.fed_federated") && c.tone == (if lit { base } else { Tone::Fine }),
        Relation::Theirs => c.msg == Msg::Key("p2p.fed_theirs") && c.tone == (if lit { base } else { Tone::Gold }),
        Relation::Sent => c.msg == Msg::Key("p2p.fed_sent") && c.tone == faint,
    }
}

/// What a server says of itself, for the screen.
pub open spec fn description_of(p: CatalogPeer) -> Option<Seq<char>> {
    if trimmed(p.payload.description@).len() > 0 {
        Some(printed(p.payload.description@, DESCRIPTION_MAX as nat))
    } else {
        None
    }
}

/// A row of the table as it is shown.
pub open spec fn is_server_row(row: ServerRow, p: CatalogPeer, relation: Relation, now: i64, selected: bool, hovered: bool) -> bool {
    let lit = selected || hovered;
    let base = row_tone(selected, hovered, Tone::Plain);
    let faint = row_tone(selected, hovered, Tone::Dim);
    &&& row.name@ == shown_name(p.payload.name@, p.from@)
    &&& row.bold == lit
    &&& row.base == base
    &&& row.tracks@ == grouped(p.payload.row_count as nat)
    &&& row.seeders@ == dec(p.seeders as nat)
    &&& row.online.msg == online_words(p, now)
    &&& row.online.tone == (if p.online { base } else { faint })
    &&& is_snapshot_cell(row.snapshot, p, base, faint)
    &&& is_relation_cell(row.federation, relation, lit, base, faint)
    &&& is_text(row.tip, description_of(p))
}

fn online_text(p: &CatalogPeer, now: i64) -> (out: Msg)
    ensures
        out == online_words(*p, now),
{
    if p.online {
        return Msg::Key("p2p.online");
    }
    match iso_unix(p.updated_at.as_str()) {
        Some(t) => {
            let since = age_since(now, t);
            Msg::One("p2p.offline_age", Fill { name: "age", arg: Arg::Phrase(Box::new(since)) })
        },
        None => Msg::Key("p2p.offline"),
    }
}

fn held_words(h: &HeldSnapshot) -> (key: &'static str)
    ensures
        key == held_key(*h),
{
    if h.stale {
        if h.pinned { "p2p.snap_update_pinned" } else { "p2p.snap_update" }
    } else {
        if h.pinned { "p2p.snap_pinned" } else { "p2p.snap_downloaded" }
    }
}

fn description(p: &CatalogPeer) -> (out: Option<String>)
    ensures
        is_text(out, description_of(*p)),
{
    if trim(p.payload.description.as_str()).as_str().is_empty() {
        None
    } else {
        Some(printable(p.payload.description.as_str(), DESCRIPTION_MAX))
    }
}

/// A server's row: its name, its figures, whether it is there, what is held of
/// it and how it stands to this server.
pub fn server_row(p: &CatalogPeer, relation: Relation, now: i64, selected: bool, hovered: bool) -> (row: ServerRow)
    ensures
        is_server_row(row, *p, relation, now, selected, hovered),
{
    let lit = selected || hovered;
    let base = tone_of(selected, hovered, Tone::Plain);
    let faint = tone_of(selected, hovered, Tone::Dim);
    let snapshot = match &p.fetched {
        Some(h) => Cell { msg: Msg::Key(held_words(h)), tone: base },
        None => Cell { msg: dash(), tone: faint },
    };
    let federation = match relation {
        Relation::Unrelated => Cell { msg: dash(), tone: faint },
        Relation::Federated => Cell { msg: Msg::Key("p2p.fed_federated"), tone: if lit { base } else { Tone::Fine } },
        Relation::Theirs => Cell { msg: Msg::Key("p2p.fed_theirs"), tone: if lit { base } else { Tone::Gold } },
        Relation::Sent => Cell { msg: Msg::Key("p2p.fed_sent"), tone: faint },
    };
    ServerRow {
        name: display_name(p),
        bold: lit,
        base,
        tracks: fmt_count(p.payload.row_count),
        seeders: decimal(p.seeders as u64),
        online: Cell { msg: online_text(p, now), tone: if p.online { base } else { faint } },
        snapshot,
        federation,
        tip: description(p),
    }
}

/// The phrases at the right of the section's line, after the filter: how many
/// servers are hidden and the way to see them, how many are blocked.
pub open spec fn section_words(hidden: u32, showing: bool, blocked: nat) -> Seq<Msg> {
    (if showing {
        seq![Msg::Key("p2p.hidden_showing"), Msg::Key("p2p.hidden_hide")]
    } else if hidden == 1 {
        seq![Msg::Key("p2p.hidden_one"), Msg::Key("p2p.hidden_show")]
    } else if hidden > 1 {
        seq![one("p2p.hidden_many", "n", Arg::Nat(hidden as u64)), Msg::Key("p2p.hidden_show")]
    } else {
        Seq::empty()
    }) + (if blocked > 0 {
        seq![one("p2p.blocked_n", "n", Arg::Nat(blocked as u64)), Msg::Key("p2p.blocked_manage")]
    } else {
        Seq::empty()
    })
}

/// What stands on the section's line after the filter, a dot between every two.
pub fn section_parts(room: &Room, s: &DiscoveryStatus) -> (out: Vec<Msg>)
    ensures
        out@ == section_words(room.catalog.hidden_incompatible, room.show_incompatible, s.blocked_peers@.len()),
{
    let hidden: u32 = room.catalog.hidden_incompatible;
    let mut out: Vec<Msg> = Vec::new();
    if room.show_incompatible {
        out.push(Msg::Key("p2p.hidden_showing"));
        out.push(Msg::Key("p2p.hidden_hide"));
    } else if hidden == 1 {
        out.push(Msg::Key("p2p.hidden_one"));
        out.push(Msg::Key("p2p.hidden_show"));
    } else if hidden > 1 {
        out.push(Msg::One("p2p.hidden_many", Fill { name: "n", arg: Arg::Nat(hidden as u64) }));
        out.push(Msg::Key("p2p.hidden_show"));
    }
    let blocked: usize = s.blocked_peers.len();
    if blocked > 0 {
        out.push(Msg::One("p2p.blocked_n", Fill { name: "n", arg: Arg::Nat(blocked as u64) }));
        out.push(Msg::Key("p2p.blocked_manage"));
    }
    proof {
        assert(out@ =~= section_words(hidden, room.show_incompatible, blocked as nat));
    }
    out
}

/// The filter on the section's line: what is typed behind a slash, or the key
/// that opens it.
pub fn filter_part(room: &Room, shown: &str) -> (c: Cell)
    ensures
        if room.filter_on {
            reads(c.msg, seq!['/', ' '] + shown@) && c.tone == (if room.filter_focus { Tone::Accent } else { Tone::Plain })
        } else {
            c.msg == Msg::Key("p2p.filter_key") && c.tone == Tone::Dim
        },
{
    if !room.filter_on {
        return Cell { msg: Msg::Key("p2p.filter_key"), tone: Tone::Dim };
    }
    let mut text: String = String::new();
    text.push('/');
    text.push(' ');
    text.append(shown);
    proof {
        assert(text@ =~= seq!['/', ' '] + shown@);
    }
    Cell { msg: Msg::Raw(text), tone: if room.filter_focus { Tone::Accent } else { Tone::Plain } }
}

/// The section's line against the right edge of the table.
pub fn section_place(table: Rect, width: u16) -> (r: Rect)
    ensures
        r == (Rect {
            x: left_of(table.ends_at(), width as int) as u16,
            y: table.y,
            width: if width < table.width { width } else { table.width },
            height: 1,
        }),
{
    Rect {
        x: table.right().saturating_sub(width),
        y: table.y,
        width: if width < table.width { width } else { table.width },
        height: 1,
    }
}

/// What stands in place of rows: that the filter finds nothing where there is
/// something to find, else that no server is known.
pub fn empty_words(room: &Room) -> (key: &'static str)
    ensures
        key == (if room.filter_on && room.catalog.peers@.len() > 0 { "p2p.empty_filter" } else { "p2p.empty_servers" }),
{
    if room.filter_on && room.catalog.peers.len() > 0 {
        "p2p.empty_filter"
    } else {
        "p2p.empty_servers"
    }
}

impl Room {
    /// The rows of a table of `len` that are in view: a cursor that moved
    /// since the last draw is followed, the wheel is left alone.
    pub fn servers_in_view(&mut self, len: usize, room: usize) -> (out: (usize, usize))
        ensures
            (out.0 as int, out.1 as int) == window(
                len as int,
                if old(self).sel != old(self).sel_anchor { old(self).sel } else { None },
                old(self).tscroll as int,
                room as int,
            ),
            *final(self) == (Room { sel_anchor: old(self).sel, tscroll: out.0, ..*old(self) }),
    {
        let moved = match (self.sel, self.sel_anchor) {
            (Some(a), Some(b)) => a != b,
            (None, None) => false,
            _ => true,
        };
        self.sel_anchor = self.sel;
        let reveal = if moved { self.sel } else { None };
        let (first, visible) = table_view(len, reveal, self.tscroll, room);
        self.tscroll = first;
        (first, visible)
    }

    /// Before a draw: the sheet of a server that is no longer known closes.
    pub fn settle(&mut self)
        ensures
            *final(self) == (match old(self).modal {
                Modal::Sheet { id, .. } => if old(self).peer_of(id@) is None {
                    Room { modal: Modal::Closed, ..*old(self) }
                } else {
                    *old(self)
                },
                _ => *old(self),
            }),
    {
        let gone = match &self.modal {
            Modal::Sheet { id, .. } => self.peer(id.as_str()).is_none(),
            _ => false,
        };
        if gone {
            self.modal = Modal::Closed;
        }
    }

    /// What the note's line says of the server under the cursor, where nothing
    /// else is on it.
    pub fn cursor_note(&self) -> (out: Option<String>)
        ensures
            is_text(
                out,
                match self.cursor_peer() {
                    Some(p) => match description_of(p) {
                        Some(d) => if self.note is None && self.busy is None {
                            Some(shown_name(p.payload.name@, p.from@) + seq![' ', '·', ' '] + d)
                        } else {
                            None
                        },
                        None => None,
                    },
                    None => None,
                },
            ),
    {
        if self.note.is_some() || self.busy.is_some() {
            return None;
        }
        let p = match self.selected_peer() {
            Some(p) => p,
            None => return None,
        };
        let d = match description(p) {
            Some(d) => d,
            None => return None,
        };
        let mut text = display_name(p);
        let ghost name = text@;
        text.push(' ');
        text.push('·');
        text.push(' ');
        text.append(d.as_str());
        proof {
            assert(text@ =~= name + seq![' ', '·', ' '] + d@);
        }
        Some(text)
    }
}

// ── The line of tips ─────────────────────────────────────────────────────

/// The tips for what has the keys: the card that is open, else the state of
/// the network, a box being typed into, the cursor, the tab, the rows.
pub open spec fn hint(room: Room) -> &'static str {
    match room.modal {
        Modal::Sheet { .. } => "p2p.hint_sheet",
        Modal::Federate(_) => "p2p.hint_compose",
        Modal::Identity(_) => "p2p.hint_identity",
        Modal::Setting(_) => "p2p.hint_setting",
        Modal::Block(_) => "p2p.hint_block",
        Modal::Leave => "p2p.hint_leave",
        Modal::Blocked(_) => "p2p.hint_blocked",
        Modal::Closed => if room.status is None {
            "p2p.hint_loading"
        } else if !room.status->0.enabled {
            "p2p.hint_off"
        } else if room.ticket_focus {
            "p2p.hint_ticket"
        } else if room.filter_focus {
            "p2p.hint_filter"
        } else if room.sel is Some {
            "p2p.hint_selected"
        } else if room.tab == Tab::Config {
            "p2p.hint_config"
        } else if room.shown().len() == 0 {
            "p2p.hint_empty"
        } else {
            "p2p.hint_rows"
        },
    }
}

pub fn footer_hint(room: &Room) -> (key: &'static str)
    ensures
        key == hint(*room),
{
    match &room.modal {
        Modal::Sheet { .. } => "p2p.hint_sheet",
        Modal::Federate(_) => "p2p.hint_compose",
        Modal::Identity(_) => "p2p.hint_identity",
        Modal::Setting(_) => "p2p.hint_setting",
        Modal::Block(_) => "p2p.hint_block",
        Modal::Leave => "p2p.hint_leave",
        Modal::Blocked(_) => "p2p.hint_blocked",
        Modal::Closed => {
            if room.status.is_none() {
                "p2p.hint_loading"
            } else if !room.enabled() {
                "p2p.hint_off"
            } else if room.ticket_focus {
                "p2p.hint_ticket"
            } else if room.filter_focus {
                "p2p.hint_filter"
            } else if room.sel.is_some() {
                "p2p.hint_selected"
            } else if room.tab == Tab::Config {
                "p2p.hint_config"
            } else if room.rows().len() == 0 {
                "p2p.hint_empty"
            } else {
                "p2p.hint_rows"
            }
        },
    }
}

// ── The network in words ─────────────────────────────────────────────────

/// The state of the network: a word, its colour, and a detail.
#[derive(Debug, PartialEq)]
pub struct State {
    pub word: &'static str,
    pub tone: Tone,
    pub detail: Option<Msg>,
}

/// On the way back: tried again or about to, with nobody there yet.
pub open spec fn recovers(s: DiscoveryStatus) -> bool {
    (s.recovery.attempts > 0 || s.recovery.retry_pending) && s.neighbors == 0
}

pub open spec fn state_of(s: DiscoveryStatus) -> State {
    if !s.binary_found {
        State { word: "p2p.state_unavailable", tone: Tone::Gold, detail: None }
    } else if s.neighbors == 1 {
        State { word: "p2p.state_connected", tone: Tone::Fine, detail: Some(Msg::Key("p2p.state_neighbors_one")) }
    } else if s.neighbors > 1 {
        State {
            word: "p2p.state_connected",
            tone: Tone::Fine,
            detail: Some(one("p2p.state_neighbors", "n", Arg::Nat(s.neighbors as u64))),
        }
    } else if recovers(s) {
        State {
            word: "p2p.state_reconnecting",
            tone: Tone::Gold,
            detail: Some(one("p2p.state_reconnecting_detail", "n", Arg::Nat(s.recovery.attempts as u64))),
        }
    } else if s.joined {
        State { word: "p2p.state_waiting", tone: Tone::Gold, detail: None }
    } else {
        State { word: "p2p.state_not_joined", tone: Tone::Dim, detail: None }
    }
}

pub fn network_state(s: &DiscoveryStatus) -> (out: State)
    ensures
        out == state_of(*s),
{
    if !s.binary_found {
        State { word: "p2p.state_unavailable", tone: Tone::Gold, detail: None }
    } else if s.neighbors == 1 {
        State { word: "p2p.state_connected", tone: Tone::Fine, detail: Some(Msg::Key("p2p.state_neighbors_one")) }
    } else if s.neighbors > 1 {
        let n = Fill { name: "n", arg: Arg::Nat(s.neighbors as u64) };
        State { word: "p2p.state_connected", tone: Tone::Fine, detail: Some(Msg::One("p2p.state_neighbors", n)) }
    } else if s.recovery.attempts > 0 || s.recovery.retry_pending {
        let n = Fill { name: "n", arg: Arg::Nat(s.recovery.attempts as u64) };
        State { word: "p2p.state_reconnecting", tone: Tone::Gold, detail: Some(Msg::One("p2p.state_reconnecting_detail", n)) }
    } else if s.joined {
        State { word: "p2p.state_waiting", tone: Tone::Gold, detail: None }
    } else {
        State { word: "p2p.state_not_joined", tone: Tone::Dim, detail: None }
    }
}

/// The memory of the helper process, and how often it was started again.
pub open spec fn helper(s: DiscoveryStatus) -> Option<(Msg, Option<Msg>)> {
    match s.watchdog.last_rss_mb {
        Some(mb) => Some(
            (
                one("p2p.state_sidecar", "mb", Arg::Nat(mb)),
                if s.watchdog.restarts == 1 {
                    Some(Msg::Key("p2p.state_restart_one"))
                } else if s.watchdog.restarts > 1 {
                    Some(one("p2p.state_restarts", "n", Arg::Nat(s.watchdog.restarts as u64)))
                } else {
                    None
                },
            ),
        ),
        None => None,
    }
}

pub fn sidecar_words(s: &DiscoveryStatus) -> (out: Option<(Msg, Option<Msg>)>)
    ensures
        out == helper(*s),
{
    match s.watchdog.last_rss_mb {
        Some(mb) => {
            let memory = Msg::One("p2p.state_sidecar", Fill { name: "mb", arg: Arg::Nat(mb) });
            let restarts: u32 = s.watchdog.restarts;
            let again = if restarts == 1 {
                Some(Msg::Key("p2p.state_restart_one"))
            } else if restarts > 1 {
                Some(Msg::One("p2p.state_restarts", Fill { name: "n", arg: Arg::Nat(restarts as u64) }))
            } else {
                None
            };
            Some((memory, again))
        },
        None => None,
    }
}

/// What is under way while the network is on and nobody is there yet.
pub fn waiting_words(s: &DiscoveryStatus) -> (key: Option<&'static str>)
    ensures
        key == (if s.binary_found && (!s.running || !s.joined || s.neighbors == 0) {
            Some(if recovers(*s) { "p2p.recovering" } else { "p2p.searching" })
        } else {
            None
        }),
{
    if s.binary_found && (!s.running || !s.joined || s.neighbors == 0) {
        if (s.recovery.attempts > 0 || s.recovery.retry_pending) && s.neighbors == 0 {
            Some("p2p.recovering")
        } else {
            Some("p2p.searching")
        }
    } else {
        None
    }
}

/// Off the network: whether it can be had at all, the state in words, and
/// whether joining fetches something first.
pub fn off_words(s: &DiscoveryStatus) -> (out: (&'static str, Option<&'static str>, Tone))
    ensures
        out == (if !s.binary_found && !s.binary_fetchable {
            ("p2p.state_unavailable", None::<&'static str>, Tone::Gold)
        } else if !s.binary_found {
            ("p2p.state_off", Some("p2p.off_will_download"), Tone::Dim)
        } else {
            ("p2p.state_off", None::<&'static str>, Tone::Dim)
        }),
{
    if s.binary_found {
        ("p2p.state_off", None, Tone::Dim)
    } else if s.binary_fetchable {
        ("p2p.state_off", Some("p2p.off_will_download"), Tone::Dim)
    } else {
        ("p2p.state_unavailable", None, Tone::Gold)
    }
}

/// What is drawn off the network: the card that joins and the box that opens
/// the inbox, unless the network cannot be had, and the pitch in the rest.
#[derive(Clone, Copy, Debug, PartialEq, Eq, Structural)]
pub struct OffPage {
    pub join: Option<Rect>,
    pub requests: Option<Rect>,
    pub pitch: Rect,
}

pub fn off_page(column: Rect, s: &DiscoveryStatus) -> (out: OffPage)
    ensures
        ({
            let y = further(column.y as int, 2);
            let can = s.binary_found || s.binary_fetchable;
            let top = if can { further(further(y, 4), 5) } else { y };
            &&& out.join == (if can { Some(Rect { y: y as u16, height: 3, ..column }) } else { None })
            &&& out.requests == (if can { Some(Rect { y: further(y, 4) as u16, height: 4, ..column }) } else { None })
            &&& out.pitch == (Rect { y: top as u16, height: left_of(column.ends_below(), top) as u16, ..column })
        }),
{
    let y: u16 = column.y.saturating_add(2);
    let can = s.binary_found || s.binary_fetchable;
    let second: u16 = y.saturating_add(4);
    let top: u16 = if can { second.saturating_add(5) } else { y };
    OffPage {
        join: if can { Some(Rect { x: column.x, y, width: column.width, height: 3 }) } else { None },
        requests: if can { Some(Rect { x: column.x, y: second, width: column.width, height: 4 }) } else { None },
        pitch: Rect { x: column.x, y: top, width: column.width, height: column.bottom().saturating_sub(top) },
    }
}

/// What is drawn on the network: the row of tabs, the pane under it, the table
/// in the rest.
#[derive(Clone, Copy, Debug, PartialEq, Eq, Structural)]
pub struct OnPage {
    pub tabs_y: u16,
    pub pane: Rect,
    pub table: Rect,
}

pub fn on_page(column: Rect) -> (out: OnPage)
    ensures
        out.tabs_y == further(column.y as int, 2),
        out.pane == (Rect { y: further(out.tabs_y as int, 2) as u16, height: PANE_ROWS, ..column }),
        out.table == (Rect {
            y: out.pane.ends_below() as u16,
            height: left_of(column.ends_below(), out.pane.ends_below()) as u16,
            ..column
        }),
{
    let tabs_y: u16 = column.y.saturating_add(2);
    let pane = Rect { x: column.x, y: tabs_y.saturating_add(2), width: column.width, height: PANE_ROWS };
    let table = Rect {
        x: column.x,
        y: pane.bottom(),
        width: column.width,
        height: column.bottom().saturating_sub(pane.bottom()),
    };
    OnPage { tabs_y, pane, table }
}

// ── Tiles ────────────────────────────────────────────────────────────────

/// A figure, its name and a detail.
#[derive(Debug, PartialEq)]
pub struct Tile {
    pub value: Msg,
    pub label: &'static str,
    pub detail: Msg,
}

/// The servers of which a snapshot is held.
pub open spec fn held_in(peers: Seq<CatalogPeer>) -> nat
    decreases peers.len(),
{
    if peers.len() == 0 {
        0
    } else {
        held_in(peers.drop_last()) + (if peers.last().fetched is Some { 1nat } else { 0 })
    }
}

/// The tracks in the snapshots held.
pub open spec fn tracks_in(peers: Seq<CatalogPeer>) -> nat
    decreases peers.len(),
{
    if peers.len() == 0 {
        0
    } else {
        tracks_in(peers.drop_last()) + (if peers.last().fetched is Some { peers.last().payload.row_count as nat } else { 0 })
    }
}

proof fn a_part_holds_less(peers: Seq<CatalogPeer>, i: int)
    requires
        0 <= i <= peers.len(),
    ensures
        held_in(peers.take(i)) <= i,
        tracks_in(peers.take(i)) <= tracks_in(peers),
    decreases peers.len(),
{
    if i == peers.len() {
        assert(peers.take(i) =~= peers);
        if i > 0 {
            a_part_holds_less(peers.drop_last(), i - 1);
            assert(peers.drop_last().take(i - 1) =~= peers.drop_last());
        }
    } else {
        a_part_holds_less(peers.drop_last(), i);
        assert(peers.drop_last().take(i) =~= peers.take(i));
    }
}

/// How many snapshots are held, and of how many tracks.
fn held_figures(peers: &Vec<CatalogPeer>) -> (out: (usize, u64))
    requires
        tracks_in(peers@) <= u64::MAX,
    ensures
        out.0 == held_in(peers@),
        out.1 == tracks_in(peers@),
{
    let mut held: usize = 0;
    let mut tracks: u64 = 0;
    let mut i: usize = 0;
    proof {
        assert(peers@.take(0) =~= Seq::<CatalogPeer>::empty());
    }
    while i < peers.len()
        invariant
            i <= peers@.len(),
            held <= i,
            held == held_in(peers@.take(i as int)),
            tracks == tracks_in(peers@.take(i as int)),
            tracks_in(peers@) <= u64::MAX,
        decreases peers@.len() - i,
    {
        proof {
            assert(peers@.take(i + 1).drop_last() =~= peers@.take(i as int));
            a_part_holds_less(peers@, i + 1);
        }
        if peers[i].fetched.is_some() {
            held = held + 1;
            tracks = tracks + peers[i].payload.row_count;
        }
        i = i + 1;
    }
    proof {
        assert(peers@.take(i as int) =~= peers@);
    }
    (held, tracks)
}

/// The servers that the catalogue hides.
pub open spec fn hidden_of(room: Room) -> u32 {
    if room.show_incompatible { 0 } else { room.catalog.hidden_incompatible }
}

/// Six figures of the network: the neighbours, the servers known, the
/// snapshots held, their tracks, the helper's memory, what is seeded.
pub open spec fn are_tiles(out: Seq<Tile>, room: Room, s: DiscoveryStatus) -> bool {
    let held = held_in(room.catalog.peers@);
    let hidden = hidden_of(room);
    &&& out.len() == 6
    &&& reads(out[0].value, dec(s.neighbors as nat)) && out[0].label == "p2p.tile_neighbors" && out[0].detail == Msg::Key(
        "p2p.tile_neighbors_detail",
    )
    &&& reads(out[1].value, dec(room.catalog.peers@.len() + hidden as nat)) && out[1].label == "p2p.tile_known"
    &&& out[1].detail == Msg::Two(
        "p2p.tile_known_detail",
        Fill { name: "hidden", arg: Arg::Nat(hidden as u64) },
        Fill { name: "blocked", arg: Arg::Nat(s.blocked_peers@.len() as u64) },
    )
    &&& if s.auto_fetch_count > 0 {
        out[2].value == Msg::Two(
            "p2p.tile_held_of",
            Fill { name: "held", arg: Arg::Nat(held as u64) },
            Fill { name: "cap", arg: Arg::Nat(s.auto_fetch_count as u64) },
        )
    } else {
        reads(out[2].value, dec(held))
    }
    &&& out[2].label == "p2p.tile_held" && out[2].detail == Msg::Two(
        "p2p.tile_held_detail",
        Fill { name: "used", arg: Arg::Bytes(room.catalog.storage.used_bytes) },
        Fill { name: "cap", arg: Arg::Bytes(room.catalog.storage.cap_bytes) },
    )
    &&& reads(out[3].value, grouped(tracks_in(room.catalog.peers@))) && out[3].label == "p2p.tile_tracks" && out[3].detail == one(
        "p2p.tile_tracks_detail",
        "n",
        Arg::Nat(held as u64),
    )
    &&& match s.watchdog.last_rss_mb {
        Some(mb) => out[4].value == one("p2p.value_mb", "n", Arg::Nat(mb)),
        None => reads(out[4].value, "—"@),
    }
    &&& out[4].label == "p2p.tile_memory" && out[4].detail == (if s.watchdog.max_rss_mb > 0 {
        Msg::Two(
            "p2p.tile_memory_detail",
            Fill { name: "max", arg: Arg::Nat(s.watchdog.max_rss_mb) },
            Fill { name: "restarts", arg: Arg::Nat(s.watchdog.restarts as u64) },
        )
    } else {
        Msg::Key("p2p.tile_memory_off")
    })
    &&& reads(out[5].value, dec(held)) && out[5].label == "p2p.tile_seeding" && out[5].detail == Msg::Key("p2p.tile_seeding_detail")
}

pub fn tiles(room: &Room, s: &DiscoveryStatus) -> (out: Vec<Tile>)
    requires
        tracks_in(room.catalog.peers@) <= u64::MAX,
        room.catalog.peers@.len() + room.catalog.hidden_incompatible <= u32::MAX,
    ensures
        are_tiles(out@, *room, *s),
{
    let (held, tracks) = held_figures(&room.catalog.peers);
    let hidden: u32 = if room.show_incompatible { 0 } else { room.catalog.hidden_incompatible };
    let known: usize = room.catalog.peers.len();
    let blocked: usize = s.blocked_peers.len();
    let held_value = if s.auto_fetch_count > 0 {
        Msg::Two(
            "p2p.tile_held_of",
            Fill { name: "held", arg: Arg::Nat(held as u64) },
            Fill { name: "cap", arg: Arg::Nat(s.auto_fetch_count as u64) },
        )
    } else {
        Msg::Raw(decimal(held as u64))
    };
    let memory = match s.watchdog.last_rss_mb {
        Some(mb) => Msg::One("p2p.value_mb", Fill { name: "n", arg: Arg::Nat(mb) }),
        None => dash(),
    };
    let memory_detail = if s.watchdog.max_rss_mb > 0 {
        Msg::Two(
            "p2p.tile_memory_detail",
            Fill { name: "max", arg: Arg::Nat(s.watchdog.max_rss_mb) },
            Fill { name: "restarts", arg: Arg::Nat(s.watchdog.restarts as u64) },
        )
    } else {
        Msg::Key("p2p.tile_memory_off")
    };
    let mut out: Vec<Tile> = Vec::new();
    out.push(
        Tile {
            value: Msg::Raw(decimal(s.neighbors as u64)),
            label: "p2p.tile_neighbors",
            detail: Msg::Key("p2p.tile_neighbors_detail"),
        },
    );
    out.push(
        Tile {
            value: Msg::Raw(decimal(known as u64 + hidden as u64)),
            label: "p2p.tile_known",
            detail: Msg::Two(
                "p2p.tile_known_detail",
                Fill { name: "hidden", arg: Arg::Nat(hidden as u64) },
                Fill { name: "blocked", arg: Arg::Nat(blocked as u64) },
            ),
        },
    );
    out.push(
        Tile {
            value: held_value,
            label: "p2p.tile_held",
            detail: Msg::Two(
                "p2p.tile_held_detail",
                Fill { name: "used", arg: Arg::Bytes(room.catalog.storage.used_bytes) },
                Fill { name: "cap", arg: Arg::Bytes(room.catalog.storage.cap_bytes) },
            ),
        },
    );
    out.push(
        Tile {
            value: Msg::Raw(fmt_count(tracks)),
            label: "p2p.tile_tracks",
            detail: Msg::One("p2p.tile_tracks_detail", Fill { name: "n", arg: Arg::Nat(held as u64) }),
        },
    );
    out.push(Tile { value: memory, label: "p2p.tile_memory", detail: memory_detail });
    out.push(
        Tile {
            value: Msg::Raw(decimal(held as u64)),
            label: "p2p.tile_seeding",
            detail: Msg::Key("p2p.tile_seeding_detail"),
        },
    );
    out
}

/// Where the tiles stand: three to a row, four rows from one to the next.
pub fn tile_place(pane: Rect, i: u16) -> (r: Rect)
    requires
        i < 6,
    ensures
        r == (Rect {
            x: further(pane.x as int, (i % 3) * (pane.width / 3)) as u16,
            y: further(pane.y as int, (i / 3) * 4) as u16,
            width: left_of(pane.width as int / 3, 1) as u16,
            height: 3,
        }),
        pane.x + pane.width <= u16::MAX ==> r.x + r.width <= pane.x + pane.width,
{
    let w: u16 = pane.width / 3;
    proof {
        assert(0 <= (i % 3) * w <= 2 * w) by (nonlinear_arith)
            requires
                0 <= w,
        ;
    }
    Rect { x: pane.x.saturating_add((i % 3) * w), y: pane.y.saturating_add((i / 3) * 4), width: w.saturating_sub(1), height: 3 }
}

// ── The log ──────────────────────────────────────────────────────────────

/// The lines of a log that a pane of `rows` shows, given how far it is
/// scrolled from the newest: the scroll it can have, and the lines from `.1`
/// up to but without `.2`.
pub open spec fn log_window(len: int, scroll: int, rows: int) -> (int, int, int) {
    let most = left_of(len, rows);
    let at = if scroll < most { scroll } else { most };
    (at, left_of(len - at, rows), len - at)
}

impl Room {
    /// The lines of the log in view, the newest last.
    pub fn log_in_view(&mut self, rows: usize) -> (out: (usize, usize))
        ensures
            (final(self).ascroll as int, out.0 as int, out.1 as int) == log_window(
                old(self).activity@.len() as int,
                old(self).ascroll as int,
                rows as int,
            ),
            *final(self) == (Room { ascroll: final(self).ascroll, ..*old(self) }),
    {
        let len: usize = self.activity.len();
        let most: usize = if len > rows { len - rows } else { 0 };
        if self.ascroll > most {
            self.ascroll = most;
        }
        let newest: usize = len - self.ascroll;
        (if newest > rows { newest - rows } else { 0 }, newest)
    }
}

/// The lines in view are lines of the log, no more than there is room for, and
/// all of them where there is room.
pub proof fn the_log_stays_in_view(len: int, scroll: int, rows: int)
    requires
        0 <= len,
        0 <= scroll,
        0 <= rows,
    ensures
        ({
            let (at, first, newest) = log_window(len, scroll, rows);
            &&& 0 <= first <= newest <= len
            &&& newest - first == (if len < rows { len } else { rows })
            &&& at == len - newest
        }),
{
}

/// A line of the log: when, what, and its colour.
#[derive(Debug, PartialEq)]
pub struct LogLine {
    pub when: Msg,
    pub text: String,
    pub tone: Tone,
}

/// The colour of a level: warnings and errors stand out, chatter recedes.
pub open spec fn level_tone(level: Seq<char>) -> Tone {
    if level == "warn"@ || level == "error"@ {
        Tone::Gold
    } else if level == "debug"@ {
        Tone::Dim
    } else {
        Tone::Plain
    }
}

pub fn log_line(e: &ActivityEntry, now: i64) -> (out: LogLine)
    ensures
        is_age_of(out.when, Some(e.t@), now),
        out.text@ == printed(e.message@, 400),
        out.tone == level_tone(e.level@),
{
    let tone = if same(e.level.as_str(), "warn") || same(e.level.as_str(), "error") {
        Tone::Gold
    } else if same(e.level.as_str(), "debug") {
        Tone::Dim
    } else {
        Tone::Plain
    };
    LogLine { when: age_of(Some(e.t.as_str()), now), text: printable(e.message.as_str(), 400), tone }
}

// ── The invitation ───────────────────────────────────────────────────────

/// This server's endpoint for the screen, or that it has none.
pub fn endpoint_words(s: &DiscoveryStatus) -> (out: Msg)
    ensures
        match s.endpoint_id {
            Some(id) => reads(out, printed(id@, 64)),
            None => out == Msg::Key("p2p.invite_no_endpoint"),
        },
{
    match &s.endpoint_id {
        Some(id) => Msg::Raw(printable(id.as_str(), 64)),
        None => Msg::Key("p2p.invite_no_endpoint"),
    }
}

/// This server's ticket for the screen, or that it has none.
pub fn ticket_words(s: &DiscoveryStatus) -> (out: Msg)
    ensures
        match s.ticket {
            Some(t) => reads(out, printed(t@, 4096)),
            None => out == Msg::Key("p2p.invite_no_endpoint"),
        },
{
    match &s.ticket {
        Some(t) => Msg::Raw(printable(t.as_str(), 4096)),
        None => Msg::Key("p2p.invite_no_endpoint"),
    }
}

// ── The settings ─────────────────────────────────────────────────────────

/// A row of the settings: its key, its name, its value, a hint, and what it
/// sets, if it can be set here.
#[derive(Debug, PartialEq)]
pub struct ConfigRow {
    pub key: char,
    pub label: &'static str,
    pub value: Msg,
    pub hint: &'static str,
    pub setting: Option<DiscoverySetting>,
}

pub open spec fn count_of(key: &'static str, n: int) -> Msg {
    one(key, "n", Arg::Nat(n as u64))
}

/// The six settings.
pub open spec fn config(s: DiscoveryStatus, auto_fetch: bool) -> Seq<ConfigRow> {
    seq![
        ConfigRow {
            key: '1',
            label: "p2p.config_storage",
            value: count_of("p2p.value_mb", s.max_peer_db_storage_mb as int),
            hint: "p2p.config_storage_hint",
            setting: Some(DiscoverySetting::MaxStorageMb),
        },
        ConfigRow {
            key: '2',
            label: "p2p.config_retention",
            value: if s.peer_retention_days > 0 {
                count_of("p2p.value_days_silence", s.peer_retention_days as int)
            } else {
                Msg::Key("p2p.value_never")
            },
            hint: "p2p.config_retention_hint",
            setting: Some(DiscoverySetting::PeerRetentionDays),
        },
        ConfigRow {
            key: '3',
            label: "p2p.config_autofetch",
            value: if !auto_fetch {
                Msg::Key("p2p.value_off")
            } else if s.auto_fetch_count == 0 {
                Msg::Key("p2p.value_paused")
            } else {
                count_of("p2p.value_servers", s.auto_fetch_count as int)
            },
            hint: "p2p.config_autofetch_hint",
            setting: Some(DiscoverySetting::AutoFetchCount),
        },
        ConfigRow {
            key: '4',
            label: "p2p.config_rotation",
            value: if s.rotation_days > 0 {
                count_of("p2p.value_days", s.rotation_days as int)
            } else {
                Msg::Key("p2p.value_never")
            },
            hint: "p2p.config_rotation_hint",
            setting: Some(DiscoverySetting::RotationDays),
        },
        ConfigRow {
            key: '5',
            label: "p2p.config_memory",
            value: if s.watchdog.max_rss_mb > 0 {
                count_of("p2p.value_mb", s.watchdog.max_rss_mb as int)
            } else {
                Msg::Key("p2p.tile_memory_off")
            },
            hint: "p2p.config_memory_hint",
            setting: Some(DiscoverySetting::SidecarMaxRssMb),
        },
        ConfigRow {
            key: ' ',
            label: "p2p.config_seeds",
            value: Msg::Key(if s.community_seeds { "p2p.value_on" } else { "p2p.value_off" }),
            hint: "p2p.config_seeds_hint",
            setting: None,
        },
    ]
}

fn counted(key: &'static str, n: u64) -> (out: Msg)
    ensures
        out == count_of(key, n as int),
{
    Msg::One(key, Fill { name: "n", arg: Arg::Nat(n) })
}

fn counted_or(key: &'static str, n: u64, none: &'static str) -> (out: Msg)
    ensures
        out == (if n > 0 { count_of(key, n as int) } else { Msg::Key(none) }),
{
    if n > 0 { counted(key, n) } else { Msg::Key(none) }
}

pub fn config_rows(room: &Room, s: &DiscoveryStatus) -> (out: Vec<ConfigRow>)
    ensures
        out@ == config(*s, room.catalog.auto_fetch),
{
    let fetch = if !room.catalog.auto_fetch {
        Msg::Key("p2p.value_off")
    } else {
        counted_or("p2p.value_servers", s.auto_fetch_count as u64, "p2p.value_paused")
    };
    let mut out: Vec<ConfigRow> = Vec::new();
    out.push(
        ConfigRow {
            key: '1',
            label: "p2p.config_storage",
            value: counted("p2p.value_mb", s.max_peer_db_storage_mb),
            hint: "p2p.config_storage_hint",
            setting: Some(DiscoverySetting::MaxStorageMb),
        },
    );
    out.push(
        ConfigRow {
            key: '2',
            label: "p2p.config_retention",
            value: counted_or("p2p.value_days_silence", s.peer_retention_days as u64, "p2p.value_never"),
            hint: "p2p.config_retention_hint",
            setting: Some(DiscoverySetting::PeerRetentionDays),
        },
    );
    out.push(
        ConfigRow {
            key: '3',
            label: "p2p.config_autofetch",
            value: fetch,
            hint: "p2p.config_autofetch_hint",
            setting: Some(DiscoverySetting::AutoFetchCount),
        },
    );
    out.push(
        ConfigRow {
            key: '4',
            label: "p2p.config_rotation",
            value: counted_or("p2p.value_days", s.rotation_days as u64, "p2p.value_never"),
            hint: "p2p.config_rotation_hint",
            setting: Some(DiscoverySetting::RotationDays),
        },
    );
    out.push(
        ConfigRow {
            key: '5',
            label: "p2p.config_memory",
            value: counted_or("p2p.value_mb", s.watchdog.max_rss_mb, "p2p.tile_memory_off"),
            hint: "p2p.config_memory_hint",
            setting: Some(DiscoverySetting::SidecarMaxRssMb),
        },
    );
    out.push(
        ConfigRow {
            key: ' ',
            label: "p2p.config_seeds",
            value: Msg::Key(if s.community_seeds { "p2p.value_on" } else { "p2p.value_off" }),
            hint: "p2p.config_seeds_hint",
            setting: None,
        },
    );
    proof {
        assert(out@ =~= config(*s, room.catalog.auto_fetch));
    }
    out
}

/// The columns of the settings; the hints only where there is room for more
/// than a few letters of them.
#[derive(Clone, Copy, Debug, PartialEq, Eq, Structural)]
pub struct ConfigColumns {
    pub label: u16,
    pub value: u16,
    pub hint: Option<u16>,
}

pub fn config_columns(pane: Rect) -> (out: ConfigColumns)
    ensures
        out.label == further(pane.x as int, 3),
        out.value == further(pane.x as int, 27),
        ({
            let hint = further(pane.x as int, 53);
            out.hint == (if pane.ends_at() > further(hint, 4) { Some(hint as u16) } else { None })
        }),
{
    let hint: u16 = pane.x.saturating_add(53);
    ConfigColumns {
        label: pane.x.saturating_add(3),
        value: pane.x.saturating_add(27),
        hint: if pane.right() > hint.saturating_add(4) { Some(hint) } else { None },
    }
}

/// What this server announces of itself: its name, and its description where
/// it has one.
pub fn announced(s: &DiscoveryStatus) -> (out: (String, Option<String>))
    ensures
        out.0@ == printed(s.server_name@, NAME_MAX as nat),
        is_text(
            out.1,
            if trimmed(s.server_description@).len() > 0 {
                Some(printed(s.server_description@, DESCRIPTION_MAX as nat))
            } else {
                None
            },
        ),
{
    let name = printable(s.server_name.as_str(), NAME_MAX);
    if trim(s.server_description.as_str()).as_str().is_empty() {
        (name, None)
    } else {
        (name, Some(printable(s.server_description.as_str(), DESCRIPTION_MAX)))
    }
}

/// The title, the label and the help of a setting's card.
pub open spec fn setting_keys(which: DiscoverySetting) -> (&'static str, &'static str, &'static str) {
    match which {
        DiscoverySetting::MaxStorageMb => (
            "p2p.setting_storage_title",
            "p2p.setting_storage_label",
            "p2p.setting_storage_help",
        ),
        DiscoverySetting::PeerRetentionDays => (
            "p2p.setting_retention_title",
            "p2p.setting_retention_label",
            "p2p.setting_retention_help",
        ),
        DiscoverySetting::AutoFetchCount => (
            "p2p.setting_autofetch_title",
            "p2p.setting_autofetch_label",
            "p2p.setting_autofetch_help",
        ),
        DiscoverySetting::RotationDays => (
            "p2p.setting_rotation_title",
            "p2p.setting_rotation_label",
            "p2p.setting_rotation_help",
        ),
        DiscoverySetting::SidecarMaxRssMb => (
            "p2p.setting_memory_title",
            "p2p.setting_memory_label",
            "p2p.setting_memory_help",
        ),
    }
}

pub fn setting_words(which: DiscoverySetting) -> (keys: (&'static str, &'static str, &'static str))
    ensures
        keys == setting_keys(which),
{
    match which {
        DiscoverySetting::MaxStorageMb => (
            "p2p.setting_storage_title",
            "p2p.setting_storage_label",
            "p2p.setting_storage_help",
        ),
        DiscoverySetting::PeerRetentionDays => (
            "p2p.setting_retention_title",
            "p2p.setting_retention_label",
            "p2p.setting_retention_help",
        ),
        DiscoverySetting::AutoFetchCount => (
            "p2p.setting_autofetch_title",
            "p2p.setting_autofetch_label",
            "p2p.setting_autofetch_help",
        ),
        DiscoverySetting::RotationDays => (
            "p2p.setting_rotation_title",
            "p2p.setting_rotation_label",
            "p2p.setting_rotation_help",
        ),
        DiscoverySetting::SidecarMaxRssMb => (
            "p2p.setting_memory_title",
            "p2p.setting_memory_label",
            "p2p.setting_memory_help",
        ),
    }
}

// ── The sheet of a server ────────────────────────────────────────────────

/// What a server's sheet says before its menu.
#[derive(Debug, PartialEq)]
pub struct SheetFacts {
    /// The endpoint, and when the server was last heard of.
    pub endpoint: String,
    pub seen: Option<Msg>,
    pub online: &'static str,
    pub figures: Msg,
    /// What is held of it, and what is to say of that.
    pub snapshot: Msg,
    pub stale: bool,
    pub pinned: bool,
    pub federation: Cell,
}

pub open spec fn are_facts(f: SheetFacts, p: CatalogPeer, relation: Relation, now: i64) -> bool {
    &&& f.endpoint@ == fingerprint(p.from@)
    &&& f.seen == (if is_timestamp(p.updated_at@) {
        Some(one("p2p.sheet_seen", "age", Arg::Phrase(Box::new(age(now - timestamp_value(p.updated_at@))))))
    } else {
        None
    })
    &&& f.online == (if p.online { "p2p.online" } else { "p2p.offline" })
    &&& f.figures == Msg::Two(
        "p2p.sheet_tracks",
        Fill { name: "tracks", arg: Arg::Count(p.payload.row_count) },
        Fill { name: "seeders", arg: Arg::Nat(p.seeders as u64) },
    )
    &&& match p.fetched {
        Some(h) => {
            &&& f.snapshot matches Msg::Two(key, when, size)
            &&& key == "p2p.sheet_snapshot_held"
            &&& when.name == "age"
            &&& when.arg matches Arg::Phrase(m)
            &&& is_age_of(*m, Some(h.fetched_at@), now)
            &&& size == (Fill { name: "size", arg: Arg::Bytes(h.size_bytes) })
            &&& f.stale == h.stale
            &&& f.pinned == h.pinned
        },
        None => f.snapshot == Msg::Key("p2p.sheet_snapshot_none") && !f.stale && !f.pinned,
    }
    &&& match relation {
        Relation::Unrelated => reads(f.federation.msg, "—"@) && f.federation.tone == Tone::Dim,
        Relation::Federated => f.federation == (Cell { msg: Msg::Key("p2p.sheet_fed_federated"), tone: Tone::Fine }),
        Relation::Theirs => f.federation == (Cell { msg: Msg::Key("p2p.sheet_fed_theirs"), tone: Tone::Gold }),
        Relation::Sent => f.federation == (Cell { msg: Msg::Key("p2p.sheet_fed_sent"), tone: Tone::Plain }),
    }
}

pub fn sheet_facts(p: &CatalogPeer, relation: Relation, now: i64) -> (f: SheetFacts)
    ensures
        are_facts(f, *p, relation, now),
{
    let seen = match iso_unix(p.updated_at.as_str()) {
        Some(t) => {
            let since = age_since(now, t);
            Some(Msg::One("p2p.sheet_seen", Fill { name: "age", arg: Arg::Phrase(Box::new(since)) }))
        },
        None => None,
    };
    let mut stale = false;
    let mut pinned = false;
    let snapshot = match &p.fetched {
        Some(h) => {
            stale = h.stale;
            pinned = h.pinned;
            let when = age_of(Some(h.fetched_at.as_str()), now);
            Msg::Two(
                "p2p.sheet_snapshot_held",
                Fill { name: "age", arg: Arg::Phrase(Box::new(when)) },
                Fill { name: "size", arg: Arg::Bytes(h.size_bytes) },
            )
        },
        None => Msg::Key("p2p.sheet_snapshot_none"),
    };
    let federation = match relation {
        Relation::Unrelated => Cell { msg: dash(), tone: Tone::Dim },
        Relation::Federated => Cell { msg: Msg::Key("p2p.sheet_fed_federated"), tone: Tone::Fine },
        Relation::Theirs => Cell { msg: Msg::Key("p2p.sheet_fed_theirs"), tone: Tone::Gold },
        Relation::Sent => Cell { msg: Msg::Key("p2p.sheet_fed_sent"), tone: Tone::Plain },
    };
    SheetFacts {
        endpoint: short_id(p.from.as_str()),
        seen,
        online: if p.online { "p2p.online" } else { "p2p.offline" },
        figures: Msg::Two(
            "p2p.sheet_tracks",
            Fill { name: "tracks", arg: Arg::Count(p.payload.row_count) },
            Fill { name: "seeders", arg: Arg::Nat(p.seeders as u64) },
        ),
        snapshot,
        stale,
        pinned,
        federation,
    }
}

/// A click on a row of the sheet: the row under the cursor runs, any other
/// takes the cursor.
pub fn sheet_click(i: usize, sel: usize) -> (act: Act)
    ensures
        act == (if i == sel { Act::SheetRun } else { Act::SheetPick(i) }),
{
    if i == sel { Act::SheetRun } else { Act::SheetPick(i) }
}

/// A click on a row of the blocked list: the row under the cursor is let in
/// again, any other takes the cursor.
pub fn blocked_click(i: usize, sel: usize) -> (act: Act)
    ensures
        act == (if i == sel { Act::BlockedRun } else { Act::BlockedPick(i) }),
{
    if i == sel { Act::BlockedRun } else { Act::BlockedPick(i) }
}

/// How tall the cards are that grow with what they list.
pub open spec fn sheet_rows(menu: int) -> int {
    10 + menu
}

pub open spec fn compose_rows(libraries: int) -> int {
    14 + (if libraries == 0 { 1 } else { (libraries + 2) / 3 })
}

pub open spec fn blocked_rows(blocked: int) -> int {
    6 + (if blocked == 0 { 1 } else { blocked })
}

/// A count of rows, as far as a screen goes.
fn rows_of(n: u64) -> (r: u16)
    ensures
        r == (if n > u16::MAX { u16::MAX as int } else { n as int }),
{
    if n > u16::MAX as u64 { u16::MAX } else { n as u16 }
}

/// How tall a server's sheet is.
pub fn sheet_height(menu: u32) -> (h: u16)
    ensures
        h == further(sheet_rows(menu as int), 0),
{
    rows_of(10 + menu as u64)
}

/// How tall the card of a request is: three libraries to a row.
pub fn compose_height(libraries: u32) -> (h: u16)
    ensures
        h == further(compose_rows(libraries as int), 0),
{
    rows_of(14 + (if libraries == 0 { 1 } else { (libraries as u64 + 2) / 3 }))
}

/// How tall the list of the blocked is.
pub fn blocked_height(blocked: u32) -> (h: u16)
    ensures
        h == further(blocked_rows(blocked as int), 0),
{
    rows_of(6 + (if blocked == 0 { 1 } else { blocked as u64 }))
}

/// Where the `i`-th library of a request stands in the card.
pub fn library_place(inner: Rect, i: u16) -> (r: Rect)
    ensures
        r == in_grid(
            Rect {
                x: further(inner.x as int, 1) as u16,
                y: further(inner.y as int, 11) as u16,
                width: left_of(inner.width as int, 2) as u16,
                height: 0,
            },
            i as int,
        ),
{
    grid_place(
        Rect {
            x: inner.x.saturating_add(1),
            y: inner.y.saturating_add(11),
            width: inner.width.saturating_sub(2),
            height: 0,
        },
        i,
    )
}

/// What the warning calls the server it cuts off: its name, or its fingerprint
/// where it is no longer known.
pub fn gate_name(room: &Room, id: &str) -> (out: String)
    ensures
        out@ == (match room.peer_of(id@) {
            Some(p) => shown_name(p.payload.name@, p.from@),
            None => fingerprint(id@),
        }),
{
    match room.peer(id) {
        Some(p) => display_name(p),
        None => short_id(id),
    }
}

// ── The fixed words ──────────────────────────────────────────────────────

/// The heads of the table's columns that the window has room for.
pub open spec fn column_keys(c: ServerColumns) -> Seq<&'static str> {
    seq!["p2p.col_server"] + (if c.tracks is Some { seq!["p2p.col_tracks"] } else { Seq::empty() })
        + (if c.seeders is Some { seq!["p2p.col_seeders"] } else { Seq::empty() })
        + seq!["p2p.col_online", "p2p.col_snapshot", "p2p.col_federation"]
}

pub fn column_words(c: ServerColumns) -> (out: Vec<&'static str>)
    ensures
        out@ == column_keys(c),
{
    let mut out: Vec<&'static str> = vec!["p2p.col_server"];
    if c.tracks.is_some() {
        out.push("p2p.col_tracks");
    }
    if c.seeders.is_some() {
        out.push("p2p.col_seeders");
    }
    out.push("p2p.col_online");
    out.push("p2p.col_snapshot");
    out.push("p2p.col_federation");
    proof {
        assert(out@ =~= column_keys(c));
    }
    out
}

/// What the page says off the network, top to bottom: the way in where there
/// is one, and the pitch.
pub open spec fn off_keys(s: DiscoveryStatus) -> Seq<&'static str> {
    (if s.binary_found || s.binary_fetchable {
        seq!["p2p.off_join", "p2p.off_requests", "p2p.off_requests_hint"]
    } else {
        Seq::empty()
    }) + seq![
        "p2p.off_pitch_1",
        "p2p.off_shared",
        "p2p.off_pitch_2a",
        "p2p.off_pitch_2b",
        "p2p.off_pitch_2c",
        "p2p.off_pitch_3",
    ]
}

pub fn off_page_words(s: &DiscoveryStatus) -> (out: Vec<&'static str>)
    ensures
        out@ == off_keys(*s),
{
    let mut out: Vec<&'static str> = Vec::new();
    if s.binary_found || s.binary_fetchable {
        out.push("p2p.off_join");
        out.push("p2p.off_requests");
        out.push("p2p.off_requests_hint");
    }
    out.push("p2p.off_pitch_1");
    out.push("p2p.off_shared");
    out.push("p2p.off_pitch_2a");
    out.push("p2p.off_pitch_2b");
    out.push("p2p.off_pitch_2c");
    out.push("p2p.off_pitch_3");
    proof {
        assert(out@ =~= off_keys(*s));
    }
    out
}

/// What the tips of the card that joins say: whether something is fetched
/// first.
pub fn join_tip(s: &DiscoveryStatus) -> (key: &'static str)
    ensures
        key == (if s.binary_found { "p2p.tip_join" } else { "p2p.tip_join_download" }),
{
    if s.binary_found { "p2p.tip_join" } else { "p2p.tip_join_download" }
}

/// What the pane of a tab says beside what it lists.
pub open spec fn pane_keys(room: Room, s: DiscoveryStatus) -> Seq<&'static str> {
    match room.tab {
        Tab::Stats => Seq::empty(),
        Tab::Activity => if room.activity@.len() == 0 {
            seq!["p2p.activity_note", "p2p.activity_empty"]
        } else {
            seq!["p2p.activity_note"]
        },
        Tab::Invite => seq!["p2p.invite_endpoint", "p2p.invite_ticket", "p2p.invite_ticket_hint"] + (if s.ticket is Some {
            seq!["p2p.invite_copy"]
        } else {
            Seq::empty()
        }) + seq!["p2p.invite_befriend", "p2p.invite_befriend_hint"],
        Tab::Config => seq!["p2p.config_announcing", "p2p.config_edit"],
    }
}

pub fn pane_words(room: &Room, s: &DiscoveryStatus) -> (out: Vec<&'static str>)
    ensures
        out@ == pane_keys(*room, *s),
{
    let out: Vec<&'static str> = match room.tab {
        Tab::Stats => Vec::new(),
        Tab::Activity => {
            if room.activity.len() == 0 {
                vec!["p2p.activity_note", "p2p.activity_empty"]
            } else {
                vec!["p2p.activity_note"]
            }
        },
        Tab::Invite => {
            if s.ticket.is_some() {
                vec![
                    "p2p.invite_endpoint",
                    "p2p.invite_ticket",
                    "p2p.invite_ticket_hint",
                    "p2p.invite_copy",
                    "p2p.invite_befriend",
                    "p2p.invite_befriend_hint",
                ]
            } else {
                vec![
                    "p2p.invite_endpoint",
                    "p2p.invite_ticket",
                    "p2p.invite_ticket_hint",
                    "p2p.invite_befriend",
                    "p2p.invite_befriend_hint",
                ]
            }
        },
        Tab::Config => vec!["p2p.config_announcing", "p2p.config_edit"],
    };
    proof {
        assert(out@ =~= pane_keys(*room, *s));
    }
    out
}

/// What the open card says, top to bottom, beside what it is about and lists.
pub open spec fn card_keys(room: Room) -> Seq<&'static str> {
    match room.modal {
        Modal::Closed => Seq::empty(),
        Modal::Sheet { .. } => seq!["p2p.sheet_endpoint", "p2p.sheet_online", "p2p.sheet_snapshot", "p2p.sheet_federation"],
        Modal::Federate(c) => seq!["p2p.compose_1", "p2p.compose_2", "p2p.compose_3", "p2p.compose_libraries"] + (if !c.loaded {
            seq!["p2p.compose_loading"]
        } else if c.libraries@.len() == 0 {
            seq!["p2p.compose_none"]
        } else {
            Seq::empty()
        }) + seq!["p2p.compose_send"],
        Modal::Identity(_) => seq!["p2p.identity_title", "p2p.identity_name_hint", "p2p.identity_description_hint", "p2p.identity_save"],
        Modal::Setting(d) => {
            let (title, label, help) = setting_keys(d.which);
            seq![title, help, label, "p2p.setting_save"]
        },
        Modal::Block(_) => seq!["p2p.block_1", "p2p.block_2", "p2p.block_keep", "p2p.block_confirm"],
        Modal::Leave => seq!["p2p.leave_title", "p2p.leave_1", "p2p.leave_2", "p2p.leave_stay", "p2p.leave_confirm"],
        Modal::Blocked(_) => seq!["p2p.blocked_title"] + (if room.status is None || room.status->0.blocked_peers@.len() == 0 {
            seq!["p2p.blocked_empty"]
        } else {
            Seq::empty()
        }) + seq!["p2p.blocked_unblock"],
    }
}

pub fn card_words(room: &Room) -> (out: Vec<&'static str>)
    ensures
        out@ == card_keys(*room),
{
    let out: Vec<&'static str> = match &room.modal {
        Modal::Closed => Vec::new(),
        Modal::Sheet { .. } => vec!["p2p.sheet_endpoint", "p2p.sheet_online", "p2p.sheet_snapshot", "p2p.sheet_federation"],
        Modal::Federate(c) => {
            let mut v: Vec<&'static str> = vec!["p2p.compose_1", "p2p.compose_2", "p2p.compose_3", "p2p.compose_libraries"];
            if !c.loaded {
                v.push("p2p.compose_loading");
            } else if c.libraries.len() == 0 {
                v.push("p2p.compose_none");
            }
            v.push("p2p.compose_send");
            v
        },
        Modal::Identity(_) => vec![
            "p2p.identity_title",
            "p2p.identity_name_hint",
            "p2p.identity_description_hint",
            "p2p.identity_save",
        ],
        Modal::Setting(d) => {
            let (title, label, help) = setting_words(d.which);
            vec![title, help, label, "p2p.setting_save"]
        },
        Modal::Block(_) => vec!["p2p.block_1", "p2p.block_2", "p2p.block_keep", "p2p.block_confirm"],
        Modal::Leave => vec!["p2p.leave_title", "p2p.leave_1", "p2p.leave_2", "p2p.leave_stay", "p2p.leave_confirm"],
        Modal::Blocked(_) => {
            let some = match &room.status {
                Some(s) => s.blocked_peers.len() > 0,
                None => false,
            };
            if some {
                vec!["p2p.blocked_title", "p2p.blocked_unblock"]
            } else {
                vec!["p2p.blocked_title", "p2p.blocked_empty", "p2p.blocked_unblock"]
            }
        },
    };
    proof {
        assert(out@ =~= card_keys(*room));
    }
    out
}

/// What the cards say that names something: how long the message or the name
/// is, whom a request goes to, whom the warning is about.
pub fn card_lines(room: &Room) -> (out: Vec<Msg>)
    ensures
        match room.modal {
            Modal::Federate(c) => out@.len() == 2 && out@[0] == one("p2p.compose_title", "name", Arg::Text(c.name)) && out@[1]
                == one("p2p.compose_message", "n", Arg::Nat(input_value(c.message).len() as u64)),
            Modal::Identity(d) => out@ == seq![
                one("p2p.identity_name", "n", Arg::Nat(input_value(d.name).len() as u64)),
                one("p2p.identity_description", "n", Arg::Nat(input_value(d.description).len() as u64)),
            ],
            Modal::Block(id) => out@.len() == 1 && says(
                out@[0],
                "p2p.block_title",
                "name",
                match room.peer_of(id@) {
                    Some(p) => shown_name(p.payload.name@, p.from@),
                    None => fingerprint(id@),
                },
            ),
            _ => out@.len() == 0,
        },
{
    let mut out: Vec<Msg> = Vec::new();
    match &room.modal {
        Modal::Federate(c) => {
            let n: usize = c.message.value().unicode_len();
            out.push(Msg::One("p2p.compose_title", Fill { name: "name", arg: Arg::Text(c.name.clone()) }));
            out.push(counted("p2p.compose_message", n as u64));
        },
        Modal::Identity(d) => {
            let n: usize = d.name.value().unicode_len();
            let m: usize = d.description.value().unicode_len();
            out.push(counted("p2p.identity_name", n as u64));
            out.push(counted("p2p.identity_description", m as u64));
        },
        Modal::Block(id) => {
            let name = gate_name(room, id.as_str());
            out.push(Msg::One("p2p.block_title", Fill { name: "name", arg: Arg::Text(name) }));
        },
        _ => {},
    }
    out
}

} // verus!
