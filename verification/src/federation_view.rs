//! How the federation room is shown: its tips, its state, the tables of
//! requests, tickets and peers, the form and the warnings.

use vstd::prelude::*;

use crate::federation::{age_of, decode_ticket, expiry_words, limits_words, preview_words, request_cancellable, request_finished, request_name, request_needs_answer, request_offer, request_status, Act, Family, FederationKey, FederationParams, FederationPeer, FederationRequest, Field, Form, FormKind, Modal, Room, Tab, TicketPreview, NAME_MAX};
use crate::layout::{table_view, tone_of, Cell, Rect, Tone};
use crate::msg::{dash, Arg, Fill, Msg};
use crate::text::{clip, fmt_bytes, join, printable, same, short_id, trim, without_zeroes};

verus! {

use crate::federation::{asserted_name, cancellable, cap_words, expiry, finished, is_age_of, is_offer_cell, is_preview, is_preview_words, is_ticket_doc, needs_answer, shown_name, status_of, status_words, ticket_doc};
use crate::layout::{further, left_of, row_tone, window};
use crate::msg::{filled, one, reads, says};
use crate::screen::{first_place, place_of};
use crate::text::{bytes_text, clipped, fingerprint, is_text, join_with, printed, texts, trimmed, unzeroed};

/// The smallest window that the room is drawn into.
pub const MIN_W: u16 = 80;

pub const MIN_H: u16 = 24;

/// How many requests may wait before the inbox is full.
pub const INBOX_FULL: usize = 50;

// ── The line of tips ─────────────────────────────────────────────────────

/// What the tips of the rows say: the rows, what works on the one under the
/// cursor, and how to leave it.
pub open spec fn row_hints(room: Room) -> Seq<&'static str> {
    let none = Seq::<&'static str>::empty();
    match room.tab {
        Tab::Requests => match room.cursor_request() {
            None => seq!["fed.hint_requests"],
            Some(r) => seq!["fed.hint_rows"] + (if needs_answer(r) { seq!["fed.hint_answer"] } else { none })
                + (if cancellable(r) { seq!["fed.hint_cancel"] } else { none }) + (if finished(r) {
                seq!["fed.hint_dismiss"]
            } else {
                none
            }) + seq!["fed.hint_deselect"],
        },
        Tab::Tickets => match room.cursor_key() {
            None => seq!["fed.hint_tickets"],
            Some(k) => seq!["fed.hint_rows"] + (if k.ticket is Some { seq!["fed.hint_copy"] } else { none })
                + seq!["fed.hint_limits_key"] + (if k.bound_endpoint_id is Some {
                seq!["fed.hint_reset"]
            } else {
                none
            }) + seq!["fed.hint_revoke_key", "fed.hint_deselect"],
        },
        Tab::Peers => match room.cursor_peer() {
            None => seq!["fed.hint_peers"],
            Some(_) => seq!["fed.hint_peer_selected"],
        },
    }
}

/// The tips for what has the keys, phrase after phrase.
pub open spec fn hints(room: Room) -> Seq<&'static str> {
    match room.modal {
        Modal::Form(f) => seq![
            match f.kind {
                FormKind::Mint => "fed.hint_mint",
                FormKind::Accept => "fed.hint_accept",
                FormKind::Limits => "fed.hint_limits",
            },
        ],
        Modal::Minted { .. } => seq!["fed.hint_minted"],
        Modal::PeerName { .. } => seq!["fed.hint_peer_name"],
        Modal::Decline(_) => seq!["fed.hint_decline"],
        Modal::Revoke(_) => seq!["fed.hint_revoke"],
        Modal::Forget(_) => seq!["fed.hint_forget"],
        Modal::TurnOff => seq!["fed.hint_turn_off"],
        Modal::Closed => if room.params is None {
            seq!["fed.hint_loading"]
        } else if !room.params->0.enabled {
            seq![if room.starting { "fed.hint_loading" } else { "fed.hint_off" }]
        } else if room.ticket_focus {
            seq!["fed.hint_ticket"]
        } else {
            row_hints(room)
        },
    }
}

fn just(key: &'static str) -> (out: Vec<&'static str>)
    ensures
        out@ == seq![key],
{
    let mut out: Vec<&'static str> = Vec::new();
    out.push(key);
    proof {
        assert(out@ =~= seq![key]);
    }
    out
}

fn request_tips(r: &FederationRequest) -> (out: Vec<&'static str>)
    ensures
        out@ == seq!["fed.hint_rows"] + (if needs_answer(*r) { seq!["fed.hint_answer"] } else { Seq::empty() })
            + (if cancellable(*r) { seq!["fed.hint_cancel"] } else { Seq::empty() })
            + (if finished(*r) { seq!["fed.hint_dismiss"] } else { Seq::empty() }) + seq!["fed.hint_deselect"],
{
    let mut out = just("fed.hint_rows");
    if request_needs_answer(r) {
        out.push("fed.hint_answer");
    }
    if request_cancellable(r) {
        out.push("fed.hint_cancel");
    }
    if request_finished(r) {
        out.push("fed.hint_dismiss");
    }
    out.push("fed.hint_deselect");
    proof {
        assert(out@ =~= seq!["fed.hint_rows"] + (if needs_answer(*r) { seq!["fed.hint_answer"] } else { Seq::empty() })
            + (if cancellable(*r) { seq!["fed.hint_cancel"] } else { Seq::empty() })
            + (if finished(*r) { seq!["fed.hint_dismiss"] } else { Seq::empty() }) + seq!["fed.hint_deselect"]);
    }
    out
}

fn ticket_tips(k: &FederationKey) -> (out: Vec<&'static str>)
    ensures
        out@ == seq!["fed.hint_rows"] + (if k.ticket is Some { seq!["fed.hint_copy"] } else { Seq::empty() })
            + seq!["fed.hint_limits_key"] + (if k.bound_endpoint_id is Some { seq!["fed.hint_reset"] } else { Seq::empty() })
            + seq!["fed.hint_revoke_key", "fed.hint_deselect"],
{
    let mut out = just("fed.hint_rows");
    if k.ticket.is_some() {
        out.push("fed.hint_copy");
    }
    out.push("fed.hint_limits_key");
    if k.bound_endpoint_id.is_some() {
        out.push("fed.hint_reset");
    }
    out.push("fed.hint_revoke_key");
    out.push("fed.hint_deselect");
    proof {
        assert(out@ =~= seq!["fed.hint_rows"] + (if k.ticket is Some { seq!["fed.hint_copy"] } else { Seq::empty() })
            + seq!["fed.hint_limits_key"] + (if k.bound_endpoint_id is Some { seq!["fed.hint_reset"] } else { Seq::empty() })
            + seq!["fed.hint_revoke_key", "fed.hint_deselect"]);
    }
    out
}

/// The line of tips names only what works right now.
pub fn footer_hint(room: &Room) -> (out: Vec<&'static str>)
    ensures
        out@ == hints(*room),
{
    match &room.modal {
        Modal::Form(f) => just(
            match f.kind {
                FormKind::Mint => "fed.hint_mint",
                FormKind::Accept => "fed.hint_accept",
                FormKind::Limits => "fed.hint_limits",
            },
        ),
        Modal::Minted { .. } => just("fed.hint_minted"),
        Modal::PeerName { .. } => just("fed.hint_peer_name"),
        Modal::Decline(_) => just("fed.hint_decline"),
        Modal::Revoke(_) => just("fed.hint_revoke"),
        Modal::Forget(_) => just("fed.hint_forget"),
        Modal::TurnOff => just("fed.hint_turn_off"),
        Modal::Closed => {
            if room.params.is_none() {
                return just("fed.hint_loading");
            }
            if !room.enabled() {
                return just(if room.starting { "fed.hint_loading" } else { "fed.hint_off" });
            }
            if room.ticket_focus {
                return just("fed.hint_ticket");
            }
            match room.tab {
                Tab::Requests => match room.selected_request() {
                    None => just("fed.hint_requests"),
                    Some(r) => request_tips(r),
                },
                Tab::Tickets => match room.selected_key() {
                    None => just("fed.hint_tickets"),
                    Some(k) => ticket_tips(k),
                },
                Tab::Peers => match room.selected_peer() {
                    None => just("fed.hint_peers"),
                    Some(_) => just("fed.hint_peer_selected"),
                },
            }
        },
    }
}

// ── The state ────────────────────────────────────────────────────────────

/// The endpoint runs and is reachable.
pub open spec fn connected(p: FederationParams) -> bool {
    p.running && p.online
}

/// What the endpoint does.
pub open spec fn endpoint_words(p: FederationParams) -> Seq<Cell> {
    if !p.available {
        seq![Cell { msg: Msg::Key("fed.state_unavailable"), tone: Tone::Gold }]
    } else if connected(p) {
        seq![
            Cell { msg: Msg::Key("fed.state_on"), tone: Tone::Fine },
            Cell { msg: Msg::Key("fed.state_relay"), tone: Tone::Plain },
        ]
    } else {
        seq![
            Cell { msg: Msg::Key("fed.state_on"), tone: Tone::Gold },
            Cell { msg: Msg::Key("fed.state_connecting"), tone: Tone::Plain },
        ]
    }
}

/// The state's row: what the endpoint does, its short id where it has one, and
/// whether the inbox is open.
pub open spec fn are_state_parts(out: Seq<Cell>, p: FederationParams, inbox: bool) -> bool {
    let first = endpoint_words(p);
    let n = first.len() as int;
    let inbox_cell = Cell {
        msg: Msg::Key(if inbox { "fed.state_inbox_open" } else { "fed.state_inbox_closed" }),
        tone: Tone::Plain,
    };
    match p.endpoint_id {
        Some(id) => {
            &&& out.len() == n + 2
            &&& out.take(n) == first
            &&& says(out[n].msg, "fed.state_endpoint", "id", fingerprint(id@)) && out[n].tone == Tone::Plain
            &&& out[n + 1] == inbox_cell
        },
        None => out == first.push(inbox_cell),
    }
}

pub fn state_parts(p: &FederationParams, inbox: bool) -> (out: Vec<Cell>)
    ensures
        are_state_parts(out@, *p, inbox),
{
    let mut out: Vec<Cell> = Vec::new();
    if !p.available {
        out.push(Cell { msg: Msg::Key("fed.state_unavailable"), tone: Tone::Gold });
    } else if p.running && p.online {
        out.push(Cell { msg: Msg::Key("fed.state_on"), tone: Tone::Fine });
        out.push(Cell { msg: Msg::Key("fed.state_relay"), tone: Tone::Plain });
    } else {
        out.push(Cell { msg: Msg::Key("fed.state_on"), tone: Tone::Gold });
        out.push(Cell { msg: Msg::Key("fed.state_connecting"), tone: Tone::Plain });
    }
    let ghost first = out@;
    if let Some(id) = &p.endpoint_id {
        let words = Msg::One("fed.state_endpoint", Fill { name: "id", arg: Arg::Text(short_id(id.as_str())) });
        out.push(Cell { msg: words, tone: Tone::Plain });
    }
    out.push(
        Cell { msg: Msg::Key(if inbox { "fed.state_inbox_open" } else { "fed.state_inbox_closed" }), tone: Tone::Plain },
    );
    proof {
        assert(first =~= endpoint_words(*p));
        assert(out@.take(first.len() as int) =~= first);
        if p.endpoint_id is None {
            assert(out@ =~= first.push(out@.last()));
        }
    }
    out
}

/// Whether the bar that says the endpoint is on its way is shown.
pub fn connecting(p: &FederationParams) -> (r: bool)
    ensures
        r == (p.available && !connected(*p)),
{
    p.available && !(p.running && p.online)
}

/// The name of a tab; the requests' carries how many wait on an answer.
pub fn tab_name(tab: Tab, pending: usize) -> (out: Msg)
    ensures
        out == (match tab {
            Tab::Requests => if pending > 0 {
                one("fed.tab_requests_n", "n", Arg::Nat(pending as u64))
            } else {
                Msg::Key("fed.tab_requests")
            },
            Tab::Tickets => Msg::Key("fed.tab_tickets"),
            Tab::Peers => Msg::Key("fed.tab_peers"),
        }),
{
    match tab {
        Tab::Requests => {
            if pending > 0 {
                Msg::One("fed.tab_requests_n", Fill { name: "n", arg: Arg::Nat(pending as u64) })
            } else {
                Msg::Key("fed.tab_requests")
            }
        },
        Tab::Tickets => Msg::Key("fed.tab_tickets"),
        Tab::Peers => Msg::Key("fed.tab_peers"),
    }
}

/// The remark beside the tabs.
pub fn tab_note(tab: Tab) -> (key: &'static str)
    ensures
        key == (match tab {
            Tab::Requests => "fed.note_requests",
            Tab::Tickets => "fed.note_tickets",
            Tab::Peers => "fed.note_peers",
        }),
{
    match tab {
        Tab::Requests => "fed.note_requests",
        Tab::Tickets => "fed.note_tickets",
        Tab::Peers => "fed.note_peers",
    }
}

/// The card that turns the endpoint on: its words and colour, and what a click
/// on it does. Nothing where there is no endpoint to turn on.
pub fn turn_on_card(p: &FederationParams, starting: bool, hovered: bool) -> (out: Option<(&'static str, Tone, Option<Act>)>)
    ensures
        out == (if !p.available {
            None
        } else if starting {
            Some(("fed.turning_on", Tone::Dim, None))
        } else {
            Some(("fed.turn_on", if hovered { Tone::Bright } else { Tone::Fine }, Some(Act::TurnOn)))
        }),
{
    if !p.available {
        None
    } else if starting {
        Some(("fed.turning_on", Tone::Dim, None))
    } else {
        Some(("fed.turn_on", if hovered { Tone::Bright } else { Tone::Fine }, Some(Act::TurnOn)))
    }
}

impl Room {
    /// The rows of a table of `len` that are in view: a cursor that moved
    /// since the last draw is followed, the wheel is left alone.
    pub fn rows_in_view(&mut self, len: usize, room: usize) -> (out: (usize, usize))
        ensures
            (out.0 as int, out.1 as int) == window(
                len as int,
                if old(self).sel != old(self).sel_anchor { old(self).sel } else { None },
                old(self).tscroll as int,
                room as int,
            ),
            *final(self) == (Room { sel_anchor: old(self).sel, tscroll: out.0, ..*old(self) }),
    {
        let moved = match (self.sel, self.sel_anchor) {
            (Some(a), Some(b)) => a != b,
            (None, None) => false,
            _ => true,
        };
        self.sel_anchor = self.sel;
        let reveal = if moved { self.sel } else { None };
        let (first, visible) = table_view(len, reveal, self.tscroll, room);
        self.tscroll = first;
        (first, visible)
    }
}

// ── The tables ───────────────────────────────────────────────────────────

/// The columns of the requests: the message gets what the others leave.
#[derive(Clone, Copy, Debug, PartialEq, Eq, Structural)]
pub struct RequestColumns {
    pub message: u16,
    pub message_width: u16,
    pub status: u16,
    pub age: u16,
}

pub const REQUEST_SERVER_W: u16 = 18;

pub const REQUEST_STATUS_W: u16 = 20;

pub const REQUEST_AGE_W: u16 = 6;

pub open spec fn request_places(x: int, width: int) -> RequestColumns {
    let w = left_of(width, 50);
    let message = further(x, 20);
    let status = further(further(message, w), 2);
    RequestColumns {
        message: message as u16,
        message_width: w as u16,
        status: status as u16,
        age: further(status, 22) as u16,
    }
}

pub fn request_columns(table: Rect) -> (out: RequestColumns)
    ensures
        out == request_places(table.x as int, table.width as int),
{
    let taken: u16 = REQUEST_SERVER_W + 2 + REQUEST_STATUS_W + 2 + REQUEST_AGE_W + 2;
    let message_width: u16 = table.width.saturating_sub(taken);
    let message: u16 = table.x.saturating_add(REQUEST_SERVER_W + 2);
    let status: u16 = message.saturating_add(message_width).saturating_add(2);
    RequestColumns { message, message_width, status, age: status.saturating_add(REQUEST_STATUS_W + 2) }
}

/// The columns of the tickets: the limits get what the others leave, and eight
/// cells at least.
#[derive(Clone, Copy, Debug, PartialEq, Eq, Structural)]
pub struct TicketColumns {
    pub libraries: u16,
    pub limits: u16,
    pub limits_width: u16,
    pub today: u16,
    pub last: u16,
    pub claimed: u16,
}

pub const TICKET_NAME_W: u16 = 16;

pub const TICKET_LIBRARIES_W: u16 = 16;

pub const TICKET_TODAY_W: u16 = 6;

pub const TICKET_LAST_W: u16 = 9;

pub const TICKET_CLAIMED_W: u16 = 9;

pub open spec fn ticket_places(x: int, width: int) -> TicketColumns {
    let rest = left_of(width, 66);
    let w = if rest > 8 { rest } else { 8 };
    let libraries = further(x, 18);
    let limits = further(libraries, 18);
    let today = further(further(limits, w), 2);
    let last = further(today, 8);
    TicketColumns {
        libraries: libraries as u16,
        limits: limits as u16,
        limits_width: w as u16,
        today: today as u16,
        last: last as u16,
        claimed: further(last, 11) as u16,
    }
}

pub fn ticket_columns(table: Rect) -> (out: TicketColumns)
    ensures
        out == ticket_places(table.x as int, table.width as int),
{
    let taken: u16 = TICKET_NAME_W + 2 + TICKET_LIBRARIES_W + 2 + TICKET_TODAY_W + 2 + TICKET_LAST_W + 2 + TICKET_CLAIMED_W + 2;
    let rest: u16 = table.width.saturating_sub(taken);
    let limits_width: u16 = if rest > 8 { rest } else { 8 };
    let libraries: u16 = table.x.saturating_add(TICKET_NAME_W + 2);
    let limits: u16 = libraries.saturating_add(TICKET_LIBRARIES_W + 2);
    let today: u16 = limits.saturating_add(limits_width).saturating_add(2);
    let last: u16 = today.saturating_add(TICKET_TODAY_W + 2);
    TicketColumns { libraries, limits, limits_width, today, last, claimed: last.saturating_add(TICKET_LAST_W + 2) }
}

/// The columns of the peers: the status gets what the others leave, and ten
/// cells at least.
#[derive(Clone, Copy, Debug, PartialEq, Eq, Structural)]
pub struct PeerColumns {
    pub status: u16,
    pub status_width: u16,
    pub seen: u16,
    pub discovery: u16,
}

pub const PEER_SERVER_W: u16 = 22;

pub const PEER_SEEN_W: u16 = 12;

pub const PEER_DISCOVERY_W: u16 = 10;

pub open spec fn peer_places(x: int, width: int) -> PeerColumns {
    let rest = left_of(width, 50);
    let w = if rest > 10 { rest } else { 10 };
    let status = further(x, 24);
    let seen = further(further(status, w), 2);
    PeerColumns {
        status: status as u16,
        status_width: w as u16,
        seen: seen as u16,
        discovery: further(seen, 14) as u16,
    }
}

pub fn peer_columns(table: Rect) -> (out: PeerColumns)
    ensures
        out == peer_places(table.x as int, table.width as int),
{
    let taken: u16 = PEER_SERVER_W + 2 + PEER_SEEN_W + 2 + PEER_DISCOVERY_W + 2;
    let rest: u16 = table.width.saturating_sub(taken);
    let status_width: u16 = if rest > 10 { rest } else { 10 };
    let status: u16 = table.x.saturating_add(PEER_SERVER_W + 2);
    let seen: u16 = status.saturating_add(status_width).saturating_add(2);
    PeerColumns { status, status_width, seen, discovery: seen.saturating_add(PEER_SEEN_W + 2) }
}

/// In any window that the room is drawn into, the columns of each table stand
/// in order, none over another, and end within the table.
pub proof fn the_columns_fit(x: int, width: int)
    requires
        0 <= x,
        MIN_W - 4 <= width,
        x + width <= u16::MAX,
    ensures
        ({
            let r = request_places(x, width);
            &&& r.message == x + REQUEST_SERVER_W + 2
            &&& r.message + r.message_width + 2 == r.status
            &&& r.status + REQUEST_STATUS_W + 2 == r.age
            &&& r.age + REQUEST_AGE_W <= x + width
        }),
        ({
            let t = ticket_places(x, width);
            &&& t.libraries == x + TICKET_NAME_W + 2
            &&& t.limits == t.libraries + TICKET_LIBRARIES_W + 2
            &&& t.limits + t.limits_width + 2 == t.today
            &&& t.today + TICKET_TODAY_W + 2 == t.last
            &&& t.last + TICKET_LAST_W + 2 == t.claimed
            &&& t.claimed + TICKET_CLAIMED_W <= x + width
        }),
        ({
            let p = peer_places(x, width);
            &&& p.status == x + PEER_SERVER_W + 2
            &&& p.status + p.status_width + 2 == p.seen
            &&& p.seen + PEER_SEEN_W + 2 == p.discovery
            &&& p.discovery + PEER_DISCOVERY_W <= x + width
        }),
{
}

/// The colour of a request's state.
pub open spec fn family_tone(f: Family) -> Tone {
    match f {
        Family::Theirs => Tone::Gold,
        Family::Good => Tone::Fine,
        Family::Dead => Tone::Dim,
        Family::Mute => Tone::Dim,
        Family::Wait => Tone::Plain,
    }
}

pub fn family_style(f: Family) -> (t: Tone)
    ensures
        t == family_tone(f),
{
    match f {
        Family::Theirs => Tone::Gold,
        Family::Good => Tone::Fine,
        Family::Dead => Tone::Dim,
        Family::Mute => Tone::Dim,
        Family::Wait => Tone::Plain,
    }
}

/// A row of the requests.
#[derive(Debug, PartialEq)]
pub struct RequestRow {
    pub name: String,
    pub bold: bool,
    pub base: Tone,
    pub offer: Msg,
    pub status: Cell,
    pub age: Cell,
}

pub fn request_row(r: &FederationRequest, now: i64, selected: bool, hovered: bool) -> (row: RequestRow)
    ensures
        row.name@ == clipped(shown_name(asserted_name(*r), r.peer_endpoint_id@), REQUEST_SERVER_W as nat),
        row.bold == (selected || hovered),
        row.base == row_tone(selected, hovered, Tone::Plain),
        is_offer_cell(row.offer, *r),
        row.status.msg == status_words(*r),
        row.status.tone == row_tone(
            selected,
            hovered,
            family_tone(
                match status_of(r.direction@, r.state@) {
                    Some((_, family)) => family,
                    None => Family::Mute,
                },
            ),
        ),
        is_age_of(row.age.msg, Some(r.created_at@), now),
        row.age.tone == row_tone(selected, hovered, Tone::Dim),
{
    let (words, family) = request_status(r);
    RequestRow {
        name: clip(request_name(r).as_str(), REQUEST_SERVER_W),
        bold: selected || hovered,
        base: tone_of(selected, hovered, Tone::Plain),
        offer: request_offer(r),
        status: Cell { msg: words, tone: tone_of(selected, hovered, family_style(family)) },
        age: Cell { msg: age_of(Some(r.created_at.as_str()), now), tone: tone_of(selected, hovered, Tone::Dim) },
    }
}

/// A row of the tickets.
#[derive(Debug, PartialEq)]
pub struct TicketRow {
    pub name: String,
    pub bold: bool,
    pub base: Tone,
    pub libraries: String,
    /// The caps, a dot between every two, or that the ticket has expired.
    pub limits: Vec<Msg>,
    pub limits_tone: Tone,
    pub today: Cell,
    pub last: Cell,
    pub claimed: Cell,
}

/// What a key moved today: a figure, or a dash.
pub open spec fn is_today(c: Cell, bytes: u64, selected: bool, hovered: bool) -> bool {
    if bytes > 0 {
        reads(c.msg, unzeroed(bytes_text(bytes as nat))) && c.tone == row_tone(selected, hovered, Tone::Plain)
    } else {
        reads(c.msg, "—"@) && c.tone == row_tone(selected, hovered, Tone::Dim)
    }
}

/// When something last happened: an age, or never.
pub open spec fn is_last(c: Cell, ts: Option<String>, now: i64, selected: bool, hovered: bool) -> bool {
    match ts {
        Some(t) => is_age_of(c.msg, Some(t@), now) && c.tone == row_tone(selected, hovered, Tone::Plain),
        None => c.msg == Msg::Key("fed.never") && c.tone == row_tone(selected, hovered, Tone::Dim),
    }
}

fn last_cell(ts: &Option<String>, now: i64, selected: bool, hovered: bool) -> (c: Cell)
    ensures
        is_last(c, *ts, now, selected, hovered),
{
    match ts {
        Some(t) => Cell { msg: age_of(Some(t.as_str()), now), tone: tone_of(selected, hovered, Tone::Plain) },
        None => Cell { msg: Msg::Key("fed.never"), tone: tone_of(selected, hovered, Tone::Dim) },
    }
}

pub fn ticket_row(k: &FederationKey, now: i64, selected: bool, hovered: bool) -> (row: TicketRow)
    ensures
        row.name@ == clipped(printed(k.name@, NAME_MAX as nat), TICKET_NAME_W as nat),
        row.bold == (selected || hovered),
        row.base == row_tone(selected, hovered, Tone::Plain),
        row.libraries@ == join_with(texts(k.library_names@), ", "@),
        row.limits@ == (if k.expired { seq![Msg::Key("fed.exp_expired")] } else { cap_words(*k) }),
        row.limits_tone == row_tone(selected, hovered, if k.expired { Tone::Gold } else { Tone::Plain }),
        is_today(row.today, k.usage_today_bytes, selected, hovered),
        is_last(row.last, k.last_used, now, selected, hovered),
        row.claimed.msg == Msg::Key(if k.bound_endpoint_id is Some { "fed.claimed" } else { "fed.not_claimed" }),
        row.claimed.tone == row_tone(selected, hovered, if k.bound_endpoint_id is Some { Tone::Fine } else { Tone::Dim }),
        row.claimed.msg == Msg::Key("fed.claimed") <==> k.bound_endpoint_id is Some,
{
    let mut limits: Vec<Msg> = Vec::new();
    if k.expired {
        limits.push(Msg::Key("fed.exp_expired"));
        proof {
            assert(limits@ =~= seq![Msg::Key("fed.exp_expired")]);
        }
    } else {
        limits = limits_words(k);
    }
    let today = if k.usage_today_bytes > 0 {
        let figure = without_zeroes(fmt_bytes(k.usage_today_bytes).as_str());
        Cell { msg: Msg::Raw(figure), tone: tone_of(selected, hovered, Tone::Plain) }
    } else {
        Cell { msg: dash(), tone: tone_of(selected, hovered, Tone::Dim) }
    };
    let claimed = if k.bound_endpoint_id.is_some() {
        Cell { msg: Msg::Key("fed.claimed"), tone: tone_of(selected, hovered, Tone::Fine) }
    } else {
        Cell { msg: Msg::Key("fed.not_claimed"), tone: tone_of(selected, hovered, Tone::Dim) }
    };
    TicketRow {
        name: clip(printable(k.name.as_str(), NAME_MAX).as_str(), TICKET_NAME_W),
        bold: selected || hovered,
        base: tone_of(selected, hovered, Tone::Plain),
        libraries: join(&k.library_names, ", "),
        limits,
        limits_tone: tone_of(selected, hovered, if k.expired { Tone::Gold } else { Tone::Plain }),
        today,
        last: last_cell(&k.last_used, now, selected, hovered),
        claimed,
    }
}

/// A row of the peers.
#[derive(Debug, PartialEq)]
pub struct PeerRow {
    pub name: String,
    pub bold: bool,
    pub base: Tone,
    /// How the last test went; its colour is the dot's too.
    pub status: Cell,
    pub seen: Cell,
    /// Whether the peer's catalogue feeds discovery, and the box's colour.
    pub discovery: bool,
    pub discovery_tone: Tone,
}

/// How the last test of a peer went.
pub open spec fn is_peer_status(c: Cell, p: FederationPeer, selected: bool, hovered: bool) -> bool {
    match p.last_status {
        None => c.msg == Msg::Key("fed.never_tested") && c.tone == row_tone(selected, hovered, Tone::Dim),
        Some(s) => if s@ == "ok"@ {
            c.msg == Msg::Key("fed.status_ok") && c.tone == row_tone(selected, hovered, Tone::Fine)
        } else {
            reads(c.msg, printed(s@, 200)) && c.tone == row_tone(selected, hovered, Tone::Gold)
        },
    }
}

pub fn peer_row(p: &FederationPeer, now: i64, selected: bool, hovered: bool, box_hovered: bool) -> (row: PeerRow)
    ensures
        row.name@ == clipped(printed(p.name@, NAME_MAX as nat), (PEER_SERVER_W - 2) as nat),
        row.bold == (selected || hovered),
        row.base == row_tone(selected, hovered, Tone::Plain),
        is_peer_status(row.status, *p, selected, hovered),
        is_last(row.seen, p.last_seen, now, selected, hovered),
        row.discovery == p.use_discovery,
        row.discovery_tone == row_tone(selected, box_hovered, if p.use_discovery { Tone::Fine } else { Tone::Dim }),
{
    let status = match &p.last_status {
        None => Cell { msg: Msg::Key("fed.never_tested"), tone: tone_of(selected, hovered, Tone::Dim) },
        Some(s) => {
            if same(s.as_str(), "ok") {
                Cell { msg: Msg::Key("fed.status_ok"), tone: tone_of(selected, hovered, Tone::Fine) }
            } else {
                Cell { msg: Msg::Raw(printable(s.as_str(), 200)), tone: tone_of(selected, hovered, Tone::Gold) }
            }
        },
    };
    PeerRow {
        name: clip(printable(p.name.as_str(), NAME_MAX).as_str(), PEER_SERVER_W - 2),
        bold: selected || hovered,
        base: tone_of(selected, hovered, Tone::Plain),
        status,
        seen: last_cell(&p.last_seen, now, selected, hovered),
        discovery: p.use_discovery,
        discovery_tone: tone_of(selected, box_hovered, if p.use_discovery { Tone::Fine } else { Tone::Dim }),
    }
}

// ── What the note's line says of the row under the cursor ────────────────

/// A request's whole story: who, their endpoint, what they say and offer, why
/// it was turned down, and that a declined one is ignored for a while.
#[derive(Debug, PartialEq)]
pub struct RequestStory {
    pub name: String,
    pub endpoint: String,
    pub offer: Msg,
    pub reason: Option<String>,
    pub ignored: bool,
}

pub open spec fn is_story(s: RequestStory, r: FederationRequest) -> bool {
    &&& s.name@ == shown_name(asserted_name(r), r.peer_endpoint_id@)
    &&& s.endpoint@ == fingerprint(r.peer_endpoint_id@)
    &&& is_offer_cell(s.offer, r)
    &&& is_text(
        s.reason,
        match r.reject_reason {
            Some(why) => if trimmed(why@).len() > 0 { Some(printed(why@, 200)) } else { None },
            None => None,
        },
    )
    &&& s.ignored == (r.direction@ == "in"@ && r.state@ == "rejected"@)
}

pub fn request_story(r: &FederationRequest) -> (s: RequestStory)
    ensures
        is_story(s, *r),
{
    let reason = match &r.reject_reason {
        Some(why) => {
            if trim(why.as_str()).as_str().is_empty() {
                None
            } else {
                Some(printable(why.as_str(), 200))
            }
        },
        None => None,
    };
    RequestStory {
        name: request_name(r),
        endpoint: short_id(r.peer_endpoint_id.as_str()),
        offer: request_offer(r),
        reason,
        ignored: same(r.direction.as_str(), "in") && same(r.state.as_str(), "rejected"),
    }
}

/// Whether the note's line warns that the inbox is full: nothing else is on
/// it, no request is under the cursor, and too many wait.
pub fn inbox_full(room: &Room) -> (r: bool)
    ensures
        r == (room.note is None && room.busy is None && room.cursor_request() is None && room.accept_requests
            && room.requests@.filter(|r: FederationRequest| needs_answer(r)).len() >= INBOX_FULL),
{
    room.note.is_none() && room.busy.is_none() && room.selected_request().is_none() && room.accept_requests
        && room.pending_inbound() >= INBOX_FULL
}

/// A ticket's whole story: its name, its libraries, its expiry, who claimed it.
#[derive(Debug, PartialEq)]
pub struct TicketStory {
    pub name: String,
    pub libraries: String,
    pub expiry: Msg,
    pub claimed: Msg,
}

/// Who claimed a ticket, and when.
pub open spec fn is_claim(msg: Msg, k: FederationKey, now: i64) -> bool {
    match k.bound_endpoint_id {
        Some(id) => {
            &&& msg matches Msg::Two(key, who, when)
            &&& key == "fed.claimed_by"
            &&& filled(who, "id", fingerprint(id@))
            &&& when.name == "age"
            &&& when.arg matches Arg::Phrase(m)
            &&& is_age_of(
                *m,
                match k.bound_at {
                    Some(t) => Some(t@),
                    None => None,
                },
                now,
            )
        },
        None => msg == Msg::Key("fed.not_claimed_yet"),
    }
}

pub fn ticket_story(k: &FederationKey, now: i64) -> (s: TicketStory)
    ensures
        s.name@ == printed(k.name@, NAME_MAX as nat),
        s.libraries@ == join_with(texts(k.library_names@), ", "@),
        s.expiry == expiry(*k, now),
        is_claim(s.claimed, *k, now),
{
    let claimed = match &k.bound_endpoint_id {
        Some(id) => {
            let at = match &k.bound_at {
                Some(t) => age_of(Some(t.as_str()), now),
                None => age_of(None, now),
            };
            Msg::Two(
                "fed.claimed_by",
                Fill { name: "id", arg: Arg::Text(short_id(id.as_str())) },
                Fill { name: "age", arg: Arg::Phrase(Box::new(at)) },
            )
        },
        None => Msg::Key("fed.not_claimed_yet"),
    };
    TicketStory {
        name: printable(k.name.as_str(), NAME_MAX),
        libraries: join(&k.library_names, ", "),
        expiry: expiry_words(k, now),
        claimed,
    }
}

/// What a peer shares, as far as a test found out.
pub open spec fn is_shares(msg: Msg, name: Seq<char>, shares: Option<Vec<String>>) -> bool {
    let shown = printed(name, NAME_MAX as nat);
    match shares {
        Some(libs) => {
            &&& msg matches Msg::Two(key, who, what)
            &&& key == "fed.peer_shares"
            &&& filled(who, "name", shown)
            &&& if libs@.len() > 0 {
                filled(what, "libraries", join_with(texts(libs@), ", "@))
            } else {
                what.name == "libraries" && (what.arg matches Arg::Phrase(m) && *m == Msg::Key("fed.shares_nothing"))
            }
        },
        None => says(msg, "fed.peer_untested_note", "name", shown),
    }
}

pub fn peer_story(p: &FederationPeer, shares: Option<&Vec<String>>) -> (msg: Msg)
    ensures
        is_shares(
            msg,
            p.name@,
            match shares {
                Some(libs) => Some(*libs),
                None => None,
            },
        ),
{
    let name = printable(p.name.as_str(), NAME_MAX);
    match shares {
        Some(libs) => {
            let what = if libs.len() > 0 {
                Arg::Text(join(libs, ", "))
            } else {
                Arg::Phrase(Box::new(Msg::Key("fed.shares_nothing")))
            };
            Msg::Two("fed.peer_shares", Fill { name: "name", arg: Arg::Text(name) }, Fill { name: "libraries", arg: what })
        },
        None => Msg::One("fed.peer_untested_note", Fill { name: "name", arg: Arg::Text(name) }),
    }
}

/// What the paste box holds.
#[derive(Debug, PartialEq)]
pub enum Pasted {
    Nothing,
    /// What the ticket says of itself.
    Ticket(TicketPreview),
    /// No ticket.
    Invalid,
}

pub fn pasted(typed: &str) -> (out: Pasted)
    ensures
        out is Nothing <==> trimmed(typed@).len() == 0,
        trimmed(typed@).len() > 0 ==> (match ticket_doc(trimmed(typed@)) {
            Some(doc) => (out is Ticket <==> is_ticket_doc(doc)) && (out matches Pasted::Ticket(p) ==> is_preview(p, doc)),
            None => out is Invalid,
        }),
{
    let t = trim(typed);
    if t.as_str().is_empty() {
        return Pasted::Nothing;
    }
    match decode_ticket(t.as_str()) {
        Some(p) => Pasted::Ticket(p),
        None => Pasted::Invalid,
    }
}

impl Pasted {
    /// The words under the paste box and their colour.
    pub fn words(&self) -> (out: Option<(Vec<Msg>, Tone)>)
        ensures
            match *self {
                Pasted::Nothing => out is None,
                Pasted::Ticket(p) => out matches Some(o) && is_preview_words(o.0@, p) && o.1 == Tone::Fine,
                Pasted::Invalid => out matches Some(o) && o.0@ == seq![Msg::Key("fed.ticket_invalid")] && o.1 == Tone::Gold,
            },
    {
        match self {
            Pasted::Nothing => None,
            Pasted::Ticket(p) => Some((preview_words(p), Tone::Fine)),
            Pasted::Invalid => {
                let mut words: Vec<Msg> = Vec::new();
                words.push(Msg::Key("fed.ticket_invalid"));
                proof {
                    assert(words@ =~= seq![Msg::Key("fed.ticket_invalid")]);
                }
                Some((words, Tone::Gold))
            },
        }
    }
}

// ── The form ─────────────────────────────────────────────────────────────

/// The rows of names that a form lists, three to a row.
pub open spec fn library_rows(f: Form) -> int {
    if f.kind == FormKind::Limits {
        0
    } else if f.libraries@.len() == 0 {
        1
    } else {
        (f.libraries@.len() as int + 2) / 3
    }
}

/// How tall a form is, frame and all.
pub open spec fn form_rows(f: Form) -> int {
    match f.kind {
        FormKind::Mint => 19 + library_rows(f),
        FormKind::Accept => 15 + library_rows(f) + (if f.their_offer@.len() > 0 { 1int } else { 0 }),
        FormKind::Limits => 18,
    }
}

/// Which row of a form each part stands on, counted from the first inside the
/// frame.
#[derive(Clone, Copy, Debug, PartialEq)]
pub struct FormRows {
    /// The whole, frame and all.
    pub height: u64,
    /// Whom the form is about, or what it changes.
    pub about: Option<u64>,
    /// The name's field, four rows.
    pub name: Option<u64>,
    /// The line over the libraries, and the first row of their names.
    pub libraries: Option<(u64, u64)>,
    /// The line over the caps, and their fields, four rows.
    pub limits: u64,
    pub caps: u64,
    /// The current expiry, and the field of the new one, four rows.
    pub expiry: Option<(u64, u64)>,
    /// The box that takes up their offer.
    pub offer: Option<u64>,
    pub error: u64,
    pub buttons: u64,
}

pub open spec fn are_form_rows(r: FormRows, f: Form) -> bool {
    let head: int = if f.kind == FormKind::Mint { 7 } else { 3 };
    let limits = if f.kind == FormKind::Limits { head } else { head + 1 + library_rows(f) + 1 };
    &&& r.height == form_rows(f)
    &&& r.about == (if f.kind == FormKind::Mint { None } else { Some(1u64) })
    &&& r.name == (if f.kind == FormKind::Mint { Some(2u64) } else { None })
    &&& match r.libraries {
        Some((over, first)) => f.kind != FormKind::Limits && over == head && first == head + 1,
        None => f.kind == FormKind::Limits,
    }
    &&& r.limits == limits
    &&& r.caps == limits + 1
    &&& r.expiry == (if f.kind == FormKind::Limits { Some((9u64, 10u64)) } else { None })
    &&& match r.offer {
        Some(row) => f.kind == FormKind::Accept && f.their_offer@.len() > 0 && row == limits + 6,
        None => !(f.kind == FormKind::Accept && f.their_offer@.len() > 0),
    }
    &&& r.error == form_rows(f) - 4
    &&& r.buttons == form_rows(f) - 3
}

/// Where the parts of a form stand.
pub fn form_layout(f: &Form) -> (r: FormRows)
    requires
        f.libraries@.len() <= u32::MAX,
    ensures
        are_form_rows(r, *f),
{
    let n: usize = f.libraries.len();
    let offer = f.their_offer.len() > 0;
    match f.kind {
        FormKind::Mint => {
            let names: u64 = if n == 0 { 1 } else { (n as u64 + 2) / 3 };
            FormRows {
                height: 19 + names,
                about: None,
                name: Some(2),
                libraries: Some((7, 8)),
                limits: 9 + names,
                caps: 10 + names,
                expiry: None,
                offer: None,
                error: 15 + names,
                buttons: 16 + names,
            }
        },
        FormKind::Accept => {
            let names: u64 = if n == 0 { 1 } else { (n as u64 + 2) / 3 };
            let more: u64 = if offer { 1 } else { 0 };
            FormRows {
                height: 15 + names + more,
                about: Some(1),
                name: None,
                libraries: Some((3, 4)),
                limits: 5 + names,
                caps: 6 + names,
                expiry: None,
                offer: if offer { Some(11 + names) } else { None },
                error: 11 + names + more,
                buttons: 12 + names + more,
            }
        },
        FormKind::Limits => FormRows {
            height: 18,
            about: Some(1),
            name: None,
            libraries: None,
            limits: 3,
            caps: 4,
            expiry: Some((9, 10)),
            offer: None,
            error: 14,
            buttons: 15,
        },
    }
}

/// No part of a form stands on another's rows: the name over the libraries,
/// their names over the caps, the caps over what follows, that over the error,
/// the error over the buttons, on the last row inside the frame.
pub proof fn the_form_has_room(r: FormRows, f: Form)
    requires
        are_form_rows(r, f),
    ensures
        r.name matches Some(row) ==> (r.libraries matches Some((over, _)) && row + 4 < over),
        r.about matches Some(row) ==> row + 1 < r.limits,
        r.libraries matches Some((over, first)) ==> over < first && first + library_rows(f) < r.limits,
        r.limits < r.caps,
        r.caps + 4 < r.error,
        r.expiry matches Some((now, field)) ==> r.caps + 4 < now && now < field && field + 4 <= r.error,
        r.offer matches Some(row) ==> r.caps + 4 < row && row < r.error,
        r.error < r.buttons,
        r.buttons == r.height - 3,
{
}

/// The title of a form.
pub open spec fn is_form_title(msg: Msg, f: Form) -> bool {
    match f.kind {
        FormKind::Mint => msg == Msg::Key("fed.mint_title"),
        FormKind::Accept => msg == one("fed.accept_title", "name", Arg::Text(f.about)),
        FormKind::Limits => msg == one("fed.limits_title", "name", Arg::Text(f.about)),
    }
}

pub fn form_title(f: &Form) -> (msg: Msg)
    ensures
        is_form_title(msg, *f),
{
    match f.kind {
        FormKind::Mint => Msg::Key("fed.mint_title"),
        FormKind::Accept => Msg::One("fed.accept_title", Fill { name: "name", arg: Arg::Text(f.about.clone()) }),
        FormKind::Limits => Msg::One("fed.limits_title", Fill { name: "name", arg: Arg::Text(f.about.clone()) }),
    }
}

/// What a form says of the request it answers: the endpoint, and the message
/// in quotes or that there is none.
pub fn form_about(f: &Form) -> (out: (String, Msg))
    ensures
        out.0@ == fingerprint(f.endpoint_id@),
        if f.message@.len() == 0 {
            out.1 == Msg::Key("fed.no_message")
        } else {
            reads(out.1, seq!['\u{201c}'] + f.message@ + seq!['\u{201d}'])
        },
{
    let id = short_id(f.endpoint_id.as_str());
    if f.message.as_str().is_empty() {
        return (id, Msg::Key("fed.no_message"));
    }
    let mut quote: String = String::new();
    quote.push('\u{201c}');
    quote.append(f.message.as_str());
    quote.push('\u{201d}');
    proof {
        assert(quote@ =~= seq!['\u{201c}'] + f.message@ + seq!['\u{201d}']);
    }
    (id, Msg::Raw(quote))
}

/// The word on the button that sends a form, and the line over its libraries.
pub fn form_words(kind: FormKind) -> (out: (&'static str, Option<&'static str>))
    ensures
        out == (match kind {
            FormKind::Mint => ("fed.mint_submit", Some("fed.mint_libraries")),
            FormKind::Accept => ("fed.accept_submit", Some("fed.accept_libraries")),
            FormKind::Limits => ("fed.limits_submit", None::<&'static str>),
        }),
{
    match kind {
        FormKind::Mint => ("fed.mint_submit", Some("fed.mint_libraries")),
        FormKind::Accept => ("fed.accept_submit", Some("fed.accept_libraries")),
        FormKind::Limits => ("fed.limits_submit", None),
    }
}

/// The place of a field in the order of the fields, or the first.
pub open spec fn place_of_field(f: Form, field: Field) -> int {
    match place_of(f.field_list(), field) {
        Some(i) => i,
        None => 0,
    }
}

/// The place that a click on a field takes the focus to.
pub fn index_of(f: &Form, field: Field) -> (i: usize)
    ensures
        i == place_of_field(*f, field),
{
    let fields = f.fields();
    let mut i: usize = 0;
    while i < fields.len()
        invariant
            i <= fields@.len(),
            fields@ == f.field_list(),
            forall|k: int| 0 <= k < i ==> #[trigger] fields@[k] != field,
        decreases fields@.len() - i,
    {
        if fields[i] == field {
            proof {
                first_place(fields@, field, i as int);
            }
            return i;
        }
        i = i + 1;
    }
    proof {
        first_place(fields@, field, i as int);
    }
    0
}

/// A field of the caps' row.
#[derive(Clone, Copy, Debug, PartialEq)]
pub struct CapField {
    pub field: Field,
    pub label: &'static str,
    pub x: u16,
    pub width: u16,
}

/// The `i`-th field of the caps' row: sixteen cells from one to the next,
/// fourteen wide where the form is.
pub open spec fn cap_field(field: Field, label: &'static str, x: int, width: int, i: int) -> CapField {
    let rest = left_of(width, i * 16);
    CapField {
        field,
        label,
        x: further(x, i * 16) as u16,
        width: (if rest < 14 { rest } else { 14 }) as u16,
    }
}

/// The caps' row: the three caps, and the expiry of a key that is made here.
pub open spec fn cap_row(kind: FormKind, x: int, width: int) -> Seq<CapField> {
    let caps = seq![
        cap_field(Field::StreamKbps, "fed.field_kbps", x, width, 0),
        cap_field(Field::DailyMb, "fed.field_daily", x, width, 1),
        cap_field(Field::MaxStreams, "fed.field_streams", x, width, 2),
    ];
    if kind == FormKind::Limits {
        caps
    } else {
        caps.push(cap_field(Field::Expires, "fed.field_expires", x, width, 3))
    }
}

fn placed_cap(field: Field, label: &'static str, x: u16, width: u16, i: u16) -> (c: CapField)
    requires
        i < 4,
    ensures
        c == cap_field(field, label, x as int, width as int, i as int),
{
    let rest: u16 = width.saturating_sub(i * 16);
    CapField { field, label, x: x.saturating_add(i * 16), width: if rest < 14 { rest } else { 14 } }
}

pub fn cap_fields(kind: FormKind, x: u16, width: u16) -> (out: Vec<CapField>)
    ensures
        out@ == cap_row(kind, x as int, width as int),
{
    let mut out: Vec<CapField> = Vec::new();
    out.push(placed_cap(Field::StreamKbps, "fed.field_kbps", x, width, 0));
    out.push(placed_cap(Field::DailyMb, "fed.field_daily", x, width, 1));
    out.push(placed_cap(Field::MaxStreams, "fed.field_streams", x, width, 2));
    if kind != FormKind::Limits {
        out.push(placed_cap(Field::Expires, "fed.field_expires", x, width, 3));
    }
    proof {
        assert(out@ =~= cap_row(kind, x as int, width as int));
    }
    out
}

/// The colour of a box that can be ticked.
pub fn tick_tone(focused: bool, on: bool) -> (t: Tone)
    ensures
        t == (if focused {
            Tone::Selected
        } else if on {
            Tone::Fine
        } else {
            Tone::Dim
        }),
{
    if focused {
        Tone::Selected
    } else if on {
        Tone::Fine
    } else {
        Tone::Dim
    }
}

/// Their offer, as the form asks about it.
pub fn offer_words(f: &Form) -> (msg: Msg)
    ensures
        says(msg, "fed.accept_their_offer", "libraries", join_with(texts(f.their_offer@), ", "@)),
{
    Msg::One("fed.accept_their_offer", Fill { name: "libraries", arg: Arg::Text(join(&f.their_offer, ", ")) })
}

// ── The warnings ─────────────────────────────────────────────────────────

/// A warning: what it asks, what it warns of, and its two ways out.
#[derive(Debug, PartialEq)]
pub struct Gate {
    pub title: Msg,
    pub warning: Msg,
    pub more: &'static str,
    pub safe: (&'static str, Act),
    pub go: (&'static str, Act),
}

/// The name of the request, key or peer that a warning is about, for the screen;
/// nothing where it is gone.
pub open spec fn gate_subject(room: Room) -> Seq<char> {
    match room.modal {
        Modal::Decline(id) => match room.request_of(id) {
            Some(r) => shown_name(asserted_name(r), r.peer_endpoint_id@),
            None => Seq::empty(),
        },
        Modal::Revoke(id) => match room.key_of(id) {
            Some(k) => printed(k.name@, NAME_MAX as nat),
            None => Seq::empty(),
        },
        Modal::Forget(id) => match room.peer_of(id) {
            Some(p) => printed(p.name@, NAME_MAX as nat),
            None => Seq::empty(),
        },
        _ => Seq::empty(),
    }
}

/// The libraries that a key opens; nothing where it is gone.
pub open spec fn gate_libraries(room: Room) -> Seq<char> {
    match room.modal {
        Modal::Revoke(id) => match room.key_of(id) {
            Some(k) => join_with(texts(k.library_names@), ", "@),
            None => Seq::empty(),
        },
        _ => Seq::empty(),
    }
}

/// The warning that the room shows, if it shows one.
pub open spec fn is_gate(gate: Option<Gate>, room: Room) -> bool {
    let name = gate_subject(room);
    match room.modal {
        Modal::Decline(_) => {
            &&& gate matches Some(g)
            &&& says(g.title, "fed.decline_title", "name", name)
            &&& g.warning == Msg::Key("fed.decline_1")
            &&& g.more == "fed.decline_2"
            &&& g.safe == ("fed.gate_keep", Act::DeclineCancel)
            &&& g.go == ("fed.decline_confirm", Act::DeclineConfirm)
        },
        Modal::Revoke(_) => {
            &&& gate matches Some(g)
            &&& says(g.title, "fed.revoke_title", "name", name)
            &&& g.warning matches Msg::Two(key, who, what)
            &&& key == "fed.revoke_1"
            &&& filled(who, "name", name)
            &&& filled(what, "libraries", gate_libraries(room))
            &&& g.more == "fed.revoke_2"
            &&& g.safe == ("fed.gate_keep", Act::RevokeCancel)
            &&& g.go == ("fed.revoke_confirm", Act::RevokeConfirm)
        },
        Modal::Forget(_) => {
            &&& gate matches Some(g)
            &&& says(g.title, "fed.forget_title", "name", name)
            &&& g.warning == Msg::Key("fed.forget_1")
            &&& g.more == "fed.forget_2"
            &&& g.safe == ("fed.gate_keep", Act::ForgetCancel)
            &&& g.go == ("fed.forget_confirm", Act::ForgetConfirm)
        },
        Modal::TurnOff => gate == Some(
            Gate {
                title: Msg::Key("fed.off_title"),
                warning: Msg::Key("fed.off_1"),
                more: "fed.off_2",
                safe: ("fed.off_stay", Act::TurnOffCancel),
                go: ("fed.off_confirm", Act::TurnOffConfirm),
            },
        ),
        _ => gate is None,
    }
}

fn titled(key: &'static str, name: String) -> (msg: Msg)
    ensures
        says(msg, key, "name", name@),
{
    Msg::One(key, Fill { name: "name", arg: Arg::Text(name) })
}

pub fn gate_shown(room: &Room) -> (gate: Option<Gate>)
    ensures
        is_gate(gate, *room),
{
    match &room.modal {
        Modal::Decline(id) => {
            let name = match room.request(*id) {
                Some(r) => request_name(r),
                None => String::new(),
            };
            Some(
                Gate {
                    title: titled("fed.decline_title", name),
                    warning: Msg::Key("fed.decline_1"),
                    more: "fed.decline_2",
                    safe: ("fed.gate_keep", Act::DeclineCancel),
                    go: ("fed.decline_confirm", Act::DeclineConfirm),
                },
            )
        },
        Modal::Revoke(id) => {
            let (name, libraries) = match room.key_row(*id) {
                Some(k) => (printable(k.name.as_str(), NAME_MAX), join(&k.library_names, ", ")),
                None => (String::new(), String::new()),
            };
            Some(
                Gate {
                    title: titled("fed.revoke_title", name.clone()),
                    warning: Msg::Two(
                        "fed.revoke_1",
                        Fill { name: "name", arg: Arg::Text(name) },
                        Fill { name: "libraries", arg: Arg::Text(libraries) },
                    ),
                    more: "fed.revoke_2",
                    safe: ("fed.gate_keep", Act::RevokeCancel),
                    go: ("fed.revoke_confirm", Act::RevokeConfirm),
                },
            )
        },
        Modal::Forget(id) => {
            let name = match room.peer(*id) {
                Some(p) => printable(p.name.as_str(), NAME_MAX),
                None => String::new(),
            };
            Some(
                Gate {
                    title: titled("fed.forget_title", name),
                    warning: Msg::Key("fed.forget_1"),
                    more: "fed.forget_2",
                    safe: ("fed.gate_keep", Act::ForgetCancel),
                    go: ("fed.forget_confirm", Act::ForgetConfirm),
                },
            )
        },
        Modal::TurnOff => Some(
            Gate {
                title: Msg::Key("fed.off_title"),
                warning: Msg::Key("fed.off_1"),
                more: "fed.off_2",
                safe: ("fed.off_stay", Act::TurnOffCancel),
                go: ("fed.off_confirm", Act::TurnOffConfirm),
            },
        ),
        _ => None,
    }
}

/// What the card of a fresh ticket shows: the ticket, or that it could not be
/// written out, and whether there is something to copy.
pub fn minted_words(ticket: &Option<String>) -> (out: (Msg, bool))
    ensures
        match *ticket {
            Some(t) => reads(out.0, printed(t@, 4096)) && out.1,
            None => out == (Msg::Key("fed.minted_no_ticket"), false),
        },
{
    match ticket {
        Some(t) => (Msg::Raw(printable(t.as_str(), 4096)), true),
        None => (Msg::Key("fed.minted_no_ticket"), false),
    }
}

/// The buttons of the card of a fresh ticket: the one that closes it against
/// the right edge, the one that copies two cells left of it.
pub fn minted_buttons(right: u16, done: u16, copy: u16) -> (out: (u16, u16))
    ensures
        out.0 == left_of(right as int, further(done as int, 4)),
        out.1 == left_of(out.0 as int, further(further(copy as int, 4), 2)),
{
    let x: u16 = right.saturating_sub(done.saturating_add(4));
    (x, x.saturating_sub(copy.saturating_add(4).saturating_add(2)))
}

// ── The fixed words ──────────────────────────────────────────────────────

/// What the page says while the endpoint is off, top to bottom.
pub open spec fn off_keys(p: FederationParams, starting: bool) -> Seq<&'static str> {
    (if p.available {
        seq!["fed.state_off", if starting { "fed.turning_on" } else { "fed.turn_on" }]
    } else {
        seq!["fed.state_unavailable"]
    }) + seq!["fed.pitch_1a", "fed.pitch_1b", "fed.pitch_1c", "fed.pitch_credentials", "fed.pitch_2"]
}

pub fn off_words(p: &FederationParams, starting: bool) -> (out: Vec<&'static str>)
    ensures
        out@ == off_keys(*p, starting),
{
    let mut out: Vec<&'static str> = Vec::new();
    if p.available {
        out.push("fed.state_off");
        out.push(if starting { "fed.turning_on" } else { "fed.turn_on" });
    } else {
        out.push("fed.state_unavailable");
    }
    out.push("fed.pitch_1a");
    out.push("fed.pitch_1b");
    out.push("fed.pitch_1c");
    out.push("fed.pitch_credentials");
    out.push("fed.pitch_2");
    proof {
        assert(out@ =~= off_keys(*p, starting));
    }
    out
}

/// The heads of the open tab's columns.
pub open spec fn column_keys(tab: Tab) -> Seq<&'static str> {
    match tab {
        Tab::Requests => seq!["fed.col_server", "fed.col_offer", "fed.col_status", "fed.col_age"],
        Tab::Tickets => seq![
            "fed.col_name",
            "fed.col_libraries",
            "fed.col_limits",
            "fed.col_today",
            "fed.col_last_used",
            "fed.col_claimed",
        ],
        Tab::Peers => seq!["fed.col_server", "fed.col_status", "fed.col_last_seen", "fed.col_discovery"],
    }
}

pub fn column_words(tab: Tab) -> (out: Vec<&'static str>)
    ensures
        out@ == column_keys(tab),
{
    let out: Vec<&'static str> = match tab {
        Tab::Requests => vec!["fed.col_server", "fed.col_offer", "fed.col_status", "fed.col_age"],
        Tab::Tickets => vec![
            "fed.col_name",
            "fed.col_libraries",
            "fed.col_limits",
            "fed.col_today",
            "fed.col_last_used",
            "fed.col_claimed",
        ],
        Tab::Peers => vec!["fed.col_server", "fed.col_status", "fed.col_last_seen", "fed.col_discovery"],
    };
    proof {
        assert(out@ =~= column_keys(tab));
    }
    out
}

/// What the open tab says over its table.
pub open spec fn tab_keys(tab: Tab) -> Seq<&'static str> {
    match tab {
        Tab::Requests => seq!["fed.inbox_label", "fed.inbox_hint"],
        Tab::Tickets => seq!["fed.mint_card"],
        Tab::Peers => seq!["fed.paste_label", "fed.paste_hint"],
    }
}

pub fn tab_words(tab: Tab) -> (out: Vec<&'static str>)
    ensures
        out@ == tab_keys(tab),
{
    let out: Vec<&'static str> = match tab {
        Tab::Requests => vec!["fed.inbox_label", "fed.inbox_hint"],
        Tab::Tickets => vec!["fed.mint_card"],
        Tab::Peers => vec!["fed.paste_label", "fed.paste_hint"],
    };
    proof {
        assert(out@ =~= tab_keys(tab));
    }
    out
}

/// Where the open tab's table begins, under what stands over it, and how many
/// rows it has; none where there is no room for its head and a row.
pub fn table_place(tab: Tab, body: Rect) -> (r: Option<Rect>)
    ensures
        ({
            let over: int = match tab {
                Tab::Requests => 5,
                Tab::Tickets => 4,
                Tab::Peers => 6,
            };
            let height = left_of(body.height as int, over);
            r == (if height < 3 {
                None
            } else {
                Some(Rect { y: further(body.y as int, over) as u16, height: height as u16, ..body })
            })
        }),
{
    let over: u16 = match tab {
        Tab::Requests => 5,
        Tab::Tickets => 4,
        Tab::Peers => 6,
    };
    let height: u16 = body.height.saturating_sub(over);
    if height < 3 {
        None
    } else {
        Some(Rect { x: body.x, y: body.y.saturating_add(over), width: body.width, height })
    }
}

/// What stands in place of rows in an empty table.
pub fn empty_words(room: &Room) -> (key: &'static str)
    ensures
        key == (match room.tab {
            Tab::Requests => if room.accept_requests { "fed.empty_requests" } else { "fed.empty_requests_closed" },
            Tab::Tickets => "fed.empty_tickets",
            Tab::Peers => "fed.empty_peers",
        }),
{
    match room.tab {
        Tab::Requests => if room.accept_requests { "fed.empty_requests" } else { "fed.empty_requests_closed" },
        Tab::Tickets => "fed.empty_tickets",
        Tab::Peers => "fed.empty_peers",
    }
}

} // verus!
