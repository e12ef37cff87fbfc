//! The federation room.

use base64::Engine;
use mstream_admin::clock::{iso_at, iso_unix};
use mstream_admin::federation::{age_of, decode_ticket, expiry_words, handle_key, limits_words, offer_names, read_ticket, request_cancellable, request_finished, request_needs_answer, request_status, start, ticked_names, Act, Did, Done, ExpiryChange, Family, FederationKey, FederationLimits, FederationParams, FederationPeer, FederationRequest, Field, Form, FormKind, Loaded, MintedKey, Modal, Op, PeerTest, Room, Tab, TicketPreview};
use mstream_admin::federation_view::{cap_fields, column_words, connecting, empty_words, footer_hint, form_about, form_layout, form_title, form_words, gate_shown, inbox_full, index_of, minted_words, off_words, offer_words, pasted, peer_columns, peer_row, peer_story, request_columns, request_row, request_story, state_parts, tab_name, tab_note, tab_words, table_place, ticket_columns, ticket_row, ticket_story, turn_on_card, Pasted, INBOX_FULL, PEER_DISCOVERY_W, PEER_SEEN_W, PEER_SERVER_W, REQUEST_AGE_W, REQUEST_SERVER_W, REQUEST_STATUS_W, TICKET_CLAIMED_W, TICKET_LAST_W, TICKET_LIBRARIES_W, TICKET_NAME_W, TICKET_TODAY_W};
use mstream_admin::hub::room_column;
use mstream_admin::layout::{grid_place, note_fits, tab_places, Rect};
use mstream_admin::line::{Code, Key};
use mstream_admin::msg::{ApiError, Arg, Fill, Msg};
use mstream_admin::screen::Outcome;
use mstream_admin::text::{clip, fmt_bytes, fmt_count};

fn phrase(key: &'static str) -> &'static str {
    match key {
        "fed.state_off" => "• off — federation is not running",
        "fed.state_unavailable" => "• unavailable — Iroh has no prebuilt binary for this platform",
        "fed.turn_on" => "Turn federation on",
        "fed.turning_on" => "Starting federation…",
        "fed.pitch_credentials" => "TICKETS ARE CREDENTIALS",
        "fed.hint_off" => "Enter turn on · Esc back",
        "fed.hint_loading" => "Esc back",
        "fed.busy_turning_on" => "starting the federation endpoint…",
        "fed.unavailable_note" => "Iroh has no prebuilt binary for this platform",
        "fed.fail_turn_on" => "could not turn federation on",
        "fed.state_on" => "• on",
        "fed.state_relay" => " — connected to relay",
        "fed.state_connecting" => " — connecting to the relay…",
        "fed.state_endpoint" => " · endpoint %{id}",
        "fed.state_inbox_open" => " · inbox open",
        "fed.state_inbox_closed" => " · inbox closed",
        "fed.polls" => "polls every 30 s",
        "fed.connecting_note" => "the endpoint is coming up",
        "fed.tab_requests_n" => "Requests · %{n}",
        "fed.tab_requests" => "Requests",
        "fed.tab_tickets" => "Tickets",
        "fed.tab_peers" => "Peers",
        "fed.note_requests" => "no access changes hands until a request is accepted",
        "fed.note_tickets" => "a ticket is a key to your libraries",
        "fed.note_peers" => "servers you can read",
        "fed.inbox_label" => "Accept requests from the discovery network",
        "fed.inbox_hint" => "Anyone on the network may ask.",
        "fed.col_server" => "SERVER",
        "fed.col_offer" => "MESSAGE / OFFER",
        "fed.col_status" => "STATUS",
        "fed.col_age" => "AGE",
        "fed.offers" => "offers: %{libraries}",
        "fed.you_offered" => "you offered: %{libraries}",
        "fed.st_needs_answer" => "needs your answer",
        "fed.st_waiting_them" => "waiting on them",
        "fed.st_sending" => "sending…",
        "fed.st_retry" => " · retry #%{n}",
        "fed.st_federated" => "federated",
        "fed.st_declined" => "declined",
        "fed.st_inbox_closed" => "their inbox is closed",
        "fed.st_withdrawn" => "withdrawn",
        "fed.st_sending_ticket" => "sending your ticket…",
        "fed.hint_requests" => "↑↓ select · ←→ tab · s inbox · x turn off · Esc back",
        "fed.hint_rows" => "↑↓ rows",
        "fed.hint_answer" => " · a accept · n decline",
        "fed.hint_cancel" => " · c withdraw",
        "fed.hint_dismiss" => " · d dismiss",
        "fed.hint_deselect" => " · Esc deselect",
        "fed.hint_copy" => " · y copy ticket",
        "fed.hint_limits_key" => " · l limits",
        "fed.hint_reset" => " · b reset binding",
        "fed.hint_revoke_key" => " · r revoke",
        "fed.hint_peer_selected" => "↑↓ rows · t test · s discovery · r forget · Esc deselect",
        "fed.hint_decline" => "y decline · Esc keep",
        "fed.hint_revoke" => "y revoke · Esc keep",
        "fed.hint_turn_off" => "y turn off · Esc stay on",
        "fed.hint_accept" => "Tab next field · Space toggle · Enter accept · Esc cancel",
        "fed.hint_minted" => "y copy · Esc done",
        "fed.hint_ticket" => "type or paste the ticket · Enter add · Esc leave the field",
        "fed.decline_title" => "Decline %{name}'s request?",
        "fed.decline_1" => "They are told, and asking again is ignored for seven days.",
        "fed.done_inbox_off" => "inbox closed",
        "fed.form_incomplete" => "name it and tick at least one library",
        "fed.accept_title" => "Accept — share libraries with %{name}",
        "fed.accept_libraries" => "LIBRARIES THEY CAN READ",
        "fed.accept_their_offer" => "Add their libraries too (%{libraries}) when they share back",
        "fed.field_kbps" => "STREAM KBPS",
        "fed.field_expires" => "EXPIRES (DAYS)",
        "fed.fail_accept" => "could not accept",
        "fed.done_accepted" => "accepted — the ticket is on its way",
        "fed.mint_title" => "New federation ticket",
        "fed.mint_name" => "WHO IS THIS FOR?",
        "fed.mint_submit" => "Mint ticket ▸",
        "fed.minted_title" => "Ticket for %{name}",
        "fed.minted_text" => "Whoever holds it can read %{libraries} until it is claimed or revoked.",
        "fed.minted_copy" => "y copy",
        "fed.minted_done" => "Done",
        "fed.minted_no_ticket" => "the key was made, but no ticket came back",
        "fed.mint_card" => "Mint a ticket for a friend",
        "fed.col_name" => "NAME",
        "fed.col_libraries" => "LIBRARIES",
        "fed.col_limits" => "LIMITS",
        "fed.col_today" => "TODAY",
        "fed.col_last_used" => "LAST USED",
        "fed.col_claimed" => "CLAIMED",
        "fed.lim_mbps" => "%{n} Mbps",
        "fed.lim_kbps" => "%{n} kbps",
        "fed.lim_gb_day" => "%{n} GB/day",
        "fed.lim_mb_day" => "%{n} MB/day",
        "fed.lim_stream_one" => "1 stream",
        "fed.lim_streams" => "%{n} streams",
        "fed.lim_unlimited" => "unlimited",
        "fed.claimed" => "✓ claimed",
        "fed.not_claimed" => "not yet",
        "fed.claimed_by" => "claimed by %{id} %{age} ago",
        "fed.not_claimed_yet" => "not yet claimed",
        "fed.exp_expired" => "expired",
        "fed.exp_never" => "never expires",
        "fed.exp_today" => "expires today",
        "fed.exp_in_days" => "expires in %{n} days",
        "fed.limits_title" => "Limits for %{name}",
        "fed.expiry_current" => "EXPIRY · currently ",
        "fed.field_new_expiry" => "NEW EXPIRY",
        "fed.done_limits" => "limits saved",
        "fed.revoke_title" => "Revoke %{name}'s ticket?",
        "fed.revoke_1" => "Its server is cut off at once: %{name} can no longer read %{libraries}.",
        "fed.ticket_invalid" => "that doesn't look like a federation ticket",
        "fed.unnamed" => "an unnamed server",
        "fed.preview_shares" => " — shares %{libraries}",
        "fed.preview_until" => " · valid until %{date}",
        "fed.peer_name_title" => "Name this peer",
        "fed.peer_name_add" => "Add peer ▸",
        "fed.done_peer_added" => "peer added",
        "fed.status_ok" => "ok",
        "fed.never_tested" => "never tested",
        "fed.never" => "never",
        "fed.peer_untested_note" => "%{name} · t tests the connection",
        "fed.peer_shares" => "%{name} shares: %{libraries}",
        "fed.test_ok" => "%{name} shares: %{libraries}",
        "fed.test_failed" => "%{name} is unreachable: %{err}",
        "fed.shares_nothing" => "nothing",
        "fed.forget_title" => "Forget %{name}?",
        "fed.off_title" => "Turn federation off?",
        "fed.off_stay" => "◂ Stay on",
        "fed.load_failed" => "could not load the federation",
        "admin.gate_locked" => "the admin panel is locked",
        "p2p.age_now" => "now",
        "p2p.age_m" => "%{n}m",
        "p2p.age_h" => "%{n}h",
        "p2p.age_d" => "%{n}d",
        other => other,
    }
}

fn error_words(e: &ApiError) -> String {
    match e {
        ApiError::Unauthorized => "unauthorized".to_string(),
        ApiError::Forbidden(m) | ApiError::NotFound(m) => m.clone(),
        ApiError::Network(m) => format!("could not reach server: {m}"),
        ApiError::Server { status, message } => format!("server error {status}: {message}"),
        ApiError::Decode { endpoint, message } => format!("{endpoint}: {message}"),
    }
}

fn arg_words(a: &Arg) -> String {
    match a {
        Arg::Text(s) => s.clone(),
        Arg::Num(n) => n.to_string(),
        Arg::Nat(n) => n.to_string(),
        Arg::Count(n) => fmt_count(*n),
        Arg::TwoDigits(n) => format!("{n:02}"),
        Arg::Bytes(n) => fmt_bytes(*n),
        Arg::Ratio(a, b) => {
            let s = format!("{:.1}", *a as f64 / *b as f64);
            s.strip_suffix(".0").map(str::to_string).unwrap_or(s)
        }
        Arg::Phrase(m) => words(m),
    }
}

fn filled(key: &'static str, fills: &[&Fill]) -> String {
    let mut out = phrase(key).to_string();
    for f in fills {
        out = out.replace(&format!("%{{{}}}", f.name), &arg_words(&f.arg));
    }
    out
}

fn words(m: &Msg) -> String {
    match m {
        Msg::Raw(s) => s.clone(),
        Msg::Key(k) => phrase(k).to_string(),
        Msg::One(k, a) => filled(k, &[a]),
        Msg::Two(k, a, b) => filled(k, &[a, b]),
        Msg::Three(k, a, b, c) => filled(k, &[a, b, c]),
        Msg::Four(k, a, b, c, d) => filled(k, &[a, b, c, d]),
        Msg::Five(k, a, b, c, d, e) => filled(k, &[a, b, c, d, e]),
        Msg::Listed(k, i) => phrase(k).split(" · ").nth(*i as usize).unwrap_or("").to_string(),
        Msg::Failed(k, e) => format!("{}: {}", phrase(k), error_words(e)),
        Msg::FailedOn(k, f, e) => format!("{}: {}", filled(k, &[f]), error_words(e)),
        Msg::Both(a, b) => format!("{}{}", words(a), words(b)),
    }
}

fn key(code: Code) -> Key {
    Key { code, shift: false, ctrl: false, alt: false, sup: false, hyper: false, meta: false }
}

/// A screen of cells.
struct Grid {
    cells: Vec<Vec<char>>,
}

impl Grid {
    fn new() -> Grid {
        Grid { cells: vec![vec![' '; 100]; 30] }
    }

    fn set(&mut self, x: usize, y: usize, c: char) {
        if y < self.cells.len() && x < self.cells[y].len() {
            self.cells[y][x] = c;
        }
    }

    fn put(&mut self, x: u16, y: u16, width: u16, text: &str) {
        for (i, c) in text.chars().take(width as usize).enumerate() {
            self.set(x as usize + i, y as usize, c);
        }
    }

    fn put_right(&mut self, x: u16, y: u16, width: u16, text: &str) {
        let n = text.chars().count().min(width as usize) as u16;
        self.put(x + width - n, y, n, text);
    }

    /// A card over the middle of the screen, cleared; its inside.
    fn card(&mut self, width: u16, height: u16) -> Rect {
        let (w, h) = (width.min(100), height.min(30));
        let (x, y) = ((100 - w) / 2, (30 - h) / 2);
        for j in y..y + h {
            for i in x..x + w {
                self.set(i as usize, j as usize, if i == x || i == x + w - 1 { '│' } else { ' ' });
            }
        }
        Rect { x: x + 1, y: y + 1, width: w - 2, height: h - 2 }
    }

    fn text(&self) -> String {
        let mut out = String::new();
        for row in &self.cells {
            out.extend(row.iter());
            out.push('\n');
        }
        out
    }
}

/// A text over several rows, broken at blanks.
fn wrap(text: &str, width: usize) -> Vec<String> {
    let mut rows: Vec<String> = vec![];
    for word in text.split(' ') {
        match rows.last_mut() {
            Some(r) if r.chars().count() + 1 + word.chars().count() <= width => {
                r.push(' ');
                r.push_str(word);
            }
            _ => rows.push(word.to_string()),
        }
    }
    rows
}

fn count(text: &str) -> u16 {
    text.chars().count() as u16
}

/// The tests' clock, in seconds from 1970.
const NOW: i64 = 1_790_000_000;

fn new_room() -> Room {
    Room::new()
}

fn hex(seed: &str) -> String {
    seed.repeat(8).chars().take(64).collect()
}

/// SQLite's UTC form, as the federation rows carry it.
fn sqlite_at(t: i64) -> String {
    iso_at(t).replace('T', " ")[..19].to_string()
}

fn limits(stream_kbps: u64, daily_mb: u64, max_streams: u64) -> FederationLimits {
    FederationLimits { stream_kbps, daily_mb, max_streams }
}

fn params_on() -> FederationParams {
    FederationParams {
        enabled: true,
        available: true,
        running: true,
        endpoint_id: Some(hex("51403e7b9c")),
        online: true,
        relay_url: Some("https://use1-1.relay.iroh.network./".into()),
        limit_defaults: limits(8000, 2048, 3),
        accept_requests: true,
    }
}

fn params_off() -> FederationParams {
    FederationParams { enabled: false, running: false, endpoint_id: None, online: false, ..params_on() }
}

fn request(id: i64, name: &str, seed: &str, direction: &str, state: &str, ago: i64) -> FederationRequest {
    FederationRequest {
        id,
        peer_endpoint_id: hex(seed),
        peer_name: Some(name.into()),
        direction: direction.into(),
        state: state.into(),
        message: String::new(),
        offered_libraries: vec![],
        fail_count: 0,
        next_attempt_at: None,
        created_at: sqlite_at(NOW - ago),
        created_peer_id: None,
        reject_reason: None,
    }
}

fn requests() -> Vec<FederationRequest> {
    let mut friend = request(1, "friend-node", "c4a8f0e19d", "in", "received", 2 * 3600);
    friend.message = "Jazz for field recordings?".into();
    friend.offered_libraries = vec!["ambient".into()];
    let mut studio = request(2, "studio-nas", "2b7d9e4c11", "out", "delivered", 86_400);
    studio.offered_libraries = vec!["music".into(), "vinyl".into()];
    let mut basement = request(3, "Basement Archive", "8f31c0e2a7", "out", "pending-delivery", 600);
    basement.offered_libraries = vec!["dub".into(), "soul".into()];
    basement.fail_count = 1;
    basement.next_attempt_at = Some(sqlite_at(NOW + 300));
    let mut jazz = request(4, "jazz-corner", "7e11aa93b0", "out", "completed", 3 * 86_400);
    jazz.offered_libraries = vec!["jazz".into()];
    jazz.created_peer_id = Some(3);
    let mut ada = request(5, "Ada's laptop", "05d6e8f2ac", "out", "rejected", 5 * 86_400);
    ada.offered_libraries = vec!["music".into()];
    ada.reject_reason = Some("not now, sorry".into());
    vec![friend, studio, basement, jazz, ada]
}

fn fed_key(id: i64, name: &str, libs: &[&str], limits: (u64, u64, u64), bound: bool) -> FederationKey {
    FederationKey {
        id,
        name: name.into(),
        library_names: libs.iter().map(|l| l.to_string()).collect(),
        stream_kbps: limits.0,
        daily_mb: limits.1,
        max_streams: limits.2,
        bound_endpoint_id: bound.then_some(hex("8f31c0e2a7")),
        bound_at: bound.then_some(sqlite_at(NOW - 2 * 86_400)),
        created_at: sqlite_at(NOW - 20 * 86_400),
        ticket: Some(format!("mstrfed1:ticket-for-{id}")),
        usage_today_bytes: 0,
        last_used: None,
        expires_at: None,
        expired: false,
    }
}

fn keys() -> Vec<FederationKey> {
    let mut ada = fed_key(1, "Ada's laptop", &["music", "vinyl"], (8000, 2048, 3), true);
    ada.usage_today_bytes = 218 * 1_048_576;
    ada.last_used = Some(sqlite_at(NOW - 3600));
    let mut studio = fed_key(2, "studio-nas", &["music", "vinyl", "jazz"], (0, 0, 0), false);
    studio.expires_at = Some(sqlite_at(NOW + 24 * 86_400));
    studio.last_used = Some(sqlite_at(NOW - 30 * 3600));
    let mut jazz = fed_key(3, "jazz-corner", &["jazz"], (2000, 500, 1), true);
    jazz.usage_today_bytes = 4_300_000;
    let mut bob = fed_key(4, "Bob's NAS", &["audiobooks"], (0, 0, 0), false);
    bob.expired = true;
    bob.expires_at = Some(sqlite_at(NOW - 86_400));
    vec![ada, studio, jazz, bob]
}

fn peer(id: i64, name: &str, status: Option<&str>, seen_ago: Option<i64>, discovery: bool) -> FederationPeer {
    FederationPeer {
        id,
        name: name.into(),
        last_status: status.map(str::to_string),
        last_seen: seen_ago.map(|ago| sqlite_at(NOW - ago)),
        use_discovery: discovery,
        added_at: sqlite_at(NOW - 30 * 86_400),
    }
}

fn peers() -> Vec<FederationPeer> {
    vec![
        peer(1, "Basement Archive", Some("ok"), Some(10), true),
        peer(2, "studio-nas", Some("ok"), Some(180), false),
        peer(3, "jazz-corner", Some("dial timed out after 20 s"), Some(3 * 86_400), true),
        peer(4, "Ada's laptop", None, None, true),
    ]
}

fn loaded(params: FederationParams) -> Done {
    let on = params.enabled;
    Done::Loaded(Ok(Loaded {
        params,
        requests: if on { Some((true, requests())) } else { None },
        keys: if on { Some(keys()) } else { None },
        peers: if on { Some(peers()) } else { None },
        libraries: if on {
            Some(["music", "vinyl", "field-recordings", "audiobooks", "podcasts"].iter().map(|s| s.to_string()).collect())
        } else {
            None
        },
    }))
}

fn on() -> Room {
    let mut room = new_room();
    room.apply(loaded(params_on()));
    room
}

fn press(room: &mut Room, code: Code) -> Option<Outcome> {
    handle_key(room, key(code), NOW)
}

fn type_text(room: &mut Room, text: &str) {
    for c in text.chars() {
        press(room, Code::Char(c));
    }
}

fn note(room: &Room) -> String {
    room.note.as_ref().map(|n| words(&n.msg)).unwrap_or_default()
}

fn is_error(room: &Room) -> bool {
    room.note.as_ref().is_some_and(|n| n.error)
}

fn joined(parts: &[Msg], sep: &str) -> String {
    parts.iter().map(words).collect::<Vec<_>>().join(sep)
}

fn tick(on: bool) -> &'static str {
    if on { "[✓]" } else { "[ ]" }
}

fn draw_rows(g: &mut Grid, room: &mut Room, body: Rect) {
    let fixed = tab_words(room.tab);
    match room.tab {
        Tab::Requests => {
            g.put(body.x + 2, body.y + 1, body.width, &format!("{} {}", tick(room.accept_requests), phrase(fixed[0])));
            g.put(body.x + 6, body.y + 2, body.width, phrase(fixed[1]));
        }
        Tab::Tickets => g.put(body.x + 30, body.y + 1, body.width, phrase(fixed[0])),
        Tab::Peers => {
            g.put(body.x, body.y, body.width, phrase(fixed[0]));
            g.put(body.x + 2, body.y + 2, body.width - 4, room.ticket.value());
            if let Some((parts, _)) = pasted(room.ticket.value()).words() {
                g.put(body.x, body.y + 4, body.width, &joined(&parts, ""));
            }
        }
    }
    let table = table_place(room.tab, body).unwrap();
    let heads = column_words(room.tab);
    let n = room.rows();
    if n == 0 {
        g.put(table.x, table.y + 2, table.width, phrase(empty_words(room)));
    }
    let (first, visible) = room.rows_in_view(n, table.height as usize - 2);
    let lit = room.sel;
    match room.tab {
        Tab::Requests => {
            let c = request_columns(table);
            for (x, k) in [table.x, c.message, c.status, c.age].iter().zip(heads) {
                g.put(*x, table.y, 20, phrase(k));
            }
            for i in first..first + visible {
                let r = request_row(&room.requests[i], NOW, lit == Some(i), false);
                let y = table.y + 2 + (i - first) as u16;
                g.put(table.x, y, REQUEST_SERVER_W, &r.name);
                g.put(c.message, y, c.message_width, &clip(&words(&r.offer), c.message_width));
                g.put(c.status, y, REQUEST_STATUS_W, &clip(&words(&r.status.msg), REQUEST_STATUS_W));
                g.put_right(c.age, y, REQUEST_AGE_W, &words(&r.age.msg));
            }
        }
        Tab::Tickets => {
            let c = ticket_columns(table);
            for (x, k) in [table.x, c.libraries, c.limits, c.today, c.last, c.claimed].iter().zip(heads) {
                g.put(*x, table.y, 20, phrase(k));
            }
            for i in first..first + visible {
                let r = ticket_row(&room.keys[i], NOW, lit == Some(i), false);
                let y = table.y + 2 + (i - first) as u16;
                g.put(table.x, y, TICKET_NAME_W, &r.name);
                g.put(c.libraries, y, TICKET_LIBRARIES_W, &clip(&r.libraries, TICKET_LIBRARIES_W));
                g.put(c.limits, y, c.limits_width, &clip(&joined(&r.limits, " · "), c.limits_width));
                g.put_right(c.today, y, TICKET_TODAY_W, &words(&r.today.msg));
                g.put(c.last, y, TICKET_LAST_W, &words(&r.last.msg));
                g.put(c.claimed, y, TICKET_CLAIMED_W, &words(&r.claimed.msg));
            }
        }
        Tab::Peers => {
            let c = peer_columns(table);
            for (x, k) in [table.x + 2, c.status, c.seen, c.discovery].iter().zip(heads) {
                g.put(*x, table.y, PEER_DISCOVERY_W, phrase(k));
            }
            for i in first..first + visible {
                let r = peer_row(&room.peers[i], NOW, lit == Some(i), false, false);
                let y = table.y + 2 + (i - first) as u16;
                g.put(table.x, y, 1, "•");
                g.put(table.x + 2, y, PEER_SERVER_W - 2, &r.name);
                g.put(c.status, y, c.status_width, &clip(&words(&r.status.msg), c.status_width));
                g.put(c.seen, y, PEER_SEEN_W, &words(&r.seen.msg));
                g.put(c.discovery, y, 3, tick(r.discovery));
            }
        }
    }
}

/// What the note's line says of the row under the cursor.
fn story(room: &Room) -> String {
    match room.tab {
        Tab::Requests => room.selected_request().map(|r| {
            let s = request_story(r);
            let mut text = format!("{} · {} · {}", s.name, s.endpoint, words(&s.offer));
            if let Some(why) = s.reason {
                text.push_str(&format!(" · \u{201c}{why}\u{201d}"));
            }
            text
        }),
        Tab::Tickets => room.selected_key().map(|k| {
            let s = ticket_story(k, NOW);
            format!("{} · {} · {} · {}", s.name, s.libraries, words(&s.expiry), words(&s.claimed))
        }),
        Tab::Peers => room.selected_peer().map(|p| words(&peer_story(p, room.shares.get(&p.id)))),
    }
    .unwrap_or_default()
}

fn draw_form(g: &mut Grid, f: &Form) {
    let r = form_layout(f);
    let inner = g.card(70, r.height as u16);
    let (x, w) = (inner.x + 1, inner.width - 2);
    let at = |row: u64| inner.y + row as u16;
    g.put(x, inner.y, w, &words(&form_title(f)));
    let (submit, over) = form_words(f.kind);
    if let (FormKind::Accept, Some(row)) = (f.kind, r.about) {
        let (id, message) = form_about(f);
        g.put(x, at(row), w, &format!("{id} · {}", words(&message)));
    }
    if let Some(row) = r.name {
        g.put(x, at(row), w, phrase("fed.mint_name"));
        g.put(x + 2, at(row + 2), w - 4, f.name.value());
    }
    if let (Some((row, first)), Some(over)) = (r.libraries, over) {
        g.put(x, at(row), w, phrase(over));
        for (i, (name, on)) in f.libraries.iter().enumerate() {
            let p = grid_place(Rect { x, y: at(first), width: w, height: 0 }, i as u16);
            g.put(p.x, p.y, p.width, &format!("{} {name}", tick(*on)));
        }
    }
    for c in cap_fields(f.kind, x, w) {
        g.put(c.x, at(r.caps), c.width, phrase(c.label));
    }
    if let (Some((row, field)), Some(e)) = (r.expiry, &f.current_expiry) {
        let line = format!("{}{}", phrase("fed.expiry_current"), words(e));
        g.put(x, at(row), w, &line);
        g.put(x, at(field), w, phrase("fed.field_new_expiry"));
    }
    if let Some(row) = r.offer {
        g.put(x, at(row), w, &format!("{} {}", tick(f.accept_their_offer), words(&offer_words(f))));
    }
    g.put_right(x, at(r.buttons), w, phrase(submit));
}

fn draw_card(g: &mut Grid, room: &Room) {
    if let Some(gate) = gate_shown(room) {
        let inner = g.card(62, 12);
        let (x, w) = (inner.x + 1, inner.width - 2);
        g.put(x, inner.y, w, &words(&gate.title));
        for (i, row) in wrap(&words(&gate.warning), w as usize).iter().enumerate() {
            g.put(x, inner.y + 2 + i as u16, w, row);
        }
        g.put(x, inner.y + 6, w, phrase(gate.more));
        g.put(x, inner.y + 9, w, &format!("{}  {}", phrase(gate.safe.0), phrase(gate.go.0)));
    }
    match &room.modal {
        Modal::Form(f) => draw_form(g, f),
        Modal::Minted { name, ticket, libraries } => {
            let inner = g.card(74, 12);
            let (x, w) = (inner.x + 1, inner.width - 2);
            g.put(x, inner.y, w, &phrase("fed.minted_title").replace("%{name}", name));
            g.put(x, inner.y + 2, w, &words(&minted_words(ticket).0));
            g.put(x, inner.y + 5, w, &phrase("fed.minted_text").replace("%{libraries}", &libraries.join(", ")));
            g.put(x, inner.y + 9, w, &format!("{}  {}", phrase("fed.minted_copy"), phrase("fed.minted_done")));
        }
        Modal::PeerName { name, .. } => {
            let inner = g.card(66, 11);
            g.put(inner.x + 1, inner.y, inner.width - 2, phrase("fed.peer_name_title"));
            g.put(inner.x + 3, inner.y + 3, inner.width - 4, name.value());
            g.put_right(inner.x, inner.y + 8, inner.width, phrase("fed.peer_name_add"));
        }
        _ => {}
    }
}

fn draw(room: &mut Room) -> String {
    let mut g = Grid::new();
    let column = room_column(Rect { x: 0, y: 0, width: 100, height: 30 });
    if room.enabled() {
        let p = room.params.as_ref().unwrap();
        let line: String = state_parts(p, room.accept_requests).iter().map(|c| words(&c.msg)).collect();
        g.put(column.x, column.y, column.width, &line);
        if count(&line) + 2 + count(phrase("fed.polls")) <= column.width {
            g.put_right(column.x, column.y, column.width, phrase("fed.polls"));
        }
        if connecting(p) {
            g.put(column.x, column.y + 1, column.width, &format!("{} {}", "▱".repeat(10), phrase("fed.connecting_note")));
        }
        let pending = room.pending_inbound();
        let names: Vec<String> = [Tab::Requests, Tab::Tickets, Tab::Peers].iter().map(|t| words(&tab_name(*t, pending))).collect();
        let places = tab_places(column.x, &names.iter().map(|n| count(n)).collect());
        for (r, n) in places.iter().zip(&names) {
            g.put(r.x, column.y + 2, r.width, &format!(" {n} "));
        }
        let said = phrase(tab_note(room.tab));
        if note_fits(places[2].right() + 2, count(said), column.right()) {
            g.put_right(column.x, column.y + 2, column.width, said);
        }
        draw_rows(&mut g, room, Rect { y: column.y + 4, height: column.height - 4, ..column });
    } else if let Some(p) = &room.params {
        for (i, k) in off_words(p, room.starting).iter().enumerate() {
            g.put(column.x, column.y + i as u16, column.width, phrase(k));
        }
    }
    if let Some(b) = &room.busy {
        g.put(2, 28, 96, &words(b));
    } else if let Some(n) = &room.note {
        g.put(2, 28, 96, &words(&n.msg));
    } else {
        g.put(2, 28, 96, &story(room));
    }
    let tips: String = footer_hint(room).iter().map(|k| phrase(k)).collect();
    g.put(2, 29, 96, &tips);
    draw_card(&mut g, room);
    g.text()
}

fn row(frame: &str, name: &str) -> String {
    frame.lines().find(|l| l.contains(name)).map(str::to_string).unwrap_or_default()
}

fn ticket_for(payload: &str) -> String {
    let body = base64::engine::general_purpose::URL_SAFE_NO_PAD.encode(payload);
    format!("mstrfed1:{body}")
}

#[test]
fn off_the_page_turns_the_endpoint_on_with_enter() {
    let mut room = new_room();
    room.apply(loaded(params_off()));
    let frame = draw(&mut room);
    assert!(frame.contains("• off — federation is not running"), "{frame}");
    assert!(frame.contains("Turn federation on"), "{frame}");
    assert!(frame.contains("TICKETS ARE CREDENTIALS"), "{frame}");
    assert!(frame.contains("Enter turn on · Esc back"), "{frame}");
    press(&mut room, Code::Enter);
    assert_eq!(room.queued, Some(Op::SetEnabled(true)));
    room.queued = None;
    // While the start is on its way the card is dim, says so, and takes no
    // second press.
    let frame = draw(&mut room);
    assert!(frame.contains("Starting federation…") && !frame.contains("Turn federation on"), "{frame}");
    assert!(frame.contains("starting the federation endpoint…"), "{frame}");
    assert!(!frame.contains("Enter turn on"), "{frame}");
    press(&mut room, Code::Enter);
    room.act(Act::TurnOn, NOW);
    assert!(room.queued.is_none(), "one start at a time");
    // The platform without an Iroh binary says so, in gold.
    room.apply(Done::Enabled { on: true, result: Ok("{\"enabled\":true,\"available\":false}".into()) });
    assert!(is_error(&room) && note(&room).contains("no prebuilt binary"));
    assert_eq!(room.queued, Some(Op::Load));
    let mut unavailable = params_off();
    unavailable.available = false;
    room.apply(loaded(unavailable));
    let frame = draw(&mut room);
    assert!(frame.contains("• unavailable — Iroh has no prebuilt binary"), "{frame}");
    assert!(!frame.contains("Turn federation on") && !frame.contains("Starting federation…"), "{frame}");
    // A failed start hands the card back.
    room.apply(loaded(params_off()));
    press(&mut room, Code::Enter);
    assert!(room.starting);
    room.queued = None;
    room.apply(Done::Enabled { on: true, result: Err(ApiError::Server { status: 500, message: "relay down".into() }) });
    assert!(!room.starting);
    assert!(draw(&mut room).contains("Turn federation on"));
    assert!(matches!(press(&mut room, Code::Esc), Some(Outcome::Quit)));
}

#[test]
fn a_start_waits_until_a_load_says_on() {
    let mut room = new_room();
    room.apply(loaded(params_off()));
    press(&mut room, Code::Enter);
    room.queued = None;
    room.apply(Done::Enabled { on: true, result: Ok("{\"enabled\":true,\"available\":true}".into()) });
    assert!(room.starting, "the answer alone is not the endpoint");
    room.queued = None;
    // Not up yet: the card waits on, and takes no second press.
    room.apply(loaded(params_off()));
    assert!(room.starting);
    assert!(draw(&mut room).contains("Starting federation…"));
    press(&mut room, Code::Enter);
    assert!(room.queued.is_none(), "one start at a time");
    room.apply(loaded(params_on()));
    assert!(!room.starting);
    // Nothing was on its way, nothing is.
    room.apply(loaded(params_off()));
    assert!(!room.starting);
}

#[test]
fn the_state_row_and_the_tabs() {
    let mut room = on();
    let frame = draw(&mut room);
    assert!(frame.contains("• on — connected to relay · endpoint 51403e7b9c51… · inbox open"), "{frame}");
    assert!(frame.contains("polls every 30 s"), "{frame}");
    assert!(frame.contains(" Requests · 1 ") && frame.contains(" Tickets ") && frame.contains(" Peers "), "{frame}");
    assert!(frame.contains("no access changes hands until a request is accepted"), "{frame}");
    let mut connecting = params_on();
    connecting.online = false;
    room.apply(loaded(connecting));
    let frame = draw(&mut room);
    assert!(frame.contains("• on — connecting to the relay…"), "{frame}");
    assert!(frame.contains("▱▱▱▱▱▱▱▱▱▱ the endpoint is coming up"), "{frame}");
    press(&mut room, Code::Right);
    assert_eq!(room.tab, Tab::Tickets);
    press(&mut room, Code::Left);
    press(&mut room, Code::Left);
    assert_eq!(room.tab, Tab::Peers, "the tabs wrap");
    assert!(draw(&mut room).contains("servers you can read"));
}

#[test]
fn requests_show_the_webapps_states_and_act_by_row() {
    let mut room = on();
    let frame = draw(&mut room);
    assert!(frame.contains("[✓] Accept requests from the discovery network"), "{frame}");
    for word in ["SERVER", "MESSAGE / OFFER", "STATUS", "AGE"] {
        assert!(frame.contains(word), "{word}\n{frame}");
    }
    let friend = row(&frame, "friend-node");
    assert!(friend.contains("\u{201c}Jazz for field recordings?\u{201d} · offers: ambient") && friend.contains("needs your answer") && friend.contains("2h"), "{friend}");
    let studio = row(&frame, "studio-nas");
    assert!(studio.contains("you offered: music, vinyl") && studio.contains("waiting on them") && studio.contains("24h"), "{studio}");
    assert!(row(&frame, "Basement Archive").contains("sending… · retry #2"), "{frame}");
    assert!(row(&frame, "jazz-corner").contains("federated"), "{frame}");
    assert!(row(&frame, "Ada's laptop").contains("declined"), "{frame}");
    assert!(frame.contains("↑↓ select · ←→ tab · s inbox · x turn off · Esc back"), "{frame}");
    // The cursor row: only the keys that apply, and its story on the note line.
    press(&mut room, Code::Down);
    let frame = draw(&mut room);
    assert!(frame.contains("↑↓ rows · a accept · n decline · Esc deselect"), "{frame}");
    assert!(frame.contains("friend-node · c4a8f0e19dc4… · \u{201c}Jazz for field recordings?\u{201d} · offers: ambient"), "{frame}");
    press(&mut room, Code::Char('a'));
    let Modal::Form(f) = &room.modal else { panic!("the accept form") };
    assert_eq!((f.kind, f.id, f.about.as_str()), (FormKind::Accept, 1, "friend-node"));
    assert_eq!(f.their_offer, vec!["ambient".to_string()]);
    assert!(f.libraries.iter().all(|(_, on)| !on), "nothing pre-checked: they initiated");
    press(&mut room, Code::Esc);
    press(&mut room, Code::Char('n'));
    assert!(matches!(room.modal, Modal::Decline(1)));
    let frame = draw(&mut room);
    assert!(frame.contains("Decline friend-node's request?") && frame.contains("ignored for seven days") && frame.contains("y decline · Esc keep"), "{frame}");
    press(&mut room, Code::Enter);
    assert!(matches!(room.modal, Modal::Closed) && room.queued.is_none(), "Enter is the safe choice");
    press(&mut room, Code::Char('n'));
    press(&mut room, Code::Char('y'));
    assert_eq!(room.queued, Some(Op::Reject(1)));
    room.queued = None;
    room.busy = None;
    press(&mut room, Code::Down); // studio-nas, out · delivered
    assert!(draw(&mut room).contains("↑↓ rows · c withdraw · Esc deselect"));
    press(&mut room, Code::Char('a'));
    assert!(matches!(room.modal, Modal::Closed), "only an inbound, received request can be accepted");
    press(&mut room, Code::Char('c'));
    assert_eq!(room.queued, Some(Op::Cancel(2)));
    room.queued = None;
    room.busy = None;
    for _ in 0..3 {
        press(&mut room, Code::Down);
    }
    let frame = draw(&mut room);
    assert!(frame.contains("↑↓ rows · d dismiss · Esc deselect"), "{frame}");
    assert!(frame.contains("Ada's laptop · 05d6e8f2ac05… · you offered: music · \u{201c}not now, sorry\u{201d}"), "{frame}");
    press(&mut room, Code::Char('d'));
    assert_eq!(room.queued, Some(Op::Dismiss(5)));
    room.queued = None;
    press(&mut room, Code::Char('s'));
    assert_eq!(room.queued, Some(Op::SetInbox(false)));
    room.queued = None;
    room.apply(Done::Did { what: Did::Inbox(false), result: Ok(()) });
    assert!(note(&room).contains("inbox closed"));
}

#[test]
fn the_accept_form_walks_its_fields_and_sends_what_was_ticked() {
    let mut room = on();
    press(&mut room, Code::Down);
    press(&mut room, Code::Char('a'));
    // Nothing ticked: refused before the server sees it.
    press(&mut room, Code::Enter);
    let Modal::Form(f) = &room.modal else { panic!("the accept form") };
    assert_eq!(f.error.as_ref().map(words).as_deref(), Some("name it and tick at least one library"));
    assert!(room.queued.is_none());
    let frame = draw(&mut room);
    assert!(frame.contains("Accept — share libraries with friend-node"), "{frame}");
    assert!(frame.contains("c4a8f0e19dc4… · \u{201c}Jazz for field recordings?\u{201d}"), "{frame}");
    assert!(frame.contains("LIBRARIES THEY CAN READ") && frame.contains("[ ] music") && frame.contains("STREAM KBPS"), "{frame}");
    assert!(frame.contains("[✓] Add their libraries too (ambient) when they share back"), "{frame}");
    assert!(frame.contains("Tab next field · Space toggle · Enter accept · Esc cancel"), "{frame}");
    press(&mut room, Code::Char(' ')); // music
    assert!(draw(&mut room).contains("[✓] music"));
    for _ in 0..8 {
        press(&mut room, Code::Tab); // past the five libraries and three caps to Expires
    }
    let Modal::Form(f) = &room.modal else { panic!("the accept form") };
    assert_eq!(f.focused(), Field::Expires);
    press(&mut room, Code::Backspace);
    type_text(&mut room, "7x");
    press(&mut room, Code::Tab);
    press(&mut room, Code::Char(' ')); // their offer: off
    press(&mut room, Code::Enter);
    match room.queued.take() {
        Some(Op::Accept { id, vpaths, limits: caps, expires_at, accept_their_offer }) => {
            assert_eq!(id, 1);
            assert_eq!(vpaths, vec!["music".to_string()]);
            assert_eq!(caps, limits(8000, 2048, 3));
            let cutoff = expires_at.as_deref().and_then(iso_unix).expect("an ISO cutoff");
            assert!((cutoff - NOW - 7 * 86_400).abs() < 5, "seven days out, the x dropped");
            assert!(!accept_their_offer);
        }
        other => panic!("{other:?}"),
    }
    room.apply(Done::Did { what: Did::Accepted, result: Err(ApiError::Server { status: 409, message: "cannot accept a request in state 'accepted'".into() }) });
    let Modal::Form(f) = &room.modal else { panic!("a refusal keeps the form") };
    assert!(f.error.as_ref().is_some_and(|e| words(e).contains("cannot accept")));
    room.apply(Done::Did { what: Did::Accepted, result: Ok(()) });
    assert!(matches!(room.modal, Modal::Closed));
    assert!(note(&room).contains("accepted"));
    assert_eq!(room.queued, Some(Op::Load));
}

#[test]
fn minting_shows_the_ticket_to_hand_over() {
    let mut room = on();
    press(&mut room, Code::Right);
    press(&mut room, Code::Char('n'));
    let Modal::Form(f) = &room.modal else { panic!("the mint form") };
    assert_eq!((f.kind, f.focused()), (FormKind::Mint, Field::Name));
    type_text(&mut room, "Bob's NAS|");
    press(&mut room, Code::Tab);
    press(&mut room, Code::Char(' '));
    let frame = draw(&mut room);
    assert!(frame.contains("New federation ticket") && frame.contains("WHO IS THIS FOR?") && frame.contains("Bob's NAS"), "{frame}");
    assert!(frame.contains("[✓] music") && frame.contains("EXPIRES (DAYS)") && frame.contains("Mint ticket ▸"), "{frame}");
    press(&mut room, Code::Enter);
    assert_eq!(
        room.queued,
        Some(Op::Mint { name: "Bob's NAS".into(), vpaths: vec!["music".into()], limits: limits(8000, 2048, 3), expires_at: None }),
        "the pipe never reaches the name; 0 days means never"
    );
    room.queued = None;
    room.apply(Done::Minted {
        libraries: vec!["music".into()],
        result: Ok(MintedKey { name: "Bob's NAS".into(), ticket: Some("mstrfed1:eyJ0IjoibmV3In0".into()) }),
    });
    assert!(matches!(room.modal, Modal::Minted { .. }));
    let frame = draw(&mut room);
    assert!(frame.contains("Ticket for Bob's NAS") && frame.contains("mstrfed1:eyJ0IjoibmV3In0"), "{frame}");
    assert!(frame.contains("can read music until it is claimed or revoked"), "{frame}");
    assert!(frame.contains("y copy") && frame.contains("Done") && frame.contains("y copy · Esc done"), "{frame}");
    press(&mut room, Code::Esc);
    assert!(matches!(room.modal, Modal::Closed));
    room.apply(Done::Minted { libraries: vec!["music".into()], result: Ok(MintedKey { name: "x".into(), ticket: None }) });
    assert!(is_error(&room) && note(&room).contains("no ticket"));
}

#[test]
fn tickets_show_limits_and_claims_and_act_by_row() {
    let mut room = on();
    press(&mut room, Code::Right);
    let frame = draw(&mut room);
    for word in ["Mint a ticket for a friend", "NAME", "LIBRARIES", "LIMITS", "TODAY", "LAST USED", "CLAIMED"] {
        assert!(frame.contains(word), "{word}\n{frame}");
    }
    let ada = row(&frame, "Ada's laptop");
    assert!(ada.contains("music, vinyl") && ada.contains("8 Mbps · 2 GB/day · 3 streams") && ada.contains("218 MB") && ada.contains("1h") && ada.contains("✓ claimed"), "{ada}");
    let studio = row(&frame, "studio-nas");
    assert!(studio.contains("music, vinyl, j…") && studio.contains("unlimited") && studio.contains("not yet"), "{studio}");
    assert!(row(&frame, "jazz-corner").contains("2 Mbps · 500 MB/day · 1 stream"), "{frame}");
    assert!(row(&frame, "Bob's NAS").contains("expired"), "{frame}");
    press(&mut room, Code::Down);
    let frame = draw(&mut room);
    assert!(frame.contains("Ada's laptop · music, vinyl · never expires · claimed by 8f31c0e2a78f… 2d ago"), "{frame}");
    assert!(frame.contains("↑↓ rows · y copy ticket · l limits · b reset binding · r revoke · Esc deselect"), "{frame}");
    press(&mut room, Code::Char('l'));
    let Modal::Form(f) = &room.modal else { panic!("the limits form") };
    assert_eq!((f.kind, f.id, f.about.as_str()), (FormKind::Limits, 1, "Ada's laptop"));
    assert_eq!(f.current_expiry.as_ref().map(words).as_deref(), Some("never expires"));
    assert_eq!(f.stream_kbps.value(), "8000");
    let frame = draw(&mut room);
    assert!(frame.contains("Limits for Ada's laptop") && frame.contains("EXPIRY · currently never expires") && frame.contains("NEW EXPIRY"), "{frame}");
    press(&mut room, Code::Enter);
    assert!(matches!(room.queued, Some(Op::Limits { id: 1, expiry: ExpiryChange::Keep, .. })), "blank keeps the expiry");
    room.queued = None;
    for _ in 0..3 {
        press(&mut room, Code::Tab);
    }
    type_text(&mut room, "0");
    press(&mut room, Code::Enter);
    assert!(matches!(room.queued, Some(Op::Limits { expiry: ExpiryChange::Never, .. })), "0 means never");
    room.queued = None;
    press(&mut room, Code::Backspace);
    type_text(&mut room, "30");
    press(&mut room, Code::Enter);
    assert!(matches!(room.queued, Some(Op::Limits { expiry: ExpiryChange::At(_), .. })), "30 means thirty days from now");
    room.queued = None;
    room.apply(Done::Did { what: Did::LimitsSaved, result: Ok(()) });
    assert!(matches!(room.modal, Modal::Closed));
    assert!(note(&room).contains("limits saved"));
    room.note = None;
    room.queued = None;
    press(&mut room, Code::Char('b'));
    assert_eq!(room.queued, Some(Op::ResetBinding(1)));
    room.queued = None;
    room.busy = None;
    press(&mut room, Code::Down); // studio-nas: not claimed
    press(&mut room, Code::Char('b'));
    assert!(room.queued.is_none(), "nothing to reset on an unclaimed ticket");
    assert!(draw(&mut room).contains("studio-nas · music, vinyl, jazz · expires in 24 days · not yet claimed"));
    press(&mut room, Code::Char('r'));
    assert!(matches!(room.modal, Modal::Revoke(2)));
    let frame = draw(&mut room);
    // The warning wraps its sentence to the modal's width.
    assert!(frame.contains("Revoke studio-nas's ticket?") && frame.contains("studio-nas can no longer") && frame.contains("read music, vinyl, jazz.") && frame.contains("y revoke · Esc keep"), "{frame}");
    press(&mut room, Code::Char('y'));
    assert_eq!(room.queued, Some(Op::Revoke(2)));
}

#[test]
fn peers_preview_the_pasted_ticket_and_act_by_row() {
    let mut room = on();
    press(&mut room, Code::Char('j'));
    assert_eq!(room.tab, Tab::Peers);
    assert!(room.ticket_focus);
    type_text(&mut room, "garbage");
    let frame = draw(&mut room);
    assert!(frame.contains("that doesn't look like a federation ticket"), "{frame}");
    press(&mut room, Code::Enter);
    assert!(matches!(room.modal, Modal::Closed) && is_error(&room) && note(&room).contains("doesn't look like"));
    for _ in 0.."garbage".len() {
        press(&mut room, Code::Backspace);
    }
    let ticket = ticket_for(
        "{\"t\":\"nodeaa4qk3r7z2nlxwm5c6bdhpj2ev5gktr3q7hifobyq2j5ru4kiggizaaaq\",\"k\":\"f34b91c0d2e7a89b1c2d3e4f5a6b7c8d\",\"n\":\"mStream Den\",\"l\":[\"music\",\"vinyl\"],\"e\":\"2026-12-01T00:00:00.000Z\"}",
    );
    type_text(&mut room, &ticket);
    let frame = draw(&mut room);
    assert!(frame.contains("mStream Den — shares music, vinyl · valid until 2026-12-01"), "{frame}");
    assert!(frame.contains("type or paste the ticket · Enter add · Esc leave the field"), "{frame}");
    press(&mut room, Code::Enter);
    let Modal::PeerName { name, .. } = &room.modal else { panic!("the name modal") };
    assert_eq!(name.value(), "mStream Den");
    let frame = draw(&mut room);
    assert!(frame.contains("Name this peer") && frame.contains("Add peer ▸"), "{frame}");
    type_text(&mut room, " 2");
    press(&mut room, Code::Enter);
    assert_eq!(room.queued, Some(Op::AddPeer { ticket: ticket.clone(), name: Some("mStream Den 2".into()) }));
    room.queued = None;
    room.apply(Done::Did { what: Did::PeerAdded, result: Ok(()) });
    assert!(matches!(room.modal, Modal::Closed) && room.ticket.value().is_empty());
    assert!(note(&room).contains("peer added"));

    room.note = None;
    let frame = draw(&mut room);
    let basement = row(&frame, "Basement Archive");
    assert!(basement.starts_with("  • Basement Archive") && basement.contains(" ok ") && basement.contains("[✓]"), "{basement}");
    assert!(row(&frame, "studio-nas").contains("[ ]"), "{frame}");
    let jazz = row(&frame, "jazz-corner");
    assert!(jazz.contains("dial timed out after 20 s") && jazz.contains("3d"), "{jazz}");
    let ada = row(&frame, "Ada's laptop");
    assert!(ada.contains("never tested") && ada.contains("never"), "{ada}");
    press(&mut room, Code::Down);
    let frame = draw(&mut room);
    assert!(frame.contains("Basement Archive · t tests the connection"), "{frame}");
    assert!(frame.contains("↑↓ rows · t test · s discovery · r forget · Esc deselect"), "{frame}");
    press(&mut room, Code::Char('t'));
    assert_eq!(room.queued, Some(Op::Test(1)));
    room.queued = None;
    room.apply(Done::Tested { id: 1, result: Ok(PeerTest { ok: true, error: None, libraries: Some(vec!["music".into(), "vinyl".into()]) }) });
    assert!(!is_error(&room) && note(&room) == "Basement Archive shares: music, vinyl");
    room.note = None;
    assert!(draw(&mut room).contains("Basement Archive shares: music, vinyl"), "the answer stays on the note line");
    room.apply(Done::Tested { id: 1, result: Ok(PeerTest { ok: false, error: Some("dial timed out".into()), libraries: None }) });
    assert!(is_error(&room) && note(&room).contains("unreachable: dial timed out"));
    press(&mut room, Code::Char('s'));
    assert_eq!(room.queued, Some(Op::PeerDiscovery { id: 1, on: false }));
    room.queued = None;
    room.apply(Done::Did { what: Did::PeerDiscovery(1, false), result: Ok(()) });
    assert!(!room.peers[0].use_discovery);
    press(&mut room, Code::Char('r'));
    assert!(matches!(room.modal, Modal::Forget(1)));
    assert!(draw(&mut room).contains("Forget Basement Archive?"));
    press(&mut room, Code::Char('y'));
    assert_eq!(room.queued, Some(Op::RemovePeer(1)));
}

#[test]
fn turning_off_is_gated_and_the_poll_is_quiet() {
    let mut room = on();
    press(&mut room, Code::Char('x'));
    assert!(matches!(room.modal, Modal::TurnOff));
    let frame = draw(&mut room);
    assert!(frame.contains("Turn federation off?") && frame.contains("◂ Stay on") && frame.contains("y turn off · Esc stay on"), "{frame}");
    press(&mut room, Code::Esc);
    assert!(room.queued.is_none());
    press(&mut room, Code::Char('x'));
    press(&mut room, Code::Char('y'));
    assert_eq!(room.queued, Some(Op::SetEnabled(false)));
    room.queued = None;
    room.apply(loaded(params_off()));
    assert!(room.requests.is_empty() && room.keys.is_empty() && room.peers.is_empty());

    let mut room = new_room();
    room.tick(60_000);
    assert!(room.queued.is_none(), "nothing before the first load answers");
    room.apply(loaded(params_off()));
    room.tick(60_000);
    assert!(room.queued.is_none(), "off, no poll");
    room.apply(loaded(params_on()));
    room.tick(60_000);
    assert_eq!(room.queued, Some(Op::Load));
    assert!(room.busy.is_none(), "the poll shows no busy line");
    room.last_load = Some(60_000);
    room.queued = None;
    room.tick(60_000);
    assert!(room.queued.is_none(), "not again within the cadence");
    room.apply(Done::Loaded(Err(ApiError::Server { status: 405, message: String::new() })));
    assert!(is_error(&room) && note(&room).contains("locked"));
}

#[test]
fn words_for_limits_expiry_states_and_tickets() {
    let none: &[&str] = &[];
    let k = |limits: (u64, u64, u64)| fed_key(1, "k", none, limits, false);
    assert_eq!(joined(&limits_words(&k((8000, 2048, 3))), " · "), "8 Mbps · 2 GB/day · 3 streams");
    assert_eq!(joined(&limits_words(&k((7800, 500, 1))), " · "), "7.8 Mbps · 500 MB/day · 1 stream");
    assert_eq!(joined(&limits_words(&k((320, 0, 0))), " · "), "320 kbps");
    assert_eq!(joined(&limits_words(&k((0, 0, 0))), " · "), "unlimited");
    let mut e = k((0, 0, 0));
    assert_eq!(words(&expiry_words(&e, NOW)), "never expires");
    e.expires_at = Some(sqlite_at(NOW + 24 * 86_400 + 60));
    assert_eq!(words(&expiry_words(&e, NOW)), "expires in 25 days");
    e.expires_at = Some(sqlite_at(NOW + 3600));
    assert_eq!(words(&expiry_words(&e, NOW)), "expires today");
    e.expired = true;
    assert_eq!(words(&expiry_words(&e, NOW)), "expired");
    let r = |direction: &str, state: &str| request(1, "x", "ab", direction, state, 0);
    let status = |r: &FederationRequest| {
        let (msg, family) = request_status(r);
        (words(&msg), family)
    };
    assert_eq!(status(&r("in", "received")), ("needs your answer".to_string(), Family::Theirs));
    assert_eq!(status(&r("out", "refused")), ("their inbox is closed".to_string(), Family::Dead));
    assert_eq!(status(&r("in", "completed")), ("federated".to_string(), Family::Good));
    assert_eq!(status(&r("out", "cancelled")), ("withdrawn".to_string(), Family::Mute));
    let mut retry = r("in", "accepted");
    retry.fail_count = 2;
    retry.next_attempt_at = Some(sqlite_at(NOW + 60));
    assert_eq!(status(&retry).0, "sending your ticket… · retry #3");
    assert_eq!(decode_ticket("nope"), None);
    assert_eq!(decode_ticket("mstrfed1:not-base64!"), None);
    let bare = TicketPreview { name: None, libraries: vec![], expires: None };
    assert_eq!(decode_ticket(&ticket_for("{\"t\":\"node\",\"k\":\"key\"}")), Some(bare));
    assert_eq!(
        decode_ticket(&format!("  {}  ", ticket_for("{\"t\":\"node\",\"k\":\"key\",\"n\":\"Den\\u001b[31m\",\"l\":[\"a\",1],\"e\":\"2026-12-01T00:00:00Z\"}"))),
        Some(TicketPreview { name: Some("Den[31m".into()), libraries: vec!["a".into()], expires: Some("2026-12-01".into()) })
    );
    assert!(decode_ticket(&ticket_for("{\"k\":\"key\"}")).is_none(), "t is required");
    assert!(iso_unix("2026-09-06 09:41:52").is_some(), "SQLite's form parses too");
}

#[test]
fn a_ticket_in_the_other_alphabet_is_read_too() {
    // The bytes of "??>" need the letters in which the alphabets differ.
    let doc = "{\"t\":\"node\",\"k\":\"key\",\"n\":\"??>??>\"}";
    let body = base64::engine::general_purpose::STANDARD.encode(doc);
    let p = decode_ticket(&format!("mstrfed1:{body}")).expect("a ticket");
    assert_eq!(p.name.as_deref(), Some("??>??>"));
    assert!(read_ticket("[]").is_none(), "no object");
    assert!(read_ticket("{\"t\":1,\"k\":\"x\"}").is_none(), "t is a text");
}

#[test]
fn requests_are_answered_withdrawn_or_done_with_but_not_two_of_these() {
    for direction in ["in", "out"] {
        for state in ["pending-delivery", "delivered", "received", "accepted", "completed", "rejected", "refused", "cancelled", "expired"] {
            let r = request(1, "x", "ab", direction, state, 0);
            let n = [request_cancellable(&r), request_finished(&r), request_needs_answer(&r)].iter().filter(|b| **b).count();
            assert!(n <= 1, "{direction} {state}");
        }
    }
}

#[test]
fn forms_offer_and_return_names() {
    let names = vec!["a".to_string(), "b".to_string()];
    let mut offered = offer_names(&names, false);
    assert!(ticked_names(&offered).is_empty());
    offered[1].1 = true;
    assert_eq!(ticked_names(&offered), vec!["b".to_string()]);
    let mut f = Form::new(FormKind::Mint, &names, &limits(1, 2, 3));
    assert_eq!(f.fields(), vec![Field::Name, Field::Library(0), Field::Library(1), Field::StreamKbps, Field::DailyMb, Field::MaxStreams, Field::Expires]);
    assert_eq!(index_of(&f, Field::Library(1)), 2);
    assert_eq!(index_of(&f, Field::TheirOffer), 0);
    assert_eq!(f.limits(), Some(limits(1, 2, 3)));
    assert!(!f.can_submit());
    f.toggle(Field::Library(0));
    assert_eq!(f.vpaths(), vec!["a".to_string()]);
    assert_eq!(f.expires_days(), Ok(Some(0)));
}

#[test]
fn the_full_inbox_is_warned_of() {
    let mut room = on();
    assert!(!inbox_full(&room));
    room.requests = (0..INBOX_FULL as i64).map(|i| request(i, "x", "ab", "in", "received", 0)).collect();
    assert!(inbox_full(&room));
    room.accept_requests = false;
    assert!(!inbox_full(&room));
}

#[test]
fn a_start_can_be_pressed_only_where_there_is_one() {
    assert!(turn_on_card(&FederationParams { available: false, ..params_off() }, false, false).is_none());
    assert!(turn_on_card(&params_off(), true, true).is_some_and(|(k, _, act)| k == "fed.turning_on" && act.is_none()));
    assert!(turn_on_card(&params_off(), false, true).is_some_and(|(_, _, act)| act == Some(Act::TurnOn)));
    assert_eq!(pasted("   "), Pasted::Nothing);
}

#[test]
fn ages_of_federation_rows() {
    assert_eq!(words(&age_of(None, NOW)), "—");
    assert_eq!(words(&age_of(Some("soon"), NOW)), "—");
    assert_eq!(words(&age_of(Some("2026-09-21 14:13:20"), NOW)), "now");
}

#[test]
fn the_calls_of_federation_go_out_one_at_a_time() {
    let mut room = start();
    let first = room.dispatch_queued(1);
    assert_eq!(first, Some(Op::Load));
    room.queued = Some(Op::Dismiss(1));
    assert_eq!(room.dispatch_queued(2), None);
    room.apply(loaded(params_on()));
    assert_eq!(room.dispatch_queued(3), Some(Op::Dismiss(1)));
    room.worker_gone();
    assert_eq!(note(&room), "note.worker_gone");
}
