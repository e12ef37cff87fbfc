//! The discovery room.

use mstream_admin::clock::{age_text, iso_at, iso_unix};
use mstream_admin::discovery::{display_name, handle_key, query_hits, start, Act, ActivityEntry, Bounds, CatalogPeer, CatalogStorage, DiscoveryActivity, DiscoveryCatalog, DiscoveryRecovery, DiscoverySetting, DiscoveryStatus, DiscoveryWatchdog, Done, HeldSnapshot, Loaded, Modal, Op, PeerAction, PeerPayload, Range, Relation, Room, Tab};
use mstream_admin::discovery_view::{announced, blocked_click, blocked_height, card_lines, card_words, column_words, compose_height, config_columns, config_rows, empty_words, endpoint_words, filter_part, footer_hint, gate_name, join_tip, library_place, log_line, network_state, off_page, off_page_words, off_words, on_page, pane_words, section_parts, section_place, server_columns, server_row, sheet_click, sheet_facts, sheet_height, sidecar_words, ticket_words, tile_place, tiles, waiting_words, FEDERATION_W, ONLINE_W, SEEDERS_W, SNAPSHOT_W, TRACKS_W};
use mstream_admin::federation::{FederationLimits, FederationParams, FederationRequest};
use mstream_admin::hub::room_column;
use mstream_admin::layout::{facts_kept, note_fits, tab_places, Rect, Tone};
use mstream_admin::line::{Code, Key};
use mstream_admin::msg::{ApiError, Arg, Fill, Msg};
use mstream_admin::screen::Outcome;
use mstream_admin::text::{fmt_bytes, fmt_count, printable, short_id};
use tui_input::Input;

fn phrase(key: &'static str) -> &'static str {
    match key {
        "p2p.state_off" => "• not on the discovery network",
        "p2p.off_will_download" => "The p2p-sidecar will be downloaded when you join.",
        "p2p.off_join" => "Join the discovery network",
        "p2p.off_requests" => "Also let other servers send me federation requests",
        "p2p.off_requests_hint" => "An inbox, nothing more.",
        "p2p.off_pitch_1" => "Servers on the network share what they know of music.",
        "p2p.off_shared" => "What is shared:",
        "p2p.off_pitch_2a" => "an index of your tracks,",
        "p2p.off_pitch_2b" => "your server's name.",
        "p2p.off_pitch_2c" => " Never any audio files.",
        "p2p.off_pitch_3" => "You can leave at any time.",
        "p2p.hint_off" => "Enter join the network · Space federation requests · Esc back",
        "p2p.joined_network" => "joined — give the mesh a minute",
        "p2p.joined_inbox" => " · the inbox is open",
        "p2p.inbox_failed" => "joined, but the inbox stayed closed: %{err}",
        "p2p.state_connected" => "• connected",
        "p2p.state_neighbors" => " — %{n} mesh neighbors",
        "p2p.state_neighbors_one" => " — 1 mesh neighbor",
        "p2p.state_sidecar" => " · sidecar %{mb} MB",
        "p2p.state_restart_one" => " (1 watchdog restart)",
        "p2p.state_restarts" => " (%{n} watchdog restarts)",
        "p2p.state_announcing" => " · announcing as ",
        "p2p.state_reconnecting" => "• reconnecting",
        "p2p.state_reconnecting_detail" => " — sidecar died, replaying (attempt %{n})",
        "p2p.state_waiting" => "• joined, waiting for neighbors",
        "p2p.state_not_joined" => "• not joined yet",
        "p2p.state_unavailable" => "• unavailable — the p2p-sidecar binary was not found",
        "p2p.recovering" => "crash recovery replays the stack",
        "p2p.searching" => "searching for peers — this room updates itself every 10 s",
        "p2p.polls" => "polls every 10 s",
        "p2p.section_servers" => "SERVERS YOU FOLLOW",
        "p2p.col_server" => "SERVER",
        "p2p.col_tracks" => "TRACKS",
        "p2p.col_seeders" => "SEEDERS",
        "p2p.col_online" => "ONLINE",
        "p2p.col_snapshot" => "SNAPSHOT",
        "p2p.col_federation" => "FEDERATION",
        "p2p.filter_key" => "/ filter",
        "p2p.hidden_one" => "1 hidden — incompatible model",
        "p2p.hidden_many" => "%{n} hidden — incompatible models",
        "p2p.hidden_show" => "h show",
        "p2p.hidden_showing" => "showing incompatible servers",
        "p2p.hidden_hide" => "h hide",
        "p2p.blocked_n" => "%{n} blocked",
        "p2p.blocked_manage" => "u unblock",
        "p2p.online" => "online",
        "p2p.offline" => "offline",
        "p2p.offline_age" => "offline · %{age}",
        "p2p.snap_downloaded" => "downloaded",
        "p2p.snap_pinned" => "downloaded · pinned",
        "p2p.snap_update" => "update available",
        "p2p.snap_update_pinned" => "update · pinned",
        "p2p.fed_federated" => "federated",
        "p2p.fed_theirs" => "they asked you",
        "p2p.fed_sent" => "request sent",
        "p2p.hint_rows" => "↑↓ select · ←→ tab · / filter · h hidden · e name · x leave · Esc back",
        "p2p.hint_selected" => "↑↓ rows · Enter details · d download · f federate · p pin · r remove · b block · Esc deselect",
        "p2p.hint_config" => "1–5 edit a setting · ←→ tab · Esc back",
        "p2p.hint_sheet" => "↑↓ choose · Enter act · Esc close",
        "p2p.hint_block" => "y block · Esc keep",
        "p2p.hint_leave" => "y leave · Esc stay",
        "p2p.hint_ticket" => "type or paste the ticket · Enter join · Esc leave the field",
        "p2p.tab_stats" => "Stats",
        "p2p.tab_activity" => "Activity",
        "p2p.tab_invite" => "Invite",
        "p2p.tab_config" => "Config",
        "p2p.tile_neighbors" => "mesh neighbors",
        "p2p.tile_neighbors_detail" => "connected now",
        "p2p.tile_known" => "servers known",
        "p2p.tile_known_detail" => "%{hidden} hidden · %{blocked} blocked",
        "p2p.tile_held_of" => "%{held} of %{cap}",
        "p2p.tile_held" => "snapshots held",
        "p2p.tile_held_detail" => "%{used} of %{cap}",
        "p2p.tile_tracks" => "peer tracks searchable",
        "p2p.tile_tracks_detail" => "across %{n} held libraries",
        "p2p.value_mb" => "%{n} MB",
        "p2p.tile_memory" => "sidecar memory",
        "p2p.tile_memory_detail" => "ceiling %{max} MB · %{restarts} restarts",
        "p2p.tile_seeding" => "seeding",
        "p2p.tile_seeding_detail" => "snapshots given to others",
        "p2p.activity_note" => "newest first · full history in the server logs",
        "p2p.invite_endpoint" => "ENDPOINT",
        "p2p.invite_ticket" => "YOUR TICKET",
        "p2p.invite_ticket_hint" => " · give it to a friend",
        "p2p.invite_copy" => "y copy",
        "p2p.invite_befriend" => "BEFRIEND A SERVER",
        "p2p.invite_befriend_hint" => " · paste their ticket",
        "p2p.config_announcing" => "ANNOUNCING AS",
        "p2p.config_edit" => "e edit",
        "p2p.config_storage" => "Snapshot storage cap",
        "p2p.config_retention" => "Forget offline servers",
        "p2p.config_autofetch" => "Auto-fetch snapshots",
        "p2p.config_rotation" => "Rotate downloads",
        "p2p.config_memory" => "Sidecar memory ceiling",
        "p2p.config_seeds" => "Community seeds",
        "p2p.value_days_silence" => "after %{n} days of silence",
        "p2p.value_days" => "after %{n} days",
        "p2p.value_servers" => "up to %{n} servers",
        "p2p.value_on" => "on",
        "p2p.value_off" => "off",
        "p2p.menu_download" => "Download the snapshot",
        "p2p.menu_update" => "Update the snapshot",
        "p2p.menu_pin" => "Pin it",
        "p2p.menu_unpin" => "Unpin it",
        "p2p.menu_remove" => "Remove the snapshot",
        "p2p.menu_federate" => "Ask to federate",
        "p2p.menu_forget" => "Forget it",
        "p2p.menu_block" => "Block it",
        "p2p.sheet_seen" => " · seen %{age} ago",
        "p2p.sheet_tracks" => "%{tracks} tracks · %{seeders} seeders",
        "p2p.sheet_snapshot_held" => "downloaded %{age} ago · %{size}",
        "p2p.sheet_snapshot_none" => "not downloaded",
        "p2p.block_title" => "Block %{name}?",
        "p2p.block_keep" => "◂ Keep",
        "p2p.compose_title" => "Ask %{name} to federate",
        "p2p.compose_message" => "MESSAGE · optional · %{n} / 500",
        "p2p.request_sent" => "sent — %{name} will see it",
        "p2p.fail_request" => "could not send the request",
        "p2p.setting_invalid" => "enter a whole number from %{min} to %{max}",
        "p2p.done_setting" => "setting saved",
        "p2p.identity_empty" => "the server name must not be blank",
        "p2p.joined_peer" => "befriended — it shows up within a minute",
        "p2p.leave_title" => "Leave the discovery network?",
        "p2p.leave_stay" => "◂ Stay",
        "p2p.blocked_title" => "Blocked servers",
        "admin.gate_locked" => "the admin panel is locked",
        "admin.gate_unauthorized" => "the server asks for a login",
        "admin.gate_forbidden" => "not allowed: %{err}",
        "p2p.load_failed" => "could not load the network",
        "p2p.fail_fetch" => "could not download from %{name}",
        "p2p.age_now" => "now",
        "p2p.age_m" => "%{n}m",
        "p2p.age_h" => "%{n}h",
        "p2p.age_d" => "%{n}d",
        other => other,
    }
}

fn error_words(e: &ApiError) -> String {
    match e {
        ApiError::Unauthorized => "unauthorized".to_string(),
        ApiError::Forbidden(m) | ApiError::NotFound(m) => m.clone(),
        ApiError::Network(m) => format!("could not reach server: {m}"),
        ApiError::Server { status, message } => format!("server error {status}: {message}"),
        ApiError::Decode { endpoint, message } => format!("{endpoint}: {message}"),
    }
}

fn arg_words(a: &Arg) -> String {
    match a {
        Arg::Text(s) => s.clone(),
        Arg::Num(n) => n.to_string(),
        Arg::Nat(n) => n.to_string(),
        Arg::Count(n) => fmt_count(*n),
        Arg::TwoDigits(n) => format!("{n:02}"),
        Arg::Bytes(n) => fmt_bytes(*n),
        Arg::Ratio(a, b) => {
            let s = format!("{:.1}", *a as f64 / *b as f64);
            s.strip_suffix(".0").map(str::to_string).unwrap_or(s)
        }
        Arg::Phrase(m) => words(m),
    }
}

fn filled(key: &'static str, fills: &[&Fill]) -> String {
    let mut out = phrase(key).to_string();
    for f in fills {
        out = out.replace(&format!("%{{{}}}", f.name), &arg_words(&f.arg));
    }
    out
}

fn words(m: &Msg) -> String {
    match m {
        Msg::Raw(s) => s.clone(),
        Msg::Key(k) => phrase(k).to_string(),
        Msg::One(k, a) => filled(k, &[a]),
        Msg::Two(k, a, b) => filled(k, &[a, b]),
        Msg::Three(k, a, b, c) => filled(k, &[a, b, c]),
        Msg::Four(k, a, b, c, d) => filled(k, &[a, b, c, d]),
        Msg::Five(k, a, b, c, d, e) => filled(k, &[a, b, c, d, e]),
        Msg::Listed(k, i) => phrase(k).split(" · ").nth(*i as usize).unwrap_or("").to_string(),
        Msg::Failed(k, e) => format!("{}: {}", phrase(k), error_words(e)),
        Msg::FailedOn(k, f, e) => format!("{}: {}", filled(k, &[f]), error_words(e)),
        Msg::Both(a, b) => format!("{}{}", words(a), words(b)),
    }
}

fn key(code: Code) -> Key {
    Key { code, shift: false, ctrl: false, alt: false, sup: false, hyper: false, meta: false }
}

/// A screen of cells.
struct Grid {
    cells: Vec<Vec<char>>,
}

impl Grid {
    fn new() -> Grid {
        Grid { cells: vec![vec![' '; 100]; 30] }
    }

    fn set(&mut self, x: usize, y: usize, c: char) {
        if y < self.cells.len() && x < self.cells[y].len() {
            self.cells[y][x] = c;
        }
    }

    fn put(&mut self, x: u16, y: u16, width: u16, text: &str) {
        for (i, c) in text.chars().take(width as usize).enumerate() {
            self.set(x as usize + i, y as usize, c);
        }
    }

    fn put_right(&mut self, x: u16, y: u16, width: u16, text: &str) {
        let n = text.chars().count().min(width as usize) as u16;
        self.put(x + width - n, y, n, text);
    }

    /// A card over the middle of the screen, cleared; its inside.
    fn card(&mut self, width: u16, height: u16) -> Rect {
        let (w, h) = (width.min(100), height.min(30));
        let (x, y) = ((100 - w) / 2, (30 - h) / 2);
        for j in y..y + h {
            for i in x..x + w {
                self.set(i as usize, j as usize, if i == x || i == x + w - 1 { '│' } else { ' ' });
            }
        }
        Rect { x: x + 1, y: y + 1, width: w - 2, height: h - 2 }
    }

    fn text(&self) -> String {
        let mut out = String::new();
        for row in &self.cells {
            out.extend(row.iter());
            out.push('\n');
        }
        out
    }
}

/// A text over several rows, broken at blanks.
fn wrap(text: &str, width: usize) -> Vec<String> {
    let mut rows: Vec<String> = vec![];
    for word in text.split(' ') {
        match rows.last_mut() {
            Some(r) if r.chars().count() + 1 + word.chars().count() <= width => {
                r.push(' ');
                r.push_str(word);
            }
            _ => rows.push(word.to_string()),
        }
    }
    rows
}

fn count(text: &str) -> u16 {
    text.chars().count() as u16
}

/// The tests' clock, in seconds from 1970.
const NOW: i64 = 1_790_000_000;

fn range(min: u64, max: u64) -> Range {
    Range { min, max }
}

fn bounds() -> Bounds {
    Bounds {
        max_storage_mb: range(10, 100_000),
        peer_retention_days: range(0, 3650),
        auto_fetch_count: range(0, 50),
        rotation_days: range(0, 365),
        sidecar_max_rss_mb: range(0, 65_536),
    }
}

fn room() -> Room {
    Room::new(bounds())
}

fn hex(seed: &str) -> String {
    seed.repeat(8).chars().take(64).collect()
}

fn status_on() -> DiscoveryStatus {
    DiscoveryStatus {
        enabled: true,
        binary_found: true,
        binary_fetchable: true,
        running: true,
        endpoint_id: Some(hex("51403e7b9c")),
        ticket: Some("nodeaa4qk3r7z2nlxwm5c6bdhpj2ev5gktr3q7hifobyq2j5ru4kiggizaaaqbxk3ewgk6wxjm".into()),
        joined: true,
        neighbors: 3,
        watchdog: DiscoveryWatchdog { last_rss_mb: Some(19), restarts: 0, max_rss_mb: 256 },
        recovery: DiscoveryRecovery { attempts: 0, retry_pending: false },
        known_peers: 6,
        community_seeds: true,
        server_name: "mStream Den".into(),
        server_description: "Vinyl, jazz and field recordings".into(),
        max_peer_db_storage_mb: 500,
        auto_fetch_count: 6,
        rotation_days: 7,
        peer_retention_days: 30,
        blocked_peers: vec![hex("a1b2c3d4e5")],
    }
}

fn status_off() -> DiscoveryStatus {
    DiscoveryStatus { enabled: false, binary_found: false, binary_fetchable: true, ..status_on() }
}

fn peer(id: &str, name: &str, description: &str, tracks: u64, ago: i64, seeders: u32, held: Option<(bool, bool)>) -> CatalogPeer {
    CatalogPeer {
        from: hex(id),
        payload: PeerPayload {
            name: name.into(),
            description: description.into(),
            row_count: tracks,
            snapshot_seq: 41,
            model_id: "effnet-discogs".into(),
        },
        updated_at: iso_at(NOW - ago),
        online: ago < 90,
        seeders,
        fetched: held.map(|(stale, pinned)| HeldSnapshot {
            snapshot_seq: 40,
            stale,
            size_bytes: 8 * 1_048_576,
            fetched_at: iso_at(NOW - 2 * 86_400),
            first_fetched_at: iso_at(NOW - 20 * 86_400),
            pinned,
        }),
        compatible: Some(true),
    }
}

fn catalog() -> DiscoveryCatalog {
    DiscoveryCatalog {
        peers: vec![
            peer("8f31c0e2a7", "Basement Archive", "Northern soul, dub and a wall of 7-inch singles.", 12_204, 12, 3, Some((false, false))),
            peer("2b7d9e4c11", "Vinyl Rips '94", "", 9_871, 30, 2, Some((false, true))),
            peer("c4a8f0e19d", "friend-node", "Ambient and modern classical, updated weekly.", 2_494, 45, 1, Some((true, false))),
            peer("7e11aa93b0", "jazz-corner", "Hard bop through spiritual jazz.", 6_010, 3 * 86_400, 1, None),
            peer("05d6e8f2ac", "mStream", "", 412, 12 * 86_400, 0, None),
        ],
        hidden_incompatible: 1,
        local_model_id: Some("effnet-discogs".into()),
        auto_fetch: true,
        storage: CatalogStorage { used_bytes: 23 * 1_048_576, cap_bytes: 500 * 1_048_576 },
    }
}

fn request(id: &str, direction: &str, state: &str) -> FederationRequest {
    FederationRequest {
        id: 1,
        peer_endpoint_id: hex(id),
        peer_name: None,
        direction: direction.into(),
        state: state.into(),
        message: String::new(),
        offered_libraries: vec![],
        fail_count: 0,
        next_attempt_at: None,
        created_at: String::new(),
        created_peer_id: None,
        reject_reason: None,
    }
}

fn params() -> FederationParams {
    FederationParams {
        enabled: true,
        available: true,
        running: false,
        endpoint_id: None,
        online: false,
        relay_url: None,
        limit_defaults: FederationLimits { stream_kbps: 0, daily_mb: 0, max_streams: 0 },
        accept_requests: true,
    }
}

fn loaded(status: DiscoveryStatus) -> Done {
    let on = status.enabled;
    Done::Loaded(Ok(Loaded {
        status,
        catalog: if on { Some(catalog()) } else { None },
        federation: if on { Some(params()) } else { None },
        requests: if on {
            Some(vec![
                request("8f31c0e2a7", "out", "completed"),
                request("c4a8f0e19d", "in", "received"),
                request("05d6e8f2ac", "out", "delivered"),
            ])
        } else {
            None
        },
        activity: None,
    }))
}

fn on() -> Room {
    let mut room = room();
    room.apply(loaded(status_on()));
    room
}

fn press(room: &mut Room, code: Code) -> Option<Outcome> {
    handle_key(room, key(code))
}

fn type_text(room: &mut Room, text: &str) {
    for c in text.chars() {
        press(room, Code::Char(c));
    }
}

fn note(room: &Room) -> String {
    room.note.as_ref().map(|n| words(&n.msg)).unwrap_or_default()
}

fn is_error(room: &Room) -> bool {
    room.note.as_ref().is_some_and(|n| n.error)
}

/// What is typed, with the cursor behind it.
fn typed(input: &Input) -> String {
    let (before, after) = input.value().split_at(input.cursor());
    format!("{before}▏{after}")
}

fn dotted(parts: &[Msg]) -> String {
    parts.iter().map(words).collect::<Vec<_>>().join(" · ")
}

fn draw_off(g: &mut Grid, room: &Room, column: Rect, s: &DiscoveryStatus) {
    let (word, more, _) = off_words(s);
    let mut line = phrase(word).to_string();
    if let Some(k) = more {
        line.push_str(" · ");
        line.push_str(phrase(k));
    }
    g.put(column.x, column.y, column.width, &line);
    let page = off_page(column, s);
    let fixed = off_page_words(s);
    if let (Some(join), Some(requests)) = (page.join, page.requests) {
        g.put(join.x + 4, join.y + 1, join.width, phrase(fixed[0]));
        let mark = if room.accept_requests { "[✓]" } else { "[ ]" };
        g.put(requests.x, requests.y, requests.width, &format!("{mark} {}", phrase(fixed[1])));
        g.put(requests.x + 4, requests.y + 1, requests.width, phrase(fixed[2]));
    }
    for (i, k) in fixed[3..].iter().enumerate() {
        g.put(page.pitch.x, page.pitch.y + i as u16, page.pitch.width, phrase(k));
    }
}

fn draw_state(g: &mut Grid, column: Rect, s: &DiscoveryStatus) {
    let state = network_state(s);
    let mut groups = vec![format!("{}{}", phrase(state.word), state.detail.as_ref().map(words).unwrap_or_default())];
    if let Some((memory, again)) = sidecar_words(s) {
        groups.push(format!("{}{}", words(&memory), again.as_ref().map(words).unwrap_or_default()));
    }
    groups.push(format!("{}{}", phrase("p2p.state_announcing"), announced(s).0));
    let widths: Vec<u16> = groups.iter().map(|t| count(t)).collect();
    let line = groups[..facts_kept(&widths, column.width)].concat();
    g.put(column.x, column.y, column.width, &line);
    let polls = phrase("p2p.polls");
    if count(&line) + 2 + count(polls) <= column.width {
        g.put_right(column.x, column.y, column.width, polls);
    }
    if let Some(k) = waiting_words(s) {
        g.put(column.x, column.y + 1, column.width, &format!("{} {}", "▱".repeat(10), phrase(k)));
    }
}

fn draw_pane(g: &mut Grid, room: &mut Room, pane: Rect, s: &DiscoveryStatus) {
    let fixed = pane_words(room, s);
    match room.tab {
        Tab::Stats => {
            for (i, t) in tiles(room, s).iter().enumerate() {
                let r = tile_place(pane, i as u16);
                g.put(r.x, r.y, r.width, &words(&t.value));
                g.put(r.x, r.y + 1, r.width, phrase(t.label));
                g.put(r.x, r.y + 2, r.width, &words(&t.detail));
            }
        }
        Tab::Activity => {
            let (first, newest) = room.log_in_view(pane.height as usize);
            for (row, e) in room.activity[first..newest].iter().rev().enumerate() {
                let l = log_line(e, NOW);
                g.put(pane.x, pane.y + row as u16, pane.width, &format!("{:>9}  {}", words(&l.when), l.text));
            }
        }
        Tab::Invite => {
            g.put(pane.x, pane.y, pane.width, phrase(fixed[0]));
            g.put(pane.x + 11, pane.y, pane.width, &words(&endpoint_words(s)));
            g.put(pane.x, pane.y + 1, pane.width, phrase(fixed[1]));
            g.put_right(pane.x, pane.y + 1, pane.width, phrase(fixed[3]));
            g.put(pane.x, pane.y + 2, pane.width, &words(&ticket_words(s)));
            g.put(pane.x, pane.y + 4, pane.width, phrase(fixed[fixed.len() - 2]));
            let shown = if room.ticket_focus { typed(&room.ticket) } else { room.ticket.value().to_string() };
            g.put(pane.x + 2, pane.y + 6, pane.width - 4, &shown);
        }
        Tab::Config => {
            let (name, about) = announced(s);
            let mut line = format!("{}  {name}", phrase(fixed[0]));
            if let Some(d) = about {
                line.push_str(&format!(" — {d}"));
            }
            g.put(pane.x, pane.y, pane.width, &line);
            let c = config_columns(pane);
            for (i, r) in config_rows(room, s).iter().enumerate() {
                let y = pane.y + 2 + i as u16;
                g.put(pane.x, y, 1, &r.key.to_string());
                g.put(c.label, y, c.value - c.label - 1, phrase(r.label));
                g.put(c.value, y, 25, &words(&r.value));
            }
        }
    }
}

fn draw_servers(g: &mut Grid, room: &mut Room, table: Rect, s: &DiscoveryStatus) {
    g.put(table.x, table.y, table.width, phrase("p2p.section_servers"));
    let shown = if room.filter_focus { typed(&room.filter) } else { room.filter.value().to_string() };
    let mut parts = vec![words(&filter_part(room, &shown).msg)];
    parts.extend(section_parts(room, s).iter().map(words));
    let line = parts.join(" · ");
    let at = section_place(table, count(&line));
    g.put(at.x, at.y, at.width, &line);
    let c = server_columns(table);
    let mut places = vec![(table.x, c.server_width)];
    places.extend(c.tracks.map(|x| (x, TRACKS_W)));
    places.extend(c.seeders.map(|x| (x, SEEDERS_W)));
    places.extend([(c.online, ONLINE_W), (c.snapshot, SNAPSHOT_W), (c.federation, FEDERATION_W)]);
    for ((x, w), k) in places.iter().zip(column_words(c)) {
        g.put(*x, table.y + 1, *w, phrase(k));
    }
    let rows = room.rows();
    if rows.is_empty() {
        g.put(table.x, table.y + 2, table.width, phrase(empty_words(room)));
        return;
    }
    let (first, visible) = room.servers_in_view(rows.len(), table.height as usize - 2);
    for (line, i) in (first..first + visible).enumerate() {
        let p = &room.catalog.peers[rows[i]];
        let y = table.y + 2 + line as u16;
        let r = server_row(p, room.relation(&p.from), NOW, room.sel == Some(i), false);
        g.put(table.x, y, c.server_width - 1, &r.name);
        if let Some(x) = c.tracks {
            g.put_right(x, y, TRACKS_W, &r.tracks);
        }
        if let Some(x) = c.seeders {
            g.put_right(x, y, SEEDERS_W, &r.seeders);
        }
        g.put(c.online, y, ONLINE_W, &words(&r.online.msg));
        g.put(c.snapshot, y, SNAPSHOT_W, &words(&r.snapshot.msg));
        g.put(c.federation, y, FEDERATION_W, &words(&r.federation.msg));
    }
}

fn draw_card(g: &mut Grid, room: &Room) {
    let fixed = card_words(room);
    let lines = card_lines(room);
    match &room.modal {
        Modal::Closed => {}
        Modal::Sheet { id, .. } => {
            let p = room.peer(id).unwrap();
            let menu = room.sheet_menu(p);
            let inner = g.card(68, sheet_height(menu.len() as u32));
            let f = sheet_facts(p, room.relation(id), NOW);
            let (x, w) = (inner.x + 1, inner.width - 2);
            g.put(x, inner.y, w, &display_name(p));
            let facts = [
                format!("{}{}", f.endpoint, f.seen.as_ref().map(words).unwrap_or_default()),
                format!("{} · {}", phrase(f.online), words(&f.figures)),
                words(&f.snapshot),
                words(&f.federation.msg),
            ];
            for (i, (label, fact)) in fixed.iter().zip(&facts).enumerate() {
                g.put(x, inner.y + 3 + i as u16, 12, phrase(label));
                g.put(x + 12, inner.y + 3 + i as u16, w - 12, fact);
            }
            for (i, row) in menu.iter().enumerate() {
                g.put(x, inner.y + 8 + i as u16, w, &format!(" {}  {}", row.key, phrase(row.label)));
            }
        }
        Modal::Federate(c) => {
            let inner = g.card(68, compose_height(c.libraries.len() as u32));
            let (x, w) = (inner.x + 1, inner.width - 2);
            g.put(x, inner.y, w, &words(&lines[0]));
            g.put(x, inner.y + 5, w, &words(&lines[1]));
            for (i, (name, on)) in c.libraries.iter().enumerate() {
                let r = library_place(inner, i as u16);
                g.put(r.x, r.y, r.width, &format!("{} {name}", if *on { "[✓]" } else { "[ ]" }));
            }
        }
        Modal::Blocked(_) => {
            let blocked = &room.status.as_ref().unwrap().blocked_peers;
            let inner = g.card(74, blocked_height(blocked.len() as u32));
            g.put(inner.x + 1, inner.y, inner.width - 2, phrase(fixed[0]));
            for (i, id) in blocked.iter().enumerate() {
                g.put(inner.x + 1, inner.y + 2 + i as u16, inner.width - 2, id);
            }
        }
        _ => {
            let inner = g.card(68, 15);
            let mut y = inner.y;
            for line in lines.iter().map(words).chain(fixed.iter().map(|k| phrase(k).to_string())) {
                g.put(inner.x + 1, y, inner.width - 2, &line);
                y += 1;
            }
        }
    }
}

fn draw(room: &mut Room) -> String {
    let mut g = Grid::new();
    let column = room_column(Rect { x: 0, y: 0, width: 100, height: 30 });
    let status = room.status.take();
    if let Some(s) = status {
        room.status = Some(s);
        if room.enabled() {
            let page = on_page(column);
            let labels: Vec<&str> = [Tab::Stats, Tab::Activity, Tab::Invite, Tab::Config].iter().map(|t| phrase(t.label())).collect();
            let places = tab_places(column.x, &labels.iter().map(|l| count(l)).collect());
            for (r, l) in places.iter().zip(&labels) {
                g.put(r.x, page.tabs_y, r.width, &format!(" {l} "));
            }
            let end = places[3].right() + 2;
            let said = phrase("p2p.activity_note");
            if room.tab == Tab::Activity && note_fits(end, count(said), column.right()) {
                g.put_right(column.x, page.tabs_y, column.width, said);
            }
            let s = room.status.take().unwrap();
            draw_state(&mut g, column, &s);
            room.status = Some(s);
            draw_with_status(&mut g, room, page.pane, page.table);
        } else {
            draw_off(&mut g, room, column, room.status.as_ref().unwrap());
        }
    }
    if let Some(b) = &room.busy {
        g.put(2, 28, 96, &words(b));
    } else if let Some(n) = &room.note {
        g.put(2, 28, 96, &words(&n.msg));
    } else if let Some(t) = room.cursor_note() {
        g.put(2, 28, 96, &t);
    }
    g.put(2, 29, 96, phrase(footer_hint(room)));
    draw_card(&mut g, room);
    g.text()
}

fn draw_with_status(g: &mut Grid, room: &mut Room, pane: Rect, table: Rect) {
    let s = room.status.take().unwrap();
    draw_pane(g, room, pane, &s);
    draw_servers(g, room, table, &s);
    room.status = Some(s);
}

#[test]
fn off_the_network_the_page_joins_at_once_with_the_inbox_on_by_default() {
    let mut room = room();
    room.apply(loaded(status_off()));
    let frame = draw(&mut room);
    assert!(frame.contains("• not on the discovery network"), "{frame}");
    assert!(frame.contains("Join the discovery network"), "{frame}");
    assert!(frame.contains("[✓] Also let other servers send me federation requests"), "{frame}");
    assert!(frame.contains("Never any audio files."), "{frame}");
    assert!(frame.contains("• not on the discovery network · The p2p-sidecar will be downloaded when you join."), "{frame}");
    assert!(frame.contains("Enter join the network · Space federation requests · Esc back"), "{frame}");
    // Enter joins with the inbox — nothing asked in between.
    press(&mut room, Code::Enter);
    assert_eq!(room.queued, Some(Op::JoinNetwork { accept_requests: true }));
    room.queued = None;
    press(&mut room, Code::Char(' '));
    assert!(draw(&mut room).contains("[ ] Also let"));
    press(&mut room, Code::Enter);
    assert_eq!(room.queued, Some(Op::JoinNetwork { accept_requests: false }));
    room.queued = None;
    // The answer: a note, a reload, and the identity modal once the network
    // shows as on — straight into naming.
    room.apply(Done::Joined(Ok("{\"acceptRequests\":true}".into())));
    assert!(!is_error(&room) && note(&room).contains("give the mesh a minute") && note(&room).contains("inbox"));
    assert!(matches!(room.queued, Some(Op::Load { .. })));
    room.queued = None;
    room.apply(loaded(status_on()));
    assert!(matches!(room.modal, Modal::Identity(_)));
    // A partial failure says exactly which half failed.
    let mut room = room_after_join();
    room.apply(Done::Joined(Ok("{\"federationError\":\"iroh has no build here\"}".into())));
    assert!(is_error(&room) && note(&room).contains("iroh has no build here"));
}

fn room_after_join() -> Room {
    let mut room = room();
    room.apply(loaded(status_off()));
    press(&mut room, Code::Enter);
    room.queued = None;
    room
}

#[test]
fn the_state_row_says_the_mesh_state_in_the_webapps_words() {
    let mut room = on();
    let frame = draw(&mut room);
    assert!(frame.contains("• connected — 3 mesh neighbors · sidecar 19 MB · announcing as mStream Den"), "{frame}");
    assert!(frame.contains("polls every 10 s"), "{frame}");
    assert!(!frame.contains("searching for peers"), "{frame}");

    let mut s = status_on();
    s.neighbors = 0;
    s.recovery = DiscoveryRecovery { attempts: 2, retry_pending: true };
    s.watchdog.restarts = 1;
    room.apply(loaded(s));
    let frame = draw(&mut room);
    assert!(frame.contains("• reconnecting — sidecar died, replaying (attempt 2) · sidecar 19 MB (1 watchdog restart)"), "{frame}");
    assert!(!frame.lines().nth(2).unwrap_or_default().contains("announcing"), "the name drops first when the row is too wide\n{frame}");
    assert!(frame.contains("▱▱▱▱▱▱▱▱▱▱ crash recovery replays the stack"), "{frame}");

    let mut s = status_on();
    s.neighbors = 0;
    room.apply(loaded(s));
    let frame = draw(&mut room);
    assert!(frame.contains("• joined, waiting for neighbors"), "{frame}");
    assert!(frame.contains("▱▱▱▱▱▱▱▱▱▱ searching for peers — this room updates itself every 10 s"), "{frame}");

    let mut s = status_on();
    s.neighbors = 0;
    s.joined = false;
    room.apply(loaded(s));
    assert!(draw(&mut room).contains("• not joined yet"));

    let mut s = status_on();
    s.binary_found = false;
    room.apply(loaded(s));
    assert!(draw(&mut room).contains("• unavailable — the p2p-sidecar binary was not found"));
}

#[test]
fn the_table_derives_its_columns_from_the_catalog_and_the_requests() {
    let mut room = on();
    let frame = draw(&mut room);
    for word in ["SERVERS YOU FOLLOW", "SERVER", "TRACKS", "SEEDERS", "ONLINE", "SNAPSHOT", "FEDERATION"] {
        assert!(frame.contains(word), "{word}\n{frame}");
    }
    assert!(frame.contains("/ filter · 1 hidden — incompatible model · h show · 1 blocked · u unblock"), "{frame}");
    let row = |name: &str| frame.lines().find(|l| l.starts_with(&format!("  {name}"))).map(str::to_string).unwrap_or_default();
    let basement = row("Basement Archive");
    assert!(basement.contains("12,204") && basement.contains("online") && basement.contains("downloaded") && basement.contains("federated"), "{basement}");
    let vinyl = row("Vinyl Rips '94");
    assert!(vinyl.contains("downloaded · pinned") && vinyl.contains(" —"), "{vinyl}");
    let friend = row("friend-node");
    assert!(friend.contains("update available") && friend.contains("they asked you"), "{friend}");
    let jazz = row("jazz-corner");
    assert!(jazz.contains("offline · 3d") && jazz.contains("—"), "{jazz}");
    let plain = row("mStream ");
    assert!(plain.contains("offline · 12d") && plain.contains("request sent"), "{plain}");
    assert!(frame.contains("↑↓ select · ←→ tab · / filter · h hidden · e name · x leave · Esc back"), "{frame}");
    // The cursor row's description rides the note line.
    press(&mut room, Code::Down);
    let frame = draw(&mut room);
    assert!(frame.contains("Basement Archive · Northern soul, dub and a wall of 7-inch singles."), "{frame}");
    assert!(frame.contains("↑↓ rows · Enter details · d download"), "{frame}");
    // Relations, by priority.
    assert_eq!(room.relation(&hex("8f31c0e2a7")), Relation::Federated);
    assert_eq!(room.relation(&hex("c4a8f0e19d")), Relation::Theirs);
    assert_eq!(room.relation(&hex("05d6e8f2ac")), Relation::Sent);
    assert_eq!(room.relation(&hex("7e11aa93b0")), Relation::Unrelated);
}

fn entry(seq: u64, ago: i64, level: &str, message: &str) -> ActivityEntry {
    ActivityEntry { seq, t: iso_at(NOW - ago), level: level.into(), message: message.into() }
}

#[test]
fn the_stat_tiles_add_up_and_the_tabs_switch_with_the_arrows() {
    let mut room = on();
    let frame = draw(&mut room);
    assert!(frame.contains(" Stats "), "{frame}");
    for word in ["3 of 6", "snapshots held", "23.0 MB of 500.0 MB", "24,569", "peer tracks searchable", "across 3 held libraries", "6", "servers known", "1 hidden · 1 blocked", "19 MB", "ceiling 256 MB · 0 restarts", "seeding"] {
        assert!(frame.contains(word), "{word}\n{frame}");
    }
    press(&mut room, Code::Right);
    assert_eq!(room.tab, Tab::Activity);
    assert_eq!(room.queued, Some(Op::Activity(0)));
    room.queued = None;
    room.apply(Done::Activity(Ok(DiscoveryActivity {
        entries: vec![
            entry(1, 3 * 3600, "info", "sidecar started (pid 48211)"),
            entry(2, 61 * 60, "warn", "rotation found nothing fetchable under the cap"),
            entry(3, 3 * 60, "info", "Basement Archive announced a new snapshot (seq 40 -> 41)"),
        ],
        last_seq: 3,
    })));
    let frame = draw(&mut room);
    let newest = frame.lines().position(|l| l.contains("announced a new snapshot")).unwrap();
    let oldest = frame.lines().position(|l| l.contains("sidecar started")).unwrap();
    assert!(newest < oldest, "newest first\n{frame}");
    assert!(frame.contains("       3m  Basement Archive announced"), "{frame}");
    assert!(frame.contains("newest first · full history in the server logs"), "{frame}");
    // A restarted server resets its seq: the history starts over.
    room.apply(Done::Activity(Ok(DiscoveryActivity { entries: vec![entry(1, 10, "info", "fresh boot")], last_seq: 1 })));
    assert_eq!(room.activity.len(), 1);
    press(&mut room, Code::Right);
    assert_eq!(room.tab, Tab::Invite);
    let frame = draw(&mut room);
    assert!(frame.contains("ENDPOINT") && frame.contains(&hex("51403e7b9c")), "{frame}");
    assert!(frame.contains("YOUR TICKET") && frame.contains("nodeaa4qk3r7z2nlxwm5c6bdhpj2ev5gktr3q7hifobyq2j5ru4kiggizaaaqbxk3ewgk6wxjm"), "{frame}");
    assert!(frame.contains("BEFRIEND A SERVER") && frame.contains("y copy"), "{frame}");
    press(&mut room, Code::Right);
    assert_eq!(room.tab, Tab::Config);
    let frame = draw(&mut room);
    assert!(frame.contains("ANNOUNCING AS  mStream Den — Vinyl, jazz and field recordings"), "{frame}");
    assert!(frame.contains("1  Snapshot storage cap    500 MB"), "{frame}");
    assert!(frame.contains("2  Forget offline servers  after 30 days of silence"), "{frame}");
    assert!(frame.contains("3  Auto-fetch snapshots    up to 6 servers"), "{frame}");
    assert!(frame.contains("4  Rotate downloads        after 7 days"), "{frame}");
    assert!(frame.contains("5  Sidecar memory ceiling  256 MB"), "{frame}");
    assert!(frame.contains("   Community seeds         on"), "{frame}");
    assert!(frame.contains("1–5 edit a setting"), "{frame}");
    press(&mut room, Code::Right);
    assert_eq!(room.tab, Tab::Stats, "the tabs wrap");
    press(&mut room, Code::Left);
    assert_eq!(room.tab, Tab::Config);
}

#[test]
fn the_sheet_lists_only_what_applies_and_its_letters_act() {
    let mut room = on();
    // Basement: held, federated, online → update, pin, remove, block.
    press(&mut room, Code::Down);
    press(&mut room, Code::Enter);
    let Modal::Sheet { id, sel: 0 } = &room.modal else { panic!("the sheet, cursor on top") };
    let keys: Vec<char> = room.sheet_menu(room.peer(id).unwrap()).iter().map(|r| r.key).collect();
    assert_eq!(keys, vec!['d', 'p', 'r', 'b']);
    let frame = draw(&mut room);
    assert!(frame.contains("Update the snapshot") && frame.contains("Pin it") && !frame.contains("Ask to federate"), "{frame}");
    assert!(frame.contains("downloaded 2d ago · 8.0 MB"), "{frame}");
    assert!(frame.contains("12,204 tracks · 3 seeders"), "{frame}");
    assert!(frame.contains("↑↓ choose · Enter act · Esc close"), "{frame}");
    // Enter on the cursor row runs it.
    press(&mut room, Code::Enter);
    assert!(matches!(room.modal, Modal::Closed));
    assert!(matches!(room.queued, Some(Op::Fetch { .. })));
    room.queued = None;
    // jazz-corner: offline, nothing held, no relation → download, federate,
    // forget, block.
    for _ in 0..3 {
        press(&mut room, Code::Down);
    }
    press(&mut room, Code::Enter);
    let Modal::Sheet { id, .. } = &room.modal else { panic!("the sheet") };
    let keys: Vec<char> = room.sheet_menu(room.peer(id).unwrap()).iter().map(|r| r.key).collect();
    assert_eq!(keys, vec!['d', 'f', 'g', 'b']);
    // The letters work inside the sheet, and a block is asked about first.
    press(&mut room, Code::Char('b'));
    assert!(matches!(room.modal, Modal::Block(_)));
    let frame = draw(&mut room);
    assert!(frame.contains("Block jazz-corner?") && frame.contains("◂ Keep") && frame.contains("y block · Esc keep"), "{frame}");
    press(&mut room, Code::Enter);
    assert!(matches!(room.modal, Modal::Closed) && room.queued.is_none(), "Enter is the safe choice");
    press(&mut room, Code::Char('b'));
    press(&mut room, Code::Char('y'));
    assert_eq!(room.queued, Some(Op::Peer { action: PeerAction::Block, id: hex("7e11aa93b0"), name: "jazz-corner".into() }));
}

#[test]
fn row_keys_act_on_the_cursor_row_and_the_compose_offers_every_library() {
    let mut room = on();
    press(&mut room, Code::Down); // Basement: federated
    press(&mut room, Code::Char('f'));
    assert!(matches!(room.modal, Modal::Closed), "no compose for a server already federated with");
    press(&mut room, Code::Down); // Vinyl: held, pinned
    press(&mut room, Code::Char('p'));
    assert_eq!(room.queued, Some(Op::Pin { id: hex("2b7d9e4c11"), pinned: false }));
    room.queued = None;
    press(&mut room, Code::Char('r'));
    assert!(matches!(room.queued, Some(Op::Peer { action: PeerAction::RemoveSnapshot, .. })));
    room.queued = None;
    press(&mut room, Code::Char('g'));
    assert!(room.queued.is_none(), "an online, held server cannot be forgotten");
    press(&mut room, Code::Down);
    press(&mut room, Code::Down); // jazz-corner
    press(&mut room, Code::Char('g'));
    assert!(matches!(room.queued, Some(Op::Peer { action: PeerAction::Forget, .. })));
    room.queued = None;
    press(&mut room, Code::Char('f'));
    assert!(matches!(room.modal, Modal::Federate(_)));
    assert_eq!(room.queued, Some(Op::Libraries));
    room.queued = None;
    room.apply(Done::Libraries(Ok(vec!["music".into(), "vinyl".into()])));
    type_text(&mut room, "Swap jazz for field recordings?");
    let frame = draw(&mut room);
    assert!(frame.contains("Ask jazz-corner to federate"), "{frame}");
    assert!(frame.contains("MESSAGE · optional · 31 / 500"), "{frame}");
    assert!(frame.contains("[✓] music") && frame.contains("[✓] vinyl"), "{frame}");
    press(&mut room, Code::Tab);
    press(&mut room, Code::Tab);
    press(&mut room, Code::Char(' '));
    assert!(draw(&mut room).contains("[ ] vinyl"));
    press(&mut room, Code::Enter);
    assert_eq!(
        room.queued,
        Some(Op::SendRequest {
            id: hex("7e11aa93b0"),
            name: "jazz-corner".into(),
            offer: vec!["music".into()],
            message: "Swap jazz for field recordings?".into(),
        })
    );
    room.queued = None;
    room.apply(Done::RequestSent {
        name: "jazz-corner".into(),
        result: Err(ApiError::Server { status: 409, message: "already asked".into() }),
    });
    let Modal::Federate(c) = &room.modal else { panic!("a refusal keeps the compose") };
    assert!(c.error.as_ref().is_some_and(|e| words(e).contains("already asked")));
    room.apply(Done::RequestSent { name: "jazz-corner".into(), result: Ok(()) });
    assert!(matches!(room.modal, Modal::Closed));
    assert!(note(&room).contains("jazz-corner will see it"));
}

#[test]
fn settings_open_by_digit_and_refuse_what_the_server_would() {
    let mut room = on();
    press(&mut room, Code::Char('3'));
    let Modal::Setting(d) = &room.modal else { panic!("the setting modal") };
    assert_eq!(d.which, DiscoverySetting::AutoFetchCount);
    assert_eq!(d.value.value(), "6");
    press(&mut room, Code::Backspace);
    type_text(&mut room, "9x9");
    press(&mut room, Code::Enter);
    let Modal::Setting(d) = &room.modal else { panic!("still the setting modal") };
    assert_eq!(d.value.value(), "99", "only digits reach the field");
    assert_eq!(d.error.as_ref().map(words).as_deref(), Some("enter a whole number from 0 to 50"));
    assert!(room.queued.is_none());
    press(&mut room, Code::Backspace);
    press(&mut room, Code::Enter);
    assert_eq!(room.queued, Some(Op::Setting { which: DiscoverySetting::AutoFetchCount, value: 9 }));
    room.queued = None;
    room.apply(Done::Setting { which: DiscoverySetting::AutoFetchCount, value: 9, result: Ok(()) });
    assert!(matches!(room.modal, Modal::Closed));
    assert_eq!(room.status.as_ref().unwrap().auto_fetch_count, 9);
    let frame = draw(&mut room);
    assert!(frame.contains("setting saved"), "{frame}");
}

#[test]
fn the_identity_modal_saves_only_what_changed_and_never_a_blank_name() {
    let mut room = on();
    press(&mut room, Code::Char('e'));
    assert!(matches!(room.modal, Modal::Identity(_)));
    press(&mut room, Code::Enter);
    assert!(matches!(room.modal, Modal::Closed) && room.queued.is_none(), "nothing changed, nothing sent");
    press(&mut room, Code::Char('e'));
    type_text(&mut room, " two|");
    press(&mut room, Code::Enter);
    assert_eq!(
        room.queued,
        Some(Op::Identity { name: Some("mStream Den two".into()), description: None }),
        "the pipe never reaches the field"
    );
    room.queued = None;
    room.apply(Done::Identity(Ok(())));
    assert!(matches!(room.modal, Modal::Closed));
    assert!(matches!(room.queued, Some(Op::Load { .. })), "a saved identity reloads");
    room.queued = None;
    press(&mut room, Code::Char('e'));
    for _ in 0.."mStream Den".len() {
        press(&mut room, Code::Backspace);
    }
    press(&mut room, Code::Enter);
    let Modal::Identity(d) = &room.modal else { panic!("the identity modal") };
    assert_eq!(d.error.as_ref().map(words).as_deref(), Some("the server name must not be blank"));
    press(&mut room, Code::Tab);
    type_text(&mut room, " and more");
    press(&mut room, Code::Enter);
    let Modal::Identity(d) = &room.modal else { panic!("the identity modal") };
    assert!(d.error.is_some(), "a blank name is refused whatever the description");
    assert!(room.queued.is_none());
}

#[test]
fn the_befriend_box_and_the_filter_take_the_keys_only_while_focused() {
    let mut room = on();
    press(&mut room, Code::Char('j'));
    assert_eq!(room.tab, Tab::Invite);
    assert!(room.ticket_focus);
    type_text(&mut room, "nodeab7fj3pq2xw");
    assert!(room.sel.is_none(), "typing never moved the table cursor");
    let frame = draw(&mut room);
    assert!(frame.contains("nodeab7fj3pq2xw▏"), "{frame}");
    assert!(frame.contains("type or paste the ticket · Enter join · Esc leave the field"), "{frame}");
    press(&mut room, Code::Enter);
    assert_eq!(room.queued, Some(Op::Befriend("nodeab7fj3pq2xw".into())));
    room.queued = None;
    room.apply(Done::Befriended(Ok(())));
    assert!(!room.ticket_focus && room.ticket.value().is_empty());
    assert!(note(&room).contains("within a minute"));

    press(&mut room, Code::Char('/'));
    assert!(room.filter_focus);
    type_text(&mut room, "jazz");
    assert_eq!(room.rows().len(), 1);
    assert!(draw(&mut room).contains("/ jazz▏"));
    press(&mut room, Code::Enter);
    assert!(!room.filter_focus && room.filter_on);
    press(&mut room, Code::Down);
    assert_eq!(room.selected_peer().map(display_name).as_deref(), Some("jazz-corner"));
    press(&mut room, Code::Esc); // stows the cursor
    press(&mut room, Code::Esc); // clears the filter
    assert!(!room.filter_on);
    assert_eq!(room.rows().len(), 5);
    assert!(matches!(press(&mut room, Code::Esc), Some(Outcome::Quit)));
}

#[test]
fn leaving_is_gated_and_load_errors_name_the_gate_that_bit() {
    let mut room = on();
    press(&mut room, Code::Char('x'));
    assert!(matches!(room.modal, Modal::Leave));
    let frame = draw(&mut room);
    assert!(frame.contains("Leave the discovery network?") && frame.contains("◂ Stay") && frame.contains("y leave · Esc stay"), "{frame}");
    press(&mut room, Code::Esc);
    assert!(room.queued.is_none());
    press(&mut room, Code::Char('x'));
    press(&mut room, Code::Char('y'));
    assert_eq!(room.queued, Some(Op::LeaveNetwork));
    room.queued = None;
    room.apply(Done::Left(Ok(())));
    assert!(matches!(room.queued, Some(Op::Load { .. })));
    room.apply(loaded(status_off()));
    assert!(!room.enabled() && room.sel.is_none());

    let mut room = room_after_join();
    room.apply(Done::Loaded(Err(ApiError::Server { status: 405, message: String::new() })));
    assert!(is_error(&room) && note(&room).contains("locked"));
    room.apply(Done::Loaded(Err(ApiError::Unauthorized)));
    assert!(note(&room).contains("login"));
}

#[test]
fn the_blocked_list_unblocks_and_the_hidden_toggle_reloads() {
    let mut room = on();
    press(&mut room, Code::Char('u'));
    assert!(matches!(room.modal, Modal::Blocked(0)));
    let frame = draw(&mut room);
    assert!(frame.contains("Blocked servers") && frame.contains(&hex("a1b2c3d4e5")), "{frame}");
    press(&mut room, Code::Enter);
    assert!(matches!(room.modal, Modal::Closed));
    assert_eq!(room.queued, Some(Op::Peer { action: PeerAction::Unblock, id: hex("a1b2c3d4e5"), name: "a1b2c3d4e5a1…".into() }));
    room.queued = None;
    press(&mut room, Code::Char('h'));
    assert_eq!(room.queued, Some(Op::Load { include_incompatible: true, activity_since: None }));
    assert!(draw(&mut room).contains("showing incompatible servers · h hide"));
}

#[test]
fn the_poll_is_quiet_and_only_while_on_the_network() {
    let mut room = room();
    room.tick(20_000);
    assert!(room.queued.is_none(), "nothing before the first load answers");
    room.apply(loaded(status_off()));
    room.tick(20_000);
    assert!(room.queued.is_none(), "off the network, no poll");
    room.apply(loaded(status_on()));
    room.tick(20_000);
    assert_eq!(room.queued, Some(Op::Load { include_incompatible: false, activity_since: None }));
    assert!(room.busy.is_none(), "the poll shows no busy line");
    room.last_load = Some(20_000);
    room.queued = None;
    room.tick(20_000);
    assert!(room.queued.is_none(), "not again within the cadence");
}

#[test]
fn time_and_number_helpers() {
    assert_eq!(iso_unix("2026-09-06T09:41:52Z"), Some(1_788_687_712));
    assert_eq!(iso_unix("2026-09-06T09:41:52.123Z"), Some(1_788_687_712));
    assert_eq!(iso_unix("yesterday"), None);
    for t in [0, 951_782_400, 1_788_687_712, 4_102_444_800] {
        assert_eq!(iso_unix(&iso_at(t)), Some(t), "{t}");
    }
    assert_eq!(words(&age_text(30)), "now");
    assert_eq!(words(&age_text(120)), "2m");
    assert_eq!(words(&age_text(3 * 3600)), "3h");
    assert_eq!(words(&age_text(47 * 3600)), "47h");
    assert_eq!(words(&age_text(3 * 86_400)), "3d");
    assert_eq!(fmt_count(12_204), "12,204");
    assert_eq!(fmt_count(412), "412");
    assert_eq!(fmt_count(1_000_000), "1,000,000");
    assert_eq!(fmt_bytes(23 * 1_048_576), "23.0 MB");
    assert_eq!(fmt_bytes(3 * 1_073_741_824), "3.0 GB");
    assert_eq!(fmt_bytes(1_536), "2 KB");
    assert_eq!(short_id(&hex("8f31c0e2a7")), "8f31c0e2a78f…");
    assert_eq!(printable("bad\u{1b}[31mname\u{202E}", 10), "bad[31mnam");
}

#[test]
fn the_filter_looks_at_names_words_and_endpoints_whatever_the_case() {
    assert!(query_hits("bop", "x", "hard bop", "7e11"));
    assert!(query_hits("7e1", "x", "", "7e11"));
    assert!(!query_hits("dub", "jazz-corner", "hard bop", "7e11"));
    assert!(query_hits("", "anything", "", ""), "nothing typed finds all");
    let mut room = on();
    room.catalog.peers[4].payload.name = "Bel ÉTÉ".into();
    for (typed, found) in [("JAZZ", vec![3]), ("Hard Bop", vec![3]), ("7E11AA", vec![3]), ("été", vec![4]), ("  ", vec![0, 1, 2, 3, 4])] {
        press(&mut room, Code::Char('/'));
        type_text(&mut room, typed);
        assert_eq!(room.rows(), found, "{typed}");
        press(&mut room, Code::Esc);
    }
}

#[test]
fn the_cursor_follows_its_server_through_a_reload() {
    let mut room = on();
    press(&mut room, Code::Down);
    press(&mut room, Code::Down);
    press(&mut room, Code::Down); // friend-node
    let mut c = catalog();
    c.peers.swap(0, 2);
    room.apply(Done::Loaded(Ok(Loaded { status: status_on(), catalog: Some(c), federation: None, requests: None, activity: None })));
    assert_eq!(room.selected_peer().map(display_name).as_deref(), Some("friend-node"));
    assert_eq!(room.sel, Some(0));
}

#[test]
fn the_log_keeps_the_newest_lines() {
    let mut room = on();
    room.apply(Done::Activity(Ok(DiscoveryActivity { entries: (1..=600).map(|i| entry(i, 0, "info", "x")).collect(), last_seq: 600 })));
    assert_eq!(room.activity.len(), 500);
    assert_eq!(room.activity[0].seq, 101);
    assert_eq!(room.activity_seq, 600);
    room.ascroll = 9_999;
    assert_eq!(room.log_in_view(8), (0, 8), "no further than the oldest line");
    assert_eq!(room.ascroll, 492);
    room.ascroll = 0;
    assert_eq!(room.log_in_view(8), (492, 500));
}

#[test]
fn the_server_columns_drop_out_one_by_one() {
    let wide = server_columns(Rect { x: 2, y: 0, width: 96, height: 10 });
    assert!(wide.tracks.is_some() && wide.seeders.is_some());
    assert_eq!(wide.federation + FEDERATION_W, 98);
    let narrow = server_columns(Rect { x: 2, y: 0, width: 66, height: 10 });
    assert!(narrow.tracks.is_none() || narrow.seeders.is_none());
    assert!(narrow.server_width >= 16);
    assert_eq!(narrow.federation + FEDERATION_W, 68);
}

#[test]
fn clicks_and_cards_of_the_discovery_room() {
    assert_eq!(sheet_click(2, 2), Act::SheetRun);
    assert_eq!(sheet_click(1, 2), Act::SheetPick(1));
    assert_eq!(blocked_click(0, 0), Act::BlockedRun);
    assert_eq!(blocked_click(3, 0), Act::BlockedPick(3));
    assert_eq!((sheet_height(4), compose_height(0), compose_height(7), blocked_height(0)), (14, 15, 17, 7));
    let room = on();
    assert_eq!(gate_name(&room, &hex("7e11aa93b0")), "jazz-corner");
    assert_eq!(gate_name(&room, "0123456789abcdef"), "0123456789ab…");
    assert_eq!(join_tip(&status_off()), "p2p.tip_join_download");
    assert_eq!(log_line(&entry(1, 0, "error", "x"), NOW).tone, Tone::Gold);
}

#[test]
fn the_ticket_is_copied_and_the_outcome_said() {
    let mut room = start(bounds());
    room.apply(loaded(status_on()));
    room.act(Act::CopyTicket);
    let text = room.take_clipboard();
    assert!(text.is_some_and(|t| t.starts_with("nodeaa4q")));
    assert!(room.take_clipboard().is_none());
    room.copied(true);
    assert_eq!(note(&room), "p2p.copied");
    room.copied(false);
    assert_eq!(note(&room), "p2p.copy_failed");
}

#[test]
fn only_one_call_is_in_flight() {
    let mut room = start(bounds());
    room.apply(loaded(status_on()));
    room.queued = Some(Op::Libraries);
    assert_eq!(room.dispatch_queued(5), Some(Op::Libraries));
    room.queued = Some(Op::LeaveNetwork);
    assert_eq!(room.dispatch_queued(6), None, "the first has not come back");
    room.send_failed();
    assert_eq!(note(&room), "note.worker_gone");
    assert_eq!(room.dispatch_queued(7), Some(Op::LeaveNetwork));
}

#[test]
fn a_failed_download_names_the_server() {
    let mut room = on();
    room.apply(Done::Fetched { name: "jazz-corner".into(), result: Err(ApiError::NotFound("gone".into())) });
    assert!(is_error(&room));
    assert!(note(&room).contains("gone"), "{}", note(&room));
}

#[test]
fn dotted_parts_of_the_section() {
    let mut room = on();
    room.catalog.hidden_incompatible = 3;
    assert_eq!(dotted(&section_parts(&room, &status_on())), "3 hidden — incompatible models · h show · 1 blocked · u unblock");
}

#[test]
fn the_sheet_of_a_server_that_is_gone_closes() {
    let mut room = on();
    press(&mut room, Code::Down);
    press(&mut room, Code::Enter);
    assert!(matches!(room.modal, Modal::Sheet { .. }));
    room.settle();
    assert!(matches!(room.modal, Modal::Sheet { .. }), "it is still known");
    room.catalog.peers.clear();
    room.settle();
    assert!(matches!(room.modal, Modal::Closed));
}
