//! The discovery room: the network of servers, the snapshots held of them, and
//! what this server announces.

use tui_input::Input;
use vstd::prelude::*;

use crate::federation::{offer_names, ticked_names, FederationLimits, FederationParams, FederationRequest};
use crate::line::{blank, edit, Code, Key};
use crate::msg::{gate_message, ApiError, Arg, Fill, Msg, Note};
use crate::outside::{bool_of, member_of, string_of};
use crate::screen::{cursor_down, cursor_up, keep_cursor, scroll, Outcome};
use crate::text::{contains, decimal, is_control, printable, read_number, same, short_id, trim};

verus! {

use crate::federation::{offered, shown_name, ticked};
use crate::line::{after_key, all_of, holds, input_value, is_blank, key_changes, stays_of_a_kind};
use crate::msg::{error, gate, one, remark, says};
use crate::outside::{json_bool, json_member, json_string, lower_case};
use crate::screen::{first_place, kept, place_holds, place_of, row_down, row_up, scrolled, within};
use crate::text::{contains_text, control, dec, decimals_are_digits, fingerprint, is_digit, is_text, number_upto, trimmed};

/// The room's cadence, in milliseconds.
pub const POLL_EVERY: u64 = 10_000;

/// The rows of the pane under the tabs, whatever the tab.
pub const PANE_ROWS: u16 = 8;

/// The caps on the announced identity.
pub const NAME_MAX: usize = 64;

pub const DESCRIPTION_MAX: usize = 180;

/// The cap on a request's message.
pub const MESSAGE_MAX: usize = 500;

/// How many lines of the log are kept.
pub const LOG_MAX: usize = 500;

// ── What the server says ─────────────────────────────────────────────────

#[derive(Clone, Copy, Debug, PartialEq, Eq, Structural)]
pub struct DiscoveryWatchdog {
    /// The sidecar's memory, in whole megabytes.
    pub last_rss_mb: Option<u64>,
    pub restarts: u32,
    pub max_rss_mb: u64,
}

#[derive(Clone, Copy, Debug, PartialEq, Eq, Structural)]
pub struct DiscoveryRecovery {
    pub attempts: u32,
    pub retry_pending: bool,
}

#[derive(Debug, PartialEq)]
pub struct DiscoveryStatus {
    pub enabled: bool,
    pub binary_found: bool,
    pub binary_fetchable: bool,
    pub running: bool,
    pub endpoint_id: Option<String>,
    pub ticket: Option<String>,
    pub joined: bool,
    pub neighbors: u32,
    pub watchdog: DiscoveryWatchdog,
    pub recovery: DiscoveryRecovery,
    pub known_peers: u32,
    pub community_seeds: bool,
    pub server_name: String,
    pub server_description: String,
    pub max_peer_db_storage_mb: u64,
    pub auto_fetch_count: u32,
    pub rotation_days: u32,
    pub peer_retention_days: u32,
    pub blocked_peers: Vec<String>,
}

/// What a server announces of itself.
#[derive(Debug, PartialEq)]
pub struct PeerPayload {
    pub name: String,
    pub description: String,
    pub row_count: u64,
    pub snapshot_seq: u64,
    pub model_id: String,
}

/// A snapshot of a server that is held here.
#[derive(Debug, PartialEq)]
pub struct HeldSnapshot {
    pub snapshot_seq: u64,
    pub stale: bool,
    pub size_bytes: u64,
    pub fetched_at: String,
    pub first_fetched_at: String,
    pub pinned: bool,
}

#[derive(Debug, PartialEq)]
pub struct CatalogPeer {
    /// The server's endpoint id.
    pub from: String,
    pub payload: PeerPayload,
    pub updated_at: String,
    pub online: bool,
    pub seeders: u32,
    pub fetched: Option<HeldSnapshot>,
    pub compatible: Option<bool>,
}

#[derive(Clone, Copy, Debug, PartialEq, Eq, Structural)]
pub struct CatalogStorage {
    pub used_bytes: u64,
    pub cap_bytes: u64,
}

#[derive(Debug, PartialEq)]
pub struct DiscoveryCatalog {
    pub peers: Vec<CatalogPeer>,
    pub hidden_incompatible: u32,
    pub local_model_id: Option<String>,
    pub auto_fetch: bool,
    pub storage: CatalogStorage,
}

/// One line of the discovery log.
#[derive(Debug, PartialEq)]
pub struct ActivityEntry {
    pub seq: u64,
    pub t: String,
    pub level: String,
    pub message: String,
}

/// The lines of the log past a place, and the newest place.
#[derive(Debug, PartialEq)]
pub struct DiscoveryActivity {
    pub entries: Vec<ActivityEntry>,
    pub last_seq: u64,
}

/// The settings that are numbers.
#[derive(Clone, Copy, Debug, PartialEq, Eq, Structural)]
pub enum DiscoverySetting {
    MaxStorageMb,
    PeerRetentionDays,
    AutoFetchCount,
    RotationDays,
    SidecarMaxRssMb,
}

/// The least and the most that the server takes for a setting.
#[derive(Clone, Copy, Debug, PartialEq, Eq, Structural)]
pub struct Range {
    pub min: u64,
    pub max: u64,
}

/// The range of each setting.
#[derive(Clone, Copy, Debug, PartialEq, Eq, Structural)]
pub struct Bounds {
    pub max_storage_mb: Range,
    pub peer_retention_days: Range,
    pub auto_fetch_count: Range,
    pub rotation_days: Range,
    pub sidecar_max_rss_mb: Range,
}

/// What can be done about one server.
#[derive(Clone, Copy, Debug, PartialEq, Eq, Structural)]
pub enum PeerAction {
    RemoveSnapshot,
    Forget,
    Block,
    Unblock,
}

/// A server's name for the screen: gated, the short endpoint id where it gives
/// none.
pub fn display_name(peer: &CatalogPeer) -> (out: String)
    ensures
        out@ == shown_name(peer.payload.name@, peer.from@),
{
    let name = printable(peer.payload.name.as_str(), NAME_MAX);
    if name.as_str().is_empty() {
        short_id(peer.from.as_str())
    } else {
        name
    }
}

// ── State ────────────────────────────────────────────────────────────────

#[derive(Clone, Copy, Debug, PartialEq, Eq, Structural)]
pub enum Tab {
    Stats,
    Activity,
    Invite,
    Config,
}

/// The tab beside a tab, around the end.
pub open spec fn tab_beside(tab: Tab, forward: bool) -> Tab {
    match (tab, forward) {
        (Tab::Stats, true) => Tab::Activity,
        (Tab::Activity, true) => Tab::Invite,
        (Tab::Invite, true) => Tab::Config,
        (Tab::Config, true) => Tab::Stats,
        (Tab::Stats, false) => Tab::Config,
        (Tab::Activity, false) => Tab::Stats,
        (Tab::Invite, false) => Tab::Activity,
        (Tab::Config, false) => Tab::Invite,
    }
}

impl Tab {
    /// The tab's name.
    pub fn label(self) -> (key: &'static str)
        ensures
            key == (match self {
                Tab::Stats => "p2p.tab_stats",
                Tab::Activity => "p2p.tab_activity",
                Tab::Invite => "p2p.tab_invite",
                Tab::Config => "p2p.tab_config",
            }),
    {
        match self {
            Tab::Stats => "p2p.tab_stats",
            Tab::Activity => "p2p.tab_activity",
            Tab::Invite => "p2p.tab_invite",
            Tab::Config => "p2p.tab_config",
        }
    }

    /// The tab beside this one, around the end.
    pub fn next(self, forward: bool) -> (t: Tab)
        ensures
            t == tab_beside(self, forward),
    {
        match self {
            Tab::Stats => if forward { Tab::Activity } else { Tab::Config },
            Tab::Activity => if forward { Tab::Invite } else { Tab::Stats },
            Tab::Invite => if forward { Tab::Config } else { Tab::Activity },
            Tab::Config => if forward { Tab::Stats } else { Tab::Invite },
        }
    }
}

/// A step to the next tab and one back lead to the same tab.
pub proof fn tabs_step_back(tab: Tab)
    ensures
        tab_beside(tab_beside(tab, true), false) == tab,
        tab_beside(tab_beside(tab, false), true) == tab,
{
}

/// How a server stands to this one, by the federation requests between them.
#[derive(Clone, Copy, Debug, PartialEq, Eq, Structural)]
pub enum Relation {
    Unrelated,
    Federated,
    Theirs,
    Sent,
}

/// A request that became a pairing with a server.
pub open spec fn pairs(r: FederationRequest, id: Seq<char>) -> bool {
    r.peer_endpoint_id@ == id && r.state@ == "completed"@
}

/// A live request from a server.
pub open spec fn asks_us(r: FederationRequest, id: Seq<char>) -> bool {
    r.peer_endpoint_id@ == id && r.direction@ == "in"@ && (r.state@ == "received"@ || r.state@ == "accepted"@ || r.state@
        == "granting"@)
}

/// A live request to a server.
pub open spec fn asks_them(r: FederationRequest, id: Seq<char>) -> bool {
    r.peer_endpoint_id@ == id && r.direction@ == "out"@ && (r.state@ == "pending-delivery"@ || r.state@ == "delivered"@
        || r.state@ == "granting"@)
}

/// A pairing beats a pending request of theirs beats a live one of ours.
pub open spec fn relation_to(requests: Seq<FederationRequest>, id: Seq<char>) -> Relation {
    if exists|i: int| 0 <= i < requests.len() && pairs(#[trigger] requests[i], id) {
        Relation::Federated
    } else if exists|i: int| 0 <= i < requests.len() && asks_us(#[trigger] requests[i], id) {
        Relation::Theirs
    } else if exists|i: int| 0 <= i < requests.len() && asks_them(#[trigger] requests[i], id) {
        Relation::Sent
    } else {
        Relation::Unrelated
    }
}

/// How a server stands to this one.
pub fn relation_of(requests: &Vec<FederationRequest>, id: &str) -> (r: Relation)
    ensures
        r == relation_to(requests@, id@),
{
    let mut paired = false;
    let mut theirs = false;
    let mut sent = false;
    let mut i: usize = 0;
    while i < requests.len()
        invariant
            i <= requests@.len(),
            paired == exists|k: int| 0 <= k < i && pairs(#[trigger] requests@[k], id@),
            theirs == exists|k: int| 0 <= k < i && asks_us(#[trigger] requests@[k], id@),
            sent == exists|k: int| 0 <= k < i && asks_them(#[trigger] requests@[k], id@),
        decreases requests@.len() - i,
    {
        let r = &requests[i];
        if same(r.peer_endpoint_id.as_str(), id) {
            let state = r.state.as_str();
            let inward = same(r.direction.as_str(), "in");
            let outward = same(r.direction.as_str(), "out");
            if same(state, "completed") {
                paired = true;
            }
            if inward && (same(state, "received") || same(state, "accepted") || same(state, "granting")) {
                theirs = true;
            }
            if outward && (same(state, "pending-delivery") || same(state, "delivered") || same(state, "granting")) {
                sent = true;
            }
        }
        i += 1;
    }
    if paired {
        Relation::Federated
    } else if theirs {
        Relation::Theirs
    } else if sent {
        Relation::Sent
    } else {
        Relation::Unrelated
    }
}

/// A federation request being written: a message, and the libraries offered
/// back.
pub struct Compose {
    pub id: String,
    pub name: String,
    pub message: Input,
    pub libraries: Vec<(String, bool)>,
    pub loaded: bool,
    /// The message, or a library's row.
    pub focus: Option<usize>,
    pub error: Option<Msg>,
}

/// The two fields that the network sees.
pub struct IdentityDraft {
    pub name: Input,
    pub description: Input,
    pub on_description: bool,
    pub error: Option<Msg>,
}

/// One number being edited.
pub struct SettingDraft {
    pub which: DiscoverySetting,
    pub value: Input,
    pub error: Option<Msg>,
}

pub enum Modal {
    Closed,
    /// A server's facts and its actions as a list.
    Sheet { id: String, sel: usize },
    Federate(Compose),
    Identity(IdentityDraft),
    Setting(SettingDraft),
    /// The warning before a server is blocked.
    Block(String),
    /// The warning before the network is left.
    Leave,
    /// The blocked servers, with the cursor.
    Blocked(usize),
}

/// Everything that a click can mean.
#[derive(Debug, PartialEq)]
pub enum Act {
    Tab(Tab),
    Join,
    ToggleRequests,
    Leave,
    LeaveConfirm,
    LeaveCancel,
    /// A table row, by its visible place.
    OpenSheet(usize),
    SheetPick(usize),
    SheetRun,
    SheetClose,
    Fetch(String),
    Pin(String, bool),
    RemoveSnapshot(String),
    Forget(String),
    Federate(String),
    Block(String),
    BlockConfirm,
    BlockCancel,
    ComposeFocusMessage,
    ComposeToggle(usize),
    ComposeSend,
    ComposeCancel,
    IdentityOpen,
    IdentityFocus(bool),
    IdentitySave,
    IdentityCancel,
    SettingOpen(DiscoverySetting),
    SettingSave,
    SettingCancel,
    TicketFocus,
    TicketJoin,
    CopyTicket,
    ToggleIncompatible,
    FilterOpen,
    BlockedOpen,
    BlockedPick(usize),
    BlockedRun,
    BlockedClose,
    TableScroll(i8),
    TableScrollTo(usize),
    Quit,
}

/// A row of a server's sheet: its key, its label, what it does.
#[derive(Debug, PartialEq)]
pub struct MenuRow {
    pub key: char,
    pub label: &'static str,
    pub act: Act,
}

/// A server call; it carries everything that it needs.
#[derive(Debug, PartialEq)]
#[allow(inconsistent_fields)]
pub enum Op {
    /// The status and, on the network, the catalog, federation's state and the
    /// requests; the log too where a place is given.
    Load { include_incompatible: bool, activity_since: Option<u64> },
    Activity(u64),
    JoinNetwork { accept_requests: bool },
    LeaveNetwork,
    Identity { name: Option<String>, description: Option<String> },
    Befriend(String),
    Fetch { id: String, name: String },
    Pin { id: String, pinned: bool },
    Peer { action: PeerAction, id: String, name: String },
    Setting { which: DiscoverySetting, value: u64 },
    SendRequest { id: String, name: String, offer: Vec<String>, message: String },
    Libraries,
}

/// One load's answer: the status, and what the server was willing to add.
#[derive(Debug, PartialEq)]
pub struct Loaded {
    pub status: DiscoveryStatus,
    pub catalog: Option<DiscoveryCatalog>,
    pub federation: Option<FederationParams>,
    pub requests: Option<Vec<FederationRequest>>,
    pub activity: Option<DiscoveryActivity>,
}

/// What comes back for each [`Op`].
#[derive(Debug, PartialEq)]
pub enum Done {
    Loaded(Result<Loaded, ApiError>),
    Activity(Result<DiscoveryActivity, ApiError>),
    /// The answer is the server's document.
    Joined(Result<String, ApiError>),
    Left(Result<(), ApiError>),
    Identity(Result<(), ApiError>),
    Befriended(Result<(), ApiError>),
    Fetched { name: String, result: Result<(), ApiError> },
    Pinned { id: String, pinned: bool, result: Result<(), ApiError> },
    Peer { action: PeerAction, name: String, result: Result<(), ApiError> },
    Setting { which: DiscoverySetting, value: u64, result: Result<(), ApiError> },
    RequestSent { name: String, result: Result<(), ApiError> },
    Libraries(Result<Vec<String>, ApiError>),
}

pub struct Room {
    /// What the server takes for each setting.
    pub bounds: Bounds,
    /// Nothing until the first load answers.
    pub status: Option<DiscoveryStatus>,
    pub catalog: DiscoveryCatalog,
    pub federation: FederationParams,
    pub requests: Vec<FederationRequest>,
    /// The log, oldest first.
    pub activity: Vec<ActivityEntry>,
    pub activity_seq: u64,
    /// How far the log is scrolled from the newest line.
    pub ascroll: usize,
    pub tab: Tab,
    /// The cursor over the visible rows, once there is one.
    pub sel: Option<usize>,
    pub filter: Input,
    pub filter_on: bool,
    pub filter_focus: bool,
    pub show_incompatible: bool,
    /// Whether joining opens the inbox for federation requests.
    pub accept_requests: bool,
    /// The box for another server's ticket.
    pub ticket: Input,
    pub ticket_focus: bool,
    pub modal: Modal,
    pub note: Option<Note>,
    pub busy: Option<Msg>,
    pub queued: Option<Op>,
    pub in_flight: bool,
    /// A text on its way to the terminal's clipboard.
    pub clipboard: Option<String>,
    pub tscroll: usize,
    pub sel_anchor: Option<usize>,
    /// When the state was last asked for, in milliseconds.
    pub last_load: Option<u64>,
    /// After a join, the next load that shows the network on asks for a name.
    pub name_after_join: bool,
}

/// A query that is empty, or occurs in one of three texts.
pub open spec fn hits(q: Seq<char>, name: Seq<char>, description: Seq<char>, from: Seq<char>) -> bool {
    q.len() == 0 || contains_text(name, q) || contains_text(description, q) || contains_text(from, q)
}

/// Whether a query is empty, or occurs in one of three texts.
pub fn query_hits(q: &str, name: &str, description: &str, from: &str) -> (r: bool)
    ensures
        r == hits(q@, name@, description@, from@),
{
    q.is_empty() || contains(name, q) || contains(description, q) || contains(from, q)
}

/// A server whose name, description or endpoint id has the query in it, in
/// whatever letter case.
pub open spec fn matches_query(p: CatalogPeer, q: Seq<char>) -> bool {
    hits(q, lower_case(p.payload.name@), lower_case(p.payload.description@), lower_case(p.from@))
}

/// The places of the servers that match, in the server's order.
pub open spec fn matching(peers: Seq<CatalogPeer>, q: Seq<char>) -> Seq<usize>
    decreases peers.len(),
{
    if peers.len() == 0 {
        Seq::empty()
    } else {
        let before = matching(peers.drop_last(), q);
        if matches_query(peers.last(), q) {
            before.push((peers.len() - 1) as usize)
        } else {
            before
        }
    }
}

/// The endpoint ids of the servers, in order.
pub open spec fn froms(peers: Seq<CatalogPeer>) -> Seq<Seq<char>> {
    Seq::new(peers.len(), |i: int| peers[i].from@)
}

/// The endpoint ids of some of the servers, in order.
pub open spec fn froms_at(peers: Seq<CatalogPeer>, rows: Seq<usize>) -> Seq<Seq<char>> {
    Seq::new(rows.len(), |i: int| peers[rows[i] as int].from@)
}

/// The range of a setting.
pub open spec fn range_of(b: Bounds, which: DiscoverySetting) -> Range {
    match which {
        DiscoverySetting::MaxStorageMb => b.max_storage_mb,
        DiscoverySetting::PeerRetentionDays => b.peer_retention_days,
        DiscoverySetting::AutoFetchCount => b.auto_fetch_count,
        DiscoverySetting::RotationDays => b.rotation_days,
        DiscoverySetting::SidecarMaxRssMb => b.sidecar_max_rss_mb,
    }
}

/// A setting's value.
pub open spec fn value_of(s: DiscoveryStatus, which: DiscoverySetting) -> u64 {
    match which {
        DiscoverySetting::MaxStorageMb => s.max_peer_db_storage_mb,
        DiscoverySetting::PeerRetentionDays => s.peer_retention_days as u64,
        DiscoverySetting::AutoFetchCount => s.auto_fetch_count as u64,
        DiscoverySetting::RotationDays => s.rotation_days as u64,
        DiscoverySetting::SidecarMaxRssMb => s.watchdog.max_rss_mb,
    }
}

/// The status with another value for a setting.
pub open spec fn with_value(s: DiscoveryStatus, which: DiscoverySetting, value: u64) -> DiscoveryStatus {
    match which {
        DiscoverySetting::MaxStorageMb => DiscoveryStatus { max_peer_db_storage_mb: value, ..s },
        DiscoverySetting::PeerRetentionDays => DiscoveryStatus { peer_retention_days: value as u32, ..s },
        DiscoverySetting::AutoFetchCount => DiscoveryStatus { auto_fetch_count: value as u32, ..s },
        DiscoverySetting::RotationDays => DiscoveryStatus { rotation_days: value as u32, ..s },
        DiscoverySetting::SidecarMaxRssMb => DiscoveryStatus {
            watchdog: DiscoveryWatchdog { max_rss_mb: value, ..s.watchdog },
            ..s
        },
    }
}

/// A catalog with nothing in it.
pub open spec fn is_empty_catalog(c: DiscoveryCatalog) -> bool {
    c.peers@.len() == 0 && c.hidden_incompatible == 0 && c.local_model_id is None && !c.auto_fetch && c.storage == (
    CatalogStorage { used_bytes: 0, cap_bytes: 0 })
}

fn empty_catalog() -> (c: DiscoveryCatalog)
    ensures
        is_empty_catalog(c),
{
    DiscoveryCatalog {
        peers: Vec::new(),
        hidden_incompatible: 0,
        local_model_id: None,
        auto_fetch: false,
        storage: CatalogStorage { used_bytes: 0, cap_bytes: 0 },
    }
}

/// Federation's state before anything is known of it.
pub open spec fn no_federation() -> FederationParams {
    FederationParams {
        enabled: false,
        available: false,
        running: false,
        endpoint_id: None,
        online: false,
        relay_url: None,
        limit_defaults: FederationLimits { stream_kbps: 0, daily_mb: 0, max_streams: 0 },
        accept_requests: false,
    }
}

impl Room {
    /// The room with a call queued and its busy line.
    pub open spec fn calling(self, op: Op, busy: Msg) -> Room {
        Room { queued: Some(op), busy: Some(busy), ..self }
    }

    /// The room with a message on the status line.
    pub open spec fn saying(self, note: Option<Note>) -> Room {
        Room { note, ..self }
    }

    /// The room with another modal.
    pub open spec fn showing(self, modal: Modal) -> Room {
        Room { modal, ..self }
    }

    /// The call that asks for the state again.
    pub open spec fn load_op(self) -> Op {
        Op::Load {
            include_incompatible: self.show_incompatible,
            activity_since: if self.tab == Tab::Activity {
                Some(self.activity_seq)
            } else {
                None
            },
        }
    }

    /// The room asking for the state again, with a busy line or quietly.
    pub open spec fn reloading(self, loud: bool) -> Room {
        if loud {
            self.calling(self.load_op(), Msg::Key("p2p.busy_loading"))
        } else {
            Room { queued: Some(self.load_op()), ..self }
        }
    }

    /// Whether this server is on the network.
    pub open spec fn on(self) -> bool {
        self.status matches Some(s) && s.enabled
    }

    /// What the filter looks for.
    pub open spec fn query(self) -> Seq<char> {
        if self.filter_on { lower_case(trimmed(input_value(self.filter))) } else { Seq::empty() }
    }

    /// The places of the visible servers.
    pub open spec fn shown(self) -> Seq<usize> {
        matching(self.catalog.peers@, self.query())
    }

    /// The server that an endpoint id names.
    pub open spec fn peer_of(self, id: Seq<char>) -> Option<CatalogPeer> {
        match place_of(froms(self.catalog.peers@), id) {
            Some(i) => Some(self.catalog.peers@[i]),
            None => None,
        }
    }

    /// The server under the cursor.
    pub open spec fn cursor_peer(self) -> Option<CatalogPeer> {
        match self.sel {
            Some(s) => if s < self.shown().len() {
                Some(self.catalog.peers@[self.shown()[s as int] as int])
            } else {
                None
            },
            None => None,
        }
    }

    /// Whether a federation request can be sent to a server.
    pub open spec fn can_federate(self, id: Seq<char>) -> bool {
        self.federation.available && relation_to(self.requests@, id) == Relation::Unrelated
    }

    /// The rows of a server's sheet: only what applies.
    pub open spec fn sheet(self, p: CatalogPeer) -> Seq<MenuRow> {
        let id = p.from;
        seq![MenuRow {
            key: 'd',
            label: if p.fetched is Some { "p2p.menu_update" } else { "p2p.menu_download" },
            act: Act::Fetch(id),
        }] + (match p.fetched {
            Some(h) => seq![
                MenuRow { key: 'p', label: if h.pinned { "p2p.menu_unpin" } else { "p2p.menu_pin" }, act: Act::Pin(id, !h.pinned) },
                MenuRow { key: 'r', label: "p2p.menu_remove", act: Act::RemoveSnapshot(id) },
            ],
            None => Seq::empty(),
        }) + (if self.can_federate(id@) {
            seq![MenuRow { key: 'f', label: "p2p.menu_federate", act: Act::Federate(id) }]
        } else {
            Seq::empty()
        }) + (if !p.online && p.fetched is None {
            seq![MenuRow { key: 'g', label: "p2p.menu_forget", act: Act::Forget(id) }]
        } else {
            Seq::empty()
        }) + seq![MenuRow { key: 'b', label: "p2p.menu_block", act: Act::Block(id) }]
    }

    /// The rows of the sheet of the server that an endpoint id names.
    pub open spec fn sheet_of(self, id: Seq<char>) -> Seq<MenuRow> {
        match self.peer_of(id) {
            Some(p) => self.sheet(p),
            None => Seq::empty(),
        }
    }

    /// The room, with nothing known yet.
    pub open spec fn fresh(self, bounds: Bounds) -> bool {
        &&& self.bounds == bounds
        &&& self.status is None
        &&& is_empty_catalog(self.catalog)
        &&& self.federation == no_federation()
        &&& self.requests@.len() == 0
        &&& self.activity@.len() == 0
        &&& self.activity_seq == 0
        &&& self.ascroll == 0
        &&& self.tab == Tab::Stats
        &&& self.sel is None
        &&& is_blank(self.filter)
        &&& !self.filter_on
        &&& !self.filter_focus
        &&& !self.show_incompatible
        &&& self.accept_requests
        &&& is_blank(self.ticket)
        &&& !self.ticket_focus
        &&& self.modal is Closed
        &&& self.note is None
        &&& !self.in_flight
        &&& self.clipboard is None
        &&& self.tscroll == 0
        &&& self.sel_anchor is None
        &&& self.last_load is None
        &&& !self.name_after_join
    }

    pub fn new(bounds: Bounds) -> (room: Room)
        ensures
            room.fresh(bounds),
            room.busy is None,
            room.queued is None,
    {
        Room {
            bounds,
            status: None,
            catalog: empty_catalog(),
            federation: FederationParams {
                enabled: false,
                available: false,
                running: false,
                endpoint_id: None,
                online: false,
                relay_url: None,
                limit_defaults: FederationLimits { stream_kbps: 0, daily_mb: 0, max_streams: 0 },
                accept_requests: false,
            },
            requests: Vec::new(),
            activity: Vec::new(),
            activity_seq: 0,
            ascroll: 0,
            tab: Tab::Stats,
            sel: None,
            filter: blank(),
            filter_on: false,
            filter_focus: false,
            show_incompatible: false,
            accept_requests: true,
            ticket: blank(),
            ticket_focus: false,
            modal: Modal::Closed,
            note: None,
            busy: None,
            queued: None,
            in_flight: false,
            clipboard: None,
            tscroll: 0,
            sel_anchor: None,
            last_load: None,
            name_after_join: false,
        }
    }

    fn queue(&mut self, op: Op, busy: Msg)
        ensures
            *final(self) == old(self).calling(op, busy),
    {
        self.queued = Some(op);
        self.busy = Some(busy);
    }

    /// Asks for the state again, with a busy line or quietly.
    pub fn reload(&mut self, loud: bool)
        ensures
            *final(self) == old(self).reloading(loud),
    {
        let activity_since = match self.tab {
            Tab::Activity => Some(self.activity_seq),
            _ => None,
        };
        let op = Op::Load { include_incompatible: self.show_incompatible, activity_since };
        if loud {
            self.queue(op, Msg::Key("p2p.busy_loading"));
        } else {
            self.queued = Some(op);
        }
    }

    /// Whether this server is on the network.
    pub fn enabled(&self) -> (r: bool)
        ensures
            r == self.on(),
    {
        match &self.status {
            Some(s) => s.enabled,
            None => false,
        }
    }

    /// The places of the servers that the table shows: the filter's matches,
    /// in the server's order.
    pub fn rows(&self) -> (out: Vec<usize>)
        ensures
            out@ == self.shown(),
            forall|i: int| 0 <= i < out@.len() ==> #[trigger] out@[i] < self.catalog.peers@.len(),
    {
        let q = if self.filter_on { trim(self.filter.value()).as_str().to_lowercase() } else { String::new() };
        let peers = &self.catalog.peers;
        let mut out: Vec<usize> = Vec::new();
        let mut i: usize = 0;
        proof {
            assert(peers@.take(0) =~= Seq::<CatalogPeer>::empty());
        }
        while i < peers.len()
            invariant
                i <= peers@.len(),
                q@ == self.query(),
                out@ == matching(peers@.take(i as int), q@),
                forall|k: int| 0 <= k < out@.len() ==> #[trigger] out@[k] < i,
            decreases peers@.len() - i,
        {
            proof {
                assert(peers@.take(i + 1).drop_last() =~= peers@.take(i as int));
            }
            let p = &peers[i];
            let name = p.payload.name.as_str().to_lowercase();
            let description = p.payload.description.as_str().to_lowercase();
            let from = p.from.as_str().to_lowercase();
            if query_hits(q.as_str(), name.as_str(), description.as_str(), from.as_str()) {
                out.push(i);
            }
            i += 1;
        }
        proof {
            assert(peers@.take(i as int) =~= peers@);
        }
        out
    }

    fn place(&self, id: &str) -> (r: Option<usize>)
        ensures
            match place_of(froms(self.catalog.peers@), id@) {
                Some(i) => r is Some && r->0 == i && 0 <= i < self.catalog.peers@.len(),
                None => r is None,
            },
    {
        let peers = &self.catalog.peers;
        let mut i: usize = 0;
        while i < peers.len()
            invariant
                peers@ == self.catalog.peers@,
                i <= peers@.len(),
                forall|k: int| 0 <= k < i ==> (#[trigger] peers@[k]).from@ != id@,
            decreases peers@.len() - i,
        {
            if same(peers[i].from.as_str(), id) {
                proof {
                    first_place(froms(peers@), id@, i as int);
                }
                return Some(i);
            }
            i += 1;
        }
        proof {
            first_place(froms(peers@), id@, i as int);
        }
        None
    }

    /// The server that an endpoint id names.
    pub fn peer(&self, id: &str) -> (r: Option<&CatalogPeer>)
        ensures
            match self.peer_of(id@) {
                Some(p) => r == Some(&p),
                None => r is None,
            },
    {
        match self.place(id) {
            Some(i) => Some(&self.catalog.peers[i]),
            None => None,
        }
    }

    /// The server under the cursor.
    pub fn selected_peer(&self) -> (r: Option<&CatalogPeer>)
        ensures
            match self.cursor_peer() {
                Some(p) => r == Some(&p),
                None => r is None,
            },
    {
        match self.sel {
            Some(s) => {
                let rows = self.rows();
                if s < rows.len() {
                    Some(&self.catalog.peers[rows[s]])
                } else {
                    None
                }
            },
            None => None,
        }
    }

    /// How a server stands to this one.
    pub fn relation(&self, id: &str) -> (r: Relation)
        ensures
            r == relation_to(self.requests@, id@),
    {
        relation_of(&self.requests, id)
    }

    fn federates(&self, id: &str) -> (r: bool)
        ensures
            r == self.can_federate(id@),
    {
        self.federation.available && match self.relation(id) {
            Relation::Unrelated => true,
            _ => false,
        }
    }

    /// The rows of a server's sheet: only what applies.
    pub fn sheet_menu(&self, p: &CatalogPeer) -> (menu: Vec<MenuRow>)
        ensures
            menu@ == self.sheet(*p),
    {
        let mut menu: Vec<MenuRow> = Vec::new();
        menu.push(
            MenuRow {
                key: 'd',
                label: if p.fetched.is_some() { "p2p.menu_update" } else { "p2p.menu_download" },
                act: Act::Fetch(p.from.clone()),
            },
        );
        if let Some(h) = &p.fetched {
            let label = if h.pinned { "p2p.menu_unpin" } else { "p2p.menu_pin" };
            menu.push(MenuRow { key: 'p', label, act: Act::Pin(p.from.clone(), !h.pinned) });
            menu.push(MenuRow { key: 'r', label: "p2p.menu_remove", act: Act::RemoveSnapshot(p.from.clone()) });
        }
        if self.federates(p.from.as_str()) {
            menu.push(MenuRow { key: 'f', label: "p2p.menu_federate", act: Act::Federate(p.from.clone()) });
        }
        if !p.online && p.fetched.is_none() {
            menu.push(MenuRow { key: 'g', label: "p2p.menu_forget", act: Act::Forget(p.from.clone()) });
        }
        menu.push(MenuRow { key: 'b', label: "p2p.menu_block", act: Act::Block(p.from.clone()) });
        proof {
            assert(menu@ =~= self.sheet(*p));
        }
        menu
    }

    fn menu_of(&self, id: &str) -> (menu: Vec<MenuRow>)
        ensures
            menu@ == self.sheet_of(id@),
    {
        match self.place(id) {
            Some(i) => self.sheet_menu(&self.catalog.peers[i]),
            None => Vec::new(),
        }
    }
}

// ── What input does ──────────────────────────────────────────────────────

/// The room on another tab, while on the network; the log's tab asks for the
/// lines past those that the room holds.
pub open spec fn switched(pre: Room, tab: Tab) -> Room {
    if !pre.on() {
        pre
    } else {
        Room {
            tab,
            ticket_focus: false,
            queued: if tab == Tab::Activity { Some(Op::Activity(pre.activity_seq)) } else { pre.queued },
            ..pre
        }
    }
}

/// What an action on one server makes of the room: nothing where the server
/// would refuse it.
pub open spec fn peer_called(pre: Room, action: PeerAction, id: String, post: Room) -> bool {
    match pre.peer_of(id@) {
        Some(p) => if action == PeerAction::RemoveSnapshot && p.fetched is None {
            post == pre
        } else if action == PeerAction::Forget && (p.online || p.fetched is Some) {
            post == pre
        } else {
            &&& post == (Room { modal: Modal::Closed, queued: post.queued, busy: Some(Msg::Key("p2p.busy_saving")), ..pre })
            &&& post.queued matches Some(Op::Peer { action: a, id: i, name }) && a == action && i == id && name@
                == shown_name(p.payload.name@, p.from@)
        },
        None => post == pre,
    }
}

/// An empty request to a server.
pub open spec fn is_new_compose(c: Compose, p: CatalogPeer, id: String) -> bool {
    c.id == id && c.name@ == shown_name(p.payload.name@, p.from@) && is_blank(c.message) && c.libraries@.len() == 0
        && !c.loaded && c.focus is None && c.error is None
}

/// An action of a server's sheet.
pub open spec fn of_sheet(act: Act) -> bool {
    act is Fetch || act is Pin || act is RemoveSnapshot || act is Forget || act is Federate || act is Block
}

/// What an action of a server's sheet makes of the room.
pub open spec fn sheet_acted(pre: Room, act: Act, post: Room) -> bool {
    match act {
        Act::Fetch(id) => match pre.peer_of(id@) {
            Some(p) => {
                let shown = shown_name(p.payload.name@, p.from@);
                &&& post == (Room { modal: Modal::Closed, queued: post.queued, busy: post.busy, ..pre })
                &&& post.queued matches Some(Op::Fetch { id: i, name }) && i == id && name@ == shown
                &&& post.busy matches Some(msg) && says(msg, "p2p.busy_fetching", "name", shown)
            },
            None => post == pre,
        },
        Act::Pin(id, pinned) => post == (if pre.peer_of(id@) is Some && pre.peer_of(id@)->0.fetched is Some {
            pre.showing(Modal::Closed).calling(Op::Pin { id, pinned }, Msg::Key("p2p.busy_saving"))
        } else {
            pre
        }),
        Act::RemoveSnapshot(id) => peer_called(pre, PeerAction::RemoveSnapshot, id, post),
        Act::Forget(id) => peer_called(pre, PeerAction::Forget, id, post),
        Act::Federate(id) => if pre.peer_of(id@) is Some && pre.can_federate(id@) {
            &&& post == (Room {
                modal: post.modal,
                queued: Some(Op::Libraries),
                busy: Some(Msg::Key("p2p.busy_libraries")),
                ..pre
            })
            &&& post.modal matches Modal::Federate(c) && is_new_compose(c, pre.peer_of(id@)->0, id)
        } else {
            post == pre
        },
        Act::Block(id) => post == (if pre.peer_of(id@) is Some { pre.showing(Modal::Block(id)) } else { pre }),
        _ => post == pre,
    }
}

/// What opening the identity makes of the room.
pub open spec fn identity_opened(pre: Room, post: Room) -> bool {
    match pre.status {
        Some(s) => if s.enabled {
            &&& post == pre.showing(post.modal)
            &&& post.modal matches Modal::Identity(d) && holds(d.name, s.server_name@) && holds(
                d.description,
                s.server_description@,
            ) && !d.on_description && d.error is None
        } else {
            post == pre
        },
        None => post == pre,
    }
}

/// What the server announces, as far as it is known.
pub open spec fn announced(pre: Room) -> (Seq<char>, Seq<char>) {
    match pre.status {
        Some(s) => (s.server_name@, s.server_description@),
        None => (Seq::empty(), Seq::empty()),
    }
}

/// What saving the identity makes of the room: a blank name is refused, an
/// unchanged identity closes, else the fields that changed are sent.
pub open spec fn identity_saved(pre: Room, post: Room) -> bool {
    match pre.modal {
        Modal::Identity(d) => {
            let name = trimmed(input_value(d.name));
            let description = trimmed(input_value(d.description));
            let (old_name, old_description) = announced(pre);
            if name.len() == 0 {
                post == pre.showing(Modal::Identity(IdentityDraft { error: Some(Msg::Key("p2p.identity_empty")), ..d }))
            } else if name == old_name && description == old_description {
                post == pre.showing(Modal::Closed)
            } else {
                &&& post == (Room {
                    modal: Modal::Identity(IdentityDraft { error: None, ..d }),
                    queued: post.queued,
                    busy: Some(Msg::Key("p2p.busy_saving")),
                    ..pre
                })
                &&& post.queued matches Some(Op::Identity { name: n, description: t }) && is_text(
                    n,
                    if name != old_name {
                        Some(name)
                    } else {
                        None
                    },
                ) && is_text(
                    t,
                    if description != old_description {
                        Some(description)
                    } else {
                        None
                    },
                )
            }
        },
        _ => post == pre,
    }
}

/// The refusal of a number out of its range.
pub open spec fn out_of_range(r: Range) -> Msg {
    Msg::Two(
        "p2p.setting_invalid",
        Fill { name: "min", arg: Arg::Nat(r.min) },
        Fill { name: "max", arg: Arg::Nat(r.max) },
    )
}

/// What saving a setting makes of the room: a number in its range is sent,
/// anything else refused.
pub open spec fn setting_saved(pre: Room, post: Room) -> bool {
    match pre.modal {
        Modal::Setting(d) => {
            let range = range_of(pre.bounds, d.which);
            match number_upto(trimmed(input_value(d.value)), u64::MAX as nat) {
                Some(v) => if range.min <= v <= range.max {
                    post == pre.showing(Modal::Setting(SettingDraft { error: None, ..d })).calling(
                        Op::Setting { which: d.which, value: v as u64 },
                        Msg::Key("p2p.busy_saving"),
                    )
                } else {
                    post == pre.showing(Modal::Setting(SettingDraft { error: Some(out_of_range(range)), ..d }))
                },
                None => post == pre.showing(Modal::Setting(SettingDraft { error: Some(out_of_range(range)), ..d })),
            }
        },
        _ => post == pre,
    }
}

/// What sending the written request makes of the room.
pub open spec fn request_written(pre: Room, post: Room) -> bool {
    match pre.modal {
        Modal::Federate(c) => if c.loaded {
            &&& post == (Room { queued: post.queued, busy: Some(Msg::Key("p2p.busy_sending")), ..pre })
            &&& post.queued matches Some(Op::SendRequest { id, name, offer, message }) && id == c.id && name == c.name
                && offer@ == ticked(c.libraries@) && message@ == trimmed(input_value(c.message))
        } else {
            post == pre
        },
        _ => post == pre,
    }
}

/// What an action makes of the room, and whether it ends it.
pub open spec fn acted(pre: Room, act: Act, post: Room, out: Option<Outcome>) -> bool {
    &&& out == (if act == Act::Quit { Some(Outcome::Quit) } else { None })
    &&& match act {
        Act::Tab(tab) => post == switched(pre, tab),
        Act::Join => post == (if pre.status is Some && !pre.status->0.enabled && (pre.status->0.binary_found
            || pre.status->0.binary_fetchable) {
            (Room { name_after_join: true, ..pre }).calling(
                Op::JoinNetwork { accept_requests: pre.accept_requests },
                Msg::Key("p2p.busy_joining"),
            )
        } else {
            pre
        }),
        Act::ToggleRequests => post == (Room { accept_requests: !pre.accept_requests, ..pre }),
        Act::Leave => post == (if pre.on() { pre.showing(Modal::Leave) } else { pre }),
        Act::LeaveConfirm => post == pre.showing(Modal::Closed).calling(Op::LeaveNetwork, Msg::Key("p2p.busy_leaving")),
        Act::LeaveCancel | Act::SheetClose | Act::BlockCancel | Act::ComposeCancel | Act::IdentityCancel
        | Act::SettingCancel | Act::BlockedClose => post == pre.showing(Modal::Closed),
        Act::OpenSheet(i) => post == (if i < pre.shown().len() {
            pre.showing(Modal::Sheet { id: pre.catalog.peers@[pre.shown()[i as int] as int].from, sel: 0 })
        } else {
            pre
        }),
        Act::SheetPick(i) => match pre.modal {
            Modal::Sheet { id, sel } => post == pre.showing(Modal::Sheet { id, sel: i }),
            _ => post == pre,
        },
        Act::SheetRun => match pre.modal {
            Modal::Sheet { id, sel } => if sel < pre.sheet_of(id@).len() {
                sheet_acted(pre.showing(Modal::Closed), pre.sheet_of(id@)[sel as int].act, post)
            } else {
                post == pre
            },
            _ => post == pre,
        },
        Act::Fetch(_) | Act::Pin(_, _) | Act::RemoveSnapshot(_) | Act::Forget(_) | Act::Federate(_) | Act::Block(
            _,
        ) => sheet_acted(pre, act, post),
        Act::BlockConfirm => match pre.modal {
            Modal::Block(id) => peer_called(pre.showing(Modal::Closed), PeerAction::Block, id, post),
            _ => post == pre,
        },
        Act::ComposeFocusMessage => match pre.modal {
            Modal::Federate(c) => post == pre.showing(Modal::Federate(Compose { focus: None, ..c })),
            _ => post == pre,
        },
        Act::ComposeToggle(i) => match pre.modal {
            Modal::Federate(c) => if i < c.libraries@.len() {
                &&& post == pre.showing(post.modal)
                &&& post.modal matches Modal::Federate(d) && d == (Compose { libraries: d.libraries, focus: Some(i), ..c })
                    && d.libraries@ == c.libraries@.update(i as int, (c.libraries@[i as int].0, !c.libraries@[i as int].1))
            } else {
                post == pre
            },
            _ => post == pre,
        },
        Act::ComposeSend => request_written(pre, post),
        Act::IdentityOpen => identity_opened(pre, post),
        Act::IdentityFocus(description) => match pre.modal {
            Modal::Identity(d) => post == pre.showing(Modal::Identity(IdentityDraft { on_description: description, ..d })),
            _ => post == pre,
        },
        Act::IdentitySave => identity_saved(pre, post),
        Act::SettingOpen(which) => if pre.on() {
            &&& post == pre.showing(post.modal)
            &&& post.modal matches Modal::Setting(d) && d.which == which && holds(
                d.value,
                dec(value_of(pre.status->0, which) as nat),
            ) && d.error is None
        } else {
            post == pre
        },
        Act::SettingSave => setting_saved(pre, post),
        Act::TicketFocus => post == (if pre.on() {
            Room { tab: Tab::Invite, ticket_focus: true, filter_focus: false, ..pre }
        } else {
            pre
        }),
        Act::TicketJoin => {
            let typed = trimmed(input_value(pre.ticket));
            if typed.len() > 0 {
                &&& post == (Room { queued: post.queued, busy: Some(Msg::Key("p2p.busy_befriending")), ..pre })
                &&& post.queued matches Some(Op::Befriend(peer)) && peer@ == typed
            } else {
                post == pre
            }
        },
        Act::CopyTicket => post == (if pre.status is Some && pre.status->0.ticket is Some {
            Room { clipboard: pre.status->0.ticket, ..pre }
        } else {
            pre
        }),
        Act::ToggleIncompatible => post == (Room { show_incompatible: !pre.show_incompatible, ..pre }).reloading(true),
        Act::FilterOpen => post == (if pre.on() {
            Room { filter_on: true, filter_focus: true, ticket_focus: false, sel: None, ..pre }
        } else {
            pre
        }),
        Act::BlockedOpen => post == (if pre.status is Some && pre.status->0.blocked_peers@.len() > 0 {
            pre.showing(Modal::Blocked(0))
        } else {
            pre
        }),
        Act::BlockedPick(i) => post == (if pre.modal is Blocked { pre.showing(Modal::Blocked(i)) } else { pre }),
        Act::BlockedRun => match pre.modal {
            Modal::Blocked(sel) => if pre.status is Some && sel < pre.status->0.blocked_peers@.len() {
                let id = pre.status->0.blocked_peers@[sel as int];
                &&& post == (Room {
                    modal: Modal::Closed,
                    queued: post.queued,
                    busy: Some(Msg::Key("p2p.busy_saving")),
                    ..pre
                })
                &&& post.queued matches Some(Op::Peer { action, id: i, name }) && action == PeerAction::Unblock && i == id
                    && name@ == fingerprint(id@)
            } else {
                post == pre
            },
            _ => post == pre,
        },
        Act::TableScroll(delta) => post == (Room { tscroll: scrolled(pre.tscroll, delta < 0), ..pre }),
        Act::TableScrollTo(pos) => post == (Room { tscroll: pos, ..pre }),
        Act::Quit => post == pre,
    }
}

impl Bounds {
    /// The range of a setting.
    pub fn of(&self, which: DiscoverySetting) -> (r: Range)
        ensures
            r == range_of(*self, which),
    {
        match which {
            DiscoverySetting::MaxStorageMb => self.max_storage_mb,
            DiscoverySetting::PeerRetentionDays => self.peer_retention_days,
            DiscoverySetting::AutoFetchCount => self.auto_fetch_count,
            DiscoverySetting::RotationDays => self.rotation_days,
            DiscoverySetting::SidecarMaxRssMb => self.sidecar_max_rss_mb,
        }
    }
}

impl DiscoveryStatus {
    /// A setting's value.
    pub fn value(&self, which: DiscoverySetting) -> (v: u64)
        ensures
            v == value_of(*self, which),
    {
        match which {
            DiscoverySetting::MaxStorageMb => self.max_peer_db_storage_mb,
            DiscoverySetting::PeerRetentionDays => self.peer_retention_days as u64,
            DiscoverySetting::AutoFetchCount => self.auto_fetch_count as u64,
            DiscoverySetting::RotationDays => self.rotation_days as u64,
            DiscoverySetting::SidecarMaxRssMb => self.watchdog.max_rss_mb,
        }
    }

    /// Gives a setting another value.
    pub fn set(&mut self, which: DiscoverySetting, value: u64)
        ensures
            *final(self) == with_value(*old(self), which, value),
    {
        match which {
            DiscoverySetting::MaxStorageMb => {
                self.max_peer_db_storage_mb = value;
            },
            DiscoverySetting::PeerRetentionDays => {
                self.peer_retention_days = value as u32;
            },
            DiscoverySetting::AutoFetchCount => {
                self.auto_fetch_count = value as u32;
            },
            DiscoverySetting::RotationDays => {
                self.rotation_days = value as u32;
            },
            DiscoverySetting::SidecarMaxRssMb => {
                self.watchdog.max_rss_mb = value;
            },
        }
    }
}

impl Room {
    /// The modal, taken out of the room.
    fn take_modal(&mut self) -> (m: Modal)
        ensures
            m == old(self).modal,
            *final(self) == old(self).showing(Modal::Closed),
    {
        let mut m = Modal::Closed;
        std::mem::swap(&mut self.modal, &mut m);
        m
    }

    fn switch_tab(&mut self, tab: Tab)
        ensures
            *final(self) == switched(*old(self), tab),
    {
        if !self.enabled() {
            return;
        }
        self.tab = tab;
        self.ticket_focus = false;
        if let Tab::Activity = tab {
            self.queued = Some(Op::Activity(self.activity_seq));
        }
    }

    /// The one-argument actions on a server.
    fn peer_op(&mut self, action: PeerAction, id: String)
        ensures
            peer_called(*old(self), action, id, *final(self)),
    {
        if let Some(i) = self.place(id.as_str()) {
            let peer = &self.catalog.peers[i];
            match action {
                PeerAction::RemoveSnapshot => if peer.fetched.is_none() {
                    return;
                },
                PeerAction::Forget => if peer.online || peer.fetched.is_some() {
                    return;
                },
                _ => {},
            }
            let name = display_name(peer);
            self.modal = Modal::Closed;
            self.queue(Op::Peer { action, id, name }, Msg::Key("p2p.busy_saving"));
        }
    }

    /// The actions of a server's sheet.
    fn act_on_peer(&mut self, act: Act)
        requires
            of_sheet(act),
        ensures
            sheet_acted(*old(self), act, *final(self)),
    {
        match act {
            Act::Fetch(id) => {
                if let Some(i) = self.place(id.as_str()) {
                    let name = display_name(&self.catalog.peers[i]);
                    self.modal = Modal::Closed;
                    let busy = Msg::One("p2p.busy_fetching", Fill { name: "name", arg: Arg::Text(name.clone()) });
                    self.queue(Op::Fetch { id, name }, busy);
                }
            },
            Act::Pin(id, pinned) => {
                if let Some(i) = self.place(id.as_str()) {
                    if self.catalog.peers[i].fetched.is_some() {
                        self.modal = Modal::Closed;
                        self.queue(Op::Pin { id, pinned }, Msg::Key("p2p.busy_saving"));
                    }
                }
            },
            Act::RemoveSnapshot(id) => self.peer_op(PeerAction::RemoveSnapshot, id),
            Act::Forget(id) => self.peer_op(PeerAction::Forget, id),
            Act::Federate(id) => {
                if let Some(i) = self.place(id.as_str()) {
                    if self.federates(id.as_str()) {
                        let name = display_name(&self.catalog.peers[i]);
                        self.modal = Modal::Federate(
                            Compose {
                                id,
                                name,
                                message: blank(),
                                libraries: Vec::new(),
                                loaded: false,
                                focus: None,
                                error: None,
                            },
                        );
                        self.queue(Op::Libraries, Msg::Key("p2p.busy_libraries"));
                    }
                }
            },
            Act::Block(id) => {
                if self.place(id.as_str()).is_some() {
                    self.modal = Modal::Block(id);
                }
            },
            _ => {},
        }
    }

    /// Saves the identity: only the fields that changed.
    fn submit_identity(&mut self)
        ensures
            identity_saved(*old(self), *final(self)),
    {
        let mut call: Option<Op> = None;
        let mut close = false;
        if let Modal::Identity(d) = &mut self.modal {
            let name = trim(d.name.value());
            let description = trim(d.description.value());
            if name.as_str().is_empty() {
                d.error = Some(Msg::Key("p2p.identity_empty"));
                return;
            }
            let (same_name, same_description) = match &self.status {
                Some(s) => (
                    same(name.as_str(), s.server_name.as_str()),
                    same(description.as_str(), s.server_description.as_str()),
                ),
                None => (name.as_str().is_empty(), description.as_str().is_empty()),
            };
            proof {
                assert(description@.len() == 0 ==> description@ =~= Seq::<char>::empty());
            }
            if same_name && same_description {
                close = true;
            } else {
                d.error = None;
                call = Some(
                    Op::Identity {
                        name: if same_name { None } else { Some(name) },
                        description: if same_description { None } else { Some(description) },
                    },
                );
            }
        }
        if close {
            self.modal = Modal::Closed;
        }
        if let Some(op) = call {
            self.queue(op, Msg::Key("p2p.busy_saving"));
        }
    }

    /// Saves a setting, where it is in its range.
    fn submit_setting(&mut self)
        ensures
            setting_saved(*old(self), *final(self)),
    {
        let mut call: Option<Op> = None;
        if let Modal::Setting(d) = &mut self.modal {
            let range = self.bounds.of(d.which);
            let typed = trim(d.value.value());
            match read_number(typed.as_str(), u64::MAX) {
                Some(v) => {
                    if range.min <= v && v <= range.max {
                        d.error = None;
                        call = Some(Op::Setting { which: d.which, value: v });
                    } else {
                        d.error = Some(
                            Msg::Two(
                                "p2p.setting_invalid",
                                Fill { name: "min", arg: Arg::Nat(range.min) },
                                Fill { name: "max", arg: Arg::Nat(range.max) },
                            ),
                        );
                    }
                },
                None => {
                    d.error = Some(
                        Msg::Two(
                            "p2p.setting_invalid",
                            Fill { name: "min", arg: Arg::Nat(range.min) },
                            Fill { name: "max", arg: Arg::Nat(range.max) },
                        ),
                    );
                },
            }
        }
        if let Some(op) = call {
            self.queue(op, Msg::Key("p2p.busy_saving"));
        }
    }

    fn open_identity(&mut self)
        ensures
            identity_opened(*old(self), *final(self)),
    {
        if let Some(s) = &self.status {
            if s.enabled {
                let name = Input::new(s.server_name.clone());
                let description = Input::new(s.server_description.clone());
                self.modal = Modal::Identity(IdentityDraft { name, description, on_description: false, error: None });
            }
        }
    }

    /// Sends the written request.
    fn send_request(&mut self)
        ensures
            request_written(*old(self), *final(self)),
    {
        let mut call: Option<Op> = None;
        if let Modal::Federate(c) = &self.modal {
            if c.loaded {
                call = Some(
                    Op::SendRequest {
                        id: c.id.clone(),
                        name: c.name.clone(),
                        offer: ticked_names(&c.libraries),
                        message: trim(c.message.value()),
                    },
                );
            }
        }
        if let Some(op) = call {
            self.queue(op, Msg::Key("p2p.busy_sending"));
        }
    }

    /// The actions of the modals.
    fn act_in_modal(&mut self, act: Act)
        requires
            act is SheetPick || act is SheetRun || act is BlockConfirm || act is ComposeFocusMessage || act is ComposeToggle
                || act is ComposeSend || act is IdentityFocus || act is IdentitySave || act is SettingSave || act
                is BlockedPick || act is BlockedRun,
        ensures
            acted(*old(self), act, *final(self), None),
    {
        match act {
            Act::SheetPick(i) => {
                if let Modal::Sheet { id, sel } = &mut self.modal {
                    *sel = i;
                }
            },
            Act::SheetRun => {
                let mut run: Option<Act> = None;
                if let Modal::Sheet { id, sel } = &self.modal {
                    let mut menu = self.menu_of(id.as_str());
                    if *sel < menu.len() {
                        let row = menu.swap_remove(*sel);
                        run = Some(row.act);
                    }
                }
                if let Some(act) = run {
                    self.modal = Modal::Closed;
                    self.act_on_peer(act);
                }
            },
            Act::BlockConfirm => {
                match self.take_modal() {
                    Modal::Block(id) => self.peer_op(PeerAction::Block, id),
                    other => {
                        self.modal = other;
                    },
                }
            },
            Act::ComposeFocusMessage => {
                if let Modal::Federate(c) = &mut self.modal {
                    c.focus = None;
                }
            },
            Act::ComposeToggle(i) => {
                if let Modal::Federate(c) = &mut self.modal {
                    if i < c.libraries.len() {
                        let on = c.libraries[i].1;
                        c.libraries[i].1 = !on;
                        c.focus = Some(i);
                    }
                }
            },
            Act::ComposeSend => self.send_request(),
            Act::IdentityFocus(description) => {
                if let Modal::Identity(d) = &mut self.modal {
                    d.on_description = description;
                }
            },
            Act::IdentitySave => self.submit_identity(),
            Act::SettingSave => self.submit_setting(),
            Act::BlockedPick(i) => {
                if let Modal::Blocked(sel) = &mut self.modal {
                    *sel = i;
                }
            },
            Act::BlockedRun => {
                let mut unblock: Option<String> = None;
                if let Modal::Blocked(sel) = &self.modal {
                    if let Some(s) = &self.status {
                        if *sel < s.blocked_peers.len() {
                            unblock = Some(s.blocked_peers[*sel].clone());
                        }
                    }
                }
                if let Some(id) = unblock {
                    self.modal = Modal::Closed;
                    let name = short_id(id.as_str());
                    self.queue(Op::Peer { action: PeerAction::Unblock, id, name }, Msg::Key("p2p.busy_saving"));
                }
            },
            _ => {},
        }
    }

    /// The actions that open something, and those of the inline fields.
    fn act_in_page(&mut self, act: Act)
        requires
            act is OpenSheet || act is IdentityOpen || act is SettingOpen || act is TicketFocus || act is TicketJoin || act
                is CopyTicket || act is ToggleIncompatible || act is FilterOpen || act is BlockedOpen,
        ensures
            acted(*old(self), act, *final(self), None),
    {
        match act {
            Act::OpenSheet(i) => {
                let rows = self.rows();
                if i < rows.len() {
                    let id = self.catalog.peers[rows[i]].from.clone();
                    self.modal = Modal::Sheet { id, sel: 0 };
                }
            },
            Act::IdentityOpen => self.open_identity(),
            Act::SettingOpen(which) => {
                if let Some(s) = &self.status {
                    if s.enabled {
                        let value = Input::new(decimal(s.value(which)));
                        self.modal = Modal::Setting(SettingDraft { which, value, error: None });
                    }
                }
            },
            Act::TicketFocus => {
                if self.enabled() {
                    self.tab = Tab::Invite;
                    self.ticket_focus = true;
                    self.filter_focus = false;
                }
            },
            Act::TicketJoin => {
                let peer = trim(self.ticket.value());
                if !peer.as_str().is_empty() {
                    self.queue(Op::Befriend(peer), Msg::Key("p2p.busy_befriending"));
                }
            },
            Act::CopyTicket => {
                if let Some(s) = &self.status {
                    if let Some(ticket) = &s.ticket {
                        self.clipboard = Some(ticket.clone());
                    }
                }
            },
            Act::ToggleIncompatible => {
                self.show_incompatible = !self.show_incompatible;
                self.reload(true);
            },
            Act::FilterOpen => {
                if self.enabled() {
                    self.filter_on = true;
                    self.filter_focus = true;
                    self.ticket_focus = false;
                    self.sel = None;
                }
            },
            Act::BlockedOpen => {
                let any = match &self.status {
                    Some(s) => s.blocked_peers.len() > 0,
                    None => false,
                };
                if any {
                    self.modal = Modal::Blocked(0);
                }
            },
            _ => {},
        }
    }

    /// A click, or the action behind a key.
    pub fn act(&mut self, act: Act) -> (out: Option<Outcome>)
        ensures
            acted(*old(self), act, *final(self), out),
    {
        match act {
            Act::Tab(tab) => self.switch_tab(tab),
            Act::Join => {
                let can = match &self.status {
                    Some(s) => !s.enabled && (s.binary_found || s.binary_fetchable),
                    None => false,
                };
                if can {
                    let accept_requests = self.accept_requests;
                    self.name_after_join = true;
                    self.queue(Op::JoinNetwork { accept_requests }, Msg::Key("p2p.busy_joining"));
                }
            },
            Act::ToggleRequests => {
                self.accept_requests = !self.accept_requests;
            },
            Act::Leave => {
                if self.enabled() {
                    self.modal = Modal::Leave;
                }
            },
            Act::LeaveConfirm => {
                self.modal = Modal::Closed;
                self.queue(Op::LeaveNetwork, Msg::Key("p2p.busy_leaving"));
            },
            Act::LeaveCancel
            | Act::SheetClose
            | Act::BlockCancel
            | Act::ComposeCancel
            | Act::IdentityCancel
            | Act::SettingCancel
            | Act::BlockedClose => {
                self.modal = Modal::Closed;
            },
            Act::Fetch(_)
            | Act::Pin(_, _)
            | Act::RemoveSnapshot(_)
            | Act::Forget(_)
            | Act::Federate(_)
            | Act::Block(_) => self.act_on_peer(act),
            Act::OpenSheet(_)
            | Act::IdentityOpen
            | Act::SettingOpen(_)
            | Act::TicketFocus
            | Act::TicketJoin
            | Act::CopyTicket
            | Act::ToggleIncompatible
            | Act::FilterOpen
            | Act::BlockedOpen => self.act_in_page(act),
            Act::TableScroll(delta) => {
                self.tscroll = scroll(self.tscroll, delta < 0);
            },
            Act::TableScrollTo(pos) => {
                self.tscroll = pos;
            },
            Act::Quit => return Some(Outcome::Quit),
            Act::SheetPick(_)
            | Act::SheetRun
            | Act::BlockConfirm
            | Act::ComposeFocusMessage
            | Act::ComposeToggle(_)
            | Act::ComposeSend
            | Act::IdentityFocus(_)
            | Act::IdentitySave
            | Act::SettingSave
            | Act::BlockedPick(_)
            | Act::BlockedRun => self.act_in_modal(act),
        }
        None
    }

    /// The text that is to go to the terminal's clipboard, handed out once.
    pub fn take_clipboard(&mut self) -> (text: Option<String>)
        ensures
            text == old(self).clipboard,
            *final(self) == (Room { clipboard: None, ..*old(self) }),
    {
        self.clipboard.take()
    }

    /// The terminal took the text, or did not.
    pub fn copied(&mut self, ok: bool)
        ensures
            *final(self) == old(self).saying(remark(Msg::Key(if ok { "p2p.copied" } else { "p2p.copy_failed" }))),
    {
        self.note = Some(Note { msg: Msg::Key(if ok { "p2p.copied" } else { "p2p.copy_failed" }), error: false });
    }
}

// ── What an answer does ──────────────────────────────────────────────────

/// The room once a call has answered, before the answer is looked at.
pub open spec fn settled(pre: Room) -> Room {
    Room { in_flight: false, busy: None, ..pre }
}

/// The log with more lines: it starts over where the server's newest place is
/// behind the one known here, and keeps the newest lines.
pub open spec fn merged(log: Seq<ActivityEntry>, seq: u64, more: DiscoveryActivity) -> Seq<ActivityEntry> {
    let all = (if more.last_seq < seq { Seq::empty() } else { log }) + more.entries@;
    if all.len() > LOG_MAX {
        all.skip(all.len() - LOG_MAX)
    } else {
        all
    }
}

/// What more lines of the log make of the room.
pub open spec fn took_activity(pre: Room, more: DiscoveryActivity, post: Room) -> bool {
    &&& post == (Room { activity: post.activity, activity_seq: more.last_seq, ..pre })
    &&& post.activity@ == merged(pre.activity@, pre.activity_seq, more)
}

/// Where the cursor goes when the rows are new: with the server that it was
/// on, wherever that is now, else to a row that exists.
pub open spec fn followed(new: Room, keep: Option<String>) -> Option<usize> {
    let rows = new.shown();
    let stays = kept(new.sel, rows.len() as int);
    match keep {
        Some(id) => match place_of(froms_at(new.catalog.peers@, rows), id@) {
            Some(i) => Some(i as usize),
            None => stays,
        },
        None => stays,
    }
}

/// The room with a load's lists, the catalog and the log apart.
pub open spec fn with_load(m: Room, l: Loaded, catalog: DiscoveryCatalog, log: Vec<ActivityEntry>) -> Room {
    Room {
        status: Some(l.status),
        catalog,
        federation: match l.federation {
            Some(f) => f,
            None => m.federation,
        },
        requests: match l.requests {
            Some(r) => r,
            None => m.requests,
        },
        activity: log,
        activity_seq: match l.activity {
            Some(a) => a.last_seq,
            None => m.activity_seq,
        },
        ..m
    }
}

/// The catalog and the log that a load leaves: no catalog off the network.
pub open spec fn load_leaves(m: Room, l: Loaded, catalog: DiscoveryCatalog, log: Vec<ActivityEntry>) -> bool {
    &&& match l.catalog {
        Some(c) => catalog == c,
        None => is_empty_catalog(catalog),
    }
    &&& log@ == (match l.activity {
        Some(a) => merged(m.activity@, m.activity_seq, a),
        None => m.activity@,
    })
}

/// What a load's lists make of the room.
pub open spec fn took_lists(m: Room, l: Loaded, post: Room) -> bool {
    post == with_load(m, l, post.catalog, post.activity) && load_leaves(m, l, post.catalog, post.activity)
}

/// The room with a load's lists and the cursor in its place; off the network
/// nothing is selected or focused.
pub open spec fn placed(m: Room, new: Room, on: bool) -> Room {
    let keep = match m.cursor_peer() {
        Some(p) => Some(p.from),
        None => None,
    };
    Room {
        sel: if on { followed(new, keep) } else { None },
        filter_on: new.filter_on && on,
        filter_focus: new.filter_focus && on,
        ticket_focus: new.ticket_focus && on,
        ..new
    }
}

/// A load's answer in the room: the cursor follows its server, and the first
/// load after a join asks for a name.
pub open spec fn loaded_into(m: Room, l: Loaded, post: Room) -> bool {
    let on = l.status.enabled;
    let new = placed(m, with_load(m, l, post.catalog, post.activity), on);
    &&& load_leaves(m, l, post.catalog, post.activity)
    &&& if m.name_after_join && on {
        identity_opened(Room { name_after_join: false, ..new }, post)
    } else {
        post == new
    }
}

/// What the answer to a join says: whether the inbox is open, and what went
/// wrong with it.
pub open spec fn joined_words(accepts: Option<bool>, failure: Option<String>) -> Option<Note> {
    match failure {
        Some(err) => error(one("p2p.inbox_failed", "err", Arg::Text(err))),
        None => remark(
            if accepts == Some(true) {
                Msg::Both(Box::new(Msg::Key("p2p.joined_network")), Box::new(Msg::Key("p2p.joined_inbox")))
            } else {
                Msg::Key("p2p.joined_network")
            },
        ),
    }
}

/// What the answer to a join makes of the room.
pub open spec fn joined_into(m: Room, doc: Seq<char>, post: Room) -> bool {
    let accepts = match json_member(doc, "acceptRequests"@) {
        Some(v) => json_bool(v),
        None => None,
    };
    let failure = match json_member(doc, "federationError"@) {
        Some(v) => json_string(v),
        None => None,
    };
    &&& post == m.saying(post.note).reloading(true)
    &&& match failure {
        Some(err) => post.note matches Some(Note { msg, error }) && error && says(msg, "p2p.inbox_failed", "err", err),
        None => post.note == joined_words(accepts, None),
    }
}

/// The note that an action on a server leaves.
pub open spec fn peer_note(action: PeerAction, name: String) -> Msg {
    match action {
        PeerAction::RemoveSnapshot => one("p2p.done_removed", "name", Arg::Text(name)),
        PeerAction::Forget => one("p2p.done_forgotten", "name", Arg::Text(name)),
        PeerAction::Block => one("p2p.done_blocked", "name", Arg::Text(name)),
        PeerAction::Unblock => Msg::Key("p2p.done_unblocked"),
    }
}

/// The words for an action on a server that failed.
pub open spec fn peer_failed(action: PeerAction) -> &'static str {
    match action {
        PeerAction::RemoveSnapshot => "p2p.fail_remove",
        PeerAction::Forget => "p2p.fail_forget",
        PeerAction::Block => "p2p.fail_block",
        PeerAction::Unblock => "p2p.fail_unblock",
    }
}

/// What a pin that was set or lifted makes of the room.
pub open spec fn pinned_into(m: Room, id: Seq<char>, pinned: bool, post: Room) -> bool {
    &&& post == (Room { catalog: DiscoveryCatalog { peers: post.catalog.peers, ..m.catalog }, ..m })
    &&& post.catalog.peers@ == (match place_of(froms(m.catalog.peers@), id) {
        Some(i) => match m.catalog.peers@[i].fetched {
            Some(h) => m.catalog.peers@.update(
                i,
                CatalogPeer { fetched: Some(HeldSnapshot { pinned, ..h }), ..m.catalog.peers@[i] },
            ),
            None => m.catalog.peers@,
        },
        None => m.catalog.peers@,
    })
}

/// What an answer makes of the settled room.
pub open spec fn applied(m: Room, done: Done, post: Room) -> bool {
    match done {
        Done::Loaded(Ok(l)) => loaded_into(m, l, post),
        Done::Loaded(Err(e)) => post == m.saying(error(gate(e, "p2p.load_failed"))),
        Done::Activity(Ok(a)) => took_activity(m, a, post),
        Done::Activity(Err(_)) => post == m,
        Done::Joined(Ok(doc)) => joined_into(m, doc@, post),
        Done::Joined(Err(e)) => post == (Room { name_after_join: false, ..m }).saying(
            error(Msg::Failed("p2p.fail_join", e)),
        ).reloading(false),
        Done::Left(Ok(_)) => post == m.saying(None).reloading(true),
        Done::Left(Err(e)) => post == m.saying(error(Msg::Failed("p2p.fail_leave", e))).reloading(false),
        Done::Identity(Ok(_)) => post == m.showing(Modal::Closed).saying(
            remark(Msg::Key("p2p.done_identity")),
        ).reloading(false),
        Done::Identity(Err(e)) => match m.modal {
            Modal::Identity(d) => post == m.showing(
                Modal::Identity(IdentityDraft { error: Some(Msg::Failed("p2p.fail_identity", e)), ..d }),
            ),
            _ => post == m.saying(error(Msg::Failed("p2p.fail_identity", e))),
        },
        Done::Befriended(Ok(_)) => {
            &&& post == (Room { ticket: post.ticket, ticket_focus: false, ..m }).saying(
                remark(Msg::Key("p2p.joined_peer")),
            ).reloading(false)
            &&& is_blank(post.ticket)
        },
        Done::Befriended(Err(e)) => post == m.saying(error(Msg::Failed("p2p.fail_befriend", e))),
        Done::Fetched { name, result } => match result {
            Ok(_) => post == m.saying(remark(one("p2p.done_fetched", "name", Arg::Text(name)))).reloading(false),
            Err(e) => post == m.saying(error(Msg::Failed("p2p.fail_fetch", e))).reloading(false),
        },
        Done::Pinned { id, pinned, result } => match result {
            Ok(_) => pinned_into(m, id@, pinned, post),
            Err(e) => post == m.saying(error(Msg::Failed(if pinned { "p2p.fail_pin" } else { "p2p.fail_unpin" }, e))),
        },
        Done::Peer { action, name, result } => match result {
            Ok(_) => post == m.saying(remark(peer_note(action, name))).reloading(false),
            Err(e) => post == m.saying(error(Msg::Failed(peer_failed(action), e))),
        },
        Done::Setting { which, value, result } => match result {
            Ok(_) => post == (Room {
                status: match m.status {
                    Some(s) => Some(with_value(s, which, value)),
                    None => None,
                },
                modal: if m.modal is Setting { Modal::Closed } else { m.modal },
                ..m
            }).saying(remark(Msg::Key("p2p.done_setting"))),
            Err(e) => match m.modal {
                Modal::Setting(d) => post == m.showing(
                    Modal::Setting(SettingDraft { error: Some(Msg::Failed("p2p.fail_setting", e)), ..d }),
                ),
                _ => post == m.saying(error(Msg::Failed("p2p.fail_setting", e))),
            },
        },
        Done::RequestSent { name, result } => match result {
            Ok(_) => post == m.showing(Modal::Closed).saying(
                remark(one("p2p.request_sent", "name", Arg::Text(name))),
            ).reloading(false),
            Err(e) => match m.modal {
                Modal::Federate(c) => post == m.showing(
                    Modal::Federate(Compose { error: Some(Msg::Failed("p2p.fail_request", e)), ..c }),
                ),
                _ => post == m.saying(error(Msg::Failed("p2p.fail_request", e))),
            },
        },
        Done::Libraries(Ok(names)) => match m.modal {
            Modal::Federate(c) => {
                &&& post == m.showing(post.modal)
                &&& post.modal matches Modal::Federate(d) && d == (Compose { libraries: d.libraries, loaded: true, ..c })
                    && d.libraries@ == offered(names@, true)
            },
            _ => post == m,
        },
        Done::Libraries(Err(e)) => match m.modal {
            Modal::Federate(c) => post == m.showing(
                Modal::Federate(Compose { loaded: true, error: Some(Msg::Failed("p2p.fail_libraries", e)), ..c }),
            ),
            _ => post == m.saying(error(Msg::Failed("p2p.fail_libraries", e))),
        },
    }
}

impl Room {
    fn fail(&mut self, what: &'static str, e: ApiError)
        ensures
            *final(self) == old(self).saying(error(Msg::Failed(what, e))),
    {
        self.note = Some(Note { msg: Msg::Failed(what, e), error: true });
    }

    /// Takes more lines of the log.
    fn take_activity(&mut self, more: DiscoveryActivity)
        ensures
            took_activity(*old(self), more, *final(self)),
    {
        if more.last_seq < self.activity_seq {
            self.activity.clear();
        }
        let mut entries = more.entries;
        self.activity.append(&mut entries);
        if self.activity.len() > LOG_MAX {
            let drop: usize = self.activity.len() - LOG_MAX;
            let newest = self.activity.split_off(drop);
            self.activity = newest;
        }
        self.activity_seq = more.last_seq;
        proof {
            let all = (if more.last_seq < old(self).activity_seq { Seq::empty() } else { old(self).activity@ })
                + more.entries@;
            assert(self.activity@ =~= merged(old(self).activity@, old(self).activity_seq, more));
        }
    }

    /// The row of a server among the visible ones.
    fn row_of(&self, id: &str) -> (r: Option<usize>)
        ensures
            match place_of(froms_at(self.catalog.peers@, self.shown()), id@) {
                Some(i) => r is Some && r->0 == i,
                None => r is None,
            },
    {
        let rows = self.rows();
        let mut i: usize = 0;
        while i < rows.len()
            invariant
                i <= rows@.len(),
                rows@ == self.shown(),
                forall|k: int| 0 <= k < rows@.len() ==> #[trigger] rows@[k] < self.catalog.peers@.len(),
                forall|k: int| 0 <= k < i ==> #[trigger] froms_at(self.catalog.peers@, rows@)[k] != id@,
            decreases rows@.len() - i,
        {
            let ghost ids = froms_at(self.catalog.peers@, rows@);
            if same(self.catalog.peers[rows[i]].from.as_str(), id) {
                proof {
                    first_place(ids, id@, i as int);
                }
                return Some(i);
            }
            i += 1;
        }
        proof {
            first_place(froms_at(self.catalog.peers@, rows@), id@, i as int);
        }
        None
    }

    /// Takes a load's lists.
    fn take_lists(&mut self, l: Loaded)
        ensures
            took_lists(*old(self), l, *final(self)),
    {
        self.status = Some(l.status);
        self.catalog = match l.catalog {
            Some(catalog) => catalog,
            None => empty_catalog(),
        };
        if let Some(federation) = l.federation {
            self.federation = federation;
        }
        if let Some(requests) = l.requests {
            self.requests = requests;
        }
        if let Some(activity) = l.activity {
            self.take_activity(activity);
        }
    }

    /// Puts the cursor with its server, wherever that is now, else on a row
    /// that exists.
    fn follow(&mut self, keep: Option<String>)
        ensures
            *final(self) == (Room { sel: followed(*old(self), keep), ..*old(self) }),
    {
        let row = match &keep {
            Some(id) => self.row_of(id.as_str()),
            None => None,
        };
        let n: usize = self.rows().len();
        self.sel = match row {
            Some(i) => Some(i),
            None => keep_cursor(self.sel, n),
        };
    }

    fn take_load(&mut self, l: Loaded)
        ensures
            loaded_into(*old(self), l, *final(self)),
    {
        let keep: Option<String> = match self.selected_peer() {
            Some(p) => Some(p.from.clone()),
            None => None,
        };
        let on = l.status.enabled;
        self.take_lists(l);
        self.follow(keep);
        if !on {
            self.sel = None;
            self.filter_on = false;
            self.filter_focus = false;
            self.ticket_focus = false;
        }
        if self.name_after_join && on {
            self.name_after_join = false;
            self.open_identity();
        }
    }

    /// A join that was answered: whether it opened the inbox, and what went
    /// wrong with that half.
    pub fn take_joined(&mut self, accepts: Option<bool>, failure: Option<String>)
        ensures
            *final(self) == old(self).saying(joined_words(accepts, failure)).reloading(true),
    {
        let open = match accepts {
            Some(a) => a,
            None => false,
        };
        self.note = Some(
            match failure {
                Some(err) => Note { msg: Msg::One("p2p.inbox_failed", Fill { name: "err", arg: Arg::Text(err) }), error: true },
                None => Note {
                    msg: if open {
                        Msg::Both(Box::new(Msg::Key("p2p.joined_network")), Box::new(Msg::Key("p2p.joined_inbox")))
                    } else {
                        Msg::Key("p2p.joined_network")
                    },
                    error: false,
                },
            },
        );
        self.reload(true);
    }

    fn take_pin(&mut self, id: String, pinned: bool)
        ensures
            pinned_into(*old(self), id@, pinned, *final(self)),
    {
        if let Some(i) = self.place(id.as_str()) {
            if let Some(h) = &mut self.catalog.peers[i].fetched {
                h.pinned = pinned;
            }
        }
        proof {
            assert(self.catalog.peers@ =~= (match place_of(froms(old(self).catalog.peers@), id@) {
                Some(i) => match old(self).catalog.peers@[i].fetched {
                    Some(h) => old(self).catalog.peers@.update(
                        i,
                        CatalogPeer { fetched: Some(HeldSnapshot { pinned, ..h }), ..old(self).catalog.peers@[i] },
                    ),
                    None => old(self).catalog.peers@,
                },
                None => old(self).catalog.peers@,
            }));
        }
    }

    fn take_peer(&mut self, action: PeerAction, name: String, result: Result<(), ApiError>)
        ensures
            applied(*old(self), Done::Peer { action, name, result }, *final(self)),
    {
        match result {
            Ok(_) => {
                let named = Fill { name: "name", arg: Arg::Text(name) };
                let msg = match action {
                    PeerAction::RemoveSnapshot => Msg::One("p2p.done_removed", named),
                    PeerAction::Forget => Msg::One("p2p.done_forgotten", named),
                    PeerAction::Block => Msg::One("p2p.done_blocked", named),
                    PeerAction::Unblock => Msg::Key("p2p.done_unblocked"),
                };
                self.note = Some(Note { msg, error: false });
                self.reload(false);
            },
            Err(e) => {
                let what = match action {
                    PeerAction::RemoveSnapshot => "p2p.fail_remove",
                    PeerAction::Forget => "p2p.fail_forget",
                    PeerAction::Block => "p2p.fail_block",
                    PeerAction::Unblock => "p2p.fail_unblock",
                };
                self.fail(what, e);
            },
        }
    }

    fn take_setting(&mut self, which: DiscoverySetting, value: u64, result: Result<(), ApiError>)
        ensures
            applied(*old(self), Done::Setting { which, value, result }, *final(self)),
    {
        match result {
            Ok(_) => {
                if let Some(s) = &mut self.status {
                    s.set(which, value);
                }
                if let Modal::Setting(_) = &self.modal {
                    self.modal = Modal::Closed;
                }
                self.note = Some(Note { msg: Msg::Key("p2p.done_setting"), error: false });
            },
            Err(e) => match &mut self.modal {
                Modal::Setting(d) => {
                    d.error = Some(Msg::Failed("p2p.fail_setting", e));
                },
                _ => self.fail("p2p.fail_setting", e),
            },
        }
    }

    fn take_libraries(&mut self, result: Result<Vec<String>, ApiError>)
        ensures
            applied(*old(self), Done::Libraries(result), *final(self)),
    {
        match result {
            Ok(names) => {
                if let Modal::Federate(c) = &mut self.modal {
                    c.libraries = offer_names(&names, true);
                    c.loaded = true;
                }
            },
            Err(e) => match &mut self.modal {
                Modal::Federate(c) => {
                    c.loaded = true;
                    c.error = Some(Msg::Failed("p2p.fail_libraries", e));
                },
                _ => self.fail("p2p.fail_libraries", e),
            },
        }
    }

    fn take_request(&mut self, name: String, result: Result<(), ApiError>)
        ensures
            applied(*old(self), Done::RequestSent { name, result }, *final(self)),
    {
        match result {
            Ok(_) => {
                self.modal = Modal::Closed;
                self.note = Some(
                    Note { msg: Msg::One("p2p.request_sent", Fill { name: "name", arg: Arg::Text(name) }), error: false },
                );
                self.reload(false);
            },
            Err(e) => match &mut self.modal {
                Modal::Federate(c) => {
                    c.error = Some(Msg::Failed("p2p.fail_request", e));
                },
                _ => self.fail("p2p.fail_request", e),
            },
        }
    }

    fn take_join(&mut self, doc: String)
        ensures
            joined_into(*old(self), doc@, *final(self)),
    {
        let accepts = match member_of(doc.as_str(), "acceptRequests") {
            Some(v) => bool_of(v.as_str()),
            None => None,
        };
        let failure = match member_of(doc.as_str(), "federationError") {
            Some(v) => string_of(v.as_str()),
            None => None,
        };
        self.take_joined(accepts, failure);
    }

    /// The answers that leave a note.
    fn take_simple(&mut self, done: Done)
        requires
            done matches Done::Joined(r) ==> r is Err,
            done is Joined || done is Left || done is Identity || done is Befriended || done is Fetched,
        ensures
            applied(*old(self), done, *final(self)),
    {
        match done {
            Done::Joined(Err(e)) => {
                self.name_after_join = false;
                self.fail("p2p.fail_join", e);
                self.reload(false);
            },
            Done::Left(Ok(_)) => {
                self.note = None;
                self.reload(true);
            },
            Done::Left(Err(e)) => {
                self.fail("p2p.fail_leave", e);
                self.reload(false);
            },
            Done::Identity(Ok(_)) => {
                self.modal = Modal::Closed;
                self.note = Some(Note { msg: Msg::Key("p2p.done_identity"), error: false });
                self.reload(false);
            },
            Done::Identity(Err(e)) => match &mut self.modal {
                Modal::Identity(d) => {
                    d.error = Some(Msg::Failed("p2p.fail_identity", e));
                },
                _ => self.fail("p2p.fail_identity", e),
            },
            Done::Befriended(Ok(_)) => {
                self.ticket = blank();
                self.ticket_focus = false;
                self.note = Some(Note { msg: Msg::Key("p2p.joined_peer"), error: false });
                self.reload(false);
            },
            Done::Befriended(Err(e)) => self.fail("p2p.fail_befriend", e),
            Done::Fetched { name, result } => match result {
                Ok(_) => {
                    self.note = Some(
                        Note { msg: Msg::One("p2p.done_fetched", Fill { name: "name", arg: Arg::Text(name) }), error: false },
                    );
                    self.reload(false);
                },
                Err(e) => {
                    self.fail("p2p.fail_fetch", e);
                    self.reload(false);
                },
            },
            _ => {},
        }
    }

    /// Folds one answer back into the state.
    pub fn apply(&mut self, done: Done)
        ensures
            applied(settled(*old(self)), done, *final(self)),
    {
        self.in_flight = false;
        self.busy = None;
        match done {
            Done::Loaded(Ok(l)) => self.take_load(l),
            Done::Loaded(Err(e)) => {
                self.note = Some(Note { msg: gate_message(e, "p2p.load_failed"), error: true });
            },
            Done::Activity(Ok(a)) => self.take_activity(a),
            Done::Activity(Err(_)) => {},
            Done::Joined(Ok(doc)) => self.take_join(doc),
            Done::Joined(Err(_)) | Done::Left(_) | Done::Identity(_) | Done::Befriended(_) | Done::Fetched { .. } => {
                self.take_simple(done);
            },
            Done::Pinned { id, pinned, result } => match result {
                Ok(_) => self.take_pin(id, pinned),
                Err(e) => self.fail(if pinned { "p2p.fail_pin" } else { "p2p.fail_unpin" }, e),
            },
            Done::Peer { action, name, result } => self.take_peer(action, name, result),
            Done::Setting { which, value, result } => self.take_setting(which, value, result),
            Done::RequestSent { name, result } => self.take_request(name, result),
            Done::Libraries(result) => self.take_libraries(result),
        }
    }

    /// Hands out the queued call, while none is running. `now` is in
    /// milliseconds.
    pub fn dispatch_queued(&mut self, now: u64) -> (op: Option<Op>)
        ensures
            old(self).in_flight ==> op is None && *final(self) == *old(self),
            !old(self).in_flight ==> op == old(self).queued && *final(self) == (match old(self).queued {
                Some(called) => Room {
                    queued: None,
                    in_flight: true,
                    last_load: if called is Load { Some(now) } else { old(self).last_load },
                    ..*old(self)
                },
                None => *old(self),
            }),
            op is Some <==> !old(self).in_flight && old(self).queued is Some,
            op is Some ==> op == old(self).queued && final(self).in_flight && final(self).queued is None,
    {
        if self.in_flight {
            return None;
        }
        let op = self.queued.take();
        if let Some(called) = &op {
            self.in_flight = true;
            if let Op::Load { .. } = called {
                self.last_load = Some(now);
            }
        }
        op
    }

    /// A call could not be handed to the worker.
    pub fn send_failed(&mut self)
        ensures
            *final(self) == (Room { in_flight: false, note: error(Msg::Key("note.worker_gone")), ..*old(self) }),
    {
        self.in_flight = false;
        self.note = Some(Note { msg: Msg::Key("note.worker_gone"), error: true });
    }

    /// The worker is gone.
    pub fn worker_gone(&mut self)
        ensures
            *final(self) == old(self).saying(error(Msg::Key("note.worker_gone"))),
    {
        self.note = Some(Note { msg: Msg::Key("note.worker_gone"), error: true });
    }

    /// Whether the state is due to be asked for again.
    pub open spec fn due(self, now: u64) -> bool {
        &&& self.on()
        &&& !self.in_flight
        &&& self.queued is None
        &&& self.last_load matches Some(t) ==> now - t >= POLL_EVERY
    }

    /// The poll, quiet: only while on the network, never on top of a call
    /// already queued or running.
    pub fn tick(&mut self, now: u64)
        ensures
            *final(self) == (if old(self).due(now) { old(self).reloading(false) } else { *old(self) }),
    {
        let late = match self.last_load {
            Some(t) => now >= t && now - t >= POLL_EVERY,
            None => true,
        };
        if self.enabled() && !self.in_flight && self.queued.is_none() && late {
            self.reload(false);
        }
    }

    /// Whether a row of the screen is one of the log's.
    pub open spec fn over_log(self, y: u16) -> bool {
        self.tab == Tab::Activity && 6 <= y < 6 + PANE_ROWS
    }

    /// The wheel, at a row of the screen: over the log it walks the log, else
    /// it scrolls the table; a modal stops it.
    pub fn wheel(&mut self, up: bool, y: u16)
        ensures
            *final(self) == (if !(old(self).modal is Closed) {
                *old(self)
            } else if old(self).over_log(y) {
                Room { ascroll: scrolled(old(self).ascroll, !up), ..*old(self) }
            } else {
                Room { tscroll: scrolled(old(self).tscroll, up), ..*old(self) }
            }),
    {
        if let Modal::Closed = self.modal {
            let log = match self.tab {
                Tab::Activity => 6 <= y && y < 6 + PANE_ROWS,
                _ => false,
            };
            if log {
                self.ascroll = scroll(self.ascroll, !up);
            } else {
                self.tscroll = scroll(self.tscroll, up);
            }
        }
    }
}

/// The room, loading.
pub fn start(bounds: Bounds) -> (room: Room)
    ensures
        room.fresh(bounds),
        room.queued == Some(Op::Load { include_incompatible: false, activity_since: None }),
        room.busy == Some(Msg::Key("p2p.busy_loading")),
{
    let mut room = Room::new(bounds);
    room.reload(true);
    room
}

// ── Keys ─────────────────────────────────────────────────────────────────

/// The keys of a sheet's rows, in order.
pub open spec fn menu_keys(menu: Seq<MenuRow>) -> Seq<char> {
    Seq::new(menu.len(), |i: int| menu[i].key)
}

/// What a key makes of a room with a server's sheet open: the rows' own keys
/// work in it too.
pub open spec fn sheet_keyed(pre: Room, id: String, sel: usize, key: Key, post: Room, out: Option<Outcome>) -> bool {
    let menu = pre.sheet_of(id@);
    match key.code {
        Code::Esc => acted(pre, Act::SheetClose, post, out),
        Code::Up => out is None && post == pre.showing(
            Modal::Sheet { id, sel: if sel > 0 { (sel - 1) as usize } else { 0 } },
        ),
        Code::Down => out is None && post == pre.showing(
            Modal::Sheet { id, sel: within(sel + 1, menu.len() as int) as usize },
        ),
        Code::Enter => acted(pre, Act::SheetRun, post, out),
        Code::Char(c) => out is None && match place_of(menu_keys(menu), c) {
            Some(i) => sheet_acted(pre.showing(Modal::Closed), menu[i].act, post),
            None => post == pre,
        },
        _ => post == pre && out is None,
    }
}

/// The focus after the one at `focus` of a request's message and libraries.
pub open spec fn focus_after(focus: Option<usize>, n: int) -> Option<usize> {
    match focus {
        None => if n > 0 { Some(0) } else { None },
        Some(i) => if i + 1 < n { Some((i + 1) as usize) } else { None },
    }
}

/// The focus before the one at `focus` of a request's message and libraries.
pub open spec fn focus_before(focus: Option<usize>, n: int) -> Option<usize> {
    match focus {
        None => if n > 0 { Some((n - 1) as usize) } else { None },
        Some(i) => if i > 0 { Some((i - 1) as usize) } else { None },
    }
}

/// What a key makes of a room with a request being written.
pub open spec fn compose_keyed(pre: Room, c: Compose, key: Key, post: Room, out: Option<Outcome>) -> bool {
    let n = c.libraries@.len() as int;
    if key.code == Code::Esc {
        acted(pre, Act::ComposeCancel, post, out)
    } else if key.code == Code::Enter {
        acted(pre, Act::ComposeSend, post, out)
    } else if key.code == Code::Tab || key.code == Code::Down {
        out is None && post == pre.showing(Modal::Federate(Compose { focus: focus_after(c.focus, n), ..c }))
    } else if key.code == Code::BackTab || key.code == Code::Up {
        out is None && post == pre.showing(Modal::Federate(Compose { focus: focus_before(c.focus, n), ..c }))
    } else if c.focus is Some {
        if key.code == Code::Char(' ') {
            acted(pre, Act::ComposeToggle(c.focus->0), post, out)
        } else {
            post == pre && out is None
        }
    } else if key.code is Char && input_value(c.message).len() >= MESSAGE_MAX {
        post == pre && out is None
    } else {
        &&& out is None
        &&& post.modal matches Modal::Federate(d) && after_key(c.message, key, d.message, key_changes(c.message, key)) && post
            == pre.showing(Modal::Federate(Compose { message: d.message, error: None, ..c }))
    }
}

/// What a key makes of a room with the identity open: no bar, no control
/// character, nothing past a field's cap.
pub open spec fn identity_keyed(pre: Room, d: IdentityDraft, key: Key, post: Room, out: Option<Outcome>) -> bool {
    let field = if d.on_description { d.description } else { d.name };
    let max = if d.on_description { DESCRIPTION_MAX as int } else { NAME_MAX as int };
    if key.code == Code::Esc {
        acted(pre, Act::IdentityCancel, post, out)
    } else if key.code == Code::Enter {
        acted(pre, Act::IdentitySave, post, out)
    } else if key.code == Code::Tab || key.code == Code::Down || key.code == Code::BackTab || key.code == Code::Up {
        out is None && post == pre.showing(Modal::Identity(IdentityDraft { on_description: !d.on_description, ..d }))
    } else if key.code matches Code::Char(c) && (c == '|' || control(c) || input_value(field).len() >= max) {
        post == pre && out is None
    } else {
        &&& out is None
        &&& post.modal matches Modal::Identity(e) && if d.on_description {
            after_key(field, key, e.description, key_changes(field, key)) && post == pre.showing(
                Modal::Identity(IdentityDraft { description: e.description, error: None, ..d }),
            )
        } else {
            after_key(field, key, e.name, key_changes(field, key)) && post == pre.showing(
                Modal::Identity(IdentityDraft { name: e.name, error: None, ..d }),
            )
        }
    }
}

/// What a key makes of a room with a setting open: digits alone, six bytes at
/// most.
pub open spec fn setting_keyed(pre: Room, d: SettingDraft, key: Key, post: Room, out: Option<Outcome>) -> bool {
    if key.code == Code::Esc {
        acted(pre, Act::SettingCancel, post, out)
    } else if key.code == Code::Enter {
        acted(pre, Act::SettingSave, post, out)
    } else if key.code matches Code::Char(c) && (!is_digit(c) || vstd::utf8::encode_utf8(input_value(d.value)).len() >= 6) {
        post == pre && out is None
    } else {
        &&& out is None
        &&& post.modal matches Modal::Setting(e) && after_key(d.value, key, e.value, key_changes(d.value, key)) && post
            == pre.showing(Modal::Setting(SettingDraft { value: e.value, error: None, ..d }))
    }
}

/// What a key makes of a room with a warning open: `y` goes through, Esc, Enter
/// and `n` go back.
pub open spec fn gate_keyed(pre: Room, yes: Act, no: Act, key: Key, post: Room, out: Option<Outcome>) -> bool {
    if key.code == Code::Char('y') {
        acted(pre, yes, post, out)
    } else if key.code == Code::Esc || key.code == Code::Enter || key.code == Code::Char('n') {
        acted(pre, no, post, out)
    } else {
        post == pre && out is None
    }
}

/// What a key makes of a room with the blocked servers open.
pub open spec fn blocked_keyed(pre: Room, sel: usize, key: Key, post: Room, out: Option<Outcome>) -> bool {
    let n = match pre.status {
        Some(s) => s.blocked_peers@.len() as int,
        None => 0,
    };
    match key.code {
        Code::Esc => acted(pre, Act::BlockedClose, post, out),
        Code::Up => out is None && post == pre.showing(Modal::Blocked(if sel > 0 { (sel - 1) as usize } else { 0 })),
        Code::Down => out is None && post == pre.showing(Modal::Blocked(within(sel + 1, n) as usize)),
        Code::Enter => acted(pre, Act::BlockedRun, post, out),
        _ => post == pre && out is None,
    }
}

/// An action on the server under the cursor, if there is one.
pub open spec fn on_cursor(pre: Room, act: spec_fn(String) -> Act, post: Room, out: Option<Outcome>) -> bool {
    match pre.cursor_peer() {
        Some(p) => acted(pre, act(p.from), post, out),
        None => post == pre && out is None,
    }
}

/// The setting behind a digit.
pub open spec fn setting_at(c: char) -> Option<DiscoverySetting> {
    if c == '1' {
        Some(DiscoverySetting::MaxStorageMb)
    } else if c == '2' {
        Some(DiscoverySetting::PeerRetentionDays)
    } else if c == '3' {
        Some(DiscoverySetting::AutoFetchCount)
    } else if c == '4' {
        Some(DiscoverySetting::RotationDays)
    } else if c == '5' {
        Some(DiscoverySetting::SidecarMaxRssMb)
    } else {
        None
    }
}

/// What a character makes of a room with nothing over its table.
pub open spec fn char_keyed(pre: Room, c: char, post: Room, out: Option<Outcome>) -> bool {
    if c == 'd' {
        on_cursor(pre, |id: String| Act::Fetch(id), post, out)
    } else if c == 'p' {
        match pre.cursor_peer() {
            Some(p) => match p.fetched {
                Some(h) => acted(pre, Act::Pin(p.from, !h.pinned), post, out),
                None => post == pre && out is None,
            },
            None => post == pre && out is None,
        }
    } else if c == 'r' {
        on_cursor(pre, |id: String| Act::RemoveSnapshot(id), post, out)
    } else if c == 'f' {
        on_cursor(pre, |id: String| Act::Federate(id), post, out)
    } else if c == 'g' {
        on_cursor(pre, |id: String| Act::Forget(id), post, out)
    } else if c == 'b' {
        on_cursor(pre, |id: String| Act::Block(id), post, out)
    } else if c == 'e' {
        acted(pre, Act::IdentityOpen, post, out)
    } else if c == 'x' {
        acted(pre, Act::Leave, post, out)
    } else if c == '/' {
        acted(pre, Act::FilterOpen, post, out)
    } else if c == 'h' {
        acted(pre, Act::ToggleIncompatible, post, out)
    } else if c == 'u' {
        acted(pre, Act::BlockedOpen, post, out)
    } else if c == 'y' {
        acted(pre, Act::CopyTicket, post, out)
    } else if c == 'j' {
        acted(pre, Act::TicketFocus, post, out)
    } else if c == 'q' {
        acted(pre, Act::Quit, post, out)
    } else {
        match setting_at(c) {
            Some(which) => acted(pre, Act::SettingOpen(which), post, out),
            None => post == pre && out is None,
        }
    }
}

/// What a key makes of a room with nothing over its table.
pub open spec fn table_keyed(pre: Room, key: Key, post: Room, out: Option<Outcome>) -> bool {
    let n = pre.shown().len() as int;
    match key.code {
        Code::Up => out is None && post == (if n > 0 { Room { sel: row_up(pre.sel, n), ..pre } } else { pre }),
        Code::Down => out is None && post == (if n > 0 { Room { sel: row_down(pre.sel, n), ..pre } } else { pre }),
        Code::Left => out is None && post == switched(pre, tab_beside(pre.tab, false)),
        Code::Right => out is None && post == switched(pre, tab_beside(pre.tab, true)),
        Code::Esc => if pre.sel is Some {
            out is None && post == (Room { sel: None, ..pre })
        } else if pre.filter_on {
            out is None && post == (Room { filter: post.filter, filter_on: false, ..pre }) && is_blank(post.filter)
        } else {
            acted(pre, Act::Quit, post, out)
        },
        Code::Enter => match pre.sel {
            Some(s) => acted(pre, Act::OpenSheet(s), post, out),
            None => post == pre && out is None,
        },
        Code::Delete => on_cursor(pre, |id: String| Act::RemoveSnapshot(id), post, out),
        Code::Char(c) => char_keyed(pre, c, post, out),
        _ => post == pre && out is None,
    }
}

/// What a key makes of a room with no modal: off the network it has three
/// keys; an inline field with the focus takes the keys, and Esc gives them
/// back.
pub open spec fn room_keyed(pre: Room, key: Key, post: Room, out: Option<Outcome>) -> bool {
    if !pre.on() {
        if key.code == Code::Enter {
            acted(pre, Act::Join, post, out)
        } else if key.code == Code::Char(' ') {
            acted(pre, Act::ToggleRequests, post, out)
        } else if key.code == Code::Esc || key.code == Code::Char('q') {
            acted(pre, Act::Quit, post, out)
        } else {
            post == pre && out is None
        }
    } else if pre.ticket_focus {
        if key.code == Code::Esc {
            post == (Room { ticket_focus: false, ..pre }) && out is None
        } else if key.code == Code::Enter {
            acted(pre, Act::TicketJoin, post, out)
        } else {
            &&& post == (Room { ticket: post.ticket, ..pre })
            &&& after_key(pre.ticket, key, post.ticket, key_changes(pre.ticket, key))
            &&& out is None
        }
    } else if pre.filter_focus {
        if key.code == Code::Esc {
            post == (Room { filter: post.filter, filter_on: false, filter_focus: false, ..pre }) && is_blank(post.filter)
                && out is None
        } else if key.code == Code::Enter {
            post == (Room { filter_focus: false, ..pre }) && out is None
        } else {
            &&& post == (Room { filter: post.filter, sel: None, ..pre })
            &&& after_key(pre.filter, key, post.filter, key_changes(pre.filter, key))
            &&& out is None
        }
    } else {
        table_keyed(pre, key, post, out)
    }
}

/// What a key makes of the room, and whether it ends it.
pub open spec fn keyed(pre: Room, key: Key, post: Room, out: Option<Outcome>) -> bool {
    match pre.modal {
        Modal::Closed => room_keyed(pre, key, post, out),
        Modal::Sheet { id, sel } => sheet_keyed(pre, id, sel, key, post, out),
        Modal::Federate(c) => compose_keyed(pre, c, key, post, out),
        Modal::Identity(d) => identity_keyed(pre, d, key, post, out),
        Modal::Setting(d) => setting_keyed(pre, d, key, post, out),
        Modal::Block(_) => gate_keyed(pre, Act::BlockConfirm, Act::BlockCancel, key, post, out),
        Modal::Leave => gate_keyed(pre, Act::LeaveConfirm, Act::LeaveCancel, key, post, out),
        Modal::Blocked(sel) => blocked_keyed(pre, sel, key, post, out),
    }
}

/// The line below the one at `sel` of `n`.
fn below_row(sel: usize, n: usize) -> (r: usize)
    ensures
        r == within(sel + 1, n as int),
{
    if n > 0 && sel < n - 1 {
        sel + 1
    } else if n > 0 {
        n - 1
    } else {
        0
    }
}

/// The place of the first row of a sheet with a key.
fn menu_place(menu: &Vec<MenuRow>, c: char) -> (r: Option<usize>)
    ensures
        match place_of(menu_keys(menu@), c) {
            Some(i) => r is Some && r->0 == i && 0 <= i < menu@.len(),
            None => r is None,
        },
{
    let mut i: usize = 0;
    while i < menu.len()
        invariant
            i <= menu@.len(),
            forall|k: int| 0 <= k < i ==> (#[trigger] menu@[k]).key != c,
        decreases menu@.len() - i,
    {
        if menu[i].key == c {
            proof {
                first_place(menu_keys(menu@), c, i as int);
            }
            return Some(i);
        }
        i += 1;
    }
    proof {
        first_place(menu_keys(menu@), c, i as int);
    }
    None
}

fn sheet_key(room: &mut Room, key: Key) -> (out: Option<Outcome>)
    requires
        old(room).modal is Sheet,
    ensures
        sheet_keyed(
            *old(room),
            old(room).modal->Sheet_id,
            old(room).modal->Sheet_sel,
            key,
            *final(room),
            out,
        ),
{
    let mut menu: Vec<MenuRow> = Vec::new();
    if let Modal::Sheet { id, sel } = &room.modal {
        menu = room.menu_of(id.as_str());
    }
    match key.code {
        Code::Esc => room.act(Act::SheetClose),
        Code::Up => {
            if let Modal::Sheet { id, sel } = &mut room.modal {
                *sel = if *sel > 0 { *sel - 1 } else { 0 };
            }
            None
        },
        Code::Down => {
            if let Modal::Sheet { id, sel } = &mut room.modal {
                *sel = below_row(*sel, menu.len());
            }
            None
        },
        Code::Enter => room.act(Act::SheetRun),
        Code::Char(c) => {
            if let Some(i) = menu_place(&menu, c) {
                let row = menu.swap_remove(i);
                room.modal = Modal::Closed;
                room.act_on_peer(row.act);
            }
            None
        },
        _ => None,
    }
}

/// The focus one step on.
fn focus_on(focus: Option<usize>, n: usize) -> (r: Option<usize>)
    ensures
        r == focus_after(focus, n as int),
{
    match focus {
        None => if n > 0 { Some(0) } else { None },
        Some(i) => if n > 0 && i < n - 1 { Some(i + 1) } else { None },
    }
}

/// The focus one step back.
fn focus_back(focus: Option<usize>, n: usize) -> (r: Option<usize>)
    ensures
        r == focus_before(focus, n as int),
{
    match focus {
        None => if n > 0 { Some(n - 1) } else { None },
        Some(i) => if i > 0 { Some(i - 1) } else { None },
    }
}

/// A request under way after a key that neither ends it nor marks a library.
spec fn drafted(c: Compose, key: Key, d: Compose) -> bool {
    let n = c.libraries@.len() as int;
    if key.code == Code::Tab || key.code == Code::Down {
        d == (Compose { focus: focus_after(c.focus, n), ..c })
    } else if key.code == Code::BackTab || key.code == Code::Up {
        d == (Compose { focus: focus_before(c.focus, n), ..c })
    } else if c.focus is Some || key.code is Char && input_value(c.message).len() >= MESSAGE_MAX {
        d == c
    } else {
        &&& after_key(c.message, key, d.message, key_changes(c.message, key))
        &&& d == (Compose { message: d.message, error: None, ..c })
    }
}

fn draft(c: &mut Compose, key: Key)
    ensures
        drafted(*old(c), key, *final(c)),
{
    match key.code {
        Code::Tab | Code::Down => {
            c.focus = focus_on(c.focus, c.libraries.len());
            return;
        },
        Code::BackTab | Code::Up => {
            c.focus = focus_back(c.focus, c.libraries.len());
            return;
        },
        Code::Char(_) => {
            if c.message.value().unicode_len() >= MESSAGE_MAX {
                return;
            }
        },
        _ => {},
    }
    if c.focus.is_none() {
        edit(&mut c.message, key);
        c.error = None;
    }
}

#[verifier::spinoff_prover]
fn compose_key(room: &mut Room, key: Key) -> (out: Option<Outcome>)
    requires
        old(room).modal is Federate,
    ensures
        compose_keyed(*old(room), old(room).modal->Federate_0, key, *final(room), out),
{
    let mut toggle: Option<usize> = None;
    match key.code {
        Code::Esc => return room.act(Act::ComposeCancel),
        Code::Enter => return room.act(Act::ComposeSend),
        _ => {},
    }
    if let Modal::Federate(c) = &mut room.modal {
        if matches!(key.code, Code::Char(' ')) && c.focus.is_some() {
            toggle = c.focus;
        } else {
            draft(c, key);
        }
    }
    match toggle {
        Some(i) => room.act(Act::ComposeToggle(i)),
        None => None,
    }
}

fn identity_key(room: &mut Room, key: Key) -> (out: Option<Outcome>)
    requires
        old(room).modal is Identity,
    ensures
        identity_keyed(*old(room), old(room).modal->Identity_0, key, *final(room), out),
{
    match key.code {
        Code::Esc => return room.act(Act::IdentityCancel),
        Code::Enter => return room.act(Act::IdentitySave),
        _ => {},
    }
    if let Modal::Identity(d) = &mut room.modal {
        match key.code {
            Code::Tab | Code::Down | Code::BackTab | Code::Up => {
                d.on_description = !d.on_description;
                return None;
            },
            Code::Char(c) => {
                let (n, max): (usize, usize) = if d.on_description {
                    (d.description.value().unicode_len(), DESCRIPTION_MAX)
                } else {
                    (d.name.value().unicode_len(), NAME_MAX)
                };
                if c == '|' || is_control(c) || n >= max {
                    return None;
                }
            },
            _ => {},
        }
        if d.on_description {
            edit(&mut d.description, key);
        } else {
            edit(&mut d.name, key);
        }
        d.error = None;
    }
    None
}

fn setting_key(room: &mut Room, key: Key) -> (out: Option<Outcome>)
    requires
        old(room).modal is Setting,
    ensures
        setting_keyed(*old(room), old(room).modal->Setting_0, key, *final(room), out),
{
    match key.code {
        Code::Esc => return room.act(Act::SettingCancel),
        Code::Enter => return room.act(Act::SettingSave),
        _ => {},
    }
    if let Modal::Setting(d) = &mut room.modal {
        if let Code::Char(c) = key.code {
            if !('0' <= c && c <= '9') || d.value.value().as_bytes().len() >= 6 {
                return None;
            }
        }
        edit(&mut d.value, key);
        d.error = None;
    }
    None
}

fn gate_key(room: &mut Room, yes: Act, no: Act, key: Key) -> (out: Option<Outcome>)
    ensures
        gate_keyed(*old(room), yes, no, key, *final(room), out),
{
    match key.code {
        Code::Char(c) => if c == 'y' {
            room.act(yes)
        } else if c == 'n' {
            room.act(no)
        } else {
            None
        },
        Code::Esc | Code::Enter => room.act(no),
        _ => None,
    }
}

fn blocked_key(room: &mut Room, key: Key) -> (out: Option<Outcome>)
    requires
        old(room).modal is Blocked,
    ensures
        blocked_keyed(*old(room), old(room).modal->Blocked_0, key, *final(room), out),
{
    let n: usize = match &room.status {
        Some(s) => s.blocked_peers.len(),
        None => 0,
    };
    match key.code {
        Code::Esc => room.act(Act::BlockedClose),
        Code::Up => {
            if let Modal::Blocked(sel) = &mut room.modal {
                *sel = if *sel > 0 { *sel - 1 } else { 0 };
            }
            None
        },
        Code::Down => {
            if let Modal::Blocked(sel) = &mut room.modal {
                *sel = below_row(*sel, n);
            }
            None
        },
        Code::Enter => room.act(Act::BlockedRun),
        _ => None,
    }
}

fn char_key(room: &mut Room, c: char) -> (out: Option<Outcome>)
    ensures
        char_keyed(*old(room), c, *final(room), out),
{
    match c {
        'e' => return room.act(Act::IdentityOpen),
        'x' => return room.act(Act::Leave),
        '/' => return room.act(Act::FilterOpen),
        'h' => return room.act(Act::ToggleIncompatible),
        'u' => return room.act(Act::BlockedOpen),
        'y' => return room.act(Act::CopyTicket),
        'j' => return room.act(Act::TicketFocus),
        '1' => return room.act(Act::SettingOpen(DiscoverySetting::MaxStorageMb)),
        '2' => return room.act(Act::SettingOpen(DiscoverySetting::PeerRetentionDays)),
        '3' => return room.act(Act::SettingOpen(DiscoverySetting::AutoFetchCount)),
        '4' => return room.act(Act::SettingOpen(DiscoverySetting::RotationDays)),
        '5' => return room.act(Act::SettingOpen(DiscoverySetting::SidecarMaxRssMb)),
        'q' => return room.act(Act::Quit),
        _ => {},
    }
    let (id, pinned): (Option<String>, Option<bool>) = match room.selected_peer() {
        Some(p) => (
            Some(p.from.clone()),
            match &p.fetched {
                Some(h) => Some(h.pinned),
                None => None,
            },
        ),
        None => (None, None),
    };
    match id {
        Some(id) => match c {
            'd' => room.act(Act::Fetch(id)),
            'p' => match pinned {
                Some(pinned) => room.act(Act::Pin(id, !pinned)),
                None => None,
            },
            'r' => room.act(Act::RemoveSnapshot(id)),
            'f' => room.act(Act::Federate(id)),
            'g' => room.act(Act::Forget(id)),
            'b' => room.act(Act::Block(id)),
            _ => None,
        },
        None => None,
    }
}

fn table_key(room: &mut Room, key: Key) -> (out: Option<Outcome>)
    ensures
        table_keyed(*old(room), key, *final(room), out),
{
    let n: usize = room.rows().len();
    match key.code {
        Code::Up => {
            if n > 0 {
                room.sel = cursor_up(room.sel, n);
            }
            None
        },
        Code::Down => {
            if n > 0 {
                room.sel = cursor_down(room.sel, n);
            }
            None
        },
        Code::Left => {
            let to = room.tab.next(false);
            room.switch_tab(to);
            None
        },
        Code::Right => {
            let to = room.tab.next(true);
            room.switch_tab(to);
            None
        },
        Code::Esc => {
            if room.sel.is_some() {
                room.sel = None;
                None
            } else if room.filter_on {
                room.filter = blank();
                room.filter_on = false;
                None
            } else {
                room.act(Act::Quit)
            }
        },
        Code::Enter => match room.sel {
            Some(s) => room.act(Act::OpenSheet(s)),
            None => None,
        },
        Code::Delete => {
            let id: Option<String> = match room.selected_peer() {
                Some(p) => Some(p.from.clone()),
                None => None,
            };
            match id {
                Some(id) => room.act(Act::RemoveSnapshot(id)),
                None => None,
            }
        },
        Code::Char(c) => char_key(room, c),
        _ => None,
    }
}

fn room_key(room: &mut Room, key: Key) -> (out: Option<Outcome>)
    ensures
        room_keyed(*old(room), key, *final(room), out),
{
    if !room.enabled() {
        return match key.code {
            Code::Enter => room.act(Act::Join),
            Code::Esc => room.act(Act::Quit),
            Code::Char(c) => if c == ' ' {
                room.act(Act::ToggleRequests)
            } else if c == 'q' {
                room.act(Act::Quit)
            } else {
                None
            },
            _ => None,
        };
    }
    if room.ticket_focus {
        return match key.code {
            Code::Esc => {
                room.ticket_focus = false;
                None
            },
            Code::Enter => room.act(Act::TicketJoin),
            _ => {
                edit(&mut room.ticket, key);
                None
            },
        };
    }
    if room.filter_focus {
        return match key.code {
            Code::Esc => {
                room.filter = blank();
                room.filter_on = false;
                room.filter_focus = false;
                None
            },
            Code::Enter => {
                room.filter_focus = false;
                None
            },
            _ => {
                edit(&mut room.filter, key);
                room.sel = None;
                None
            },
        };
    }
    table_key(room, key)
}

/// A key press.
pub fn handle_key(room: &mut Room, key: Key) -> (out: Option<Outcome>)
    ensures
        keyed(*old(room), key, *final(room), out),
{
    match &room.modal {
        Modal::Closed => room_key(room, key),
        Modal::Sheet { .. } => sheet_key(room, key),
        Modal::Federate(_) => compose_key(room, key),
        Modal::Identity(_) => identity_key(room, key),
        Modal::Setting(_) => setting_key(room, key),
        Modal::Block(_) => gate_key(room, Act::BlockConfirm, Act::BlockCancel, key),
        Modal::Leave => gate_key(room, Act::LeaveConfirm, Act::LeaveCancel, key),
        Modal::Blocked(_) => blocked_key(room, key),
    }
}

// ── Laws ─────────────────────────────────────────────────────────────────

/// Enter and Esc are the safe choice on both warnings: they close it, and nothing
/// is queued.
pub proof fn gates_are_safe_on_enter(pre: Room, key: Key, post: Room, out: Option<Outcome>)
    requires
        pre.modal is Block || pre.modal is Leave,
        key.code == Code::Enter || key.code == Code::Esc,
        keyed(pre, key, post, out),
    ensures
        post == pre.showing(Modal::Closed),
        out is None,
{
}

/// A call that blocks a server or leaves the network.
pub open spec fn cuts_off(op: Op) -> bool {
    op is LeaveNetwork || (op matches Op::Peer { action, id, name } && action == PeerAction::Block)
}

/// The warning in front of such a call.
pub open spec fn gate_of(op: Op) -> Modal {
    match op {
        Op::Peer { action, id, name } => Modal::Block(id),
        _ => Modal::Leave,
    }
}

/// No action but a warning's own confirmation blocks a server or leaves the
/// network.
pub proof fn cutting_off_needs_the_confirmation(pre: Room, act: Act, post: Room, out: Option<Outcome>, op: Op)
    requires
        acted(pre, act, post, out),
        post.queued == Some(op),
        cuts_off(op),
        pre.queued != post.queued,
    ensures
        act == Act::BlockConfirm || act == Act::LeaveConfirm,
        op is Peer ==> pre.modal == gate_of(op),
{
}

proof fn acts_cut_nothing_off(pre: Room, act: Act, post: Room, out: Option<Outcome>)
    requires
        acted(pre, act, post, out),
        act != Act::BlockConfirm && act != Act::LeaveConfirm,
    ensures
        post.queued matches Some(op) ==> cuts_off(op) ==> pre.queued == post.queued,
{
    if let Some(op) = post.queued {
        if cuts_off(op) && pre.queued != post.queued {
            cutting_off_needs_the_confirmation(pre, act, post, out, op);
        }
    }
}

proof fn cursors_cut_nothing_off(pre: Room, act: spec_fn(String) -> Act, post: Room, out: Option<Outcome>)
    requires
        on_cursor(pre, act, post, out),
        forall|id: String| #![trigger act(id)] act(id) != Act::BlockConfirm && act(id) != Act::LeaveConfirm,
    ensures
        post.queued matches Some(op) ==> cuts_off(op) ==> pre.queued == post.queued,
{
    if let Some(p) = pre.cursor_peer() {
        acts_cut_nothing_off(pre, act(p.from), post, out);
    }
}

#[verifier::spinoff_prover]
proof fn chars_cut_nothing_off(pre: Room, c: char, post: Room, out: Option<Outcome>)
    requires
        char_keyed(pre, c, post, out),
    ensures
        post.queued matches Some(op) ==> cuts_off(op) ==> pre.queued == post.queued,
{
    if c == 'd' {
        cursors_cut_nothing_off(pre, |id: String| Act::Fetch(id), post, out);
    } else if c == 'p' {
        if let Some(p) = pre.cursor_peer() {
            if let Some(h) = p.fetched {
                acts_cut_nothing_off(pre, Act::Pin(p.from, !h.pinned), post, out);
            }
        }
    } else if c == 'r' {
        cursors_cut_nothing_off(pre, |id: String| Act::RemoveSnapshot(id), post, out);
    } else if c == 'f' {
        cursors_cut_nothing_off(pre, |id: String| Act::Federate(id), post, out);
    } else if c == 'g' {
        cursors_cut_nothing_off(pre, |id: String| Act::Forget(id), post, out);
    } else if c == 'b' {
        cursors_cut_nothing_off(pre, |id: String| Act::Block(id), post, out);
    } else if c == 'e' {
        acts_cut_nothing_off(pre, Act::IdentityOpen, post, out);
    } else if c == 'x' {
        acts_cut_nothing_off(pre, Act::Leave, post, out);
    } else if c == '/' {
        acts_cut_nothing_off(pre, Act::FilterOpen, post, out);
    } else if c == 'h' {
        acts_cut_nothing_off(pre, Act::ToggleIncompatible, post, out);
    } else if c == 'u' {
        acts_cut_nothing_off(pre, Act::BlockedOpen, post, out);
    } else if c == 'y' {
        acts_cut_nothing_off(pre, Act::CopyTicket, post, out);
    } else if c == 'j' {
        acts_cut_nothing_off(pre, Act::TicketFocus, post, out);
    } else if c == 'q' {
        acts_cut_nothing_off(pre, Act::Quit, post, out);
    } else if let Some(which) = setting_at(c) {
        acts_cut_nothing_off(pre, Act::SettingOpen(which), post, out);
    }
}

proof fn tables_cut_nothing_off(pre: Room, key: Key, post: Room, out: Option<Outcome>)
    requires
        table_keyed(pre, key, post, out),
    ensures
        post.queued matches Some(op) ==> cuts_off(op) ==> pre.queued == post.queued,
{
    if let Code::Char(c) = key.code {
        chars_cut_nothing_off(pre, c, post, out);
    }
}

proof fn sheets_cut_nothing_off(pre: Room, id: String, sel: usize, key: Key, post: Room, out: Option<Outcome>)
    requires
        pre.modal == (Modal::Sheet { id, sel }),
        sheet_keyed(pre, id, sel, key, post, out),
    ensures
        post.queued matches Some(op) ==> cuts_off(op) ==> pre.queued == post.queued,
{
}

proof fn drafts_cut_nothing_off(pre: Room, key: Key, post: Room, out: Option<Outcome>)
    requires
        pre.modal is Federate || pre.modal is Identity || pre.modal is Setting || pre.modal is Blocked,
        keyed(pre, key, post, out),
    ensures
        post.queued matches Some(op) ==> cuts_off(op) ==> pre.queued == post.queued,
{
}

/// A server is blocked, and the network left, only from the warning, for the
/// server that the warning names, and only by `y`.
pub proof fn cutting_off_needs_the_gate(pre: Room, key: Key, post: Room, out: Option<Outcome>, op: Op)
    requires
        keyed(pre, key, post, out),
        post.queued == Some(op),
        cuts_off(op),
        pre.queued != post.queued,
    ensures
        pre.modal == gate_of(op),
        key.code == Code::Char('y'),
{
    match pre.modal {
        Modal::Closed => {
            if pre.on() && !pre.ticket_focus && !pre.filter_focus {
                tables_cut_nothing_off(pre, key, post, out);
            }
        },
        Modal::Sheet { id, sel } => sheets_cut_nothing_off(pre, id, sel, key, post, out),
        Modal::Federate(_) | Modal::Identity(_) | Modal::Setting(_) | Modal::Blocked(_) => {
            drafts_cut_nothing_off(pre, key, post, out);
        },
        _ => {},
    }
}

/// Each visible row is a server of the catalog that matches, and the order is
/// the catalog's.
pub proof fn rows_match_in_order(peers: Seq<CatalogPeer>, q: Seq<char>)
    requires
        peers.len() <= usize::MAX,
    ensures
        forall|i: int| 0 <= i < matching(peers, q).len() ==> #[trigger] matching(peers, q)[i] < peers.len() && matches_query(
            peers[matching(peers, q)[i] as int],
            q,
        ),
        forall|i: int, j: int| 0 <= i < j < matching(peers, q).len() ==> matching(peers, q)[i] < matching(peers, q)[j],
        forall|k: int| 0 <= k < peers.len() && matches_query(peers[k], q) ==> #[trigger] matching(peers, q).contains(k as usize),
    decreases peers.len(),
{
    if peers.len() > 0 {
        let rest = peers.drop_last();
        let before = matching(rest, q);
        rows_match_in_order(rest, q);
        let all = matching(peers, q);
        assert forall|i: int| 0 <= i < all.len() implies #[trigger] all[i] < peers.len() && matches_query(
            peers[all[i] as int],
            q,
        ) by {
            if i < before.len() {
                assert(all[i] == before[i]);
                assert(peers[all[i] as int] == rest[before[i] as int]);
            }
        }
        assert forall|i: int, j: int| 0 <= i < j < all.len() implies all[i] < all[j] by {
            assert(all[i] == before[i]);
            if j < before.len() {
                assert(all[j] == before[j]);
            }
        }
        assert forall|k: int| 0 <= k < peers.len() && matches_query(peers[k], q) implies #[trigger] all.contains(
            k as usize,
        ) by {
            if k < rest.len() {
                assert(rest[k] == peers[k]);
                assert(before.contains(k as usize));
                let i = choose|i: int| 0 <= i < before.len() && before[i] == k as usize;
                assert(all[i] == before[i]);
            } else {
                assert(all[all.len() - 1] == k as usize);
            }
        }
    }
}

/// Without a filter every server of the catalog is visible.
pub proof fn no_filter_shows_all(room: Room)
    requires
        !room.filter_on || lower_case(trimmed(input_value(room.filter))).len() == 0,
        room.catalog.peers@.len() <= usize::MAX,
    ensures
        room.shown().len() == room.catalog.peers@.len(),
        forall|i: int| 0 <= i < room.shown().len() ==> #[trigger] room.shown()[i] == i,
{
    shows_all(room.catalog.peers@, room.query());
}

proof fn shows_all(peers: Seq<CatalogPeer>, q: Seq<char>)
    requires
        q.len() == 0,
        peers.len() <= usize::MAX,
    ensures
        matching(peers, q).len() == peers.len(),
        forall|i: int| 0 <= i < peers.len() ==> #[trigger] matching(peers, q)[i] == i,
    decreases peers.len(),
{
    if peers.len() > 0 {
        shows_all(peers.drop_last(), q);
    }
}

/// The cursor follows its server through a re-sort: while that server is still
/// among the visible rows, it is still the one under the cursor. Otherwise the
/// cursor is on a row that exists, or nowhere.
pub proof fn the_cursor_follows_its_server(m: Room, l: Loaded, post: Room)
    requires
        applied(m, Done::Loaded(Ok(l)), post),
        post.shown().len() <= usize::MAX,
        l.status.enabled,
    ensures
        post.sel matches Some(s) ==> s < post.shown().len(),
        m.cursor_peer() is Some && place_of(froms_at(post.catalog.peers@, post.shown()), m.cursor_peer()->0.from@) is Some
            ==> post.cursor_peer() is Some && post.cursor_peer()->0.from@ == m.cursor_peer()->0.from@,
{
    let new = with_load(m, l, post.catalog, post.activity);
    let rows = new.shown();
    assert(post.shown() == rows);
    if m.cursor_peer() is Some {
        place_holds(froms_at(post.catalog.peers@, rows), m.cursor_peer()->0.from@);
    }
}

/// Off the network nothing is selected, filtered or focused.
pub proof fn off_the_network_nothing_is_selected(m: Room, l: Loaded, post: Room)
    requires
        applied(m, Done::Loaded(Ok(l)), post),
        !l.status.enabled,
    ensures
        post.sel is None && !post.filter_on && !post.filter_focus && !post.ticket_focus,
{
}

/// The log never grows past its cap, and its newest line is the newest of what
/// was added.
pub proof fn the_log_is_bounded(pre: Room, more: DiscoveryActivity, post: Room)
    requires
        took_activity(pre, more, post),
    ensures
        post.activity@.len() <= LOG_MAX,
        more.entries@.len() > 0 ==> post.activity@.last() == more.entries@.last(),
        more.last_seq < pre.activity_seq && more.entries@.len() <= LOG_MAX ==> post.activity@ == more.entries@,
{
    if more.last_seq < pre.activity_seq {
        assert(Seq::<ActivityEntry>::empty() + more.entries@ =~= more.entries@);
    }
}

/// A sheet offers what the server would take: a snapshot is removed or pinned
/// only where one is held, a server forgotten only once it is gone and nothing
/// is held of it, a request sent only where none is under way. Every row is
/// about that server.
pub proof fn sheets_offer_what_applies(room: Room, p: CatalogPeer, i: int)
    requires
        0 <= i < room.sheet(p).len(),
    ensures
        of_sheet(room.sheet(p)[i].act),
        match room.sheet(p)[i].act {
            Act::Fetch(id) => id == p.from,
            Act::Pin(id, pinned) => id == p.from && p.fetched is Some && pinned == !p.fetched->0.pinned,
            Act::RemoveSnapshot(id) => id == p.from && p.fetched is Some,
            Act::Federate(id) => id == p.from && room.can_federate(id@),
            Act::Forget(id) => id == p.from && !p.online && p.fetched is None,
            Act::Block(id) => id == p.from,
            _ => false,
        },
{
}

/// A setting is sent only with a value in its range.
pub proof fn settings_stay_in_range(pre: Room, post: Room, which: DiscoverySetting, value: u64)
    requires
        setting_saved(pre, post),
        post.queued == Some(Op::Setting { which, value }),
        pre.queued != post.queued,
    ensures
        range_of(pre.bounds, which).min <= value <= range_of(pre.bounds, which).max,
{
}

/// Saving an identity that is as it was sends nothing.
pub proof fn an_unchanged_identity_is_not_sent(pre: Room, d: IdentityDraft, post: Room)
    requires
        pre.modal == Modal::Identity(d),
        identity_saved(pre, post),
        (trimmed(input_value(d.name)), trimmed(input_value(d.description))) == announced(pre),
    ensures
        post.queued == pre.queued,
{
}

/// A setting opens with digits alone, and no key brings in anything else.
pub proof fn settings_stay_digits(pre: Room, d: SettingDraft, key: Key, post: Room, out: Option<Outcome>)
    requires
        pre.modal == Modal::Setting(d),
        all_of(d.value, |c: char| is_digit(c)),
        keyed(pre, key, post, out),
    ensures
        post.modal matches Modal::Setting(e) ==> all_of(e.value, |c: char| is_digit(c)),
{
    if let Modal::Setting(e) = post.modal {
        let kind = |c: char| is_digit(c);
        let changed = key_changes(d.value, key);
        if after_key(d.value, key, e.value, changed) && (key.code matches Code::Char(c) ==> is_digit(c)) {
            stays_of_a_kind(d.value, key, e.value, changed, kind);
        }
    }
}

/// A setting opens with digits alone.
pub proof fn settings_open_with_digits(pre: Room, which: DiscoverySetting, post: Room, out: Option<Outcome>)
    requires
        acted(pre, Act::SettingOpen(which), post, out),
        pre.on(),
    ensures
        post.modal matches Modal::Setting(d) && all_of(d.value, |c: char| is_digit(c)),
{
    decimals_are_digits(value_of(pre.status->0, which) as nat);
}

} // verus!
