//! The Federation room: the requests between servers, the tickets minted here,
//! the peers that can be read.

use std::collections::HashMap;
use tui_input::Input;
use vstd::prelude::*;

use crate::clock::{age_since, iso_at, iso_unix};
use crate::line::{blank, edit, Code, Key};
use crate::msg::{gate_message, ApiError, Arg, Fill, Msg, Note};
use crate::outside::{
    bool_of, decode_standard, decode_url_safe, items_of, json_of_bytes, member_of, string_of,
};
use crate::paths::starts_with;
use crate::screen::{
    clamp_row, cursor_down, cursor_up, keep_cursor, next_choice, previous_choice, scroll, Outcome,
};
use crate::text::{
    chars_of, decimal, is_control, join, printable, read_number, same, short_id, text_of, trim,
};

verus! {

use crate::clock::{age, is_timestamp, timestamp_text, timestamp_value};
use crate::line::{after_key, all_of, holds, input_value, is_blank, key_changes, stays_of_a_kind};
use crate::msg::{error, filled, gate, one, remark, says};
use crate::outside::{
    base64_bytes, json_bool, json_items, json_member, json_string, json_text, url_base64_bytes,
};
use crate::paths::begins;
use crate::screen::{after, before, first_place, kept, place_of, row_down, row_up, scrolled, within};
use crate::text::{
    at_most, control, dec, decimals_are_digits, fingerprint, is_digit, is_number, is_text, join_with, number_upto,
    printed, texts, trimmed,
};

/// The cap on names.
pub const NAME_MAX: usize = 64;

/// The room's cadence, in milliseconds.
pub const POLL_EVERY: u64 = 30_000;

// ── What the server says ─────────────────────────────────────────────────

/// The caps of a key; zero is none.
#[derive(Clone, Copy, Debug, PartialEq, Eq, Structural)]
pub struct FederationLimits {
    pub stream_kbps: u64,
    pub daily_mb: u64,
    pub max_streams: u64,
}

#[derive(Debug, PartialEq)]
pub struct FederationParams {
    pub enabled: bool,
    pub available: bool,
    pub running: bool,
    pub endpoint_id: Option<String>,
    pub online: bool,
    pub relay_url: Option<String>,
    pub limit_defaults: FederationLimits,
    pub accept_requests: bool,
}

#[derive(Debug, PartialEq)]
pub struct FederationRequest {
    pub id: i64,
    pub peer_endpoint_id: String,
    pub peer_name: Option<String>,
    pub direction: String,
    pub state: String,
    pub message: String,
    pub offered_libraries: Vec<String>,
    pub fail_count: u32,
    pub next_attempt_at: Option<String>,
    pub created_at: String,
    pub created_peer_id: Option<i64>,
    pub reject_reason: Option<String>,
}

#[derive(Debug, PartialEq)]
pub struct FederationKey {
    pub id: i64,
    pub name: String,
    pub library_names: Vec<String>,
    pub stream_kbps: u64,
    pub daily_mb: u64,
    pub max_streams: u64,
    pub bound_endpoint_id: Option<String>,
    pub bound_at: Option<String>,
    pub created_at: String,
    pub ticket: Option<String>,
    pub usage_today_bytes: u64,
    pub last_used: Option<String>,
    pub expires_at: Option<String>,
    pub expired: bool,
}

#[derive(Debug, PartialEq)]
pub struct FederationPeer {
    pub id: i64,
    pub name: String,
    pub last_status: Option<String>,
    pub last_seen: Option<String>,
    pub use_discovery: bool,
    pub added_at: String,
}

/// A key just minted; no ticket where the endpoint was down.
#[derive(Debug, PartialEq)]
pub struct MintedKey {
    pub name: String,
    pub ticket: Option<String>,
}

/// What a test of a peer found: what it shares, or why not.
#[derive(Debug, PartialEq)]
pub struct PeerTest {
    pub ok: bool,
    pub libraries: Option<Vec<String>>,
    pub error: Option<String>,
}

/// What becomes of a key's expiry.
#[derive(Debug, PartialEq)]
pub enum ExpiryChange {
    Keep,
    Never,
    At(String),
}

// ── Row facts ────────────────────────────────────────────────────────────

/// A name for the screen: gated, the short identifier where it is blank.
pub open spec fn shown_name(name: Seq<char>, id: Seq<char>) -> Seq<char> {
    if printed(name, NAME_MAX as nat).len() == 0 {
        fingerprint(id)
    } else {
        printed(name, NAME_MAX as nat)
    }
}

/// The name that a request gives itself, or none.
pub open spec fn asserted_name(r: FederationRequest) -> Seq<char> {
    match r.peer_name {
        Some(n) => n@,
        None => Seq::empty(),
    }
}

/// The request's counterpart, for the screen: their self-asserted name, gated,
/// or the short endpoint id.
pub fn request_name(r: &FederationRequest) -> (out: String)
    ensures
        out@ == shown_name(asserted_name(*r), r.peer_endpoint_id@),
{
    let name = match &r.peer_name {
        Some(n) => printable(n.as_str(), NAME_MAX),
        None => printable("", NAME_MAX),
    };
    proof {
        reveal_strlit("");
        assert(""@ =~= Seq::<char>::empty());
    }
    if name.as_str().is_empty() {
        short_id(r.peer_endpoint_id.as_str())
    } else {
        name
    }
}

/// An outbound request that has not been answered yet.
pub open spec fn cancellable(r: FederationRequest) -> bool {
    r.direction@ == "out"@ && (r.state@ == "pending-delivery"@ || r.state@ == "delivered"@)
}

/// A record that the exchange is done with, one way or another.
pub open spec fn finished(r: FederationRequest) -> bool {
    r.state@ == "completed"@ || r.state@ == "rejected"@ || r.state@ == "refused"@ || r.state@ == "cancelled"@ || r.state@
        == "expired"@
}

/// An inbound request that waits on a human here.
pub open spec fn needs_answer(r: FederationRequest) -> bool {
    r.direction@ == "in"@ && r.state@ == "received"@
}

pub fn request_cancellable(r: &FederationRequest) -> (b: bool)
    ensures
        b == cancellable(*r),
{
    same(r.direction.as_str(), "out") && (same(r.state.as_str(), "pending-delivery") || same(r.state.as_str(), "delivered"))
}

pub fn request_finished(r: &FederationRequest) -> (b: bool)
    ensures
        b == finished(*r),
{
    same(r.state.as_str(), "completed") || same(r.state.as_str(), "rejected") || same(r.state.as_str(), "refused") || same(
        r.state.as_str(),
        "cancelled",
    ) || same(r.state.as_str(), "expired")
}

pub fn request_needs_answer(r: &FederationRequest) -> (b: bool)
    ensures
        b == needs_answer(*r),
{
    same(r.direction.as_str(), "in") && same(r.state.as_str(), "received")
}

/// What a request's state means to the reader: it waits, it waits on them, a
/// pairing happened, the exchange is dead, or it is over.
#[derive(Clone, Copy, Debug, PartialEq, Eq, Structural)]
pub enum Family {
    Wait,
    Theirs,
    Good,
    Dead,
    Mute,
}

/// A known state's phrase and family.
pub open spec fn status_of(direction: Seq<char>, state: Seq<char>) -> Option<(&'static str, Family)> {
    let outward = direction == "out"@;
    let inward = direction == "in"@;
    if outward && state == "pending-delivery"@ {
        Some(("fed.st_sending", Family::Wait))
    } else if outward && state == "delivered"@ {
        Some(("fed.st_waiting_them", Family::Wait))
    } else if outward && state == "granting"@ {
        Some(("fed.st_sharing_back", Family::Wait))
    } else if inward && state == "received"@ {
        Some(("fed.st_needs_answer", Family::Theirs))
    } else if inward && state == "accepted"@ {
        Some(("fed.st_sending_ticket", Family::Wait))
    } else if inward && state == "granting"@ {
        Some(("fed.st_waiting_share", Family::Wait))
    } else if outward && state == "rejected"@ {
        Some(("fed.st_declined", Family::Dead))
    } else if inward && state == "rejected"@ {
        Some(("fed.st_you_declined", Family::Dead))
    } else if outward && state == "refused"@ {
        Some(("fed.st_inbox_closed", Family::Dead))
    } else if state == "completed"@ {
        Some(("fed.st_federated", Family::Good))
    } else if state == "cancelled"@ {
        Some(("fed.st_withdrawn", Family::Mute))
    } else if state == "expired"@ {
        Some(("fed.st_expired", Family::Mute))
    } else {
        None
    }
}

/// A request that is being sent, failed before, and will be tried again.
pub open spec fn retrying(r: FederationRequest) -> bool {
    let sending = (r.direction@ == "out"@ && (r.state@ == "pending-delivery"@ || r.state@ == "granting"@)) || (
    r.direction@ == "in"@ && r.state@ == "accepted"@);
    sending && r.fail_count > 0 && r.next_attempt_at is Some
}

/// The status words of a request: the state's own, the server's token where it
/// is unknown, and the attempt that comes next.
pub open spec fn status_words(r: FederationRequest) -> Msg {
    let words = match status_of(r.direction@, r.state@) {
        Some((key, _)) => Msg::Key(key),
        None => Msg::Raw(r.state),
    };
    if retrying(r) {
        Msg::Both(Box::new(words), Box::new(one("fed.st_retry", "n", Arg::Num((r.fail_count + 1) as i64))))
    } else {
        words
    }
}

/// How the directions and states are written: no two alike.
pub proof fn states_are_told_apart()
    ensures
        "out"@.len() == 3,
        "in"@.len() == 2,
        "pending-delivery"@.len() == 16 && "pending-delivery"@[4] == 'i',
        "delivered"@.len() == 9 && "delivered"@[4] == 'v',
        "granting"@.len() == 8 && "granting"@[4] == 't',
        "received"@.len() == 8 && "received"@[4] == 'i',
        "accepted"@.len() == 8 && "accepted"@[4] == 'p',
        "completed"@.len() == 9 && "completed"@[4] == 'l',
        "rejected"@.len() == 8 && "rejected"@[4] == 'c',
        "refused"@.len() == 7 && "refused"@[4] == 's',
        "cancelled"@.len() == 9 && "cancelled"@[4] == 'e',
        "expired"@.len() == 7 && "expired"@[4] == 'r',
{
    reveal_strlit("out");
    reveal_strlit("in");
    reveal_strlit("pending-delivery");
    reveal_strlit("delivered");
    reveal_strlit("granting");
    reveal_strlit("received");
    reveal_strlit("accepted");
    reveal_strlit("completed");
    reveal_strlit("rejected");
    reveal_strlit("refused");
    reveal_strlit("cancelled");
    reveal_strlit("expired");
}

fn known_status(direction: &str, state: &str) -> (s: Option<(&'static str, Family)>)
    ensures
        s == status_of(direction@, state@),
{
    let outward = same(direction, "out");
    let inward = same(direction, "in");
    if outward && same(state, "pending-delivery") {
        Some(("fed.st_sending", Family::Wait))
    } else if outward && same(state, "delivered") {
        Some(("fed.st_waiting_them", Family::Wait))
    } else if outward && same(state, "granting") {
        Some(("fed.st_sharing_back", Family::Wait))
    } else if inward && same(state, "received") {
        Some(("fed.st_needs_answer", Family::Theirs))
    } else if inward && same(state, "accepted") {
        Some(("fed.st_sending_ticket", Family::Wait))
    } else if inward && same(state, "granting") {
        Some(("fed.st_waiting_share", Family::Wait))
    } else if outward && same(state, "rejected") {
        Some(("fed.st_declined", Family::Dead))
    } else if inward && same(state, "rejected") {
        Some(("fed.st_you_declined", Family::Dead))
    } else if outward && same(state, "refused") {
        Some(("fed.st_inbox_closed", Family::Dead))
    } else if same(state, "completed") {
        Some(("fed.st_federated", Family::Good))
    } else if same(state, "cancelled") {
        Some(("fed.st_withdrawn", Family::Mute))
    } else if same(state, "expired") {
        Some(("fed.st_expired", Family::Mute))
    } else {
        None
    }
}

/// What a request's state means to the reader; an unknown one nothing.
pub open spec fn family_of(r: FederationRequest) -> Family {
    match status_of(r.direction@, r.state@) {
        Some((_, family)) => family,
        None => Family::Mute,
    }
}

/// The status words of a request, and what they mean to the reader.
pub fn request_status(r: &FederationRequest) -> (s: (Msg, Family))
    ensures
        s.0 == status_words(*r),
        s.1 == (match status_of(r.direction@, r.state@) {
            Some((_, family)) => family,
            None => Family::Mute,
        }),
        s.1 == Family::Good <==> r.state@ == "completed"@,
        s.1 == Family::Theirs <==> needs_answer(*r),
        s.1 == Family::Wait ==> !finished(*r),
        s.1 == Family::Dead ==> finished(*r),
{
    proof {
        states_are_told_apart();
    }
    let (words, family) = match known_status(r.direction.as_str(), r.state.as_str()) {
        Some((key, family)) => (Msg::Key(key), family),
        None => (Msg::Raw(r.state.clone()), Family::Mute),
    };
    let sending = (same(r.direction.as_str(), "out") && (same(r.state.as_str(), "pending-delivery") || same(
        r.state.as_str(),
        "granting",
    ))) || (same(r.direction.as_str(), "in") && same(r.state.as_str(), "accepted"));
    if sending && r.fail_count > 0 && r.next_attempt_at.is_some() {
        let retry = Msg::One("fed.st_retry", Fill { name: "n", arg: Arg::Num(r.fail_count as i64 + 1) });
        (Msg::Both(Box::new(words), Box::new(retry)), family)
    } else {
        (words, family)
    }
}

/// The names of a list, each gated for the screen.
pub open spec fn gated(names: Seq<String>) -> Seq<Seq<char>> {
    names.map_values(|n: String| printed(n@, NAME_MAX as nat))
}

fn gate_names(names: &Vec<String>) -> (out: Vec<String>)
    ensures
        texts(out@) == gated(names@),
{
    let mut out: Vec<String> = Vec::new();
    let mut i: usize = 0;
    while i < names.len()
        invariant
            i <= names@.len(),
            out@.len() == i,
            forall|k: int| 0 <= k < i ==> (#[trigger] out@[k])@ == printed(names@[k]@, NAME_MAX as nat),
        decreases names@.len() - i,
    {
        out.push(printable(names[i].as_str(), NAME_MAX));
        i += 1;
    }
    proof {
        assert(texts(out@) =~= gated(names@));
    }
    out
}

/// The phrase for what a request offers.
pub open spec fn is_offer(msg: Msg, r: FederationRequest) -> bool {
    let inward = r.direction@ == "in"@;
    if r.offered_libraries@.len() == 0 {
        msg == Msg::Key(if inward { "fed.offers_nothing" } else { "fed.you_offered_nothing" })
    } else {
        says(
            msg,
            if inward { "fed.offers" } else { "fed.you_offered" },
            "libraries",
            join_with(gated(r.offered_libraries@), ", "@),
        )
    }
}

/// The message and the offer of a request: their words quoted, then the offer.
pub open spec fn is_offer_cell(msg: Msg, r: FederationRequest) -> bool {
    let words = printed(r.message@, 500);
    if words.len() == 0 {
        is_offer(msg, r)
    } else {
        msg matches Msg::Both(quote, offer) && is_offer(*offer, r) && (*quote matches Msg::Raw(s) && s@ == seq!['\u{201c}']
            + words + seq!['\u{201d}', ' ', '·', ' '])
    }
}

/// The message-and-offer cell of a request.
pub fn request_offer(r: &FederationRequest) -> (out: Msg)
    ensures
        is_offer_cell(out, *r),
{
    let inward = same(r.direction.as_str(), "in");
    let libs = gate_names(&r.offered_libraries);
    proof {
        assert(texts(libs@).len() == gated(r.offered_libraries@).len());
    }
    let offer = if libs.len() == 0 {
        Msg::Key(if inward { "fed.offers_nothing" } else { "fed.you_offered_nothing" })
    } else {
        let list = join(&libs, ", ");
        Msg::One(if inward { "fed.offers" } else { "fed.you_offered" }, Fill { name: "libraries", arg: Arg::Text(list) })
    };
    let words = printable(r.message.as_str(), 500);
    if words.as_str().is_empty() {
        offer
    } else {
        let mut quote: String = String::new();
        quote.push('\u{201c}');
        quote.append(words.as_str());
        quote.push('\u{201d}');
        quote.push(' ');
        quote.push('·');
        quote.push(' ');
        proof {
            assert(quote@ =~= seq!['\u{201c}'] + words@ + seq!['\u{201d}', ' ', '·', ' ']);
        }
        Msg::Both(Box::new(Msg::Raw(quote)), Box::new(offer))
    }
}

/// Each cap of a key that is set, or that none is.
pub open spec fn cap_words(k: FederationKey) -> Seq<Msg> {
    let stream = if k.stream_kbps == 0 {
        Seq::empty()
    } else if k.stream_kbps >= 1000 {
        seq![one("fed.lim_mbps", "n", Arg::Ratio(k.stream_kbps, 1000))]
    } else {
        seq![one("fed.lim_kbps", "n", Arg::Nat(k.stream_kbps))]
    };
    let day = if k.daily_mb == 0 {
        Seq::empty()
    } else if k.daily_mb >= 1024 {
        seq![one("fed.lim_gb_day", "n", Arg::Ratio(k.daily_mb, 1024))]
    } else {
        seq![one("fed.lim_mb_day", "n", Arg::Nat(k.daily_mb))]
    };
    let streams = if k.max_streams == 0 {
        Seq::empty()
    } else if k.max_streams == 1 {
        seq![Msg::Key("fed.lim_stream_one")]
    } else {
        seq![one("fed.lim_streams", "n", Arg::Nat(k.max_streams))]
    };
    let all = stream + day + streams;
    if all.len() == 0 {
        seq![Msg::Key("fed.lim_unlimited")]
    } else {
        all
    }
}

/// The caps of a key, to be joined by a dot.
pub fn limits_words(k: &FederationKey) -> (out: Vec<Msg>)
    ensures
        out@ == cap_words(*k),
{
    let mut out: Vec<Msg> = Vec::new();
    if k.stream_kbps > 0 {
        out.push(
            if k.stream_kbps >= 1000 {
                Msg::One("fed.lim_mbps", Fill { name: "n", arg: Arg::Ratio(k.stream_kbps, 1000) })
            } else {
                Msg::One("fed.lim_kbps", Fill { name: "n", arg: Arg::Nat(k.stream_kbps) })
            },
        );
    }
    if k.daily_mb > 0 {
        out.push(
            if k.daily_mb >= 1024 {
                Msg::One("fed.lim_gb_day", Fill { name: "n", arg: Arg::Ratio(k.daily_mb, 1024) })
            } else {
                Msg::One("fed.lim_mb_day", Fill { name: "n", arg: Arg::Nat(k.daily_mb) })
            },
        );
    }
    if k.max_streams > 0 {
        out.push(
            if k.max_streams == 1 {
                Msg::Key("fed.lim_stream_one")
            } else {
                Msg::One("fed.lim_streams", Fill { name: "n", arg: Arg::Nat(k.max_streams) })
            },
        );
    }
    if out.len() == 0 {
        out.push(Msg::Key("fed.lim_unlimited"));
    }
    proof {
        assert(out@ =~= cap_words(*k));
    }
    out
}

/// A key's expiry in words: never, expired, today, or the days left.
pub open spec fn expiry(k: FederationKey, now: i64) -> Msg {
    if k.expired {
        Msg::Key("fed.exp_expired")
    } else if k.expires_at is None || !is_timestamp(k.expires_at->0@) {
        Msg::Key("fed.exp_never")
    } else {
        let left = timestamp_value(k.expires_at->0@) - now;
        if left <= 86400 {
            Msg::Key("fed.exp_today")
        } else {
            one("fed.exp_in_days", "n", Arg::Num(((left + 86399) / 86400) as i64))
        }
    }
}

/// A key's expiry in words.
pub fn expiry_words(k: &FederationKey, now: i64) -> (out: Msg)
    ensures
        out == expiry(*k, now),
{
    if k.expired {
        return Msg::Key("fed.exp_expired");
    }
    let at = match &k.expires_at {
        Some(s) => iso_unix(s.as_str()),
        None => None,
    };
    match at {
        None => Msg::Key("fed.exp_never"),
        Some(at) => {
            let left: i128 = at as i128 - now as i128;
            if left <= 86_400 {
                Msg::Key("fed.exp_today")
            } else {
                Msg::One("fed.exp_in_days", Fill { name: "n", arg: Arg::Num(((left + 86_399) / 86_400) as i64) })
            }
        },
    }
}

/// A timestamp as an age, or a dash.
pub open spec fn is_age_of(msg: Msg, ts: Option<Seq<char>>, now: i64) -> bool {
    match ts {
        Some(t) => if is_timestamp(t) {
            msg == age(now - timestamp_value(t))
        } else {
            msg matches Msg::Raw(s) && s@ == "—"@
        },
        None => msg matches Msg::Raw(s) && s@ == "—"@,
    }
}

/// A timestamp as an age, or a dash.
pub fn age_of(ts: Option<&str>, now: i64) -> (out: Msg)
    ensures
        is_age_of(
            out,
            match ts {
                Some(t) => Some(t@),
                None => None,
            },
            now,
        ),
{
    let at = match ts {
        Some(t) => iso_unix(t),
        None => None,
    };
    match at {
        Some(t) => age_since(now, t),
        None => Msg::Raw("—".to_owned()),
    }
}

// ── Tickets ──────────────────────────────────────────────────────────────

/// What a ticket says about itself, before the server is asked.
#[derive(Debug, PartialEq)]
pub struct TicketPreview {
    pub name: Option<String>,
    pub libraries: Vec<String>,
    /// The date of the expiry, if any.
    pub expires: Option<String>,
}

/// `s` without the equals signs it ends with.
pub open spec fn unpadded(s: Seq<char>) -> Seq<char>
    decreases s.len(),
{
    if s.len() > 0 && s.last() == '=' {
        unpadded(s.drop_last())
    } else {
        s
    }
}

/// The place of the first colon, or the length.
pub open spec fn colon_at(s: Seq<char>) -> int
    decreases s.len(),
{
    if s.len() == 0 || s[0] == ':' {
        0
    } else {
        1 + colon_at(s.skip(1))
    }
}

/// The payload of a ticket: what follows `mstrfed`, a version and a colon.
pub open spec fn ticket_body(s: Seq<char>) -> Option<Seq<char>> {
    let t = trimmed(s);
    let rest = t.skip(7);
    let colon = colon_at(rest);
    if begins(t, "mstrfed"@) && colon < rest.len() && is_number(rest.take(colon)) {
        Some(unpadded(trimmed(rest.skip(colon + 1))))
    } else {
        None
    }
}

/// The document in a ticket.
pub open spec fn ticket_doc(s: Seq<char>) -> Option<Seq<char>> {
    match ticket_body(s) {
        Some(body) => match url_base64_bytes(body) {
            Some(bytes) => json_text(bytes),
            None => match base64_bytes(body) {
                Some(bytes) => json_text(bytes),
                None => None,
            },
        },
        None => None,
    }
}

/// The string that a member of a document is.
pub open spec fn string_at(doc: Seq<char>, key: Seq<char>) -> Option<Seq<char>> {
    match json_member(doc, key) {
        Some(m) => json_string(m),
        None => None,
    }
}

/// The strings among the items of a list, each gated for the screen.
pub open spec fn gated_strings(items: Seq<Seq<char>>) -> Seq<Seq<char>>
    decreases items.len(),
{
    if items.len() == 0 {
        Seq::empty()
    } else {
        let before = gated_strings(items.drop_last());
        match json_string(items.last()) {
            Some(s) => before.push(printed(s, NAME_MAX as nat)),
            None => before,
        }
    }
}

/// Whether a document is a ticket's: `t` and `k` are strings.
pub open spec fn is_ticket_doc(doc: Seq<char>) -> bool {
    string_at(doc, "t"@) is Some && string_at(doc, "k"@) is Some
}

/// What a ticket's document says about itself.
pub open spec fn is_preview(p: TicketPreview, doc: Seq<char>) -> bool {
    &&& is_text(
        p.name,
        match string_at(doc, "n"@) {
            Some(n) => if printed(n, NAME_MAX as nat).len() > 0 {
                Some(printed(n, NAME_MAX as nat))
            } else {
                None
            },
            None => None,
        },
    )
    &&& texts(p.libraries@) == (match json_member(doc, "l"@) {
        Some(l) => match json_items(l) {
            Some(items) => gated_strings(items),
            None => Seq::empty(),
        },
        None => Seq::empty(),
    })
    &&& is_text(
        p.expires,
        match string_at(doc, "e"@) {
            Some(e) => Some(at_most(e, 10)),
            None => None,
        },
    )
}

fn read_string(doc: &str, key: &str) -> (s: Option<String>)
    ensures
        is_text(s, string_at(doc@, key@)),
{
    match member_of(doc, key) {
        Some(m) => string_of(m.as_str()),
        None => None,
    }
}

fn read_libraries(items: &Vec<String>) -> (out: Vec<String>)
    ensures
        texts(out@) == gated_strings(texts(items@)),
{
    let mut out: Vec<String> = Vec::new();
    let mut i: usize = 0;
    proof {
        assert(texts(items@).take(0) =~= Seq::<Seq<char>>::empty());
        assert(texts(out@) =~= Seq::<Seq<char>>::empty());
    }
    while i < items.len()
        invariant
            i <= items@.len(),
            texts(out@) == gated_strings(texts(items@).take(i as int)),
        decreases items@.len() - i,
    {
        let ghost was = out@;
        proof {
            assert(texts(items@).take(i + 1).drop_last() =~= texts(items@).take(i as int));
            assert(texts(items@).take(i + 1).last() == items@[i as int]@);
        }
        if let Some(s) = string_of(items[i].as_str()) {
            let name = printable(s.as_str(), NAME_MAX);
            out.push(name);
            proof {
                assert(texts(out@) =~= texts(was).push(name@));
            }
        }
        i += 1;
    }
    proof {
        assert(texts(items@).take(i as int) =~= texts(items@));
    }
    out
}

/// What a ticket's document says about itself; nothing where `t` or `k` is
/// missing.
pub fn read_ticket(doc: &str) -> (p: Option<TicketPreview>)
    ensures
        p is Some <==> is_ticket_doc(doc@),
        p matches Some(v) ==> is_preview(v, doc@),
{
    if read_string(doc, "t").is_none() || read_string(doc, "k").is_none() {
        return None;
    }
    let name = match read_string(doc, "n") {
        Some(n) => {
            let shown = printable(n.as_str(), NAME_MAX);
            if shown.as_str().is_empty() {
                None
            } else {
                Some(shown)
            }
        },
        None => None,
    };
    let mut libraries: Vec<String> = Vec::new();
    proof {
        assert(texts(libraries@) =~= Seq::<Seq<char>>::empty());
    }
    if let Some(l) = member_of(doc, "l") {
        if let Some(items) = items_of(l.as_str()) {
            libraries = read_libraries(&items);
        }
    }
    let expires = match read_string(doc, "e") {
        Some(e) => {
            let cs = chars_of(e.as_str());
            let n: usize = if cs.len() <= 10 { cs.len() } else { 10 };
            proof {
                assert(cs@.subrange(0, n as int) =~= at_most(e@, 10));
            }
            Some(text_of(&cs, 0, n))
        },
        None => None,
    };
    Some(TicketPreview { name, libraries, expires })
}

/// The payload of a ticket.
fn body_of(s: &str) -> (body: Option<String>)
    ensures
        is_text(body, ticket_body(s@)),
{
    let t = trim(s);
    if !starts_with(t.as_str(), "mstrfed") {
        return None;
    }
    let cs = chars_of(t.as_str());
    proof {
        reveal_strlit("mstrfed");
    }
    let ghost rest = t@.skip(7);
    let n: usize = cs.len();
    let mut i: usize = 7;
    proof {
        assert(rest.skip(0) =~= rest);
    }
    while i < n && cs[i] != ':'
        invariant
            7 <= i <= n,
            n == cs@.len(),
            rest == cs@.skip(7),
            colon_at(rest) == i - 7 + colon_at(rest.skip(i - 7)),
        decreases n - i,
    {
        proof {
            assert(rest.skip(i - 7)[0] == cs@[i as int]);
            assert(rest.skip(i - 7).skip(1) =~= rest.skip(i + 1 - 7));
        }
        i += 1;
    }
    proof {
        if i < n {
            assert(rest.skip(i - 7)[0] == cs@[i as int]);
        }
        assert(colon_at(rest) == i - 7);
    }
    if i == n || i == 7 {
        return None;
    }
    let mut k: usize = 7;
    while k < i
        invariant
            7 <= k <= i < n,
            n == cs@.len(),
            rest == cs@.skip(7),
            rest == trimmed(s@).skip(7),
            colon_at(rest) == i - 7,
            forall|j: int| 0 <= j < k - 7 ==> is_digit(#[trigger] rest.take(i - 7)[j]),
        decreases i - k,
    {
        proof {
            assert(rest.take(i - 7)[k - 7] == cs@[k as int]);
        }
        if !('0' <= cs[k] && cs[k] <= '9') {
            proof {
                assert(!is_digit(rest.take(i - 7)[k - 7]));
            }
            return None;
        }
        k += 1;
    }
    let tail = text_of(&cs, i + 1, n);
    proof {
        assert(cs@.subrange(i + 1, n as int) =~= rest.skip(i - 7 + 1));
    }
    let body = trim(tail.as_str());
    let b = chars_of(body.as_str());
    let mut m: usize = b.len();
    proof {
        assert(b@.take(m as int) =~= b@);
    }
    while m > 0 && b[m - 1] == '='
        invariant
            m <= b@.len(),
            unpadded(b@.take(m as int)) == unpadded(b@),
        decreases m,
    {
        proof {
            assert(b@.take(m as int).drop_last() =~= b@.take(m - 1));
        }
        m -= 1;
    }
    proof {
        if m > 0 {
            assert(b@.take(m as int).last() == b@[m - 1]);
        }
        assert(b@.subrange(0, m as int) =~= b@.take(m as int));
    }
    Some(text_of(&b, 0, m))
}

/// What a ticket says about itself: `mstrfed`, a version, a colon, and a JSON
/// document in base64. Nothing where it is no ticket.
pub fn decode_ticket(s: &str) -> (p: Option<TicketPreview>)
    ensures
        match ticket_doc(s@) {
            Some(doc) => (p is Some <==> is_ticket_doc(doc)) && (p matches Some(v) ==> is_preview(v, doc)),
            None => p is None,
        },
{
    match body_of(s) {
        Some(body) => {
            let bytes = match decode_url_safe(body.as_str()) {
                Some(bytes) => Some(bytes),
                None => decode_standard(body.as_str()),
            };
            match bytes {
                Some(bytes) => match json_of_bytes(&bytes) {
                    Some(doc) => read_ticket(doc.as_str()),
                    None => None,
                },
                None => None,
            }
        },
        None => None,
    }
}

/// A ticket's preview in words, part by part.
pub open spec fn is_preview_words(words: Seq<Msg>, p: TicketPreview) -> bool {
    let libs: int = if p.libraries@.len() > 0 { 1 } else { 0 };
    let until: int = if p.expires is Some { 1 } else { 0 };
    &&& words.len() == 1 + libs + until
    &&& words[0] == (match p.name {
        Some(n) => Msg::Raw(n),
        None => Msg::Key("fed.unnamed"),
    })
    &&& libs == 1 ==> says(words[1], "fed.preview_shares", "libraries", join_with(texts(p.libraries@), ", "@))
    &&& until == 1 ==> words[1 + libs] == one("fed.preview_until", "date", Arg::Text(p.expires->0))
}

/// A ticket's preview in words, one part right after another.
pub fn preview_words(p: &TicketPreview) -> (out: Vec<Msg>)
    ensures
        is_preview_words(out@, *p),
{
    let mut out: Vec<Msg> = Vec::new();
    out.push(
        match &p.name {
            Some(n) => Msg::Raw(n.clone()),
            None => Msg::Key("fed.unnamed"),
        },
    );
    if p.libraries.len() > 0 {
        let list = join(&p.libraries, ", ");
        out.push(Msg::One("fed.preview_shares", Fill { name: "libraries", arg: Arg::Text(list) }));
    }
    if let Some(e) = &p.expires {
        out.push(Msg::One("fed.preview_until", Fill { name: "date", arg: Arg::Text(e.clone()) }));
    }
    out
}

// ── The form ─────────────────────────────────────────────────────────────

#[derive(Clone, Copy, Debug, PartialEq, Eq, Structural)]
pub enum Tab {
    Requests,
    Tickets,
    Peers,
}

/// The tab beside a tab, around the end.
pub open spec fn tab_beside(tab: Tab, forward: bool) -> Tab {
    match (tab, forward) {
        (Tab::Requests, true) => Tab::Tickets,
        (Tab::Tickets, true) => Tab::Peers,
        (Tab::Peers, true) => Tab::Requests,
        (Tab::Requests, false) => Tab::Peers,
        (Tab::Tickets, false) => Tab::Requests,
        (Tab::Peers, false) => Tab::Tickets,
    }
}

impl Tab {
    /// The tab beside this one, around the end.
    pub fn next(self, forward: bool) -> (t: Tab)
        ensures
            t == tab_beside(self, forward),
    {
        match self {
            Tab::Requests => if forward { Tab::Tickets } else { Tab::Peers },
            Tab::Tickets => if forward { Tab::Peers } else { Tab::Requests },
            Tab::Peers => if forward { Tab::Requests } else { Tab::Tickets },
        }
    }
}

/// A step to the next tab and one back lead to the same tab.
pub proof fn tabs_step_back(tab: Tab)
    ensures
        tab_beside(tab_beside(tab, true), false) == tab,
        tab_beside(tab_beside(tab, false), true) == tab,
{
}

/// One field of the form.
#[derive(Clone, Copy, Debug, PartialEq, Eq, Structural)]
pub enum Field {
    Name,
    Library(usize),
    StreamKbps,
    DailyMb,
    MaxStreams,
    Expires,
    TheirOffer,
}

#[derive(Clone, Copy, Debug, PartialEq, Eq, Structural)]
pub enum FormKind {
    /// A new ticket.
    Mint,
    /// Accepting a request is minting, plus one decision about their offer.
    Accept,
    /// A key's limits and expiry.
    Limits,
}

/// The mint, accept and limits forms — one shape, three uses.
pub struct Form {
    pub kind: FormKind,
    /// The request or key that the form is about.
    pub id: i64,
    /// The counterpart's name, or the key's.
    pub about: String,
    pub endpoint_id: String,
    pub message: String,
    pub their_offer: Vec<String>,
    /// Limits: the current expiry, in words.
    pub current_expiry: Option<Msg>,
    pub name: Input,
    pub libraries: Vec<(String, bool)>,
    pub stream_kbps: Input,
    pub daily_mb: Input,
    pub max_streams: Input,
    pub expires: Input,
    pub accept_their_offer: bool,
    /// The focused field's place in [`Form::fields`].
    pub focus: usize,
    pub error: Option<Msg>,
}

/// The names that are ticked.
pub open spec fn ticked(libraries: Seq<(String, bool)>) -> Seq<String>
    decreases libraries.len(),
{
    if libraries.len() == 0 {
        Seq::empty()
    } else if libraries.last().1 {
        ticked(libraries.drop_last()).push(libraries.last().0)
    } else {
        ticked(libraries.drop_last())
    }
}

/// The names that are ticked, copied.
pub fn ticked_names(libraries: &Vec<(String, bool)>) -> (out: Vec<String>)
    ensures
        out@ == ticked(libraries@),
{
    let mut out: Vec<String> = Vec::new();
    let mut i: usize = 0;
    proof {
        assert(libraries@.take(0) =~= Seq::<(String, bool)>::empty());
    }
    while i < libraries.len()
        invariant
            i <= libraries@.len(),
            out@ == ticked(libraries@.take(i as int)),
        decreases libraries@.len() - i,
    {
        proof {
            assert(libraries@.take(i + 1).drop_last() =~= libraries@.take(i as int));
        }
        if libraries[i].1 {
            out.push(libraries[i].0.clone());
        }
        i += 1;
    }
    proof {
        assert(libraries@.take(i as int) =~= libraries@);
    }
    out
}

/// Each name, ticked or not.
pub open spec fn offered(names: Seq<String>, on: bool) -> Seq<(String, bool)> {
    names.map_values(|n: String| (n, on))
}

/// Each name, ticked or not.
pub fn offer_names(names: &Vec<String>, on: bool) -> (out: Vec<(String, bool)>)
    ensures
        out@ == offered(names@, on),
{
    let mut out: Vec<(String, bool)> = Vec::new();
    let mut i: usize = 0;
    while i < names.len()
        invariant
            i <= names@.len(),
            out@ == offered(names@.take(i as int), on),
        decreases names@.len() - i,
    {
        out.push((names[i].clone(), on));
        i += 1;
        proof {
            assert(out@ =~= offered(names@.take(i as int), on));
        }
    }
    proof {
        assert(names@.take(i as int) =~= names@);
    }
    out
}

/// A fresh form of a kind.
pub open spec fn is_new_form(f: Form, kind: FormKind, libraries: Seq<String>, limits: FederationLimits) -> bool {
    &&& f.kind == kind
    &&& is_blank(f.name)
    &&& f.libraries@ == offered(libraries, false)
    &&& holds(f.stream_kbps, dec(limits.stream_kbps as nat))
    &&& holds(f.daily_mb, dec(limits.daily_mb as nat))
    &&& holds(f.max_streams, dec(limits.max_streams as nat))
    &&& if kind == FormKind::Limits { is_blank(f.expires) } else { holds(f.expires, "0"@) }
    &&& f.accept_their_offer
    &&& f.focus == 0
    &&& f.error is None
}

/// What a form is about: nothing yet.
pub open spec fn about_nothing(f: Form) -> bool {
    f.id == 0 && f.about@.len() == 0 && f.endpoint_id@.len() == 0 && f.message@.len() == 0 && f.their_offer@.len() == 0
        && f.current_expiry is None
}

/// The form that accepts a request.
pub open spec fn is_accept_form(f: Form, r: FederationRequest, libraries: Seq<String>, limits: FederationLimits) -> bool {
    &&& is_new_form(f, FormKind::Accept, libraries, limits)
    &&& f.id == r.id
    &&& f.about@ == shown_name(asserted_name(r), r.peer_endpoint_id@)
    &&& f.endpoint_id == r.peer_endpoint_id
    &&& f.message@ == printed(r.message@, 500)
    &&& texts(f.their_offer@) == gated(r.offered_libraries@)
    &&& f.current_expiry is None
}

/// The form for a key's limits.
pub open spec fn is_limits_form(f: Form, k: FederationKey, now: i64) -> bool {
    &&& is_new_form(
        f,
        FormKind::Limits,
        Seq::empty(),
        FederationLimits { stream_kbps: k.stream_kbps, daily_mb: k.daily_mb, max_streams: k.max_streams },
    )
    &&& f.id == k.id
    &&& f.about@ == printed(k.name@, NAME_MAX as nat)
    &&& f.endpoint_id@.len() == 0 && f.message@.len() == 0 && f.their_offer@.len() == 0
    &&& f.current_expiry == Some(expiry(k, now))
}

/// A field's number: zero where it is blank.
pub open spec fn cap_value(i: Input) -> Option<nat> {
    let v = trimmed(input_value(i));
    if v.len() == 0 {
        Some(0)
    } else {
        number_upto(v, u64::MAX as nat)
    }
}

impl Form {
    /// The fields in Tab order: the name (mint), the libraries (mint, accept),
    /// the limits, their offer (accept, where they made one).
    pub open spec fn field_list(self) -> Seq<Field> {
        (if self.kind == FormKind::Mint { seq![Field::Name] } else { Seq::empty() })
            + (if self.kind != FormKind::Limits {
            Seq::new(self.libraries@.len(), |i: int| Field::Library(i as usize))
        } else {
            Seq::empty()
        }) + seq![Field::StreamKbps, Field::DailyMb, Field::MaxStreams, Field::Expires]
            + (if self.kind == FormKind::Accept && self.their_offer@.len() > 0 {
            seq![Field::TheirOffer]
        } else {
            Seq::empty()
        })
    }

    /// The field that has the focus.
    pub open spec fn focused_field(self) -> Field {
        self.field_list()[within(self.focus as int, self.field_list().len() as int)]
    }

    /// The line editor of a field that has one.
    pub open spec fn input(self, field: Field) -> Option<Input> {
        match field {
            Field::Name => Some(self.name),
            Field::StreamKbps => Some(self.stream_kbps),
            Field::DailyMb => Some(self.daily_mb),
            Field::MaxStreams => Some(self.max_streams),
            Field::Expires => Some(self.expires),
            _ => None,
        }
    }

    /// The form with another line in a field.
    pub open spec fn with_input(self, field: Field, input: Input) -> Form {
        match field {
            Field::Name => Form { name: input, ..self },
            Field::StreamKbps => Form { stream_kbps: input, ..self },
            Field::DailyMb => Form { daily_mb: input, ..self },
            Field::MaxStreams => Form { max_streams: input, ..self },
            Field::Expires => Form { expires: input, ..self },
            _ => self,
        }
    }

    /// Whether the form could be sent: a name and a library for a mint, a
    /// library for an accept, always for limits.
    pub open spec fn complete(self) -> bool {
        match self.kind {
            FormKind::Mint => trimmed(input_value(self.name)).len() > 0 && ticked(self.libraries@).len() > 0,
            FormKind::Accept => ticked(self.libraries@).len() > 0,
            FormKind::Limits => true,
        }
    }

    /// Whether the three caps are numbers.
    pub open spec fn caps_read(self) -> bool {
        cap_value(self.stream_kbps) is Some && cap_value(self.daily_mb) is Some && cap_value(self.max_streams) is Some
    }

    /// The three caps.
    pub open spec fn caps(self) -> FederationLimits {
        FederationLimits {
            stream_kbps: cap_value(self.stream_kbps)->0 as u64,
            daily_mb: cap_value(self.daily_mb)->0 as u64,
            max_streams: cap_value(self.max_streams)->0 as u64,
        }
    }

    /// The expiry's days: not given, or a number, or no number.
    pub open spec fn days(self) -> Option<Option<nat>> {
        let v = trimmed(input_value(self.expires));
        if v.len() == 0 {
            Some(None)
        } else {
            match number_upto(v, u64::MAX as nat) {
                Some(n) => Some(Some(n)),
                None => None,
            }
        }
    }

    /// Whether the expiry's date is one the clock can hold.
    pub open spec fn dates(self, now: i64) -> bool {
        self.days() matches Some(Some(d)) ==> now + d * 86400 <= i64::MAX
    }

    /// A fresh form of a kind.
    pub fn new(kind: FormKind, libraries: &Vec<String>, limits: &FederationLimits) -> (f: Form)
        ensures
            is_new_form(f, kind, libraries@, *limits),
            about_nothing(f),
    {
        Form {
            kind,
            id: 0,
            about: String::new(),
            endpoint_id: String::new(),
            message: String::new(),
            their_offer: Vec::new(),
            current_expiry: None,
            name: blank(),
            libraries: offer_names(libraries, false),
            stream_kbps: Input::new(decimal(limits.stream_kbps)),
            daily_mb: Input::new(decimal(limits.daily_mb)),
            max_streams: Input::new(decimal(limits.max_streams)),
            expires: if kind == FormKind::Limits { blank() } else { Input::new("0".to_owned()) },
            accept_their_offer: true,
            focus: 0,
            error: None,
        }
    }

    /// The fields in Tab order.
    pub fn fields(&self) -> (out: Vec<Field>)
        ensures
            out@ == self.field_list(),
            out@.len() >= 4,
    {
        let mut out: Vec<Field> = Vec::new();
        if self.kind == FormKind::Mint {
            out.push(Field::Name);
        }
        let ghost head = out@;
        if self.kind != FormKind::Limits {
            let mut i: usize = 0;
            while i < self.libraries.len()
                invariant
                    i <= self.libraries@.len(),
                    out@ == head + Seq::new(i as nat, |k: int| Field::Library(k as usize)),
                decreases self.libraries@.len() - i,
            {
                out.push(Field::Library(i));
                i += 1;
                proof {
                    assert(out@ =~= head + Seq::new(i as nat, |k: int| Field::Library(k as usize)));
                }
            }
        }
        out.push(Field::StreamKbps);
        out.push(Field::DailyMb);
        out.push(Field::MaxStreams);
        out.push(Field::Expires);
        if self.kind == FormKind::Accept && self.their_offer.len() > 0 {
            out.push(Field::TheirOffer);
        }
        proof {
            assert(out@ =~= self.field_list());
        }
        out
    }

    /// The field that has the focus.
    pub fn focused(&self) -> (field: Field)
        ensures
            field == self.focused_field(),
    {
        let fields = self.fields();
        fields[clamp_row(self.focus, fields.len())]
    }

    /// The form with a tick switched.
    pub open spec fn toggled(self, field: Field, post: Form) -> bool {
        match field {
            Field::Library(i) => if i < self.libraries@.len() {
                &&& post == (Form { libraries: post.libraries, ..self })
                &&& post.libraries@ == self.libraries@.update(
                    i as int,
                    (self.libraries@[i as int].0, !self.libraries@[i as int].1),
                )
            } else {
                post == self
            },
            Field::TheirOffer => post == (Form { accept_their_offer: !self.accept_their_offer, ..self }),
            _ => post == self,
        }
    }

    /// Switches a tick.
    pub fn toggle(&mut self, field: Field)
        ensures
            old(self).toggled(field, *final(self)),
    {
        match field {
            Field::Library(i) => {
                if i < self.libraries.len() {
                    let on = self.libraries[i].1;
                    self.libraries[i].1 = !on;
                }
            },
            Field::TheirOffer => {
                self.accept_their_offer = !self.accept_their_offer;
            },
            _ => {},
        }
    }

    /// The libraries that are ticked.
    pub fn vpaths(&self) -> (out: Vec<String>)
        ensures
            out@ == ticked(self.libraries@),
    {
        ticked_names(&self.libraries)
    }

    /// The three caps; a blank field reads as zero, no cap.
    pub fn limits(&self) -> (r: Option<FederationLimits>)
        ensures
            r == (if self.caps_read() { Some(self.caps()) } else { None }),
    {
        match (read_cap(&self.stream_kbps), read_cap(&self.daily_mb), read_cap(&self.max_streams)) {
            (Some(stream_kbps), Some(daily_mb), Some(max_streams)) => Some(
                FederationLimits { stream_kbps, daily_mb, max_streams },
            ),
            _ => None,
        }
    }

    /// The expiry's days: none where it is blank.
    pub fn expires_days(&self) -> (r: Result<Option<u64>, ()>)
        ensures
            match self.days() {
                None => r is Err,
                Some(None) => r == Ok::<Option<u64>, ()>(None),
                Some(Some(d)) => r matches Ok(Some(n)) && n == d,
            },
    {
        let v = trim(self.expires.value());
        if v.as_str().is_empty() {
            Ok(None)
        } else {
            match read_number(v.as_str(), u64::MAX) {
                Some(n) => Ok(Some(n)),
                None => Err(()),
            }
        }
    }

    /// Whether the form could be sent.
    pub fn can_submit(&self) -> (r: bool)
        ensures
            r == self.complete(),
    {
        match self.kind {
            FormKind::Mint => !trim(self.name.value()).as_str().is_empty() && self.vpaths().len() > 0,
            FormKind::Accept => self.vpaths().len() > 0,
            FormKind::Limits => true,
        }
    }

    /// Hands a key to a field's line editor.
    fn type_into(&mut self, field: Field, key: Key) -> (changed: bool)
        ensures
            match old(self).input(field) {
                Some(i) => final(self).input(field) is Some && after_key(i, key, final(self).input(field)->0, changed)
                    && *final(self) == old(self).with_input(field, final(self).input(field)->0),
                None => *final(self) == *old(self) && !changed,
            },
    {
        match field {
            Field::Name => edit(&mut self.name, key),
            Field::StreamKbps => edit(&mut self.stream_kbps, key),
            Field::DailyMb => edit(&mut self.daily_mb, key),
            Field::MaxStreams => edit(&mut self.max_streams, key),
            Field::Expires => edit(&mut self.expires, key),
            _ => false,
        }
    }

    /// How many characters a field holds.
    fn length_of(&self, field: Field) -> (n: usize)
        ensures
            n == (match self.input(field) {
                Some(i) => input_value(i).len(),
                None => 0,
            }),
    {
        match field {
            Field::Name => self.name.value().unicode_len(),
            Field::StreamKbps => self.stream_kbps.value().unicode_len(),
            Field::DailyMb => self.daily_mb.value().unicode_len(),
            Field::MaxStreams => self.max_streams.value().unicode_len(),
            Field::Expires => self.expires.value().unicode_len(),
            _ => 0,
        }
    }
}

fn read_cap(i: &Input) -> (r: Option<u64>)
    ensures
        match cap_value(*i) {
            Some(n) => r == Some(n as u64) && n <= u64::MAX,
            None => r is None,
        },
{
    let v = trim(i.value());
    if v.as_str().is_empty() {
        Some(0)
    } else {
        read_number(v.as_str(), u64::MAX)
    }
}

// ── The room ─────────────────────────────────────────────────────────────

#[allow(inconsistent_fields)]
pub enum Modal {
    Closed,
    Form(Box<Form>),
    /// A fresh ticket to hand over; none where the endpoint was down.
    Minted { name: String, ticket: Option<String>, libraries: Vec<String> },
    /// The pasted ticket, previewed, waiting for the peer's display name.
    PeerName { ticket: String, name: Input, preview: TicketPreview },
    /// Warnings, by row id.
    Decline(i64),
    Revoke(i64),
    Forget(i64),
    TurnOff,
}

/// Everything that a click can mean.
#[derive(Clone, Copy, Debug, PartialEq, Eq, Structural)]
pub enum Act {
    Tab(Tab),
    TurnOn,
    TurnOff,
    TurnOffConfirm,
    TurnOffCancel,
    ToggleInbox,
    /// A table row, by its place in the active tab.
    Select(usize),
    Accept(i64),
    Decline(i64),
    DeclineConfirm,
    DeclineCancel,
    CancelRequest(i64),
    Dismiss(i64),
    Mint,
    CopyTicket(i64),
    Limits(i64),
    ResetBinding(i64),
    Revoke(i64),
    RevokeConfirm,
    RevokeCancel,
    TicketFocus,
    TicketAdd,
    Test(i64),
    ToggleDiscovery(i64),
    Forget(i64),
    ForgetConfirm,
    ForgetCancel,
    FormFocus(usize),
    FormToggle(usize),
    FormSubmit,
    FormCancel,
    MintedCopy,
    MintedDone,
    PeerNameAdd,
    PeerNameCancel,
    TableScroll(i8),
    TableScrollTo(usize),
    Quit,
}

/// A server call; it carries everything that it needs.
#[derive(Debug, PartialEq)]
#[allow(inconsistent_fields)]
pub enum Op {
    /// The endpoint's state and, once it is on, the requests, keys, peers and
    /// library names.
    Load,
    SetEnabled(bool),
    SetInbox(bool),
    Accept {
        id: i64,
        vpaths: Vec<String>,
        limits: FederationLimits,
        expires_at: Option<String>,
        accept_their_offer: bool,
    },
    Reject(i64),
    Cancel(i64),
    Dismiss(i64),
    Mint { name: String, vpaths: Vec<String>, limits: FederationLimits, expires_at: Option<String> },
    Limits { id: i64, limits: FederationLimits, expiry: ExpiryChange },
    ResetBinding(i64),
    Revoke(i64),
    AddPeer { ticket: String, name: Option<String> },
    Test(i64),
    PeerDiscovery { id: i64, on: bool },
    RemovePeer(i64),
}

/// The simple answers, named for the note they leave.
#[derive(Clone, Copy, Debug, PartialEq, Eq, Structural)]
pub enum Did {
    Inbox(bool),
    Accepted,
    Declined,
    Cancelled,
    Dismissed,
    LimitsSaved,
    BindingReset,
    Revoked,
    PeerAdded,
    PeerDiscovery(i64, bool),
    PeerRemoved,
}

/// One load's answer: the endpoint's state, and the lists that the server was
/// willing to add.
#[derive(Debug, PartialEq)]
pub struct Loaded {
    pub params: FederationParams,
    pub requests: Option<(bool, Vec<FederationRequest>)>,
    pub keys: Option<Vec<FederationKey>>,
    pub peers: Option<Vec<FederationPeer>>,
    pub libraries: Option<Vec<String>>,
}

/// What comes back for each [`Op`].
#[derive(Debug, PartialEq)]
#[allow(inconsistent_fields)]
pub enum Done {
    Loaded(Result<Loaded, ApiError>),
    /// The answer is the server's document.
    Enabled { on: bool, result: Result<String, ApiError> },
    Minted { libraries: Vec<String>, result: Result<MintedKey, ApiError> },
    Tested { id: i64, result: Result<PeerTest, ApiError> },
    Did { what: Did, result: Result<(), ApiError> },
}

pub struct Room {
    /// Nothing until the first load answers.
    pub params: Option<FederationParams>,
    pub accept_requests: bool,
    pub requests: Vec<FederationRequest>,
    pub keys: Vec<FederationKey>,
    pub peers: Vec<FederationPeer>,
    /// The library names that the forms offer.
    pub libraries: Vec<String>,
    /// What each peer said it shares, the last time it was tested here.
    pub shares: HashMap<i64, Vec<String>>,
    pub tab: Tab,
    /// The cursor over the active tab's rows, once there is one.
    pub sel: Option<usize>,
    /// The paste box.
    pub ticket: Input,
    pub ticket_focus: bool,
    pub modal: Modal,
    pub note: Option<Note>,
    pub busy: Option<Msg>,
    pub queued: Option<Op>,
    pub in_flight: bool,
    /// The endpoint's start is on its way.
    pub starting: bool,
    /// A text on its way to the terminal's clipboard.
    pub clipboard: Option<String>,
    pub tscroll: usize,
    pub sel_anchor: Option<usize>,
    /// When the state was last asked for, in milliseconds.
    pub last_load: Option<u64>,
}

/// The ids of the requests, in order.
pub open spec fn request_ids(rows: Seq<FederationRequest>) -> Seq<i64> {
    Seq::new(rows.len(), |i: int| rows[i].id)
}

/// The ids of the keys, in order.
pub open spec fn key_ids(rows: Seq<FederationKey>) -> Seq<i64> {
    Seq::new(rows.len(), |i: int| rows[i].id)
}

/// The ids of the peers, in order.
pub open spec fn peer_ids(rows: Seq<FederationPeer>) -> Seq<i64> {
    Seq::new(rows.len(), |i: int| rows[i].id)
}

/// The place of a row, as found by a search.
pub open spec fn found(r: Option<usize>, ids: Seq<i64>, id: i64) -> bool {
    match place_of(ids, id) {
        Some(i) => r is Some && r->0 == i && 0 <= i < ids.len(),
        None => r is None,
    }
}

impl Room {
    /// The room with a call queued and its busy line.
    pub open spec fn calling(self, op: Op, busy: Msg) -> Room {
        Room { queued: Some(op), busy: Some(busy), ..self }
    }

    /// The room with a message on the status line.
    pub open spec fn saying(self, note: Option<Note>) -> Room {
        Room { note, ..self }
    }

    /// The room with another modal.
    pub open spec fn showing(self, modal: Modal) -> Room {
        Room { modal, ..self }
    }

    /// Whether federation is on.
    pub open spec fn on(self) -> bool {
        self.params matches Some(p) && p.enabled
    }

    /// The caps that a form starts with: the server's, or none.
    pub open spec fn defaults(self) -> FederationLimits {
        match self.params {
            Some(p) => p.limit_defaults,
            None => FederationLimits { stream_kbps: 0, daily_mb: 0, max_streams: 0 },
        }
    }

    /// How many rows the active tab has.
    pub open spec fn row_count(self) -> nat {
        match self.tab {
            Tab::Requests => self.requests@.len(),
            Tab::Tickets => self.keys@.len(),
            Tab::Peers => self.peers@.len(),
        }
    }

    /// The request that an id names.
    pub open spec fn request_of(self, id: i64) -> Option<FederationRequest> {
        match place_of(request_ids(self.requests@), id) {
            Some(i) => Some(self.requests@[i]),
            None => None,
        }
    }

    /// The key that an id names.
    pub open spec fn key_of(self, id: i64) -> Option<FederationKey> {
        match place_of(key_ids(self.keys@), id) {
            Some(i) => Some(self.keys@[i]),
            None => None,
        }
    }

    /// The peer that an id names.
    pub open spec fn peer_of(self, id: i64) -> Option<FederationPeer> {
        match place_of(peer_ids(self.peers@), id) {
            Some(i) => Some(self.peers@[i]),
            None => None,
        }
    }

    /// The request under the cursor.
    pub open spec fn cursor_request(self) -> Option<FederationRequest> {
        if self.tab == Tab::Requests && self.sel is Some && self.sel->0 < self.requests@.len() {
            Some(self.requests@[self.sel->0 as int])
        } else {
            None
        }
    }

    /// The key under the cursor.
    pub open spec fn cursor_key(self) -> Option<FederationKey> {
        if self.tab == Tab::Tickets && self.sel is Some && self.sel->0 < self.keys@.len() {
            Some(self.keys@[self.sel->0 as int])
        } else {
            None
        }
    }

    /// The peer under the cursor.
    pub open spec fn cursor_peer(self) -> Option<FederationPeer> {
        if self.tab == Tab::Peers && self.sel is Some && self.sel->0 < self.peers@.len() {
            Some(self.peers@[self.sel->0 as int])
        } else {
            None
        }
    }

    /// Whether the open form, if it would be sent, has an expiry that the
    /// clock can hold.
    pub open spec fn dated(self, now: i64) -> bool {
        self.modal matches Modal::Form(f) ==> f.complete() && f.caps_read() ==> f.dates(now)
    }

    /// The room, with nothing known yet.
    pub open spec fn fresh(self) -> bool {
        &&& self.params is None
        &&& !self.accept_requests
        &&& self.requests@.len() == 0
        &&& self.keys@.len() == 0
        &&& self.peers@.len() == 0
        &&& self.libraries@.len() == 0
        &&& self.shares@ == Map::<i64, Vec<String>>::empty()
        &&& self.tab == Tab::Requests
        &&& self.sel is None
        &&& is_blank(self.ticket)
        &&& !self.ticket_focus
        &&& self.modal is Closed
        &&& self.note is None
        &&& !self.in_flight
        &&& !self.starting
        &&& self.clipboard is None
        &&& self.tscroll == 0
        &&& self.sel_anchor is None
        &&& self.last_load is None
    }

    pub fn new() -> (room: Room)
        ensures
            room.fresh(),
            room.busy is None,
            room.queued is None,
    {
        Room {
            params: None,
            accept_requests: false,
            requests: Vec::new(),
            keys: Vec::new(),
            peers: Vec::new(),
            libraries: Vec::new(),
            shares: HashMap::new(),
            tab: Tab::Requests,
            sel: None,
            ticket: blank(),
            ticket_focus: false,
            modal: Modal::Closed,
            note: None,
            busy: None,
            queued: None,
            in_flight: false,
            starting: false,
            clipboard: None,
            tscroll: 0,
            sel_anchor: None,
            last_load: None,
        }
    }

    fn queue(&mut self, op: Op, busy: Msg)
        ensures
            *final(self) == old(self).calling(op, busy),
    {
        self.queued = Some(op);
        self.busy = Some(busy);
    }

    /// Asks for the state again, with a busy line or quietly.
    pub fn reload(&mut self, loud: bool)
        ensures
            *final(self) == (if loud {
                old(self).calling(Op::Load, Msg::Key("fed.busy_loading"))
            } else {
                Room { queued: Some(Op::Load), ..*old(self) }
            }),
    {
        if loud {
            self.queue(Op::Load, Msg::Key("fed.busy_loading"));
        } else {
            self.queued = Some(Op::Load);
        }
    }

    /// Whether federation is on.
    pub fn enabled(&self) -> (r: bool)
        ensures
            r == self.on(),
    {
        match &self.params {
            Some(p) => p.enabled,
            None => false,
        }
    }

    /// The caps that a form starts with.
    pub fn limit_defaults(&self) -> (r: FederationLimits)
        ensures
            r == self.defaults(),
    {
        match &self.params {
            Some(p) => p.limit_defaults,
            None => FederationLimits { stream_kbps: 0, daily_mb: 0, max_streams: 0 },
        }
    }

    /// How many rows the active tab has.
    pub fn rows(&self) -> (n: usize)
        ensures
            n == self.row_count(),
    {
        match self.tab {
            Tab::Requests => self.requests.len(),
            Tab::Tickets => self.keys.len(),
            Tab::Peers => self.peers.len(),
        }
    }

    /// How many requests wait on a human here.
    pub fn pending_inbound(&self) -> (n: usize)
        ensures
            n == self.requests@.filter(|r: FederationRequest| needs_answer(r)).len(),
    {
        let mut n: usize = 0;
        let mut i: usize = 0;
        proof {
            assert(self.requests@.take(0) =~= Seq::<FederationRequest>::empty());
            reveal(Seq::filter);
        }
        while i < self.requests.len()
            invariant
                i <= self.requests@.len(),
                n <= i,
                n == self.requests@.take(i as int).filter(|r: FederationRequest| needs_answer(r)).len(),
            decreases self.requests@.len() - i,
        {
            proof {
                reveal(Seq::filter);
                assert(self.requests@.take(i + 1).drop_last() =~= self.requests@.take(i as int));
            }
            if request_needs_answer(&self.requests[i]) {
                n += 1;
            }
            i += 1;
        }
        proof {
            assert(self.requests@.take(i as int) =~= self.requests@);
        }
        n
    }

    fn request_place(&self, id: i64) -> (r: Option<usize>)
        ensures
            found(r, request_ids(self.requests@), id),
    {
        let mut i: usize = 0;
        while i < self.requests.len()
            invariant
                i <= self.requests@.len(),
                forall|k: int| 0 <= k < i ==> (#[trigger] self.requests@[k]).id != id,
            decreases self.requests@.len() - i,
        {
            if self.requests[i].id == id {
                proof {
                    first_place(request_ids(self.requests@), id, i as int);
                }
                return Some(i);
            }
            i += 1;
        }
        proof {
            first_place(request_ids(self.requests@), id, i as int);
        }
        None
    }

    fn key_place(&self, id: i64) -> (r: Option<usize>)
        ensures
            found(r, key_ids(self.keys@), id),
    {
        let mut i: usize = 0;
        while i < self.keys.len()
            invariant
                i <= self.keys@.len(),
                forall|k: int| 0 <= k < i ==> (#[trigger] self.keys@[k]).id != id,
            decreases self.keys@.len() - i,
        {
            if self.keys[i].id == id {
                proof {
                    first_place(key_ids(self.keys@), id, i as int);
                }
                return Some(i);
            }
            i += 1;
        }
        proof {
            first_place(key_ids(self.keys@), id, i as int);
        }
        None
    }

    fn peer_place(&self, id: i64) -> (r: Option<usize>)
        ensures
            found(r, peer_ids(self.peers@), id),
    {
        let mut i: usize = 0;
        while i < self.peers.len()
            invariant
                i <= self.peers@.len(),
                forall|k: int| 0 <= k < i ==> (#[trigger] self.peers@[k]).id != id,
            decreases self.peers@.len() - i,
        {
            if self.peers[i].id == id {
                proof {
                    first_place(peer_ids(self.peers@), id, i as int);
                }
                return Some(i);
            }
            i += 1;
        }
        proof {
            first_place(peer_ids(self.peers@), id, i as int);
        }
        None
    }

    /// The request that an id names.
    pub fn request(&self, id: i64) -> (r: Option<&FederationRequest>)
        ensures
            match self.request_of(id) {
                Some(row) => r == Some(&row),
                None => r is None,
            },
    {
        match self.request_place(id) {
            Some(i) => Some(&self.requests[i]),
            None => None,
        }
    }

    /// The key that an id names.
    pub fn key_row(&self, id: i64) -> (r: Option<&FederationKey>)
        ensures
            match self.key_of(id) {
                Some(row) => r == Some(&row),
                None => r is None,
            },
    {
        match self.key_place(id) {
            Some(i) => Some(&self.keys[i]),
            None => None,
        }
    }

    /// The peer that an id names.
    pub fn peer(&self, id: i64) -> (r: Option<&FederationPeer>)
        ensures
            match self.peer_of(id) {
                Some(row) => r == Some(&row),
                None => r is None,
            },
    {
        match self.peer_place(id) {
            Some(i) => Some(&self.peers[i]),
            None => None,
        }
    }

    /// The request under the cursor.
    pub fn selected_request(&self) -> (r: Option<&FederationRequest>)
        ensures
            match self.cursor_request() {
                Some(row) => r == Some(&row),
                None => r is None,
            },
    {
        match (self.tab, self.sel) {
            (Tab::Requests, Some(s)) => if s < self.requests.len() {
                Some(&self.requests[s])
            } else {
                None
            },
            _ => None,
        }
    }

    /// The key under the cursor.
    pub fn selected_key(&self) -> (r: Option<&FederationKey>)
        ensures
            match self.cursor_key() {
                Some(row) => r == Some(&row),
                None => r is None,
            },
    {
        match (self.tab, self.sel) {
            (Tab::Tickets, Some(s)) => if s < self.keys.len() {
                Some(&self.keys[s])
            } else {
                None
            },
            _ => None,
        }
    }

    /// The peer under the cursor.
    pub fn selected_peer(&self) -> (r: Option<&FederationPeer>)
        ensures
            match self.cursor_peer() {
                Some(row) => r == Some(&row),
                None => r is None,
            },
    {
        match (self.tab, self.sel) {
            (Tab::Peers, Some(s)) => if s < self.peers.len() {
                Some(&self.peers[s])
            } else {
                None
            },
            _ => None,
        }
    }

    /// Whether the open form, if it would be sent, has an expiry that the
    /// clock can hold.
    pub fn can_date(&self, now: i64) -> (r: bool)
        ensures
            r == self.dated(now),
    {
        match &self.modal {
            Modal::Form(f) => match f.expires_days() {
                Ok(Some(d)) => now as i128 + d as i128 * 86_400 <= i64::MAX as i128 || !f.can_submit() || f.limits().is_none(),
                _ => true,
            },
            _ => true,
        }
    }
}

// ── What input does ──────────────────────────────────────────────────────

/// A room with another form in its modal, and nothing else changed.
pub open spec fn only_form(pre: Room, post: Room) -> bool {
    post == (Room { modal: post.modal, ..pre }) && post.modal is Form
}

/// The cutoff of a ticket that lasts some days: none for zero or no days.
pub open spec fn is_cutoff(at: Option<String>, days: Option<nat>, now: i64) -> bool {
    match days {
        Some(d) => if d > 0 {
            is_text(at, Some(timestamp_text(now + d * 86400)))
        } else {
            at is None
        },
        None => at is None,
    }
}

/// What becomes of a key's expiry: kept where no days were given, lifted by
/// zero, else that many days from now.
pub open spec fn is_expiry_change(change: ExpiryChange, days: Option<nat>, now: i64) -> bool {
    match days {
        Some(d) => if d > 0 {
            change matches ExpiryChange::At(s) && s@ == timestamp_text(now + d * 86400)
        } else {
            change is Never
        },
        None => change is Keep,
    }
}

/// The call that a form sends.
pub open spec fn is_sent(op: Op, f: Form, now: i64) -> bool {
    match f.kind {
        FormKind::Mint => op matches Op::Mint { name, vpaths, limits, expires_at } && name@ == trimmed(input_value(f.name))
            && vpaths@ == ticked(f.libraries@) && limits == f.caps() && is_cutoff(expires_at, f.days()->0, now),
        FormKind::Accept => op matches Op::Accept { id, vpaths, limits, expires_at, accept_their_offer } && id == f.id
            && vpaths@ == ticked(f.libraries@) && limits == f.caps() && is_cutoff(expires_at, f.days()->0, now)
            && accept_their_offer == f.accept_their_offer,
        FormKind::Limits => op matches Op::Limits { id, limits, expiry } && id == f.id && limits == f.caps()
            && is_expiry_change(expiry, f.days()->0, now),
    }
}

/// The busy line while a form's call runs.
pub open spec fn sending(kind: FormKind) -> Msg {
    match kind {
        FormKind::Mint => Msg::Key("fed.busy_minting"),
        FormKind::Accept => Msg::Key("fed.busy_accepting"),
        FormKind::Limits => Msg::Key("fed.busy_saving"),
    }
}

/// What sending the form makes of the room: a refusal on the form where it is
/// incomplete or a number is none, the call otherwise.
pub open spec fn submitted(pre: Room, now: i64, post: Room) -> bool {
    match pre.modal {
        Modal::Form(f) => if !f.complete() {
            post == pre.showing(Modal::Form(Box::new(Form { error: Some(Msg::Key("fed.form_incomplete")), ..*f })))
        } else if !f.caps_read() || f.days() is None {
            post == pre.showing(Modal::Form(Box::new(Form { error: Some(Msg::Key("fed.form_numbers")), ..*f })))
        } else {
            &&& post == (Room {
                modal: Modal::Form(Box::new(Form { error: None, ..*f })),
                queued: post.queued,
                busy: Some(sending(f.kind)),
                ..pre
            })
            &&& post.queued matches Some(op) && is_sent(op, *f, now)
        },
        _ => post == pre,
    }
}

/// The room on another tab, while federation is on.
pub open spec fn switched(pre: Room, tab: Tab) -> Room {
    if !pre.on() || tab == pre.tab {
        pre
    } else {
        Room { tab, sel: None, tscroll: 0, ticket_focus: false, ..pre }
    }
}

/// What adding the pasted ticket makes of the room: its preview and the name
/// it gives itself, or that it is none.
pub open spec fn ticket_taken(pre: Room, post: Room) -> bool {
    let text = trimmed(input_value(pre.ticket));
    let doc = ticket_doc(text);
    if text.len() == 0 {
        post == pre
    } else if doc is Some && is_ticket_doc(doc->0) {
        &&& post == (Room { modal: post.modal, ticket_focus: false, ..pre })
        &&& post.modal matches Modal::PeerName { ticket, name, preview } && ticket@ == text && is_preview(preview, doc->0)
            && holds(
            name,
            match preview.name {
                Some(n) => n@,
                None => Seq::empty(),
            },
        )
    } else {
        post == pre.saying(error(Msg::Key("fed.ticket_invalid")))
    }
}

/// What an action makes of the room, and whether it ends it.
pub open spec fn acted(pre: Room, act: Act, now: i64, post: Room, out: Option<Outcome>) -> bool {
    &&& out == (if act == Act::Quit { Some(Outcome::Quit) } else { None })
    &&& match act {
        Act::Tab(tab) => post == switched(pre, tab),
        Act::TurnOn => if pre.params is Some && !pre.params->0.enabled && pre.params->0.available && !pre.starting {
            post == (Room { starting: true, ..pre }).calling(Op::SetEnabled(true), Msg::Key("fed.busy_turning_on"))
        } else {
            post == pre
        },
        Act::TurnOff => post == (if pre.on() { pre.showing(Modal::TurnOff) } else { pre }),
        Act::TurnOffConfirm => post == pre.showing(Modal::Closed).calling(
            Op::SetEnabled(false),
            Msg::Key("fed.busy_turning_off"),
        ),
        Act::TurnOffCancel | Act::DeclineCancel | Act::RevokeCancel | Act::ForgetCancel | Act::FormCancel | Act::MintedDone
        | Act::PeerNameCancel => post == pre.showing(Modal::Closed),
        Act::ToggleInbox => post == (if pre.on() {
            pre.calling(Op::SetInbox(!pre.accept_requests), Msg::Key("fed.busy_saving"))
        } else {
            pre
        }),
        Act::Select(i) => post == (if i < pre.row_count() { Room { sel: Some(i), ..pre } } else { pre }),
        Act::Accept(id) => match pre.request_of(id) {
            Some(r) => if needs_answer(r) {
                only_form(pre, post) && is_accept_form(*(post.modal->Form_0), r, pre.libraries@, pre.defaults())
            } else {
                post == pre
            },
            None => post == pre,
        },
        Act::Decline(id) => post == (if pre.request_of(id) is Some && needs_answer(pre.request_of(id)->0) {
            pre.showing(Modal::Decline(id))
        } else {
            pre
        }),
        Act::DeclineConfirm => match pre.modal {
            Modal::Decline(id) => post == pre.showing(Modal::Closed).calling(Op::Reject(id), Msg::Key("fed.busy_saving")),
            _ => post == pre,
        },
        Act::CancelRequest(id) => post == (if pre.request_of(id) is Some && cancellable(pre.request_of(id)->0) {
            pre.calling(Op::Cancel(id), Msg::Key("fed.busy_saving"))
        } else {
            pre
        }),
        Act::Dismiss(id) => post == (if pre.request_of(id) is Some && finished(pre.request_of(id)->0) {
            pre.calling(Op::Dismiss(id), Msg::Key("fed.busy_saving"))
        } else {
            pre
        }),
        Act::Mint => if pre.on() {
            only_form(pre, post) && is_new_form(*(post.modal->Form_0), FormKind::Mint, pre.libraries@, pre.defaults())
                && about_nothing(*(post.modal->Form_0))
        } else {
            post == pre
        },
        Act::CopyTicket(id) => post == (if pre.key_of(id) is Some && pre.key_of(id)->0.ticket is Some {
            Room { clipboard: pre.key_of(id)->0.ticket, ..pre }
        } else {
            pre
        }),
        Act::Limits(id) => match pre.key_of(id) {
            Some(k) => only_form(pre, post) && is_limits_form(*(post.modal->Form_0), k, now),
            None => post == pre,
        },
        Act::ResetBinding(id) => post == (if pre.key_of(id) is Some && pre.key_of(id)->0.bound_endpoint_id is Some {
            pre.calling(Op::ResetBinding(id), Msg::Key("fed.busy_saving"))
        } else {
            pre
        }),
        Act::Revoke(id) => post == (if pre.key_of(id) is Some { pre.showing(Modal::Revoke(id)) } else { pre }),
        Act::RevokeConfirm => match pre.modal {
            Modal::Revoke(id) => post == pre.showing(Modal::Closed).calling(Op::Revoke(id), Msg::Key("fed.busy_saving")),
            _ => post == pre,
        },
        Act::TicketFocus => post == (if pre.on() {
            Room { tab: Tab::Peers, sel: None, ticket_focus: true, ..pre }
        } else {
            pre
        }),
        Act::TicketAdd => ticket_taken(pre, post),
        Act::PeerNameAdd => match pre.modal {
            Modal::PeerName { ticket, name, preview } => {
                let typed = trimmed(input_value(name));
                &&& post == (Room { queued: post.queued, busy: Some(Msg::Key("fed.busy_adding_peer")), ..pre })
                &&& post.queued matches Some(Op::AddPeer { ticket: t, name: n }) && t == ticket && is_text(
                    n,
                    if typed.len() > 0 {
                        Some(typed)
                    } else {
                        None
                    },
                )
            },
            _ => post == pre,
        },
        Act::Test(id) => match pre.peer_of(id) {
            Some(p) => {
                &&& post == (Room { queued: Some(Op::Test(id)), busy: post.busy, ..pre })
                &&& post.busy matches Some(msg) && says(msg, "fed.busy_testing", "name", printed(p.name@, NAME_MAX as nat))
            },
            None => post == pre,
        },
        Act::ToggleDiscovery(id) => match pre.peer_of(id) {
            Some(p) => post == pre.calling(Op::PeerDiscovery { id, on: !p.use_discovery }, Msg::Key("fed.busy_saving")),
            None => post == pre,
        },
        Act::Forget(id) => post == (if pre.peer_of(id) is Some { pre.showing(Modal::Forget(id)) } else { pre }),
        Act::ForgetConfirm => match pre.modal {
            Modal::Forget(id) => post == pre.showing(Modal::Closed).calling(
                Op::RemovePeer(id),
                Msg::Key("fed.busy_saving"),
            ),
            _ => post == pre,
        },
        Act::FormFocus(i) => match pre.modal {
            Modal::Form(f) => post == pre.showing(
                Modal::Form(Box::new(Form { focus: within(i as int, f.field_list().len() as int) as usize, ..*f })),
            ),
            _ => post == pre,
        },
        Act::FormToggle(i) => match pre.modal {
            Modal::Form(f) => if i < f.field_list().len() {
                only_form(pre, post) && (Form { focus: i, ..*f }).toggled(f.field_list()[i as int], *(post.modal->Form_0))
            } else {
                post == pre
            },
            _ => post == pre,
        },
        Act::FormSubmit => submitted(pre, now, post),
        Act::MintedCopy => match pre.modal {
            Modal::Minted { name, ticket, libraries } => post == (if ticket is Some {
                Room { clipboard: ticket, ..pre }
            } else {
                pre
            }),
            _ => post == pre,
        },
        Act::TableScroll(delta) => post == (Room { tscroll: scrolled(pre.tscroll, delta < 0), ..pre }),
        Act::TableScrollTo(pos) => post == (Room { tscroll: pos, ..pre }),
        Act::Quit => post == pre,
    }
}

/// The cutoff some days from now.
fn cutoff(now: i64, days: u64) -> (at: String)
    requires
        now + days * 86400 <= i64::MAX,
    ensures
        at@ == timestamp_text(now + days * 86400),
{
    iso_at((now as i128 + days as i128 * 86_400) as i64)
}

/// The call that a form sends.
fn form_call(f: &Form, limits: FederationLimits, days: Option<u64>, now: i64) -> (op: Op)
    requires
        f.caps_read(),
        limits == f.caps(),
        match days {
            Some(d) => f.days() == Some(Some(d as nat)),
            None => f.days() == Some(None::<nat>),
        },
        f.dates(now),
    ensures
        is_sent(op, *f, now),
{
    let expires_at = match days {
        Some(d) => if d > 0 {
            Some(cutoff(now, d))
        } else {
            None
        },
        None => None,
    };
    match f.kind {
        FormKind::Mint => Op::Mint { name: trim(f.name.value()), vpaths: f.vpaths(), limits, expires_at },
        FormKind::Accept => Op::Accept {
            id: f.id,
            vpaths: f.vpaths(),
            limits,
            expires_at,
            accept_their_offer: f.accept_their_offer,
        },
        FormKind::Limits => Op::Limits {
            id: f.id,
            limits,
            expiry: match days {
                None => ExpiryChange::Keep,
                Some(d) => if d > 0 {
                    ExpiryChange::At(cutoff(now, d))
                } else {
                    ExpiryChange::Never
                },
            },
        },
    }
}

impl Room {
    /// Sends the form — after the refusals that need no server.
    fn submit_form(&mut self, now: i64)
        requires
            old(self).dated(now),
        ensures
            submitted(*old(self), now, *final(self)),
    {
        let mut call: Option<(Op, Msg)> = None;
        if let Modal::Form(f) = &mut self.modal {
            if !f.can_submit() {
                f.error = Some(Msg::Key("fed.form_incomplete"));
                return;
            }
            match (f.limits(), f.expires_days()) {
                (Some(limits), Ok(days)) => {
                    let op = form_call(f, limits, days, now);
                    let busy = match f.kind {
                        FormKind::Mint => Msg::Key("fed.busy_minting"),
                        FormKind::Accept => Msg::Key("fed.busy_accepting"),
                        FormKind::Limits => Msg::Key("fed.busy_saving"),
                    };
                    f.error = None;
                    call = Some((op, busy));
                },
                _ => {
                    f.error = Some(Msg::Key("fed.form_numbers"));
                    return;
                },
            }
        }
        if let Some((op, busy)) = call {
            self.queue(op, busy);
        }
    }

    fn switch_tab(&mut self, tab: Tab)
        ensures
            *final(self) == switched(*old(self), tab),
    {
        if !self.enabled() || tab == self.tab {
            return;
        }
        self.tab = tab;
        self.sel = None;
        self.tscroll = 0;
        self.ticket_focus = false;
    }

    /// Looks at the pasted ticket.
    fn take_ticket(&mut self)
        ensures
            ticket_taken(*old(self), *final(self)),
    {
        let ticket = trim(self.ticket.value());
        if ticket.as_str().is_empty() {
            return;
        }
        match decode_ticket(ticket.as_str()) {
            Some(preview) => {
                let name = match &preview.name {
                    Some(n) => Input::new(n.clone()),
                    None => blank(),
                };
                self.ticket_focus = false;
                self.modal = Modal::PeerName { ticket, name, preview };
            },
            None => {
                self.note = Some(Note { msg: Msg::Key("fed.ticket_invalid"), error: true });
            },
        }
    }

    /// The actions on requests.
    fn act_on_request(&mut self, act: Act, now: i64)
        requires
            act is Accept || act is Decline || act is DeclineConfirm || act is CancelRequest || act is Dismiss,
        ensures
            acted(*old(self), act, now, *final(self), None),
    {
        match act {
            Act::Accept(id) => {
                if let Some(i) = self.request_place(id) {
                    if request_needs_answer(&self.requests[i]) {
                        let limits = self.limit_defaults();
                        let mut form = Form::new(FormKind::Accept, &self.libraries, &limits);
                        let r = &self.requests[i];
                        proof {
                            crate::screen::place_holds(request_ids(self.requests@), id);
                        }
                        form.id = id;
                        form.about = request_name(r);
                        form.endpoint_id = r.peer_endpoint_id.clone();
                        form.message = printable(r.message.as_str(), 500);
                        form.their_offer = gate_names(&r.offered_libraries);
                        self.modal = Modal::Form(Box::new(form));
                    }
                }
            },
            Act::Decline(id) => {
                if let Some(i) = self.request_place(id) {
                    if request_needs_answer(&self.requests[i]) {
                        self.modal = Modal::Decline(id);
                    }
                }
            },
            Act::DeclineConfirm => {
                if let Modal::Decline(id) = &self.modal {
                    let id: i64 = *id;
                    self.modal = Modal::Closed;
                    self.queue(Op::Reject(id), Msg::Key("fed.busy_saving"));
                }
            },
            Act::CancelRequest(id) => {
                if let Some(i) = self.request_place(id) {
                    if request_cancellable(&self.requests[i]) {
                        self.queue(Op::Cancel(id), Msg::Key("fed.busy_saving"));
                    }
                }
            },
            Act::Dismiss(id) => {
                if let Some(i) = self.request_place(id) {
                    if request_finished(&self.requests[i]) {
                        self.queue(Op::Dismiss(id), Msg::Key("fed.busy_saving"));
                    }
                }
            },
            _ => {},
        }
    }

    /// The actions on tickets.
    fn act_on_key(&mut self, act: Act, now: i64)
        requires
            act is Mint || act is CopyTicket || act is Limits || act is ResetBinding || act is Revoke || act is RevokeConfirm
                || act is MintedCopy,
        ensures
            acted(*old(self), act, now, *final(self), None),
    {
        match act {
            Act::Mint => {
                if self.enabled() {
                    let limits = self.limit_defaults();
                    let form = Form::new(FormKind::Mint, &self.libraries, &limits);
                    self.modal = Modal::Form(Box::new(form));
                }
            },
            Act::CopyTicket(id) => {
                if let Some(i) = self.key_place(id) {
                    if let Some(ticket) = &self.keys[i].ticket {
                        self.clipboard = Some(ticket.clone());
                    }
                }
            },
            Act::Limits(id) => {
                if let Some(i) = self.key_place(id) {
                    let k = &self.keys[i];
                    proof {
                        crate::screen::place_holds(key_ids(self.keys@), id);
                    }
                    let current = FederationLimits {
                        stream_kbps: k.stream_kbps,
                        daily_mb: k.daily_mb,
                        max_streams: k.max_streams,
                    };
                    let none: Vec<String> = Vec::new();
                    let mut form = Form::new(FormKind::Limits, &none, &current);
                    form.id = id;
                    form.about = printable(k.name.as_str(), NAME_MAX);
                    form.current_expiry = Some(expiry_words(k, now));
                    self.modal = Modal::Form(Box::new(form));
                }
            },
            Act::ResetBinding(id) => {
                if let Some(i) = self.key_place(id) {
                    if self.keys[i].bound_endpoint_id.is_some() {
                        self.queue(Op::ResetBinding(id), Msg::Key("fed.busy_saving"));
                    }
                }
            },
            Act::Revoke(id) => {
                if self.key_place(id).is_some() {
                    self.modal = Modal::Revoke(id);
                }
            },
            Act::RevokeConfirm => {
                if let Modal::Revoke(id) = &self.modal {
                    let id: i64 = *id;
                    self.modal = Modal::Closed;
                    self.queue(Op::Revoke(id), Msg::Key("fed.busy_saving"));
                }
            },
            Act::MintedCopy => {
                if let Modal::Minted { name, ticket: Some(ticket), libraries } = &self.modal {
                    self.clipboard = Some(ticket.clone());
                }
            },
            _ => {},
        }
    }

    /// The actions on peers.
    fn act_on_peer(&mut self, act: Act, now: i64)
        requires
            act is TicketFocus || act is TicketAdd || act is PeerNameAdd || act is Test || act is ToggleDiscovery || act
                is Forget || act is ForgetConfirm,
        ensures
            acted(*old(self), act, now, *final(self), None),
    {
        match act {
            Act::TicketFocus => {
                if self.enabled() {
                    self.tab = Tab::Peers;
                    self.sel = None;
                    self.ticket_focus = true;
                }
            },
            Act::TicketAdd => self.take_ticket(),
            Act::PeerNameAdd => {
                let mut call: Option<Op> = None;
                if let Modal::PeerName { ticket, name, preview } = &self.modal {
                    let typed = trim(name.value());
                    let name = if typed.as_str().is_empty() { None } else { Some(typed) };
                    call = Some(Op::AddPeer { ticket: ticket.clone(), name });
                }
                if let Some(op) = call {
                    self.queue(op, Msg::Key("fed.busy_adding_peer"));
                }
            },
            Act::Test(id) => {
                if let Some(i) = self.peer_place(id) {
                    let name = printable(self.peers[i].name.as_str(), NAME_MAX);
                    self.queue(Op::Test(id), Msg::One("fed.busy_testing", Fill { name: "name", arg: Arg::Text(name) }));
                }
            },
            Act::ToggleDiscovery(id) => {
                if let Some(i) = self.peer_place(id) {
                    let on = !self.peers[i].use_discovery;
                    self.queue(Op::PeerDiscovery { id, on }, Msg::Key("fed.busy_saving"));
                }
            },
            Act::Forget(id) => {
                if self.peer_place(id).is_some() {
                    self.modal = Modal::Forget(id);
                }
            },
            Act::ForgetConfirm => {
                if let Modal::Forget(id) = &self.modal {
                    let id: i64 = *id;
                    self.modal = Modal::Closed;
                    self.queue(Op::RemovePeer(id), Msg::Key("fed.busy_saving"));
                }
            },
            _ => {},
        }
    }

    /// A click, or the action behind a key. `now` is in Unix seconds.
    pub fn act(&mut self, act: Act, now: i64) -> (out: Option<Outcome>)
        requires
            act is FormSubmit ==> old(self).dated(now),
        ensures
            acted(*old(self), act, now, *final(self), out),
    {
        match act {
            Act::Tab(tab) => self.switch_tab(tab),
            Act::TurnOn => {
                let can = match &self.params {
                    Some(p) => !p.enabled && p.available && !self.starting,
                    None => false,
                };
                if can {
                    self.starting = true;
                    self.queue(Op::SetEnabled(true), Msg::Key("fed.busy_turning_on"));
                }
            },
            Act::TurnOff => {
                if self.enabled() {
                    self.modal = Modal::TurnOff;
                }
            },
            Act::TurnOffConfirm => {
                self.modal = Modal::Closed;
                self.queue(Op::SetEnabled(false), Msg::Key("fed.busy_turning_off"));
            },
            Act::TurnOffCancel
            | Act::DeclineCancel
            | Act::RevokeCancel
            | Act::ForgetCancel
            | Act::FormCancel
            | Act::MintedDone
            | Act::PeerNameCancel => {
                self.modal = Modal::Closed;
            },
            Act::ToggleInbox => {
                if self.enabled() {
                    let on = !self.accept_requests;
                    self.queue(Op::SetInbox(on), Msg::Key("fed.busy_saving"));
                }
            },
            Act::Select(i) => {
                if i < self.rows() {
                    self.sel = Some(i);
                }
            },
            Act::Accept(_) | Act::Decline(_) | Act::DeclineConfirm | Act::CancelRequest(_) | Act::Dismiss(_) => {
                self.act_on_request(act, now);
            },
            Act::Mint
            | Act::CopyTicket(_)
            | Act::Limits(_)
            | Act::ResetBinding(_)
            | Act::Revoke(_)
            | Act::RevokeConfirm
            | Act::MintedCopy => {
                self.act_on_key(act, now);
            },
            Act::TicketFocus
            | Act::TicketAdd
            | Act::PeerNameAdd
            | Act::Test(_)
            | Act::ToggleDiscovery(_)
            | Act::Forget(_)
            | Act::ForgetConfirm => {
                self.act_on_peer(act, now);
            },
            Act::FormFocus(i) => {
                if let Modal::Form(f) = &mut self.modal {
                    let n: usize = f.fields().len();
                    f.focus = clamp_row(i, n);
                }
            },
            Act::FormToggle(i) => {
                if let Modal::Form(f) = &mut self.modal {
                    let fields = f.fields();
                    if i < fields.len() {
                        f.focus = i;
                        f.toggle(fields[i]);
                    }
                }
            },
            Act::FormSubmit => self.submit_form(now),
            Act::TableScroll(delta) => {
                self.tscroll = scroll(self.tscroll, delta < 0);
            },
            Act::TableScrollTo(pos) => {
                self.tscroll = pos;
            },
            Act::Quit => return Some(Outcome::Quit),
        }
        None
    }

    /// The text that is to go to the terminal's clipboard, handed out once.
    pub fn take_clipboard(&mut self) -> (text: Option<String>)
        ensures
            text == old(self).clipboard,
            *final(self) == (Room { clipboard: None, ..*old(self) }),
    {
        self.clipboard.take()
    }

    /// The terminal took the text, or did not.
    pub fn copied(&mut self, ok: bool)
        ensures
            *final(self) == old(self).saying(remark(Msg::Key(if ok { "fed.copied" } else { "fed.copy_failed" }))),
    {
        self.note = Some(Note { msg: Msg::Key(if ok { "fed.copied" } else { "fed.copy_failed" }), error: false });
    }
}

// ── What an answer does ──────────────────────────────────────────────────

/// The room once a call has answered, before the answer is looked at.
pub open spec fn settled(pre: Room) -> Room {
    Room { in_flight: false, busy: None, ..pre }
}

/// A load's answer in the room: a list that failed keeps its last answer; off
/// empties the room. The cursor stays on a row that exists. A start is over
/// once a load says that the endpoint is on.
pub open spec fn loaded_into(m: Room, l: Loaded, post: Room) -> bool {
    let on = l.params.enabled;
    &&& post == (Room {
        starting: m.starting && !on,
        params: Some(l.params),
        accept_requests: match l.requests {
            Some((accept, _)) => accept,
            None => m.accept_requests,
        },
        requests: post.requests,
        keys: post.keys,
        peers: post.peers,
        libraries: match l.libraries {
            Some(libraries) => libraries,
            None => m.libraries,
        },
        sel: kept(if on { m.sel } else { None }, post.row_count() as int),
        ticket_focus: m.ticket_focus && on,
        ..m
    })
    &&& post.requests@ == (match l.requests {
        Some((_, requests)) => if on { requests@ } else { Seq::empty() },
        None => if on { m.requests@ } else { Seq::empty() },
    })
    &&& post.keys@ == (match l.keys {
        Some(keys) => if on { keys@ } else { Seq::empty() },
        None => if on { m.keys@ } else { Seq::empty() },
    })
    &&& post.peers@ == (match l.peers {
        Some(peers) => if on { peers@ } else { Seq::empty() },
        None => if on { m.peers@ } else { Seq::empty() },
    })
}

/// What the answer to switching the endpoint makes of the room; `available` is
/// what it said of the transport, if anything. Without a transport there is
/// nothing to wait for.
pub open spec fn switched_endpoint(m: Room, on: bool, available: Option<bool>) -> Room {
    Room { starting: m.starting && available != Some(false), ..m }.saying(
        if on && available == Some(false) {
            error(Msg::Key("fed.unavailable_note"))
        } else {
            None
        },
    ).calling(Op::Load, Msg::Key("fed.busy_loading"))
}

/// What an answer says of the transport.
pub open spec fn said_available(doc: Seq<char>) -> Option<bool> {
    match json_member(doc, "available"@) {
        Some(m) => json_bool(m),
        None => None,
    }
}

/// The name of a peer for the status line; nothing for one that is gone.
pub open spec fn peer_words(m: Room, id: i64) -> Seq<char> {
    match m.peer_of(id) {
        Some(p) => printed(p.name@, NAME_MAX as nat),
        None => Seq::empty(),
    }
}

/// The libraries that a test found, each gated for the screen.
pub open spec fn tested_libraries(t: PeerTest) -> Seq<Seq<char>> {
    match t.libraries {
        Some(l) => gated(l@),
        None => Seq::empty(),
    }
}

/// What the test of a peer makes of the room: what it shares is remembered.
pub open spec fn tested(m: Room, id: i64, t: PeerTest, post: Room) -> bool {
    let why = match t.error {
        Some(e) => e@,
        None => Seq::empty(),
    };
    &&& post == (Room { shares: post.shares, note: post.note, queued: Some(Op::Load), ..m })
    &&& if t.ok {
        &&& post.shares@ == m.shares@.insert(id, post.shares@[id])
        &&& texts(post.shares@[id]@) == tested_libraries(t)
        &&& post.note matches Some(Note { msg: Msg::Two(key, name, libraries), error }) && key == "fed.test_ok" && !error
            && filled(name, "name", peer_words(m, id)) && if tested_libraries(t).len() == 0 {
            libraries == (Fill { name: "libraries", arg: Arg::Phrase(Box::new(Msg::Key("fed.shares_nothing"))) })
        } else {
            filled(libraries, "libraries", join_with(tested_libraries(t), ", "@))
        }
    } else {
        &&& post.shares == m.shares
        &&& post.note matches Some(Note { msg: Msg::Two(key, name, err), error }) && key == "fed.test_failed" && error
            && filled(name, "name", peer_words(m, id)) && filled(err, "err", printed(why, 200))
    }
}

/// The note that an answer leaves.
pub open spec fn did_words(what: Did) -> &'static str {
    match what {
        Did::Inbox(on) => if on { "fed.done_inbox_on" } else { "fed.done_inbox_off" },
        Did::Accepted => "fed.done_accepted",
        Did::Declined => "fed.done_declined",
        Did::Cancelled => "fed.done_cancelled",
        Did::Dismissed => "fed.done_dismissed",
        Did::LimitsSaved => "fed.done_limits",
        Did::BindingReset => "fed.done_binding_reset",
        Did::Revoked => "fed.done_revoked",
        Did::PeerAdded => "fed.done_peer_added",
        Did::PeerDiscovery(_, _) => "fed.done_discovery",
        Did::PeerRemoved => "fed.done_forgotten",
    }
}

/// The words for a call that failed.
pub open spec fn failed_words(what: Did) -> &'static str {
    match what {
        Did::Inbox(_) => "fed.fail_inbox",
        Did::Accepted => "fed.fail_accept",
        Did::Declined => "fed.fail_decline",
        Did::Cancelled => "fed.fail_cancel",
        Did::Dismissed => "fed.fail_dismiss",
        Did::LimitsSaved => "fed.fail_limits",
        Did::BindingReset => "fed.fail_binding_reset",
        Did::Revoked => "fed.fail_revoke",
        Did::PeerAdded => "fed.fail_add_peer",
        Did::PeerDiscovery(_, _) => "fed.fail_discovery",
        Did::PeerRemoved => "fed.fail_forget",
    }
}

/// What a simple answer makes of the room: a form that was for it closes, the
/// paste box empties once its ticket is a peer, a switched row shows it.
pub open spec fn done_into(m: Room, what: Did, post: Room) -> bool {
    &&& post == (Room {
        modal: if what == Did::Accepted || what == Did::LimitsSaved || what == Did::PeerAdded { Modal::Closed } else { m.modal },
        peers: post.peers,
        ticket: post.ticket,
        note: remark(Msg::Key(did_words(what))),
        queued: Some(Op::Load),
        ..m
    })
    &&& if what == Did::PeerAdded { is_blank(post.ticket) } else { post.ticket == m.ticket }
    &&& post.peers@ == (match what {
        Did::PeerDiscovery(id, on) => match place_of(peer_ids(m.peers@), id) {
            Some(i) => m.peers@.update(i, FederationPeer { use_discovery: on, ..m.peers@[i] }),
            None => m.peers@,
        },
        _ => m.peers@,
    })
}

/// What a refusal makes of the room: on the form that was for it, which stays
/// open; the name question closes; else on the status line.
pub open spec fn refused_into(m: Room, what: Did, e: ApiError) -> Room {
    let msg = Msg::Failed(failed_words(what), e);
    if m.modal is Form && (what == Did::Accepted || what == Did::LimitsSaved) {
        m.showing(Modal::Form(Box::new(Form { error: Some(msg), ..*(m.modal->Form_0) })))
    } else if m.modal is PeerName && what == Did::PeerAdded {
        m.showing(Modal::Closed).saying(error(msg))
    } else {
        m.saying(error(msg))
    }
}

/// What an answer makes of the settled room.
pub open spec fn applied(m: Room, done: Done, post: Room) -> bool {
    match done {
        Done::Loaded(Ok(l)) => loaded_into(m, l, post),
        Done::Loaded(Err(e)) => post == m.saying(error(gate(e, "fed.load_failed"))),
        Done::Enabled { on, result } => match result {
            Ok(doc) => post == switched_endpoint(m, on, said_available(doc@)),
            Err(e) => post == (Room {
                starting: false,
                note: error(Msg::Failed(if on { "fed.fail_turn_on" } else { "fed.fail_turn_off" }, e)),
                queued: Some(Op::Load),
                ..m
            }),
        },
        Done::Minted { libraries, result } => match result {
            Ok(minted) => {
                &&& post == (Room {
                    modal: post.modal,
                    note: if minted.ticket is None { error(Msg::Key("fed.minted_no_ticket")) } else { None },
                    queued: Some(Op::Load),
                    ..m
                })
                &&& post.modal matches Modal::Minted { name, ticket, libraries: l } && name@ == printed(
                    minted.name@,
                    NAME_MAX as nat,
                ) && ticket == minted.ticket && l == libraries
            },
            Err(e) => match m.modal {
                Modal::Form(f) => post == m.showing(
                    Modal::Form(Box::new(Form { error: Some(Msg::Failed("fed.fail_mint", e)), ..*f })),
                ),
                _ => post == m.saying(error(Msg::Failed("fed.fail_mint", e))),
            },
        },
        Done::Tested { id, result } => match result {
            Ok(t) => tested(m, id, t, post),
            Err(e) => post == (Room { note: error(Msg::Failed("fed.fail_test", e)), queued: Some(Op::Load), ..m }),
        },
        Done::Did { what, result } => match result {
            Ok(_) => done_into(m, what, post),
            Err(e) => post == refused_into(m, what, e),
        },
    }
}

fn did_note(what: Did) -> (key: &'static str)
    ensures
        key == did_words(what),
{
    match what {
        Did::Inbox(on) => if on { "fed.done_inbox_on" } else { "fed.done_inbox_off" },
        Did::Accepted => "fed.done_accepted",
        Did::Declined => "fed.done_declined",
        Did::Cancelled => "fed.done_cancelled",
        Did::Dismissed => "fed.done_dismissed",
        Did::LimitsSaved => "fed.done_limits",
        Did::BindingReset => "fed.done_binding_reset",
        Did::Revoked => "fed.done_revoked",
        Did::PeerAdded => "fed.done_peer_added",
        Did::PeerDiscovery(_, _) => "fed.done_discovery",
        Did::PeerRemoved => "fed.done_forgotten",
    }
}

fn fail_note(what: Did) -> (key: &'static str)
    ensures
        key == failed_words(what),
{
    match what {
        Did::Inbox(_) => "fed.fail_inbox",
        Did::Accepted => "fed.fail_accept",
        Did::Declined => "fed.fail_decline",
        Did::Cancelled => "fed.fail_cancel",
        Did::Dismissed => "fed.fail_dismiss",
        Did::LimitsSaved => "fed.fail_limits",
        Did::BindingReset => "fed.fail_binding_reset",
        Did::Revoked => "fed.fail_revoke",
        Did::PeerAdded => "fed.fail_add_peer",
        Did::PeerDiscovery(_, _) => "fed.fail_discovery",
        Did::PeerRemoved => "fed.fail_forget",
    }
}

impl Room {
    fn fail(&mut self, what: &'static str, e: ApiError)
        ensures
            *final(self) == old(self).saying(error(Msg::Failed(what, e))),
    {
        self.note = Some(Note { msg: Msg::Failed(what, e), error: true });
    }

    fn take_load(&mut self, l: Loaded)
        ensures
            loaded_into(*old(self), l, *final(self)),
    {
        let on = l.params.enabled;
        if on {
            self.starting = false;
        }
        self.params = Some(l.params);
        if let Some((accept, requests)) = l.requests {
            self.accept_requests = accept;
            self.requests = requests;
        }
        if let Some(keys) = l.keys {
            self.keys = keys;
        }
        if let Some(peers) = l.peers {
            self.peers = peers;
        }
        if let Some(libraries) = l.libraries {
            self.libraries = libraries;
        }
        if !on {
            self.requests.clear();
            self.keys.clear();
            self.peers.clear();
            self.sel = None;
            self.ticket_focus = false;
        }
        let n: usize = self.rows();
        self.sel = keep_cursor(self.sel, n);
    }

    /// The endpoint was switched; `available` is what the answer said of the
    /// transport, if anything.
    pub fn take_enabled(&mut self, on: bool, available: Option<bool>)
        ensures
            *final(self) == switched_endpoint(*old(self), on, available),
    {
        let absent = match available {
            Some(a) => !a,
            None => false,
        };
        if absent {
            self.starting = false;
        }
        self.note = if on && absent { Some(Note { msg: Msg::Key("fed.unavailable_note"), error: true }) } else { None };
        self.reload(true);
    }

    fn take_test(&mut self, id: i64, t: PeerTest)
        ensures
            tested(*old(self), id, t, *final(self)),
    {
        broadcast use vstd::std_specs::hash::group_hash_axioms;

        let name = match self.peer_place(id) {
            Some(i) => printable(self.peers[i].name.as_str(), NAME_MAX),
            None => String::new(),
        };
        let name = Fill { name: "name", arg: Arg::Text(name) };
        if t.ok {
            let libs = match &t.libraries {
                Some(l) => gate_names(l),
                None => Vec::new(),
            };
            proof {
                assert(texts(libs@) =~= tested_libraries(t));
            }
            let shares = if libs.len() == 0 {
                Arg::Phrase(Box::new(Msg::Key("fed.shares_nothing")))
            } else {
                Arg::Text(join(&libs, ", "))
            };
            let libraries = Fill { name: "libraries", arg: shares };
            self.note = Some(Note { msg: Msg::Two("fed.test_ok", name, libraries), error: false });
            self.shares.insert(id, libs);
        } else {
            proof {
                reveal_strlit("");
                assert(""@ =~= Seq::<char>::empty());
            }
            let why = match &t.error {
                Some(e) => printable(e.as_str(), 200),
                None => printable("", 200),
            };
            let err = Fill { name: "err", arg: Arg::Text(why) };
            self.note = Some(Note { msg: Msg::Two("fed.test_failed", name, err), error: true });
        }
        self.reload(false);
    }

    fn take_done(&mut self, what: Did)
        ensures
            done_into(*old(self), what, *final(self)),
    {
        match what {
            Did::Accepted | Did::LimitsSaved => {
                self.modal = Modal::Closed;
            },
            Did::PeerAdded => {
                self.modal = Modal::Closed;
                self.ticket = blank();
            },
            Did::PeerDiscovery(id, on) => {
                if let Some(i) = self.peer_place(id) {
                    self.peers[i].use_discovery = on;
                }
            },
            _ => {},
        }
        self.note = Some(Note { msg: Msg::Key(did_note(what)), error: false });
        self.reload(false);
    }

    fn take_refusal(&mut self, what: Did, e: ApiError)
        ensures
            *final(self) == refused_into(*old(self), what, e),
    {
        let text = fail_note(what);
        let of_form = match what {
            Did::Accepted | Did::LimitsSaved => true,
            _ => false,
        };
        let of_peer = match what {
            Did::PeerAdded => true,
            _ => false,
        };
        match &mut self.modal {
            Modal::Form(f) => {
                if of_form {
                    f.error = Some(Msg::Failed(text, e));
                } else {
                    self.fail(text, e);
                }
            },
            Modal::PeerName { .. } => {
                if of_peer {
                    self.modal = Modal::Closed;
                }
                self.fail(text, e);
            },
            _ => self.fail(text, e),
        }
    }

    /// Folds one answer back into the state.
    pub fn apply(&mut self, done: Done)
        ensures
            applied(settled(*old(self)), done, *final(self)),
    {
        self.in_flight = false;
        self.busy = None;
        match done {
            Done::Loaded(Ok(l)) => self.take_load(l),
            Done::Loaded(Err(e)) => {
                self.note = Some(Note { msg: gate_message(e, "fed.load_failed"), error: true });
            },
            Done::Enabled { on, result } => match result {
                Ok(doc) => {
                    let available = match member_of(doc.as_str(), "available") {
                        Some(m) => bool_of(m.as_str()),
                        None => None,
                    };
                    self.take_enabled(on, available);
                },
                Err(e) => {
                    self.starting = false;
                    self.fail(if on { "fed.fail_turn_on" } else { "fed.fail_turn_off" }, e);
                    self.reload(false);
                },
            },
            Done::Minted { libraries, result } => match result {
                Ok(minted) => {
                    let name = printable(minted.name.as_str(), NAME_MAX);
                    self.note = if minted.ticket.is_none() {
                        Some(Note { msg: Msg::Key("fed.minted_no_ticket"), error: true })
                    } else {
                        None
                    };
                    self.modal = Modal::Minted { name, ticket: minted.ticket, libraries };
                    self.reload(false);
                },
                Err(e) => match &mut self.modal {
                    Modal::Form(f) => {
                        f.error = Some(Msg::Failed("fed.fail_mint", e));
                    },
                    _ => self.fail("fed.fail_mint", e),
                },
            },
            Done::Tested { id, result } => match result {
                Ok(t) => self.take_test(id, t),
                Err(e) => {
                    self.fail("fed.fail_test", e);
                    self.reload(false);
                },
            },
            Done::Did { what, result } => match result {
                Ok(_) => self.take_done(what),
                Err(e) => self.take_refusal(what, e),
            },
        }
    }

    /// Hands out the queued call, while none is running. `now` is in
    /// milliseconds.
    pub fn dispatch_queued(&mut self, now: u64) -> (op: Option<Op>)
        ensures
            old(self).in_flight ==> op is None && *final(self) == *old(self),
            !old(self).in_flight ==> op == old(self).queued && *final(self) == (match old(self).queued {
                Some(called) => Room {
                    queued: None,
                    in_flight: true,
                    last_load: if called is Load { Some(now) } else { old(self).last_load },
                    ..*old(self)
                },
                None => *old(self),
            }),
            op is Some <==> !old(self).in_flight && old(self).queued is Some,
            op is Some ==> op == old(self).queued && final(self).in_flight && final(self).queued is None,
    {
        if self.in_flight {
            return None;
        }
        let op = self.queued.take();
        if let Some(called) = &op {
            self.in_flight = true;
            if let Op::Load = called {
                self.last_load = Some(now);
            }
        }
        op
    }

    /// A call could not be handed to the worker.
    pub fn send_failed(&mut self)
        ensures
            *final(self) == (Room { in_flight: false, note: error(Msg::Key("note.worker_gone")), ..*old(self) }),
    {
        self.in_flight = false;
        self.note = Some(Note { msg: Msg::Key("note.worker_gone"), error: true });
    }

    /// The worker is gone.
    pub fn worker_gone(&mut self)
        ensures
            *final(self) == old(self).saying(error(Msg::Key("note.worker_gone"))),
    {
        self.note = Some(Note { msg: Msg::Key("note.worker_gone"), error: true });
    }

    /// Whether the state is due to be asked for again.
    pub open spec fn due(self, now: u64) -> bool {
        &&& self.on()
        &&& !self.in_flight
        &&& self.queued is None
        &&& self.last_load matches Some(t) ==> now - t >= POLL_EVERY
    }

    /// The poll, quiet: only while federation is on, never on top of a call
    /// already queued or running.
    pub fn tick(&mut self, now: u64)
        ensures
            *final(self) == (if old(self).due(now) { Room { queued: Some(Op::Load), ..*old(self) } } else { *old(self) }),
    {
        let late = match self.last_load {
            Some(t) => now >= t && now - t >= POLL_EVERY,
            None => true,
        };
        if self.enabled() && !self.in_flight && self.queued.is_none() && late {
            self.reload(false);
        }
    }

    /// The wheel scrolls the table, while no modal covers it.
    pub fn wheel(&mut self, up: bool)
        ensures
            *final(self) == (if old(self).modal is Closed {
                Room { tscroll: scrolled(old(self).tscroll, up), ..*old(self) }
            } else {
                *old(self)
            }),
    {
        if let Modal::Closed = self.modal {
            self.tscroll = scroll(self.tscroll, up);
        }
    }
}

/// The room, loading.
pub fn start() -> (room: Room)
    ensures
        room.fresh(),
        room.queued == Some(Op::Load),
        room.busy == Some(Msg::Key("fed.busy_loading")),
{
    let mut room = Room::new();
    room.reload(true);
    room
}

// ── Keys ─────────────────────────────────────────────────────────────────

/// Whether a field turns a character away: no bar and no control character in
/// the name, digits alone in the numbers, nothing once it is full.
pub open spec fn turned_away(f: Form, field: Field, c: char) -> bool {
    ||| field != Field::Name && !is_digit(c)
    ||| field == Field::Name && (c == '|' || control(c))
    ||| f.input(field) is Some && input_value(f.input(field)->0).len() >= (if field == Field::Name { NAME_MAX as int } else { 9 })
}

/// What typing into the focused field makes of the room.
pub open spec fn typed_in(pre: Room, f: Form, key: Key, post: Room) -> bool {
    let field = f.focused_field();
    if f.input(field) is None || (key.code matches Code::Char(c) && turned_away(f, field, c)) {
        post == pre
    } else {
        &&& only_form(pre, post)
        &&& post.modal->Form_0.input(field) is Some
        &&& {
            let input = post.modal->Form_0.input(field)->0;
            &&& after_key(f.input(field)->0, key, input, key_changes(f.input(field)->0, key))
            &&& *(post.modal->Form_0) == (Form { error: None, ..f.with_input(field, input) })
        }
    }
}

/// What a key makes of a room with its form open.
pub open spec fn form_keyed(pre: Room, f: Form, key: Key, now: i64, post: Room, out: Option<Outcome>) -> bool {
    let n = f.field_list().len() as int;
    match key.code {
        Code::Esc => acted(pre, Act::FormCancel, now, post, out),
        Code::Enter => acted(pre, Act::FormSubmit, now, post, out),
        Code::Tab | Code::Down => out is None && post == pre.showing(
            Modal::Form(Box::new(Form { focus: after(f.focus as int, n) as usize, ..f })),
        ),
        Code::BackTab | Code::Up => out is None && post == pre.showing(
            Modal::Form(Box::new(Form { focus: before(f.focus as int, n) as usize, ..f })),
        ),
        Code::Char(c) => if c == ' ' && f.input(f.focused_field()) is None {
            acted(pre, Act::FormToggle(f.focus), now, post, out)
        } else {
            out is None && typed_in(pre, f, key, post)
        },
        _ => out is None && typed_in(pre, f, key, post),
    }
}

/// What a key makes of a room with a warning open: `y` goes through, Esc, Enter
/// and `n` go back.
pub open spec fn gate_keyed(pre: Room, yes: Act, no: Act, key: Key, now: i64, post: Room, out: Option<Outcome>) -> bool {
    if key.code == Code::Char('y') {
        acted(pre, yes, now, post, out)
    } else if key.code == Code::Esc || key.code == Code::Enter || key.code == Code::Char('n') {
        acted(pre, no, now, post, out)
    } else {
        post == pre && out is None
    }
}

/// An action on a row, if there is one.
pub open spec fn on_row(
    pre: Room,
    id: Option<i64>,
    act: spec_fn(i64) -> Act,
    now: i64,
    post: Room,
    out: Option<Outcome>,
) -> bool {
    match id {
        Some(id) => acted(pre, act(id), now, post, out),
        None => post == pre && out is None,
    }
}

/// What a character makes of a room with nothing over its tables.
pub open spec fn char_keyed(pre: Room, c: char, now: i64, post: Room, out: Option<Outcome>) -> bool {
    let request = match pre.cursor_request() {
        Some(r) => Some(r.id),
        None => None,
    };
    let ticket = match pre.cursor_key() {
        Some(k) => Some(k.id),
        None => None,
    };
    let peer = match pre.cursor_peer() {
        Some(p) => Some(p.id),
        None => None,
    };
    if c == 'a' {
        on_row(pre, request, |id: i64| Act::Accept(id), now, post, out)
    } else if c == 'c' {
        on_row(pre, request, |id: i64| Act::CancelRequest(id), now, post, out)
    } else if c == 'd' {
        on_row(pre, request, |id: i64| Act::Dismiss(id), now, post, out)
    } else if c == 'n' {
        match pre.tab {
            Tab::Requests => on_row(pre, request, |id: i64| Act::Decline(id), now, post, out),
            Tab::Tickets => acted(pre, Act::Mint, now, post, out),
            Tab::Peers => post == pre && out is None,
        }
    } else if c == 's' {
        match pre.tab {
            Tab::Requests => acted(pre, Act::ToggleInbox, now, post, out),
            Tab::Tickets => post == pre && out is None,
            Tab::Peers => on_row(pre, peer, |id: i64| Act::ToggleDiscovery(id), now, post, out),
        }
    } else if c == 'y' {
        on_row(pre, ticket, |id: i64| Act::CopyTicket(id), now, post, out)
    } else if c == 'l' {
        on_row(pre, ticket, |id: i64| Act::Limits(id), now, post, out)
    } else if c == 'b' {
        on_row(pre, ticket, |id: i64| Act::ResetBinding(id), now, post, out)
    } else if c == 'r' {
        removal_keyed(pre, now, post, out)
    } else if c == 't' {
        on_row(pre, peer, |id: i64| Act::Test(id), now, post, out)
    } else if c == 'j' {
        acted(pre, Act::TicketFocus, now, post, out)
    } else if c == 'x' {
        acted(pre, Act::TurnOff, now, post, out)
    } else if c == 'q' {
        acted(pre, Act::Quit, now, post, out)
    } else {
        post == pre && out is None
    }
}

/// What the key that takes a row away makes of the room: the row's warning.
pub open spec fn removal_keyed(pre: Room, now: i64, post: Room, out: Option<Outcome>) -> bool {
    match (pre.cursor_key(), pre.cursor_peer()) {
        (Some(k), _) => acted(pre, Act::Revoke(k.id), now, post, out),
        (None, Some(p)) => acted(pre, Act::Forget(p.id), now, post, out),
        _ => post == pre && out is None,
    }
}

/// What a key makes of a room with nothing over its tables.
pub open spec fn table_keyed(pre: Room, key: Key, now: i64, post: Room, out: Option<Outcome>) -> bool {
    let n = pre.row_count() as int;
    match key.code {
        Code::Up => out is None && post == (if n > 0 { Room { sel: row_up(pre.sel, n), ..pre } } else { pre }),
        Code::Down => out is None && post == (if n > 0 { Room { sel: row_down(pre.sel, n), ..pre } } else { pre }),
        Code::Left => out is None && post == switched(pre, tab_beside(pre.tab, false)),
        Code::Right => out is None && post == switched(pre, tab_beside(pre.tab, true)),
        Code::Esc => if pre.sel is Some {
            out is None && post == (Room { sel: None, ..pre })
        } else {
            acted(pre, Act::Quit, now, post, out)
        },
        Code::Enter => match (pre.cursor_request(), pre.cursor_peer()) {
            (Some(r), _) => acted(pre, Act::Accept(r.id), now, post, out),
            (None, Some(p)) => acted(pre, Act::Test(p.id), now, post, out),
            _ => post == pre && out is None,
        },
        Code::Delete => removal_keyed(pre, now, post, out),
        Code::Char(c) => char_keyed(pre, c, now, post, out),
        _ => post == pre && out is None,
    }
}

/// What a key makes of a room with no modal: off, it has two keys; the paste
/// box with the focus takes the keys, and Esc gives them back.
pub open spec fn room_keyed(pre: Room, key: Key, now: i64, post: Room, out: Option<Outcome>) -> bool {
    if !pre.on() {
        if key.code == Code::Enter {
            acted(pre, Act::TurnOn, now, post, out)
        } else if key.code == Code::Esc || key.code == Code::Char('q') {
            acted(pre, Act::Quit, now, post, out)
        } else {
            post == pre && out is None
        }
    } else if pre.ticket_focus {
        if key.code == Code::Esc {
            post == (Room { ticket_focus: false, ..pre }) && out is None
        } else if key.code == Code::Enter {
            acted(pre, Act::TicketAdd, now, post, out)
        } else {
            &&& post == (Room { ticket: post.ticket, ..pre })
            &&& after_key(pre.ticket, key, post.ticket, key_changes(pre.ticket, key))
            &&& out is None
        }
    } else {
        table_keyed(pre, key, now, post, out)
    }
}

/// What a key makes of the room, and whether it ends it.
pub open spec fn keyed(pre: Room, key: Key, now: i64, post: Room, out: Option<Outcome>) -> bool {
    match pre.modal {
        Modal::Closed => room_keyed(pre, key, now, post, out),
        Modal::Form(f) => form_keyed(pre, *f, key, now, post, out),
        Modal::Minted { name, ticket, libraries } => if key.code == Code::Esc || key.code == Code::Enter {
            acted(pre, Act::MintedDone, now, post, out)
        } else if key.code == Code::Char('y') {
            acted(pre, Act::MintedCopy, now, post, out)
        } else {
            post == pre && out is None
        },
        Modal::PeerName { ticket, name, preview } => if key.code == Code::Esc {
            acted(pre, Act::PeerNameCancel, now, post, out)
        } else if key.code == Code::Enter {
            acted(pre, Act::PeerNameAdd, now, post, out)
        } else if key.code matches Code::Char(c) && (c == '|' || control(c) || input_value(name).len() >= NAME_MAX) {
            post == pre && out is None
        } else {
            &&& post.modal matches Modal::PeerName { ticket: t, name: n, preview: p } && after_key(
                name,
                key,
                n,
                key_changes(name, key),
            ) && post == pre.showing(Modal::PeerName { ticket, name: n, preview })
            &&& out is None
        },
        Modal::Decline(_) => gate_keyed(pre, Act::DeclineConfirm, Act::DeclineCancel, key, now, post, out),
        Modal::Revoke(_) => gate_keyed(pre, Act::RevokeConfirm, Act::RevokeCancel, key, now, post, out),
        Modal::Forget(_) => gate_keyed(pre, Act::ForgetConfirm, Act::ForgetCancel, key, now, post, out),
        Modal::TurnOff => gate_keyed(pre, Act::TurnOffConfirm, Act::TurnOffCancel, key, now, post, out),
    }
}

fn turns_away(f: &Form, field: Field, c: char) -> (r: bool)
    ensures
        r == turned_away(*f, field, c),
{
    let name = match field {
        Field::Name => true,
        _ => false,
    };
    let line = match field {
        Field::Library(_) | Field::TheirOffer => false,
        _ => true,
    };
    let allowed = if name { c != '|' && !is_control(c) } else { '0' <= c && c <= '9' };
    let max: usize = if name { NAME_MAX } else { 9 };
    !allowed || (line && f.length_of(field) >= max)
}

fn form_key(room: &mut Room, key: Key, now: i64) -> (out: Option<Outcome>)
    requires
        old(room).modal is Form,
        key.code == Code::Enter ==> old(room).dated(now),
    ensures
        form_keyed(*old(room), *(old(room).modal->Form_0), key, now, *final(room), out),
{
    match key.code {
        Code::Esc => return room.act(Act::FormCancel, now),
        Code::Enter => return room.act(Act::FormSubmit, now),
        _ => {},
    }
    let mut toggle: Option<usize> = None;
    if let Modal::Form(f) = &mut room.modal {
        let n: usize = f.fields().len();
        let field = f.focused();
        let line = match field {
            Field::Library(_) | Field::TheirOffer => false,
            _ => true,
        };
        match key.code {
            Code::Tab | Code::Down => {
                f.focus = next_choice(f.focus, n);
                return None;
            },
            Code::BackTab | Code::Up => {
                f.focus = previous_choice(f.focus, n);
                return None;
            },
            Code::Char(c) => {
                if c == ' ' && !line {
                    toggle = Some(f.focus);
                } else if turns_away(f, field, c) || !line {
                    return None;
                }
            },
            _ => {
                if !line {
                    return None;
                }
            },
        }
        if toggle.is_none() {
            f.type_into(field, key);
            f.error = None;
        }
    }
    match toggle {
        Some(i) => room.act(Act::FormToggle(i), now),
        None => None,
    }
}

fn gate_key(room: &mut Room, yes: Act, no: Act, key: Key, now: i64) -> (out: Option<Outcome>)
    requires
        !(yes is FormSubmit),
        !(no is FormSubmit),
    ensures
        gate_keyed(*old(room), yes, no, key, now, *final(room), out),
{
    match key.code {
        Code::Char(c) => if c == 'y' {
            room.act(yes, now)
        } else if c == 'n' {
            room.act(no, now)
        } else {
            None
        },
        Code::Esc | Code::Enter => room.act(no, now),
        _ => None,
    }
}

fn removal_key(room: &mut Room, now: i64) -> (out: Option<Outcome>)
    ensures
        removal_keyed(*old(room), now, *final(room), out),
{
    let ticket: Option<i64> = match room.selected_key() {
        Some(k) => Some(k.id),
        None => None,
    };
    let peer: Option<i64> = match room.selected_peer() {
        Some(p) => Some(p.id),
        None => None,
    };
    match (ticket, peer) {
        (Some(id), _) => room.act(Act::Revoke(id), now),
        (None, Some(id)) => room.act(Act::Forget(id), now),
        _ => None,
    }
}

fn char_key(room: &mut Room, c: char, now: i64) -> (out: Option<Outcome>)
    ensures
        char_keyed(*old(room), c, now, *final(room), out),
{
    let request: Option<i64> = match room.selected_request() {
        Some(r) => Some(r.id),
        None => None,
    };
    let ticket: Option<i64> = match room.selected_key() {
        Some(k) => Some(k.id),
        None => None,
    };
    let peer: Option<i64> = match room.selected_peer() {
        Some(p) => Some(p.id),
        None => None,
    };
    if c == 'j' {
        return room.act(Act::TicketFocus, now);
    }
    if c == 'x' {
        return room.act(Act::TurnOff, now);
    }
    if c == 'q' {
        return room.act(Act::Quit, now);
    }
    if c == 'r' {
        return removal_key(room, now);
    }
    match room.tab {
        Tab::Requests => {
            if c == 's' {
                return room.act(Act::ToggleInbox, now);
            }
            match request {
                Some(id) => if c == 'a' {
                    room.act(Act::Accept(id), now)
                } else if c == 'c' {
                    room.act(Act::CancelRequest(id), now)
                } else if c == 'd' {
                    room.act(Act::Dismiss(id), now)
                } else if c == 'n' {
                    room.act(Act::Decline(id), now)
                } else {
                    None
                },
                None => None,
            }
        },
        Tab::Tickets => {
            if c == 'n' {
                return room.act(Act::Mint, now);
            }
            match ticket {
                Some(id) => if c == 'y' {
                    room.act(Act::CopyTicket(id), now)
                } else if c == 'l' {
                    room.act(Act::Limits(id), now)
                } else if c == 'b' {
                    room.act(Act::ResetBinding(id), now)
                } else {
                    None
                },
                None => None,
            }
        },
        Tab::Peers => match peer {
            Some(id) => if c == 's' {
                room.act(Act::ToggleDiscovery(id), now)
            } else if c == 't' {
                room.act(Act::Test(id), now)
            } else {
                None
            },
            None => None,
        },
    }
}

fn table_key(room: &mut Room, key: Key, now: i64) -> (out: Option<Outcome>)
    ensures
        table_keyed(*old(room), key, now, *final(room), out),
{
    let n: usize = room.rows();
    match key.code {
        Code::Up => {
            if n > 0 {
                room.sel = cursor_up(room.sel, n);
            }
            None
        },
        Code::Down => {
            if n > 0 {
                room.sel = cursor_down(room.sel, n);
            }
            None
        },
        Code::Left => {
            let to = room.tab.next(false);
            room.switch_tab(to);
            None
        },
        Code::Right => {
            let to = room.tab.next(true);
            room.switch_tab(to);
            None
        },
        Code::Esc => {
            if room.sel.is_some() {
                room.sel = None;
                None
            } else {
                room.act(Act::Quit, now)
            }
        },
        Code::Enter => {
            let request: Option<i64> = match room.selected_request() {
                Some(r) => Some(r.id),
                None => None,
            };
            let peer: Option<i64> = match room.selected_peer() {
                Some(p) => Some(p.id),
                None => None,
            };
            match (request, peer) {
                (Some(id), _) => room.act(Act::Accept(id), now),
                (None, Some(id)) => room.act(Act::Test(id), now),
                _ => None,
            }
        },
        Code::Delete => removal_key(room, now),
        Code::Char(c) => char_key(room, c, now),
        _ => None,
    }
}

fn room_key(room: &mut Room, key: Key, now: i64) -> (out: Option<Outcome>)
    ensures
        room_keyed(*old(room), key, now, *final(room), out),
{
    if !room.enabled() {
        match key.code {
            Code::Enter => room.act(Act::TurnOn, now),
            Code::Esc => room.act(Act::Quit, now),
            Code::Char(c) => if c == 'q' {
                room.act(Act::Quit, now)
            } else {
                None
            },
            _ => None,
        }
    } else if room.ticket_focus {
        match key.code {
            Code::Esc => {
                room.ticket_focus = false;
                None
            },
            Code::Enter => room.act(Act::TicketAdd, now),
            _ => {
                edit(&mut room.ticket, key);
                None
            },
        }
    } else {
        table_key(room, key, now)
    }
}

/// A key press. `now` is in Unix seconds.
pub fn handle_key(room: &mut Room, key: Key, now: i64) -> (out: Option<Outcome>)
    requires
        key.code == Code::Enter ==> old(room).dated(now),
    ensures
        keyed(*old(room), key, now, *final(room), out),
{
    match &mut room.modal {
        Modal::Closed => room_key(room, key, now),
        Modal::Form(_) => form_key(room, key, now),
        Modal::Minted { .. } => match key.code {
            Code::Esc | Code::Enter => room.act(Act::MintedDone, now),
            Code::Char(c) => if c == 'y' {
                room.act(Act::MintedCopy, now)
            } else {
                None
            },
            _ => None,
        },
        Modal::PeerName { ticket, name, preview } => match key.code {
            Code::Esc => room.act(Act::PeerNameCancel, now),
            Code::Enter => room.act(Act::PeerNameAdd, now),
            Code::Char(c) => {
                if !(c == '|' || is_control(c) || name.value().unicode_len() >= NAME_MAX) {
                    edit(name, key);
                }
                None
            },
            _ => {
                edit(name, key);
                None
            },
        },
        Modal::Decline(_) => gate_key(room, Act::DeclineConfirm, Act::DeclineCancel, key, now),
        Modal::Revoke(_) => gate_key(room, Act::RevokeConfirm, Act::RevokeCancel, key, now),
        Modal::Forget(_) => gate_key(room, Act::ForgetConfirm, Act::ForgetCancel, key, now),
        Modal::TurnOff => gate_key(room, Act::TurnOffConfirm, Act::TurnOffCancel, key, now),
    }
}

// ── Laws ─────────────────────────────────────────────────────────────────

/// Enter and Esc are the safe choice on every warning: they close it, and nothing
/// is queued.
pub proof fn gates_are_safe_on_enter(pre: Room, key: Key, now: i64, post: Room, out: Option<Outcome>)
    requires
        pre.modal is Decline || pre.modal is Revoke || pre.modal is Forget || pre.modal is TurnOff,
        key.code == Code::Enter || key.code == Code::Esc,
        keyed(pre, key, now, post, out),
    ensures
        post == pre.showing(Modal::Closed),
        out is None,
{
}

/// A call that takes something away: a request declined, a ticket revoked, a
/// peer forgotten, federation turned off.
pub open spec fn takes_away(op: Op) -> bool {
    op is Reject || op is Revoke || op is RemovePeer || op == Op::SetEnabled(false)
}

/// The warning in front of a call that takes something away.
pub open spec fn gate_of(op: Op) -> Modal {
    match op {
        Op::Reject(id) => Modal::Decline(id),
        Op::Revoke(id) => Modal::Revoke(id),
        Op::RemovePeer(id) => Modal::Forget(id),
        _ => Modal::TurnOff,
    }
}

proof fn chars_take_nothing_away(pre: Room, c: char, now: i64, post: Room, out: Option<Outcome>)
    requires
        char_keyed(pre, c, now, post, out),
    ensures
        post.queued matches Some(op) ==> takes_away(op) ==> pre.queued == post.queued,
{
}

proof fn tables_take_nothing_away(pre: Room, key: Key, now: i64, post: Room, out: Option<Outcome>)
    requires
        table_keyed(pre, key, now, post, out),
    ensures
        post.queued matches Some(op) ==> takes_away(op) ==> pre.queued == post.queued,
{
    if let Code::Char(c) = key.code {
        chars_take_nothing_away(pre, c, now, post, out);
    }
}

proof fn forms_take_nothing_away(pre: Room, f: Form, key: Key, now: i64, post: Room, out: Option<Outcome>)
    requires
        pre.modal == Modal::Form(Box::new(f)),
        form_keyed(pre, f, key, now, post, out),
    ensures
        post.queued matches Some(op) ==> takes_away(op) ==> pre.queued == post.queued,
{
}

/// What takes something away is queued only from its own warning, for the row
/// that the warning names, and only by `y`.
pub proof fn taking_away_needs_the_gate(pre: Room, key: Key, now: i64, post: Room, out: Option<Outcome>, op: Op)
    requires
        keyed(pre, key, now, post, out),
        post.queued == Some(op),
        takes_away(op),
        pre.queued != post.queued,
    ensures
        pre.modal == gate_of(op),
        key.code == Code::Char('y'),
{
    match pre.modal {
        Modal::Closed => {
            if pre.on() && !pre.ticket_focus {
                tables_take_nothing_away(pre, key, now, post, out);
            }
        },
        Modal::Form(f) => forms_take_nothing_away(pre, *f, key, now, post, out),
        _ => {},
    }
}

/// No action but a warning's own confirmation queues what takes something away.
pub proof fn taking_away_needs_the_confirmation(pre: Room, act: Act, now: i64, post: Room, out: Option<Outcome>, op: Op)
    requires
        acted(pre, act, now, post, out),
        post.queued == Some(op),
        takes_away(op),
        pre.queued != post.queued,
    ensures
        act == Act::DeclineConfirm || act == Act::RevokeConfirm || act == Act::ForgetConfirm || act == Act::TurnOffConfirm,
        op != Op::SetEnabled(false) ==> pre.modal == gate_of(op),
{
}

/// After a load the cursor is on a row that exists, or nowhere; off, there are
/// no rows.
pub proof fn the_cursor_stays_on_a_row(m: Room, l: Loaded, post: Room)
    requires
        applied(m, Done::Loaded(Ok(l)), post),
    ensures
        post.sel matches Some(s) ==> s < post.row_count(),
        !post.on() ==> post.row_count() == 0 && !post.ticket_focus,
{
}

/// Nothing is shared by a call of the form unless a library is ticked, and no
/// ticket is minted without a name.
pub proof fn nothing_is_shared_unticked(pre: Room, now: i64, post: Room, op: Op)
    requires
        submitted(pre, now, post),
        post.queued == Some(op),
        pre.queued != post.queued,
    ensures
        op matches Op::Mint { name, vpaths, limits, expires_at } ==> name@.len() > 0 && vpaths@.len() > 0,
        op matches Op::Accept { id, vpaths, limits, expires_at, accept_their_offer } ==> vpaths@.len() > 0,
{
}

/// While the endpoint's start is on its way, asking again does nothing.
pub proof fn one_start_at_a_time(pre: Room, now: i64, post: Room, out: Option<Outcome>)
    requires
        pre.starting,
        acted(pre, Act::TurnOn, now, post, out),
    ensures
        post == pre,
{
}

/// A start is on its way until a load says that the endpoint is on: a load that
/// says off leaves it waiting.
pub proof fn a_start_waits_for_the_endpoint(m: Room, l: Loaded, post: Room)
    requires
        m.starting,
        applied(m, Done::Loaded(Ok(l)), post),
    ensures
        post.starting <==> !post.on(),
{
}

/// A start that failed, or found no transport, is over.
pub proof fn a_failed_start_is_over(m: Room, on: bool, result: Result<String, ApiError>, post: Room)
    requires
        applied(m, Done::Enabled { on, result }, post),
        result matches Ok(doc) ==> said_available(doc@) == Some(false),
    ensures
        !post.starting,
{
}

/// A refusal keeps the form that it is about, with what was typed.
pub proof fn a_refusal_keeps_the_form(m: Room, f: Form, what: Did, e: ApiError, post: Room)
    requires
        m.modal == Modal::Form(Box::new(f)),
        what == Did::Accepted || what == Did::LimitsSaved,
        applied(m, Done::Did { what, result: Err(e) }, post),
    ensures
        post == m.showing(Modal::Form(Box::new(Form { error: Some(Msg::Failed(failed_words(what), e)), ..f }))),
{
}

/// A character that a name may hold.
pub open spec fn name_char(c: char) -> bool {
    c != '|' && !control(c)
}

/// The number fields of a form hold digits alone, its name no bar and no
/// control character.
pub open spec fn clean(f: Form) -> bool {
    let digit = |c: char| is_digit(c);
    all_of(f.stream_kbps, digit) && all_of(f.daily_mb, digit) && all_of(f.max_streams, digit) && all_of(f.expires, digit)
        && all_of(f.name, |c: char| name_char(c))
}

/// A form opens clean.
pub proof fn forms_open_clean(f: Form, kind: FormKind, libraries: Seq<String>, limits: FederationLimits)
    requires
        is_new_form(f, kind, libraries, limits),
    ensures
        clean(f),
{
    reveal_strlit("0");
    decimals_are_digits(limits.stream_kbps as nat);
    decimals_are_digits(limits.daily_mb as nat);
    decimals_are_digits(limits.max_streams as nat);
}

/// No key brings anything but a digit into a number field, nor a bar or a
/// control character into the name.
pub proof fn forms_stay_clean(pre: Room, f: Form, key: Key, now: i64, post: Room, out: Option<Outcome>)
    requires
        pre.modal == Modal::Form(Box::new(f)),
        clean(f),
        keyed(pre, key, now, post, out),
    ensures
        post.modal matches Modal::Form(g) ==> clean(*g),
{
    let field = f.focused_field();
    let kind = if field == Field::Name { |c: char| name_char(c) } else { |c: char| is_digit(c) };
    if f.input(field) is Some && post.modal is Form {
        let i = f.input(field)->0;
        let j = post.modal->Form_0.input(field)->0;
        let changed = key_changes(i, key);
        if after_key(i, key, j, changed) && (key.code matches Code::Char(c) ==> !turned_away(f, field, c)) {
            stays_of_a_kind(i, key, j, changed, kind);
        }
    }
}

} // verus!
