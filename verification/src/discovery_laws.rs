//! What holds of the discovery room as a whole: what is typed, ticked and
//! pointed at is what the network is told.

use vstd::prelude::*;

use crate::discovery::{
    Act, Bounds, CatalogPeer, Compose, DiscoveryActivity, DiscoverySetting, DiscoveryStatus, Done, IdentityDraft, Loaded, Modal, Op,
    PeerAction, Range, Relation, Room, SettingDraft, Tab,
};
use crate::federation::FederationRequest;
use crate::line::{Code, Key};
use crate::msg::{ApiError, Arg, Msg};
use crate::screen::Outcome;

verus! {

use crate::discovery::{acted, applied, froms, keyed, matches_query, matching, relation_to, setting_at, took_activity};
use crate::federation::{offered, shown_name, states_are_told_apart, ticked};
use crate::federation_laws::{shares_the_ticked, what_is_ticked_is_shared};
use crate::line::{holds, input_value};
use crate::outside::lower_case;
use crate::screen::{place_holds, place_of};
use crate::text::{contains_text, dec, numbers_read_back, plain_ends_stay, trimmed, white};

// ── Who this server is ───────────────────────────────────────────────────

/// What is announced once a change is applied to what was: the change, or what
/// was where there is none.
pub open spec fn after_change(change: Option<String>, was: Seq<char>) -> Seq<char> {
    match change {
        Some(s) => s@,
        None => was,
    }
}

/// What the server announces once the saved identity has been applied is what
/// was typed, each field in its place; what did not change is not sent, and
/// without a name nothing is.
pub proof fn the_identity_announced_is_the_one_typed(pre: Room, s: DiscoveryStatus, d: IdentityDraft, post: Room, out: Option<Outcome>)
    requires
        pre.modal == Modal::Identity(d),
        pre.status == Some(s),
        pre.queued is None,
        acted(pre, Act::IdentitySave, post, out),
    ensures
        trimmed(input_value(d.name)).len() == 0 ==> post.queued is None && (post.modal matches Modal::Identity(e) && e.error is Some),
        trimmed(input_value(d.name)).len() > 0 ==> match post.queued {
            Some(Op::Identity { name, description }) => {
                &&& after_change(name, s.server_name@) == trimmed(input_value(d.name))
                &&& after_change(description, s.server_description@) == trimmed(input_value(d.description))
                &&& name matches Some(n) ==> n@ != s.server_name@
                &&& description matches Some(n) ==> n@ != s.server_description@
                &&& name is Some || description is Some
            },
            Some(_) => false,
            None => {
                &&& s.server_name@ == trimmed(input_value(d.name))
                &&& s.server_description@ == trimmed(input_value(d.description))
                &&& post.modal is Closed
            },
        },
{
}

/// The identity opens with what is announced, each field in its place, so that
/// saving it as it opened sends nothing.
pub proof fn an_untouched_identity_stays(pre: Room, s: DiscoveryStatus, open: Room, post: Room, out: Option<Outcome>)
    requires
        pre.status == Some(s),
        s.enabled,
        s.server_name@.len() > 0 && !white(s.server_name@[0]) && !white(s.server_name@.last()),
        s.server_description@.len() > 0 ==> !white(s.server_description@[0]) && !white(s.server_description@.last()),
        acted(pre, Act::IdentityOpen, open, out),
        acted(open, Act::IdentitySave, post, out),
    ensures
        open.modal matches Modal::Identity(d) && input_value(d.name) == s.server_name@ && input_value(d.description)
            == s.server_description@ && !d.on_description,
        open.queued == pre.queued,
        post.queued == pre.queued,
        post.modal is Closed,
{
    plain_ends_stay(s.server_name@);
    plain_ends_stay(s.server_description@);
}

/// Typing reaches the field that has the focus, and leaves the other alone.
pub proof fn typing_reaches_one_field(pre: Room, d: IdentityDraft, key: Key, post: Room, out: Option<Outcome>)
    requires
        pre.modal == Modal::Identity(d),
        key.code is Char,
        keyed(pre, key, post, out),
    ensures
        post.modal matches Modal::Identity(e) && if d.on_description {
            e.name == d.name && e.on_description
        } else {
            e.description == d.description && !e.on_description
        },
        post.queued == pre.queued,
{
}

// ── The settings ─────────────────────────────────────────────────────────

/// A setting's value, by its own field of the status.
pub open spec fn setting_in(s: DiscoveryStatus, which: DiscoverySetting, v: int) -> bool {
    match which {
        DiscoverySetting::MaxStorageMb => v == s.max_peer_db_storage_mb,
        DiscoverySetting::PeerRetentionDays => v == s.peer_retention_days,
        DiscoverySetting::AutoFetchCount => v == s.auto_fetch_count,
        DiscoverySetting::RotationDays => v == s.rotation_days,
        DiscoverySetting::SidecarMaxRssMb => v == s.watchdog.max_rss_mb,
    }
}

/// The bounds of a setting, by its own field.
pub open spec fn bounded_by(b: Bounds, which: DiscoverySetting, r: Range) -> bool {
    match which {
        DiscoverySetting::MaxStorageMb => r == b.max_storage_mb,
        DiscoverySetting::PeerRetentionDays => r == b.peer_retention_days,
        DiscoverySetting::AutoFetchCount => r == b.auto_fetch_count,
        DiscoverySetting::RotationDays => r == b.rotation_days,
        DiscoverySetting::SidecarMaxRssMb => r == b.sidecar_max_rss_mb,
    }
}

/// A number that is typed for a setting is what is sent for that setting,
/// exactly where its range takes it; anything else is refused and sends
/// nothing.
pub proof fn settings_are_sent_as_typed(pre: Room, d: SettingDraft, v: nat, r: Range, post: Room, out: Option<Outcome>)
    requires
        pre.modal == Modal::Setting(d),
        input_value(d.value) == dec(v),
        bounded_by(pre.bounds, d.which, r),
        acted(pre, Act::SettingSave, post, out),
    ensures
        r.min <= v <= r.max ==> post.queued == Some(Op::Setting { which: d.which, value: v as u64 }),
        !(r.min <= v <= r.max) ==> post.queued == pre.queued && (post.modal matches Modal::Setting(e) && e.which == d.which
            && e.value == d.value && (e.error matches Some(Msg::Two(_, least, most)) && least.arg == Arg::Nat(r.min) && most.arg
            == Arg::Nat(r.max))),
{
    numbers_read_back(v, u64::MAX as nat);
}

/// A setting opens with its value, and sending it as it opened sends that value
/// again.
pub proof fn settings_open_with_their_value(pre: Room, s: DiscoveryStatus, which: DiscoverySetting, v: int, r: Range, open: Room, post: Room, out: Option<Outcome>)
    requires
        pre.status == Some(s),
        s.enabled,
        setting_in(s, which, v),
        bounded_by(pre.bounds, which, r),
        r.min <= v <= r.max,
        acted(pre, Act::SettingOpen(which), open, out),
        acted(open, Act::SettingSave, post, out),
    ensures
        open.modal matches Modal::Setting(d) && d.which == which && input_value(d.value) == dec(v as nat),
        post.queued == Some(Op::Setting { which, value: v as u64 }),
{
    let d = open.modal->Setting_0;
    assert(0 <= v);
    settings_are_sent_as_typed(open, d, v as nat, r, post, out);
}

/// A setting that was saved shows its new value, and no other changes.
pub proof fn saved_settings_show(m: Room, s: DiscoveryStatus, which: DiscoverySetting, value: u64, post: Room, other: DiscoverySetting, v: int)
    requires
        m.status == Some(s),
        value <= u32::MAX,
        applied(m, Done::Setting { which, value, result: Ok(()) }, post),
        other != which,
        setting_in(s, other, v),
    ensures
        post.status matches Some(t) && setting_in(t, which, value as int) && setting_in(t, other, v) && t.server_name == s.server_name
            && t.enabled == s.enabled,
{
}

/// Each setting has a digit of its own.
pub proof fn settings_have_their_digits(c: char)
    ensures
        setting_at(c) == Some(DiscoverySetting::MaxStorageMb) <==> c == '1',
        setting_at(c) == Some(DiscoverySetting::PeerRetentionDays) <==> c == '2',
        setting_at(c) == Some(DiscoverySetting::AutoFetchCount) <==> c == '3',
        setting_at(c) == Some(DiscoverySetting::RotationDays) <==> c == '4',
        setting_at(c) == Some(DiscoverySetting::SidecarMaxRssMb) <==> c == '5',
        setting_at(c) is None <==> !('1' <= c <= '5'),
{
}

// ── Requests to other servers ────────────────────────────────────────────

/// Endpoint ids that occur once.
pub open spec fn unique(ids: Seq<Seq<char>>) -> bool {
    forall|i: int, j: int| 0 <= i < j < ids.len() ==> ids[i] != ids[j]
}

proof fn found_where_it_is(ids: Seq<Seq<char>>, i: int)
    requires
        unique(ids),
        0 <= i < ids.len(),
    ensures
        place_of(ids, ids[i]) == Some(i),
{
    place_holds(ids, ids[i]);
}

/// A request goes to the server that it was written to, with the message typed
/// and the ticked libraries as the offer; not before the libraries are known.
pub proof fn requests_are_sent_as_written(pre: Room, c: Compose, post: Room, out: Option<Outcome>)
    requires
        pre.modal == Modal::Federate(c),
        acted(pre, Act::ComposeSend, post, out),
    ensures
        c.loaded ==> (post.queued matches Some(Op::SendRequest { id, name, offer, message }) && id == c.id && name == c.name
            && shares_the_ticked(offer@, c.libraries@) && message@ == trimmed(input_value(c.message))),
        !c.loaded ==> post == pre,
{
    what_is_ticked_is_shared(c.libraries@);
}

/// A request opens on its server with every library offered, once they are
/// known: sent as it opened, it offers them all.
pub proof fn a_fresh_request_offers_everything(
    pre: Room,
    i: int,
    open: Room,
    names: Vec<String>,
    loaded: Room,
    post: Room,
    out: Option<Outcome>,
)
    requires
        0 <= i < pre.catalog.peers@.len(),
        unique(froms(pre.catalog.peers@)),
        pre.federation.available,
        relation_to(pre.requests@, pre.catalog.peers@[i].from@) == Relation::Unrelated,
        acted(pre, Act::Federate(pre.catalog.peers@[i].from), open, out),
        applied(open, Done::Libraries(Ok(names)), loaded),
        acted(loaded, Act::ComposeSend, post, out),
    ensures
        open.queued == Some(Op::Libraries),
        post.queued matches Some(Op::SendRequest { id, name, offer, message }) && id == pre.catalog.peers@[i].from && offer@
            == names@ && message@.len() == 0,
{
    found_where_it_is(froms(pre.catalog.peers@), i);
    all_offered_are_ticked(names@);
    let c = loaded.modal->Federate_0;
    plain_ends_stay(input_value(c.message));
}

proof fn all_offered_are_ticked(names: Seq<String>)
    ensures
        ticked(offered(names, true)) == names,
    decreases names.len(),
{
    let v = offered(names, true);
    if names.len() > 0 {
        all_offered_are_ticked(names.drop_last());
        assert(v.drop_last() =~= offered(names.drop_last(), true));
        assert(names.drop_last().push(names.last()) =~= names);
    } else {
        assert(ticked(v) =~= names);
    }
}

/// A tick is switched, and no other; switched again it is as it was.
pub proof fn offers_switch_back(pre: Room, c: Compose, i: usize, once: Room, twice: Room, out: Option<Outcome>)
    requires
        pre.modal == Modal::Federate(c),
        i < c.libraries@.len(),
        acted(pre, Act::ComposeToggle(i), once, out),
        acted(once, Act::ComposeToggle(i), twice, out),
    ensures
        once.modal matches Modal::Federate(d) && d.libraries@.len() == c.libraries@.len() && d.libraries@[i as int].0
            == c.libraries@[i as int].0 && d.libraries@[i as int].1 != c.libraries@[i as int].1 && forall|k: int|
            0 <= k < c.libraries@.len() && k != i ==> d.libraries@[k] == c.libraries@[k],
        twice.modal matches Modal::Federate(e) && e.libraries@ == c.libraries@,
{
    let e = twice.modal->Federate_0;
    assert(e.libraries@ =~= c.libraries@);
}

/// A completed exchange makes a server federated, whatever else is under way; a
/// live request of theirs comes before one of ours.
pub proof fn pairings_come_first(requests: Seq<FederationRequest>, i: int, id: Seq<char>)
    requires
        0 <= i < requests.len(),
        requests[i].peer_endpoint_id@ == id,
    ensures
        requests[i].state@ == "completed"@ ==> relation_to(requests, id) == Relation::Federated,
        requests[i].direction@ == "in"@ && (requests[i].state@ == "received"@ || requests[i].state@ == "accepted"@
            || requests[i].state@ == "granting"@) ==> relation_to(requests, id) == Relation::Federated || relation_to(
            requests,
            id,
        ) == Relation::Theirs,
        requests[i].direction@ == "out"@ && (requests[i].state@ == "pending-delivery"@ || requests[i].state@ == "delivered"@
            || requests[i].state@ == "granting"@) ==> relation_to(requests, id) != Relation::Unrelated,
{
}

/// Only a server's own requests bear on what it is to this one, and those that
/// are over do not.
pub proof fn strangers_are_unrelated(requests: Seq<FederationRequest>, id: Seq<char>)
    requires
        forall|i: int|
            0 <= i < requests.len() ==> (#[trigger] requests[i]).peer_endpoint_id@ != id || requests[i].state@ == "rejected"@
                || requests[i].state@ == "refused"@ || requests[i].state@ == "cancelled"@ || requests[i].state@ == "expired"@,
    ensures
        relation_to(requests, id) == Relation::Unrelated,
{
    states_are_told_apart();
}

/// A server is federated only where an exchange with it was completed, and asks
/// only where a live request of it came in.
pub proof fn relations_have_their_reason(requests: Seq<FederationRequest>, id: Seq<char>)
    ensures
        relation_to(requests, id) == Relation::Federated ==> exists|i: int|
            0 <= i < requests.len() && (#[trigger] requests[i]).peer_endpoint_id@ == id && requests[i].state@ == "completed"@,
        relation_to(requests, id) == Relation::Theirs ==> exists|i: int|
            0 <= i < requests.len() && (#[trigger] requests[i]).peer_endpoint_id@ == id && requests[i].direction@ == "in"@,
        relation_to(requests, id) != Relation::Unrelated ==> exists|i: int|
            0 <= i < requests.len() && (#[trigger] requests[i]).peer_endpoint_id@ == id,
{
}

// ── The servers ──────────────────────────────────────────────────────────

/// A server is found by any part of its name, its description or its endpoint
/// id, and by nothing else.
pub proof fn servers_are_found_by_any_part(p: CatalogPeer, q: Seq<char>)
    requires
        q.len() > 0,
    ensures
        matches_query(p, q) <==> contains_text(lower_case(p.payload.name@), q) || contains_text(
            lower_case(p.payload.description@),
            q,
        ) || contains_text(lower_case(p.from@), q),
{
}

/// What a text is put together from is found in it.
pub proof fn parts_are_found(before: Seq<char>, part: Seq<char>, after: Seq<char>)
    ensures
        contains_text(before + part + after, part),
{
    let s = before + part + after;
    let at = before.len() as int;
    assert(s.subrange(at, at + part.len()) =~= part);
}

/// The rows that are shown are those that match, each once, in order.
pub proof fn every_match_is_shown(peers: Seq<CatalogPeer>, q: Seq<char>, i: int)
    requires
        0 <= i < peers.len() <= usize::MAX,
    ensures
        matching(peers, q).contains(i as usize) <==> matches_query(peers[i], q),
    decreases peers.len(),
{
    let rest = peers.drop_last();
    let v = matching(peers, q);
    let w = matching(rest, q);
    crate::discovery::rows_match_in_order(peers, q);
    if i < rest.len() {
        every_match_is_shown(rest, q, i);
        assert(rest[i] == peers[i]);
        if w.contains(i as usize) {
            let k = choose|k: int| 0 <= k < w.len() && w[k] == i as usize;
            assert(v[k] == w[k]);
        }
        if v.contains(i as usize) {
            let k = choose|k: int| 0 <= k < v.len() && v[k] == i as usize;
            if k < w.len() {
                assert(w[k] == v[k]);
            }
        }
    } else {
        if matches_query(peers[i], q) {
            assert(v[v.len() - 1] == i as usize);
        } else if v.contains(i as usize) {
            let k = choose|k: int| 0 <= k < w.len() && w[k] == i as usize;
            crate::discovery::rows_match_in_order(rest, q);
            assert(w[k] < rest.len());
        }
    }
}

/// Each row of a server's sheet does what its key says.
pub proof fn sheet_rows_have_their_keys(room: Room, p: CatalogPeer, i: int)
    requires
        0 <= i < room.sheet(p).len(),
    ensures
        room.sheet(p)[i].key == 'd' <==> room.sheet(p)[i].act is Fetch,
        room.sheet(p)[i].key == 'p' <==> room.sheet(p)[i].act is Pin,
        room.sheet(p)[i].key == 'r' <==> room.sheet(p)[i].act is RemoveSnapshot,
        room.sheet(p)[i].key == 'f' <==> room.sheet(p)[i].act is Federate,
        room.sheet(p)[i].key == 'g' <==> room.sheet(p)[i].act is Forget,
        room.sheet(p)[i].key == 'b' <==> room.sheet(p)[i].act is Block,
        room.sheet(p)[0].act is Fetch,
        room.sheet(p).last().act is Block,
        p.fetched is Some ==> room.sheet(p)[1].act is Pin && room.sheet(p)[2].act is RemoveSnapshot,
{
}

/// What is done about a server is sent for that server: its snapshot fetched,
/// pinned as asked, removed, the server forgotten.
pub proof fn calls_name_their_server(pre: Room, i: int, pinned: bool, post: Room, out: Option<Outcome>)
    requires
        0 <= i < pre.catalog.peers@.len(),
        unique(froms(pre.catalog.peers@)),
    ensures
        ({
            let p = pre.catalog.peers@[i];
            &&& acted(pre, Act::Fetch(p.from), post, out) ==> (post.queued matches Some(Op::Fetch { id, name }) && id == p.from
                && name@ == shown_name(p.payload.name@, p.from@))
            &&& acted(pre, Act::Pin(p.from, pinned), post, out) && p.fetched is Some ==> post.queued == Some(
                Op::Pin { id: p.from, pinned },
            )
            &&& acted(pre, Act::RemoveSnapshot(p.from), post, out) && p.fetched is Some ==> (post.queued matches Some(
                Op::Peer { action, id, name },
            ) && action == PeerAction::RemoveSnapshot && id == p.from)
            &&& acted(pre, Act::Forget(p.from), post, out) && p.fetched is None && !p.online ==> (post.queued matches Some(
                Op::Peer { action, id, name },
            ) && action == PeerAction::Forget && id == p.from)
            &&& acted(pre, Act::RemoveSnapshot(p.from), post, out) && p.fetched is None ==> post == pre
            &&& acted(pre, Act::Forget(p.from), post, out) && (p.fetched is Some || p.online) ==> post == pre
            &&& acted(pre, Act::Pin(p.from, pinned), post, out) && p.fetched is None ==> post == pre
        }),
{
    found_where_it_is(froms(pre.catalog.peers@), i);
}

/// A server is blocked only from its own warning, by `y`, and one that is
/// blocked is let back in from the list of the blocked.
pub proof fn blocking_and_letting_in(pre: Room, i: int, key: Key, post: Room, out: Option<Outcome>)
    requires
        0 <= i < pre.catalog.peers@.len(),
        unique(froms(pre.catalog.peers@)),
    ensures
        pre.modal == Modal::Block(pre.catalog.peers@[i].from) && key.code == Code::Char('y') && keyed(pre, key, post, out) ==> (
        post.queued matches Some(Op::Peer { action, id, name }) && action == PeerAction::Block && id
            == pre.catalog.peers@[i].from && post.modal is Closed),
        pre.modal matches Modal::Blocked(sel) ==> pre.status matches Some(s) ==> sel < s.blocked_peers@.len() && key.code
            == Code::Enter && keyed(pre, key, post, out) ==> (post.queued matches Some(Op::Peer { action, id, name }) && action
            == PeerAction::Unblock && id == s.blocked_peers@[sel as int]),
{
    found_where_it_is(froms(pre.catalog.peers@), i);
}

/// A pin shows once it is set or lifted, on its server alone, and the next
/// choice is the other way round.
pub proof fn pins_show_and_turn(m: Room, i: int, pinned: bool, post: Room)
    requires
        0 <= i < m.catalog.peers@.len(),
        unique(froms(m.catalog.peers@)),
        m.catalog.peers@[i].fetched is Some,
        applied(m, Done::Pinned { id: m.catalog.peers@[i].from, pinned, result: Ok(()) }, post),
    ensures
        post.catalog.peers@.len() == m.catalog.peers@.len(),
        post.catalog.peers@[i].fetched matches Some(h) && h.pinned == pinned && h.size_bytes == m.catalog.peers@[i].fetched->0.size_bytes,
        post.catalog.peers@[i].from == m.catalog.peers@[i].from,
        forall|k: int| 0 <= k < m.catalog.peers@.len() && k != i ==> post.catalog.peers@[k] == m.catalog.peers@[k],
        post.sheet(post.catalog.peers@[i])[1].act == Act::Pin(m.catalog.peers@[i].from, !pinned),
{
    found_where_it_is(froms(m.catalog.peers@), i);
}

/// What a key does about a server: its snapshot fetched, pinned or let go,
/// removed; or the warning before it is blocked.
pub open spec fn does(key: Key, p: CatalogPeer, pre: Room, post: Room) -> bool {
    if key.code == Code::Char('d') {
        post.queued matches Some(Op::Fetch { id, name }) && id == p.from
    } else if key.code == Code::Char('p') {
        post.queued == Some(Op::Pin { id: p.from, pinned: !p.fetched->0.pinned })
    } else if key.code == Code::Char('r') {
        post.queued matches Some(Op::Peer { action, id, name }) && action == PeerAction::RemoveSnapshot && id == p.from
    } else {
        key.code == Code::Char('b') && post.modal == Modal::Block(p.from) && post.queued == pre.queued
    }
}

/// A key acts on the server under the cursor.
#[verifier::spinoff_prover]
pub proof fn keys_act_on_the_server_under_the_cursor(pre: Room, p: CatalogPeer, key: Key, post: Room, out: Option<Outcome>)
    requires
        pre.modal is Closed,
        pre.on(),
        !pre.ticket_focus && !pre.filter_focus,
        pre.cursor_peer() == Some(p),
        pre.peer_of(p.from@) == Some(p),
        p.fetched is Some,
        key.code == Code::Char('d') || key.code == Code::Char('p') || key.code == Code::Char('r') || key.code == Code::Char('b'),
        keyed(pre, key, post, out),
    ensures
        does(key, p, pre, post),
{
}

proof fn sheets_have_their_rows(room: Room, p: CatalogPeer, c: char)
    requires
        p.fetched is Some,
    ensures
        ({
            let menu = room.sheet(p);
            let at = place_of(crate::discovery::menu_keys(menu), c);
            &&& c == 'd' ==> at == Some(0int) && menu[0].act == Act::Fetch(p.from)
            &&& c == 'p' ==> at == Some(1int) && menu[1].act == Act::Pin(p.from, !p.fetched->0.pinned)
            &&& c == 'r' ==> at == Some(2int) && menu[2].act == Act::RemoveSnapshot(p.from)
            &&& c == 'b' ==> at == Some(menu.len() - 1) && menu[menu.len() - 1].act == Act::Block(p.from)
        }),
{
    let menu = room.sheet(p);
    let keys = crate::discovery::menu_keys(menu);
    assert(keys[0] == 'd' && keys[1] == 'p' && keys[2] == 'r' && keys[menu.len() - 1] == 'b');
    assert forall|k: int| 0 <= k < menu.len() - 1 implies #[trigger] keys[k] != 'b' by {}
    let i: int = if c == 'd' { 0 } else if c == 'p' { 1 } else if c == 'r' { 2 } else { menu.len() - 1 };
    if c == 'd' || c == 'p' || c == 'r' || c == 'b' {
        crate::screen::first_place(keys, c, i);
    }
}

/// A key in a server's sheet does to that server what it does to the one under
/// the cursor.
#[verifier::spinoff_prover]
pub proof fn keys_act_on_the_server_of_the_sheet(pre: Room, p: CatalogPeer, sel: usize, key: Key, post: Room, out: Option<Outcome>)
    requires
        pre.modal == (Modal::Sheet { id: p.from, sel }),
        pre.peer_of(p.from@) == Some(p),
        p.fetched is Some,
        key.code == Code::Char('d') || key.code == Code::Char('p') || key.code == Code::Char('r') || key.code == Code::Char('b'),
        keyed(pre, key, post, out),
    ensures
        does(key, p, pre, post),
{
    sheets_have_their_rows(pre, p, key.code->Char_0);
}

// ── The network ──────────────────────────────────────────────────────────

/// Joining asks as the box says, and is answered by a question for the name; the
/// box switches back and forth.
pub proof fn joining_goes_by_the_box(pre: Room, s: DiscoveryStatus, post: Room, once: Room, twice: Room, out: Option<Outcome>)
    requires
        pre.status == Some(s),
        !s.enabled,
    ensures
        s.binary_found && acted(pre, Act::Join, post, out) ==> post.queued == Some(
            Op::JoinNetwork { accept_requests: pre.accept_requests },
        ) && post.name_after_join,
        !s.binary_found && !s.binary_fetchable && acted(pre, Act::Join, post, out) ==> post == pre,
        acted(pre, Act::ToggleRequests, once, out) && acted(once, Act::ToggleRequests, twice, out) ==> once.accept_requests
            != pre.accept_requests && twice.accept_requests == pre.accept_requests,
{
}

/// The network is left by `y` on the warning.
pub proof fn leaving_goes_through(pre: Room, key: Key, post: Room, out: Option<Outcome>)
    requires
        pre.modal is Leave,
        key.code == Code::Char('y'),
        keyed(pre, key, post, out),
    ensures
        post.queued == Some(Op::LeaveNetwork),
        post.modal is Closed,
{
}

/// The ticket that is pasted is the one that is joined.
pub proof fn pasted_tickets_are_joined(pre: Room, post: Room, out: Option<Outcome>)
    requires
        input_value(pre.ticket).len() > 0 && !white(input_value(pre.ticket)[0]) && !white(input_value(pre.ticket).last()),
        acted(pre, Act::TicketJoin, post, out),
    ensures
        post.queued matches Some(Op::Befriend(t)) && t@ == input_value(pre.ticket),
{
    plain_ends_stay(input_value(pre.ticket));
}

/// The server's own ticket is what is copied.
pub proof fn the_own_ticket_is_copied(pre: Room, s: DiscoveryStatus, post: Room, out: Option<Outcome>)
    requires
        pre.status == Some(s),
        acted(pre, Act::CopyTicket, post, out),
    ensures
        s.ticket is Some ==> post.clipboard == s.ticket,
        s.ticket is None ==> post == pre,
        post.queued == pre.queued,
{
}

/// A load is shown: the status, the catalog, federation's state and the requests
/// that came with it; off the network there is no catalog.
pub proof fn loads_are_shown(m: Room, l: Loaded, post: Room)
    requires
        applied(m, Done::Loaded(Ok(l)), post),
    ensures
        post.status == Some(l.status),
        l.catalog matches Some(c) ==> post.catalog == c,
        l.catalog is None ==> post.catalog.peers@.len() == 0,
        l.federation matches Some(f) ==> post.federation == f,
        l.federation is None ==> post.federation == m.federation,
        l.requests matches Some(r) ==> post.requests == r,
        l.requests is None ==> post.requests == m.requests,
        l.activity matches Some(a) ==> post.activity_seq == a.last_seq,
        m.name_after_join && l.status.enabled ==> post.modal is Identity && !post.name_after_join,
        !(m.name_after_join && l.status.enabled) ==> post.modal == m.modal,
        post.queued == m.queued,
{
}

/// The log holds the newest lines: those that came last, in their order, behind
/// those that were there; it starts over where the server's did.
pub proof fn the_log_goes_on(pre: Room, more: DiscoveryActivity, post: Room)
    requires
        took_activity(pre, more, post),
    ensures
        post.activity_seq == more.last_seq,
        more.last_seq >= pre.activity_seq && pre.activity@.len() + more.entries@.len() <= 500 ==> {
            &&& post.activity@.len() == pre.activity@.len() + more.entries@.len()
            &&& forall|i: int| 0 <= i < pre.activity@.len() ==> post.activity@[i] == pre.activity@[i]
            &&& forall|i: int| 0 <= i < more.entries@.len() ==> post.activity@[pre.activity@.len() + i] == more.entries@[i]
        },
        pre.activity@.len() + more.entries@.len() > 500 && more.entries@.len() <= 500 ==> forall|i: int|
            0 <= i < more.entries@.len() ==> post.activity@[post.activity@.len() - more.entries@.len() + i] == more.entries@[i],
        post.activity@.len() <= 500,
{
}

/// The log is asked for from the newest line known, and only while its tab is
/// open.
pub proof fn the_log_is_asked_from_its_end(pre: Room, post: Room, out: Option<Outcome>)
    requires
        pre.on(),
    ensures
        acted(pre, Act::Tab(Tab::Activity), post, out) ==> post.tab == Tab::Activity && post.queued == Some(
            Op::Activity(pre.activity_seq),
        ),
        acted(pre, Act::Tab(Tab::Config), post, out) ==> post.tab == Tab::Config && post.queued == pre.queued,
        acted(pre, Act::ToggleIncompatible, post, out) ==> post.show_incompatible != pre.show_incompatible && (
        post.queued matches Some(Op::Load { include_incompatible, activity_since }) && include_incompatible
            == post.show_incompatible && (activity_since is Some <==> pre.tab == Tab::Activity)),
{
}

/// How the notes about a server are written: no two alike.
proof fn notes_are_told_apart()
    ensures
        "p2p.done_removed"@.len() == 16 && "p2p.done_removed"@[9] == 'r',
        "p2p.done_forgotten"@.len() == 18 && "p2p.done_forgotten"@[9] == 'f',
        "p2p.done_blocked"@.len() == 16 && "p2p.done_blocked"@[9] == 'b',
        "p2p.done_unblocked"@.len() == 18 && "p2p.done_unblocked"@[9] == 'u',
        "p2p.fail_remove"@.len() == 15 && "p2p.fail_remove"@[9] == 'r',
        "p2p.fail_forget"@.len() == 15 && "p2p.fail_forget"@[9] == 'f',
        "p2p.fail_block"@.len() == 14 && "p2p.fail_block"@[9] == 'b',
        "p2p.fail_unblock"@.len() == 16 && "p2p.fail_unblock"@[9] == 'u',
{
    reveal_strlit("p2p.done_removed");
    reveal_strlit("p2p.done_forgotten");
    reveal_strlit("p2p.done_blocked");
    reveal_strlit("p2p.done_unblocked");
    reveal_strlit("p2p.fail_remove");
    reveal_strlit("p2p.fail_forget");
    reveal_strlit("p2p.fail_block");
    reveal_strlit("p2p.fail_unblock");
}

/// What was done about a server is said as it was done, and no failure is said
/// to be a success.
pub proof fn deeds_are_said_as_done(m: Room, action: PeerAction, name: String, result: Result<(), ApiError>, post: Room)
    requires
        applied(m, Done::Peer { action, name, result }, post),
    ensures
        post.note is Some,
        post.note->0.error <==> result is Err,
        result is Ok ==> match post.note->0.msg {
            Msg::One(key, f) => f.arg == Arg::Text(name) && (key == "p2p.done_removed" <==> action == PeerAction::RemoveSnapshot)
                && (key == "p2p.done_forgotten" <==> action == PeerAction::Forget) && (key == "p2p.done_blocked" <==> action
                == PeerAction::Block) && action != PeerAction::Unblock,
            Msg::Key(key) => key == "p2p.done_unblocked" && action == PeerAction::Unblock,
            _ => false,
        },
        result matches Err(e) ==> match post.note->0.msg {
            Msg::Failed(key, why) => why == e && (key == "p2p.fail_remove" <==> action == PeerAction::RemoveSnapshot) && (key
                == "p2p.fail_forget" <==> action == PeerAction::Forget) && (key == "p2p.fail_block" <==> action
                == PeerAction::Block) && (key == "p2p.fail_unblock" <==> action == PeerAction::Unblock),
            _ => false,
        },
{
    notes_are_told_apart();
}

} // verus!
