//! What holds of the rows, the stories and the cards: each says what it is
//! about, and says it of that alone.

use vstd::prelude::*;

use crate::backups_view::run_message;
use crate::discovery::{DiscoverySetting, DiscoveryStatus};
use crate::discovery_view::{announced, card_lines};
use crate::federation::{FederationKey, FederationParams, FederationPeer, FederationRequest, Form, FormKind, Tab, TicketPreview};
use crate::federation_view::{peer_row, request_row, tab_name, tab_note, ticket_row, turn_on_card, PeerRow, RequestRow, RequestStory, TicketRow};
use crate::layout::{Cell, Tone};
use crate::msg::{Arg, Msg};

verus! {

use crate::clock::{age, is_timestamp, timestamp_value};
use crate::discovery_view::{helper, level_tone, setting_keys};
use crate::federation::{finished, is_offer, is_offer_cell, is_preview_words, status_of, status_words};
use crate::federation_view::{are_state_parts, cap_row, endpoint_words, is_form_title, is_shares, is_story};
use crate::line::input_value;
use crate::msg::{one, says};
use crate::text::{printed, trimmed};

// ── Requests ─────────────────────────────────────────────────────────────

/// How the ways of a request and its offers are written: no two alike.
proof fn ways_are_told_apart()
    ensures
        "in"@.len() == 2 && "in"@[0] == 'i',
        "out"@.len() == 3 && "out"@[0] == 'o',
        "fed.offers"@.len() == 10 && "fed.offers"@[0] == 'f',
        "fed.you_offered"@.len() == 15 && "fed.you_offered"@[0] == 'f',
        "fed.offers_nothing"@.len() == 18 && "fed.offers_nothing"@[0] == 'f',
        "fed.you_offered_nothing"@.len() == 23 && "fed.you_offered_nothing"@[0] == 'f',
        "pending-delivery"@.len() == 16 && "pending-delivery"@[0] == 'p',
        "granting"@.len() == 8 && "granting"@[0] == 'g',
        "accepted"@.len() == 8 && "accepted"@[0] == 'a',
        "completed"@.len() == 9 && "completed"@[0] == 'c',
        "rejected"@.len() == 8 && "rejected"@[0] == 'r',
        "expired"@.len() == 7 && "expired"@[0] == 'e',
        "withdrawn"@.len() == 9 && "withdrawn"@[0] == 'w',
        "failed"@.len() == 6 && "failed"@[0] == 'f',
        "pending"@.len() == 7 && "pending"@[0] == 'p',
        "fed.never"@.len() == 9 && "fed.never"@[0] == 'f',
{
    reveal_strlit("in");
    reveal_strlit("out");
    reveal_strlit("fed.offers");
    reveal_strlit("fed.you_offered");
    reveal_strlit("fed.offers_nothing");
    reveal_strlit("fed.you_offered_nothing");
    reveal_strlit("pending-delivery");
    reveal_strlit("granting");
    reveal_strlit("accepted");
    reveal_strlit("completed");
    reveal_strlit("rejected");
    reveal_strlit("expired");
    reveal_strlit("withdrawn");
    reveal_strlit("failed");
    reveal_strlit("pending");
    reveal_strlit("fed.never");
}

/// What a request offers is said as an offer of theirs or of ours, by the way
/// it went, and as nothing exactly where it offers no library.
pub proof fn offers_are_said_as_they_went(msg: Msg, r: FederationRequest)
    requires
        is_offer(msg, r),
    ensures
        msg is Key <==> r.offered_libraries@.len() == 0,
        msg is One <==> r.offered_libraries@.len() > 0,
        msg == Msg::Key("fed.offers_nothing") <==> r.offered_libraries@.len() == 0 && r.direction@ == "in"@,
        msg == Msg::Key("fed.you_offered_nothing") <==> r.offered_libraries@.len() == 0 && r.direction@ != "in"@,
        msg matches Msg::One(key, _) ==> (key == "fed.offers" <==> r.direction@ == "in"@) && (key == "fed.you_offered" <==> r.direction@
            != "in"@),
{
    ways_are_told_apart();
}

/// A request that came with words has them quoted before its offer, and no other
/// has.
pub proof fn words_are_quoted_before_offers(msg: Msg, r: FederationRequest)
    requires
        is_offer_cell(msg, r),
    ensures
        msg is Both <==> printed(r.message@, 500).len() > 0,
        msg matches Msg::Both(quote, offer) ==> is_offer(*offer, r) && (*quote matches Msg::Raw(s) && s@.len() == printed(
            r.message@,
            500,
        ).len() + 5 && s@.subrange(1, 1 + printed(r.message@, 500).len() as int) == printed(r.message@, 500)),
        !(msg is Both) ==> is_offer(msg, r),
{
    if msg is Both {
        let words = printed(r.message@, 500);
        let s = (*(msg->Both_0))->Raw_0;
        assert(s@.subrange(1, 1 + words.len() as int) =~= words);
    }
}

/// The attempt that is said to come next is the one after those that failed,
/// and one is said only where one comes: something is being sent, failed, and
/// will be tried again.
pub proof fn the_next_attempt_is_said(r: FederationRequest)
    ensures
        status_words(r) matches Msg::Both(_, next) ==> (*next matches Msg::One(_, f) && f.arg == Arg::Num((r.fail_count + 1) as i64))
            && r.fail_count > 0 && r.next_attempt_at is Some && !finished(r),
        r.fail_count == 0 || r.next_attempt_at is None ==> !(status_words(r) is Both),
        r.direction@ == "out"@ && r.state@ == "pending-delivery"@ && r.fail_count > 0 && r.next_attempt_at is Some
            ==> status_words(r) is Both,
        r.direction@ == "in"@ && r.state@ == "accepted"@ && r.fail_count > 0 && r.next_attempt_at is Some ==> status_words(r) is Both,
        !(status_words(r) is Both) ==> match status_of(r.direction@, r.state@) {
            Some((key, _)) => status_words(r) == Msg::Key(key),
            None => status_words(r) == Msg::Raw(r.state),
        },
{
    crate::federation::states_are_told_apart();
    ways_are_told_apart();
}

/// A row of the requests stands out in the colour of a good sign exactly where
/// the pairing is complete, in that of a warning where it waits on the reader;
/// its age counts from when it came.
pub proof fn request_rows_show_their_request(r: FederationRequest, now: i64, row: RequestRow)
    requires
        call_ensures(request_row, (&r, now, false, false), row),
    ensures
        row.status.tone == Tone::Fine <==> (status_of(r.direction@, r.state@) matches Some((_, f)) && f == crate::federation::Family::Good),
        row.status.tone == Tone::Gold <==> (status_of(r.direction@, r.state@) matches Some((_, f)) && f == crate::federation::Family::Theirs),
        row.status.msg == status_words(r),
        is_timestamp(r.created_at@) ==> row.age.msg == age(now - timestamp_value(r.created_at@)),
{
}

/// What is told of a request: why it was refused, where that was said, and that
/// it was ignored exactly where one that came in was refused.
pub proof fn stories_are_of_their_request(s: RequestStory, r: FederationRequest)
    requires
        is_story(s, r),
    ensures
        s.ignored <==> r.direction@ == "in"@ && r.state@ == "rejected"@,
        s.reason is Some <==> r.reject_reason is Some && trimmed(r.reject_reason->0@).len() > 0,
        s.reason matches Some(why) ==> why@ == printed(r.reject_reason->0@, 200),
{
}

// ── Tickets and peers ────────────────────────────────────────────────────

/// How rows, tabs and titles are written: no two alike.
proof fn row_words_are_told_apart()
    ensures
        "fed.claimed"@.len() == 11 && "fed.claimed"@[4] == 'c',
        "fed.not_claimed"@.len() == 15 && "fed.not_claimed"@[4] == 'n',
        "fed.exp_expired"@.len() == 15 && "fed.exp_expired"@[4] == 'e',
        "fed.tab_requests"@.len() == 16 && "fed.tab_requests"@[4] == 't',
        "fed.tab_tickets"@.len() == 15 && "fed.tab_tickets"@[4] == 't',
        "fed.tab_peers"@.len() == 13 && "fed.tab_peers"@[4] == 't',
        "fed.tab_requests_n"@.len() == 18 && "fed.tab_requests_n"@[4] == 't',
        "fed.note_requests"@.len() == 17 && "fed.note_requests"@[4] == 'n',
        "fed.note_tickets"@.len() == 16 && "fed.note_tickets"@[4] == 'n',
        "fed.note_peers"@.len() == 14 && "fed.note_peers"@[4] == 'n',
        "fed.mint_title"@.len() == 14 && "fed.mint_title"@[4] == 'm',
        "fed.accept_title"@.len() == 16 && "fed.accept_title"@[4] == 'a',
        "fed.limits_title"@.len() == 16 && "fed.limits_title"@[4] == 'l',
        "fed.state_inbox_open"@.len() == 20 && "fed.state_inbox_open"@[4] == 's',
        "fed.state_inbox_closed"@.len() == 22 && "fed.state_inbox_closed"@[4] == 's',
{
    reveal_strlit("fed.claimed");
    reveal_strlit("fed.not_claimed");
    reveal_strlit("fed.exp_expired");
    reveal_strlit("fed.tab_requests");
    reveal_strlit("fed.tab_tickets");
    reveal_strlit("fed.tab_peers");
    reveal_strlit("fed.tab_requests_n");
    reveal_strlit("fed.note_requests");
    reveal_strlit("fed.note_tickets");
    reveal_strlit("fed.note_peers");
    reveal_strlit("fed.mint_title");
    reveal_strlit("fed.accept_title");
    reveal_strlit("fed.limits_title");
    reveal_strlit("fed.state_inbox_open");
    reveal_strlit("fed.state_inbox_closed");
}

/// A row of the tickets says that the ticket was claimed exactly where it was,
/// warns exactly where it ran out, and shows what it moved and when.
pub proof fn ticket_rows_show_their_ticket(k: FederationKey, now: i64, row: TicketRow)
    requires
        call_ensures(ticket_row, (&k, now, false, false), row),
    ensures
        row.claimed.msg == Msg::Key("fed.claimed") <==> k.bound_endpoint_id is Some,
        row.claimed.tone == Tone::Fine <==> k.bound_endpoint_id is Some,
        row.limits_tone == Tone::Gold <==> k.expired,
        k.expired ==> row.limits@.len() == 1 && row.limits@[0] == Msg::Key("fed.exp_expired"),
        row.today.tone == Tone::Plain <==> k.usage_today_bytes > 0,
        row.last.tone == Tone::Plain <==> k.last_used is Some,
        k.last_used matches Some(t) ==> is_timestamp(t@) ==> row.last.msg == age(now - timestamp_value(t@)),
{
    row_words_are_told_apart();
}

/// A row of the peers shows whether its discovery is on, and how its last test
/// went.
pub proof fn peer_rows_show_their_peer(p: FederationPeer, now: i64, row: PeerRow)
    requires
        call_ensures(peer_row, (&p, now, false, false, false), row),
    ensures
        row.discovery == p.use_discovery,
        row.discovery_tone == Tone::Fine <==> p.use_discovery,
        row.status.tone == Tone::Fine <==> p.last_status is Some && p.last_status->0@ == "ok"@,
        row.seen.tone == Tone::Plain <==> p.last_seen is Some,
        p.last_seen matches Some(t) ==> is_timestamp(t@) ==> row.seen.msg == age(now - timestamp_value(t@)),
{
}

/// What a peer shares is told exactly where a test found it out.
pub proof fn shares_are_told_once_found(msg: Msg, name: Seq<char>, shares: Option<Vec<String>>)
    requires
        is_shares(msg, name, shares),
    ensures
        msg is Two <==> shares is Some,
        msg is One <==> shares is None,
        msg matches Msg::Two(_, _, what) ==> (what.arg is Phrase <==> shares->0@.len() == 0),
{
}

/// A ticket's preview gives its name, what it shares where it shares something,
/// and until when where that is set.
pub proof fn previews_are_of_the_ticket(words: Seq<Msg>, p: TicketPreview)
    requires
        is_preview_words(words, p),
    ensures
        words[0] is Raw <==> p.name is Some,
        p.name matches Some(n) ==> words[0] == Msg::Raw(n),
        words.len() == 1 <==> p.libraries@.len() == 0 && p.expires is None,
        p.expires matches Some(d) ==> (words.last() matches Msg::One(_, f) && f.arg == Arg::Text(d)),
        p.libraries@.len() > 0 && p.expires is Some ==> words.len() == 3,
{
}

/// The tabs go by their names; that of the requests carries how many wait.
pub proof fn tabs_go_by_their_names(tab: Tab, pending: usize, name: Msg, note: &'static str)
    requires
        call_ensures(tab_name, (tab, pending), name),
        call_ensures(tab_note, (tab,), note),
    ensures
        name == Msg::Key("fed.tab_tickets") <==> tab == Tab::Tickets,
        name == Msg::Key("fed.tab_peers") <==> tab == Tab::Peers,
        name is One <==> tab == Tab::Requests && pending > 0,
        name matches Msg::One(_, f) ==> f.arg == Arg::Nat(pending as u64),
        note == "fed.note_requests" <==> tab == Tab::Requests,
        note == "fed.note_tickets" <==> tab == Tab::Tickets,
        note == "fed.note_peers" <==> tab == Tab::Peers,
{
    row_words_are_told_apart();
}

/// The federation can be turned on exactly where it is available and not
/// starting already.
pub proof fn turning_on_is_offered(p: FederationParams, starting: bool, hovered: bool, out: Option<(&'static str, Tone, Option<crate::federation::Act>)>)
    requires
        call_ensures(turn_on_card, (&p, starting, hovered), out),
    ensures
        out is Some <==> p.available,
        out matches Some((_, _, act)) ==> (act is Some <==> !starting) && (act matches Some(a) ==> a == crate::federation::Act::TurnOn),
{
}

/// The state's row ends with whether the inbox is open.
pub proof fn the_inbox_is_said_as_it_is(out: Seq<Cell>, p: FederationParams, inbox: bool)
    requires
        are_state_parts(out, p, inbox),
    ensures
        out.len() > 0,
        out.last().msg == Msg::Key("fed.state_inbox_open") <==> inbox,
        out.last().msg == Msg::Key("fed.state_inbox_closed") <==> !inbox,
        out[0].tone == Tone::Fine <==> p.available && p.running && p.online,
{
    row_words_are_told_apart();
    if let Some(id) = p.endpoint_id {
        assert(out.take(out.len() - 2)[0] == out[0]);
    }
}

/// A form's title says what the form is for, and for whom.
pub proof fn titles_say_what_a_form_is_for(msg: Msg, f: Form)
    requires
        is_form_title(msg, f),
    ensures
        msg == Msg::Key("fed.mint_title") <==> f.kind == FormKind::Mint,
        msg matches Msg::One(key, fill) ==> fill.arg == Arg::Text(f.about) && (key == "fed.accept_title" <==> f.kind == FormKind::Accept)
            && (key == "fed.limits_title" <==> f.kind == FormKind::Limits),
        msg is One <==> f.kind != FormKind::Mint,
{
    row_words_are_told_apart();
}

/// The caps stand side by side, each field once; the expiry is among them
/// exactly where a key is made.
pub proof fn caps_stand_side_by_side(kind: FormKind, x: int, width: int, i: int, j: int)
    requires
        0 <= i < j < cap_row(kind, x, width).len(),
    ensures
        cap_row(kind, x, width)[i].field != cap_row(kind, x, width)[j].field,
        cap_row(kind, x, width).len() == (if kind == FormKind::Limits { 3int } else { 4 }),
        0 <= x && x + 64 <= u16::MAX ==> cap_row(kind, x, width)[i].x + 16 <= cap_row(kind, x, width)[j].x,
{
}

// ── Backups ──────────────────────────────────────────────────────────────

/// What went wrong with a run is told where the server said it.
pub proof fn what_went_wrong_is_told(run: crate::backups::BackupRun, out: Option<String>)
    requires
        call_ensures(run_message, (&run,), out),
    ensures
        out is Some <==> run.error_message is Some && trimmed(run.error_message->0@).len() > 0,
        out matches Some(s) ==> s@ == printed(run.error_message->0@, 400),
{
}

// ── The network ──────────────────────────────────────────────────────────

/// How the levels of the log are written: no two alike.
proof fn levels_are_told_apart()
    ensures
        "warn"@.len() == 4 && "warn"@[0] == 'w',
        "error"@.len() == 5 && "error"@[0] == 'e',
        "debug"@.len() == 5 && "debug"@[0] == 'd',
{
    reveal_strlit("warn");
    reveal_strlit("error");
    reveal_strlit("debug");
}

/// Warnings and errors of the log stand out, chatter recedes, the rest is plain.
pub proof fn levels_stand_out(level: Seq<char>)
    ensures
        level_tone(level) == Tone::Gold <==> level == "warn"@ || level == "error"@,
        level_tone(level) == Tone::Dim <==> level == "debug"@,
{
    levels_are_told_apart();
}

/// The helper's memory is told where it is known, and that it was started again
/// where it was.
pub proof fn the_helper_is_told_of(s: DiscoveryStatus)
    ensures
        helper(s) is Some <==> s.watchdog.last_rss_mb is Some,
        helper(s) matches Some((m, again)) ==> (m matches Msg::One(_, f) && f.arg == Arg::Nat(s.watchdog.last_rss_mb->0)) && (again
            is Some <==> s.watchdog.restarts > 0) && (again matches Some(Msg::One(_, g)) ==> g.arg == Arg::Nat(
            s.watchdog.restarts as u64,
        )),
{
}

/// How the cards of the settings are written: no two alike.
proof fn cards_are_told_apart()
    ensures
        "p2p.setting_storage_title"@.len() == 25 && "p2p.setting_storage_title"@[12] == 's' && "p2p.setting_storage_title"@[22] == 't',
        "p2p.setting_storage_label"@.len() == 25 && "p2p.setting_storage_label"@[12] == 's' && "p2p.setting_storage_label"@[22] == 'b',
        "p2p.setting_storage_help"@.len() == 24 && "p2p.setting_storage_help"@[12] == 's' && "p2p.setting_storage_help"@[22] == 'l',
        "p2p.setting_retention_title"@.len() == 27 && "p2p.setting_retention_title"@[12] == 'r' && "p2p.setting_retention_title"@[22] == 't',
        "p2p.setting_retention_label"@.len() == 27 && "p2p.setting_retention_label"@[12] == 'r' && "p2p.setting_retention_label"@[22] == 'l',
        "p2p.setting_retention_help"@.len() == 26 && "p2p.setting_retention_help"@[12] == 'r' && "p2p.setting_retention_help"@[22] == 'h',
        "p2p.setting_autofetch_title"@.len() == 27 && "p2p.setting_autofetch_title"@[12] == 'a' && "p2p.setting_autofetch_title"@[22] == 't',
        "p2p.setting_autofetch_label"@.len() == 27 && "p2p.setting_autofetch_label"@[12] == 'a' && "p2p.setting_autofetch_label"@[22] == 'l',
        "p2p.setting_autofetch_help"@.len() == 26 && "p2p.setting_autofetch_help"@[12] == 'a' && "p2p.setting_autofetch_help"@[22] == 'h',
        "p2p.setting_rotation_title"@.len() == 26 && "p2p.setting_rotation_title"@[12] == 'r' && "p2p.setting_rotation_title"@[22] == 'i',
        "p2p.setting_rotation_label"@.len() == 26 && "p2p.setting_rotation_label"@[12] == 'r' && "p2p.setting_rotation_label"@[22] == 'a',
        "p2p.setting_rotation_help"@.len() == 25 && "p2p.setting_rotation_help"@[12] == 'r' && "p2p.setting_rotation_help"@[22] == 'e',
        "p2p.setting_memory_title"@.len() == 24 && "p2p.setting_memory_title"@[12] == 'm' && "p2p.setting_memory_title"@[22] == 'l',
        "p2p.setting_memory_label"@.len() == 24 && "p2p.setting_memory_label"@[12] == 'm' && "p2p.setting_memory_label"@[22] == 'e',
        "p2p.setting_memory_help"@.len() == 23 && "p2p.setting_memory_help"@[12] == 'm' && "p2p.setting_memory_help"@[22] == 'p',
{
    reveal_strlit("p2p.setting_storage_title");
    reveal_strlit("p2p.setting_storage_label");
    reveal_strlit("p2p.setting_storage_help");
    reveal_strlit("p2p.setting_retention_title");
    reveal_strlit("p2p.setting_retention_label");
    reveal_strlit("p2p.setting_retention_help");
    reveal_strlit("p2p.setting_autofetch_title");
    reveal_strlit("p2p.setting_autofetch_label");
    reveal_strlit("p2p.setting_autofetch_help");
    reveal_strlit("p2p.setting_rotation_title");
    reveal_strlit("p2p.setting_rotation_label");
    reveal_strlit("p2p.setting_rotation_help");
    reveal_strlit("p2p.setting_memory_title");
    reveal_strlit("p2p.setting_memory_label");
    reveal_strlit("p2p.setting_memory_help");
}

/// A setting's card has the title, the label and the help of that setting.
pub proof fn cards_go_by_their_setting(which: DiscoverySetting)
    ensures
        setting_keys(which).0 == "p2p.setting_storage_title" <==> which == DiscoverySetting::MaxStorageMb,
        setting_keys(which).1 == "p2p.setting_storage_label" <==> which == DiscoverySetting::MaxStorageMb,
        setting_keys(which).2 == "p2p.setting_storage_help" <==> which == DiscoverySetting::MaxStorageMb,
        setting_keys(which).0 == "p2p.setting_retention_title" <==> which == DiscoverySetting::PeerRetentionDays,
        setting_keys(which).1 == "p2p.setting_retention_label" <==> which == DiscoverySetting::PeerRetentionDays,
        setting_keys(which).2 == "p2p.setting_retention_help" <==> which == DiscoverySetting::PeerRetentionDays,
        setting_keys(which).0 == "p2p.setting_autofetch_title" <==> which == DiscoverySetting::AutoFetchCount,
        setting_keys(which).1 == "p2p.setting_autofetch_label" <==> which == DiscoverySetting::AutoFetchCount,
        setting_keys(which).2 == "p2p.setting_autofetch_help" <==> which == DiscoverySetting::AutoFetchCount,
        setting_keys(which).0 == "p2p.setting_rotation_title" <==> which == DiscoverySetting::RotationDays,
        setting_keys(which).1 == "p2p.setting_rotation_label" <==> which == DiscoverySetting::RotationDays,
        setting_keys(which).2 == "p2p.setting_rotation_help" <==> which == DiscoverySetting::RotationDays,
        setting_keys(which).0 == "p2p.setting_memory_title" <==> which == DiscoverySetting::SidecarMaxRssMb,
        setting_keys(which).1 == "p2p.setting_memory_label" <==> which == DiscoverySetting::SidecarMaxRssMb,
        setting_keys(which).2 == "p2p.setting_memory_help" <==> which == DiscoverySetting::SidecarMaxRssMb,
{
    cards_are_told_apart();
}

/// What is announced is this server's name, and its description where it has
/// one.
pub proof fn what_is_announced_is_the_servers(s: DiscoveryStatus, out: (String, Option<String>))
    requires
        call_ensures(announced, (&s,), out),
    ensures
        out.0@ == printed(s.server_name@, 64),
        out.1 is Some <==> trimmed(s.server_description@).len() > 0,
        out.1 matches Some(d) ==> d@ == printed(s.server_description@, 180),
{
}

/// The cards count what is typed, each field its own.
pub proof fn cards_count_what_is_typed(room: crate::discovery::Room, out: Vec<Msg>)
    requires
        call_ensures(card_lines, (&room,), out),
    ensures
        room.modal matches crate::discovery::Modal::Identity(d) ==> out@.len() == 2 && (out@[0] matches Msg::One(_, f) && f.arg
            == Arg::Nat(input_value(d.name).len() as u64)) && (out@[1] matches Msg::One(_, g) && g.arg == Arg::Nat(
            input_value(d.description).len() as u64,
        )),
        room.modal matches crate::discovery::Modal::Federate(c) ==> out@.len() == 2 && (out@[0] matches Msg::One(_, f) && f.arg
            == Arg::Text(c.name)) && (out@[1] matches Msg::One(_, g) && g.arg == Arg::Nat(input_value(c.message).len() as u64)),
{
}

/// The endpoint is said to be missing where it is, and to be reached over the relay
/// exactly where it runs and is on line.
pub proof fn the_endpoint_goes_by_what_it_does(p: FederationParams)
    ensures
        endpoint_words(p)[0].msg == Msg::Key("fed.state_unavailable") <==> !p.available,
        p.available ==> (endpoint_words(p)[1].msg == Msg::Key("fed.state_relay") <==> p.running && p.online),
        p.available ==> (endpoint_words(p)[1].msg == Msg::Key("fed.state_connecting") <==> !(p.running && p.online)),
{
    endpoint_words_are_told_apart();
}

/// How the endpoint's states are written: no two alike.
proof fn endpoint_words_are_told_apart()
    ensures
        "fed.state_unavailable"@.len() == 21,
        "fed.state_on"@.len() == 12,
        "fed.state_relay"@.len() == 15,
        "fed.state_connecting"@.len() == 20,
{
    reveal_strlit("fed.state_unavailable");
    reveal_strlit("fed.state_on");
    reveal_strlit("fed.state_relay");
    reveal_strlit("fed.state_connecting");
}
} // verus!
