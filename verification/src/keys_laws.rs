//! What holds of the keys in every room: where they move the cursor, which lead
//! out, which do nothing, and what a call that has answered leaves.

use vstd::prelude::*;

use crate::line::{Code, Key};
use crate::msg::{ApiError, Msg, Note};
use crate::screen::Outcome;

verus! {

use crate::line::{input_cursor, input_value, key_changes};

use crate::screen::{row_down, row_up};
use crate::paths::alphanumeric;
use crate::text::{control, is_digit};

/// A key that a list of a modal does not know.
pub open spec fn no_list_key(key: Key) -> bool {
    key.code != Code::Esc && key.code != Code::Enter && key.code != Code::Up && key.code != Code::Down && key.code != Code::Left
        && key.code != Code::Right && key.code != Code::Tab && key.code != Code::BackTab && key.code != Code::Backspace && !(
    key.code is Char)
}

/// A key that a warning does not know.
pub open spec fn no_answer(key: Key) -> bool {
    key.code != Code::Esc && key.code != Code::Enter && key.code != Code::Char('y') && key.code != Code::Char('n')
}

/// Where a cursor among `n` is one row up or down: beside where it was, the ends
/// kept.
pub open spec fn one_row(from: int, n: int, up: bool, to: int) -> bool {
    if up {
        if from == 0 { to == 0 } else { to == from - 1 }
    } else {
        if from + 1 < n { to == from + 1 } else { n > 0 ==> to == n - 1 }
    }
}

// ── The way out ──────────────────────────────────────────────────────────

/// Only one act leaves, and it changes nothing.
pub proof fn backups_are_left_by_quitting_alone(pre: crate::backups::Room, act: crate::backups::Act, post: crate::backups::Room, out: Option<Outcome>)
    requires
        crate::backups::acted(pre, act, post, out),
    ensures
        out is Some <==> act == crate::backups::Act::Quit,
        act == crate::backups::Act::Quit ==> post == pre && out == Some(Outcome::Quit),
{
}

/// Only one act leaves, and it changes nothing.
pub proof fn discovery_are_left_by_quitting_alone(pre: crate::discovery::Room, act: crate::discovery::Act, post: crate::discovery::Room, out: Option<Outcome>)
    requires
        crate::discovery::acted(pre, act, post, out),
    ensures
        out is Some <==> act == crate::discovery::Act::Quit,
        act == crate::discovery::Act::Quit ==> post == pre && out == Some(Outcome::Quit),
{
}

/// Only one act leaves, and it changes nothing.
pub proof fn federation_are_left_by_quitting_alone(pre: crate::federation::Room, act: crate::federation::Act, now: i64, post: crate::federation::Room, out: Option<Outcome>)
    requires
        crate::federation::acted(pre, act, now, post, out),
    ensures
        out is Some <==> act == crate::federation::Act::Quit,
        act == crate::federation::Act::Quit ==> post == pre && out == Some(Outcome::Quit),
{
}

/// Only one act leaves, and it changes nothing.
pub proof fn libraries_are_left_by_quitting_alone(pre: crate::libraries::Room, act: crate::libraries::Act, post: crate::libraries::Room, out: Option<Outcome>)
    requires
        crate::libraries::acted(pre, act, post, out),
    ensures
        out is Some <==> act == crate::libraries::Act::Quit,
        act == crate::libraries::Act::Quit ==> post == pre && out == Some(Outcome::Quit),
{
}

/// Only one act leaves, and it changes nothing.
pub proof fn stats_are_left_by_quitting_alone(pre: crate::stats::Page, act: crate::stats::Act, post: crate::stats::Page, out: Option<Outcome>)
    requires
        crate::stats::acted(pre, act, post, out),
    ensures
        out is Some <==> act == crate::stats::Act::Quit,
        act == crate::stats::Act::Quit ==> post == pre && out == Some(Outcome::Quit),
{
}

/// With nothing over the table, Esc lets go of the row first and leaves only
/// without one; `q` leaves at once.
pub proof fn backups_let_go_first(pre: crate::backups::Room, key: Key, post: crate::backups::Room, out: Option<Outcome>)
    requires
        pre.modal is Closed,
        crate::backups::keyed(pre, key, post, out),
    ensures
        key.code == Code::Esc && pre.sel is Some ==> post.sel is None && out is None && post.queued == pre.queued,
        key.code == Code::Esc && pre.sel is None ==> out == Some(Outcome::Quit) && post == pre,
        key.code == Code::Char('q') ==> out == Some(Outcome::Quit) && post == pre,
        key.code == Code::Up && pre.dests@.len() > 0 ==> post.sel == row_up(pre.sel, pre.dests@.len() as int) && out is None,
        key.code == Code::Down && pre.dests@.len() > 0 ==> post.sel == row_down(pre.sel, pre.dests@.len() as int) && out is None,
        (key.code == Code::Up || key.code == Code::Down) && pre.dests@.len() == 0 ==> post == pre,
        pre.cursor_dest() is None && (key.code == Code::Enter || key.code == Code::Delete || key.code == Code::Char('h') || key.code
            == Code::Char('n') || key.code == Code::Char('e') || key.code == Code::Char('s') || key.code == Code::Char(' ') || key.code
            == Code::Char('r')) ==> post == pre && out is None,
{
}

/// In the libraries likewise.
pub proof fn libraries_let_go_first(pre: crate::libraries::Room, key: Key, post: crate::libraries::Room, out: Option<Outcome>)
    requires
        pre.modal is Closed,
        crate::libraries::keyed(pre, key, post, out),
    ensures
        key.code == Code::Esc && pre.sel is Some ==> post.sel is None && out is None && post.queued == pre.queued,
        key.code == Code::Esc && pre.sel is None ==> out == Some(Outcome::Quit) && post == pre,
        key.code == Code::Char('q') ==> out == Some(Outcome::Quit) && post == pre,
        key.code == Code::Up && pre.libs@.len() > 0 ==> post.sel == row_up(pre.sel, pre.libs@.len() as int) && out is None,
        key.code == Code::Down && pre.libs@.len() > 0 ==> post.sel == row_down(pre.sel, pre.libs@.len() as int) && out is None,
        pre.sel is None && (key.code == Code::Delete || key.code == Code::Char('s') || key.code == Code::Char(' ') || key.code
            == Code::Char('r')) ==> post == pre && out is None,
        key.code == Code::Char('t') ==> post.modal is PathEntry && post.queued == pre.queued,
        key.code == Code::Char('b') && pre.same_machine ==> post.queued == Some(crate::libraries::Op::PickNative),
        key.code == Code::Char('b') && !pre.same_machine ==> !(post.queued is Some && post.queued->0 is PickNative) || post.queued
            == pre.queued,
{
}

/// On the statistics likewise; the tabs go round, and only on a ranking do its
/// keys work.
pub proof fn stats_let_go_first(pre: crate::stats::Page, key: Key, post: crate::stats::Page, out: Option<Outcome>)
    requires
        pre.modal is Closed,
        crate::stats::keyed(pre, key, post, out),
    ensures
        key.code == Code::Esc && pre.sel is Some ==> post.sel is None && out is None && post.queued == pre.queued,
        key.code == Code::Esc && pre.sel is None ==> out == Some(Outcome::Quit) && post == pre,
        key.code == Code::Char('q') ==> out == Some(Outcome::Quit) && post == pre,
        pre.row_count() == 0 && (key.code == Code::Up || key.code == Code::Down) ==> post == pre && out is None,
        key.code == Code::Up && 0 < pre.row_count() <= usize::MAX && (pre.sel is Some ==> pre.sel->0 < pre.row_count()) ==> post.sel == row_up(
            pre.sel,
            pre.row_count() as int,
        ),
        key.code == Code::Down && 0 < pre.row_count() <= usize::MAX && (pre.sel is Some ==> pre.sel->0 < pre.row_count()) ==> post.sel == row_down(
            pre.sel,
            pre.row_count() as int,
        ),
        pre.tab != crate::stats::Tab::Top && (key.code == Code::Char('t') || key.code == Code::Char('m')) ==> post == pre && out is None,
        pre.tab != crate::stats::Tab::Recent && (key.code == Code::Char('x') || key.code == Code::Delete) ==> post == pre && out is None,
        !pre.has_peers() && key.code == Code::Char('o') ==> post == pre && out is None,
        key.code == Code::Char('m') && pre.tab == crate::stats::Tab::Top ==> post.metric != pre.metric,
        key.code == Code::Char('p') ==> post.modal is Period && post.queued == pre.queued,
{
}

/// On the network likewise; the filter goes before the room is left.
pub proof fn discovery_lets_go_first(pre: crate::discovery::Room, key: Key, post: crate::discovery::Room, out: Option<Outcome>)
    requires
        pre.modal is Closed,
        pre.on(),
        !pre.ticket_focus,
        !pre.filter_focus,
        crate::discovery::keyed(pre, key, post, out),
    ensures
        key.code == Code::Esc && pre.sel is Some ==> post.sel is None && post.filter_on == pre.filter_on && out is None,
        key.code == Code::Esc && pre.sel is None && pre.filter_on ==> !post.filter_on && input_value(post.filter).len() == 0 && out is None,
        key.code == Code::Esc && pre.sel is None && !pre.filter_on ==> out == Some(Outcome::Quit) && post == pre,
        key.code == Code::Char('q') ==> out == Some(Outcome::Quit) && post == pre,
        key.code == Code::Up && pre.shown().len() > 0 ==> post.sel == row_up(pre.sel, pre.shown().len() as int) && out is None,
        key.code == Code::Down && pre.shown().len() > 0 ==> post.sel == row_down(pre.sel, pre.shown().len() as int) && out is None,
        key.code == Code::Char('/') ==> post.filter_on && post.filter_focus && post.sel is None && post.queued == pre.queued,
        key.code == Code::Char('j') ==> post.ticket_focus && post.queued == pre.queued,
        key.code == Code::Char('h') ==> post.show_incompatible == !pre.show_incompatible && post.queued is Some,
        key.code == Code::Enter && pre.sel is None ==> post == pre && out is None,
{
}

/// A key about a server does nothing without one under the cursor.
pub proof fn without_a_server_nothing_is_asked(pre: crate::discovery::Room, key: Key, post: crate::discovery::Room, out: Option<Outcome>)
    requires
        pre.modal is Closed,
        pre.on(),
        !pre.ticket_focus,
        !pre.filter_focus,
        pre.cursor_peer() is None,
        crate::discovery::keyed(pre, key, post, out),
    ensures
        key.code == Code::Delete || key.code == Code::Char('d') || key.code == Code::Char('p') || key.code == Code::Char('r') || key.code
            == Code::Char('f') || key.code == Code::Char('g') || key.code == Code::Char('b') ==> post == pre && out is None,
{
}

/// An inline field has the keys until Esc or Enter: what is typed goes into it,
/// and nothing is left.
pub proof fn inline_fields_take_the_keys(pre: crate::discovery::Room, key: Key, post: crate::discovery::Room, out: Option<Outcome>)
    requires
        pre.modal is Closed,
        pre.on(),
        pre.ticket_focus || pre.filter_focus,
        crate::discovery::keyed(pre, key, post, out),
    ensures
        out is None,
        pre.ticket_focus && key.code == Code::Esc ==> !post.ticket_focus && post.ticket == pre.ticket,
        pre.ticket_focus && key.code != Code::Esc && key.code != Code::Enter ==> post.ticket_focus && post.filter == pre.filter && post.queued
            == pre.queued,
        !pre.ticket_focus && key.code == Code::Esc ==> !post.filter_focus && !post.filter_on && input_value(post.filter).len() == 0,
        !pre.ticket_focus && key.code == Code::Enter ==> !post.filter_focus && post.filter == pre.filter && post.filter_on == pre.filter_on,
        !pre.ticket_focus && key.code != Code::Esc && key.code != Code::Enter ==> post.filter_focus && post.sel is None && post.ticket
            == pre.ticket,
{
}

/// Off the network the room has its three keys.
pub proof fn off_the_network_three_keys_work(pre: crate::discovery::Room, key: Key, post: crate::discovery::Room, out: Option<Outcome>)
    requires
        pre.modal is Closed,
        !pre.on(),
        crate::discovery::keyed(pre, key, post, out),
    ensures
        key.code == Code::Esc || key.code == Code::Char('q') <==> out == Some(Outcome::Quit),
        key.code == Code::Char(' ') ==> post.accept_requests == !pre.accept_requests,
        key.code != Code::Char(' ') && key.code != Code::Enter ==> post == pre,
{
}

/// In the federation likewise: the row first, then the room.
pub proof fn federation_lets_go_first(pre: crate::federation::Room, key: Key, now: i64, post: crate::federation::Room, out: Option<Outcome>)
    requires
        pre.modal is Closed,
        pre.on(),
        !pre.ticket_focus,
        crate::federation::keyed(pre, key, now, post, out),
    ensures
        key.code == Code::Esc && pre.sel is Some ==> post.sel is None && out is None && post.queued == pre.queued,
        key.code == Code::Esc && pre.sel is None ==> out == Some(Outcome::Quit) && post == pre,
        key.code == Code::Char('q') ==> out == Some(Outcome::Quit) && post == pre,
        key.code == Code::Char('x') ==> post.modal is TurnOff && post.queued == pre.queued,
        key.code == Code::Char('j') ==> post.ticket_focus && post.tab == crate::federation::Tab::Peers && post.queued == pre.queued,
        pre.cursor_request() is None && pre.cursor_key() is None && pre.cursor_peer() is None && (key.code == Code::Char('a') || key.code
            == Code::Char('c') || key.code == Code::Char('d') || key.code == Code::Char('y') || key.code == Code::Char('l') || key.code
            == Code::Char('b') || key.code == Code::Char('r') || key.code == Code::Char('t')) ==> post == pre && out is None,
{
}

/// Off, the federation's room has its two keys.
pub proof fn off_the_federation_two_keys_work(pre: crate::federation::Room, key: Key, now: i64, post: crate::federation::Room, out: Option<Outcome>)
    requires
        pre.modal is Closed,
        !pre.on(),
        crate::federation::keyed(pre, key, now, post, out),
    ensures
        key.code == Code::Esc || key.code == Code::Char('q') <==> out == Some(Outcome::Quit),
        key.code != Code::Enter ==> post == pre,
{
}

/// Nothing over a room leaves it: what lies on top goes first.
pub proof fn what_lies_on_top_goes_first(
    key: Key,
    now: i64,
    a: crate::backups::Room,
    a2: crate::backups::Room,
    c: crate::federation::Room,
    c2: crate::federation::Room,
    d: crate::libraries::Room,
    d2: crate::libraries::Room,
    e: crate::stats::Page,
    e2: crate::stats::Page,
    out: Option<Outcome>,
)
    ensures
        !(a.modal is Closed) && crate::backups::keyed(a, key, a2, out) ==> out is None,
        !(c.modal is Closed) && crate::federation::keyed(c, key, now, c2, out) ==> out is None,
        !(d.modal is Closed) && crate::libraries::keyed(d, key, d2, out) ==> out is None,
        !(e.modal is Closed) && crate::stats::keyed(e, key, e2, out) ==> out is None,
{
}

/// On the network likewise.
pub proof fn what_lies_over_the_network_goes_first(key: Key, b: crate::discovery::Room, b2: crate::discovery::Room, out: Option<Outcome>)
    requires
        !(b.modal is Closed),
        crate::discovery::keyed(b, key, b2, out),
    ensures
        out is None,
{
}

/// The paste box has the keys until Esc or Enter, and nothing is left meanwhile.
pub proof fn the_paste_box_takes_the_keys(pre: crate::federation::Room, key: Key, now: i64, post: crate::federation::Room, out: Option<Outcome>)
    requires
        pre.modal is Closed,
        pre.on(),
        pre.ticket_focus,
        crate::federation::keyed(pre, key, now, post, out),
    ensures
        out is None,
        key.code == Code::Esc ==> !post.ticket_focus && post.ticket == pre.ticket && post.queued == pre.queued,
        key.code != Code::Esc && key.code != Code::Enter ==> post.ticket_focus && post.queued == pre.queued && post.sel == pre.sel,
{
}

/// A change that changes nothing has nothing in it.
pub proof fn empty_changes_have_nothing(p: crate::backups::BackupPatch)
    ensures
        crate::backups::changes_nothing(p) <==> p.dest_path is None && p.trigger_type is None && p.daily_at_hour is None && p.retention_days is None
            && p.inter_file_delay_ms is None && p.exclude_globs is None && p.enabled is None,
{
}

/// A list that could not be had is said to have failed, and the old one stays.
pub proof fn failed_lists_are_said(m: crate::libraries::Room, e: ApiError, post: crate::libraries::Room)
    requires
        e is Network,
        crate::libraries::applied(m, crate::libraries::Done::Loaded(Err(e)), post),
    ensures
        post.libs == m.libs,
        post.note == Some(Note { msg: Msg::Failed("admin.load_failed", e), error: true }),
{
}

// ── Tabs and tables ──────────────────────────────────────────────────────

/// The tabs of the federation go round: the requests, the tickets, the peers;
/// the cursor stays behind.
pub proof fn federation_tabs_go_round(pre: crate::federation::Room, key: Key, now: i64, post: crate::federation::Room, out: Option<Outcome>)
    requires
        pre.modal is Closed,
        pre.on(),
        !pre.ticket_focus,
        key.code == Code::Left || key.code == Code::Right,
        crate::federation::keyed(pre, key, now, post, out),
    ensures
        out is None,
        post.sel is None,
        post.queued == pre.queued,
        key.code == Code::Right ==> match pre.tab {
            crate::federation::Tab::Requests => post.tab == crate::federation::Tab::Tickets,
            crate::federation::Tab::Tickets => post.tab == crate::federation::Tab::Peers,
            crate::federation::Tab::Peers => post.tab == crate::federation::Tab::Requests,
        },
        key.code == Code::Left ==> crate::federation::tab_beside(post.tab, true) == pre.tab,
{
}

/// The tabs of the network go round: the figures, the log, the invitation, the
/// settings; the log's asks for its lines.
pub proof fn discovery_tabs_go_round(pre: crate::discovery::Room, key: Key, post: crate::discovery::Room, out: Option<Outcome>)
    requires
        pre.modal is Closed,
        pre.on(),
        !pre.ticket_focus,
        !pre.filter_focus,
        key.code == Code::Left || key.code == Code::Right,
        crate::discovery::keyed(pre, key, post, out),
    ensures
        out is None,
        key.code == Code::Right ==> match pre.tab {
            crate::discovery::Tab::Stats => post.tab == crate::discovery::Tab::Activity,
            crate::discovery::Tab::Activity => post.tab == crate::discovery::Tab::Invite,
            crate::discovery::Tab::Invite => post.tab == crate::discovery::Tab::Config,
            crate::discovery::Tab::Config => post.tab == crate::discovery::Tab::Stats,
        },
        key.code == Code::Left ==> crate::discovery::tab_beside(post.tab, true) == pre.tab,
        post.tab == crate::discovery::Tab::Activity ==> post.queued == Some(crate::discovery::Op::Activity(pre.activity_seq)),
        post.tab != crate::discovery::Tab::Activity ==> post.queued == pre.queued,
{
}

/// The tabs of the statistics go round: the overview, the ranking, the log.
pub proof fn stats_tabs_go_round(pre: crate::stats::Page, key: Key, post: crate::stats::Page, out: Option<Outcome>)
    requires
        pre.modal is Closed,
        key.code == Code::Left || key.code == Code::Right,
        crate::stats::keyed(pre, key, post, out),
    ensures
        out is None,
        post.sel is None,
        post.queued == pre.queued,
        key.code == Code::Right ==> match pre.tab {
            crate::stats::Tab::Overview => post.tab == crate::stats::Tab::Top,
            crate::stats::Tab::Top => post.tab == crate::stats::Tab::Recent,
            crate::stats::Tab::Recent => post.tab == crate::stats::Tab::Overview,
        },
        key.code == Code::Left ==> crate::stats::tab_beside(post.tab, true) == pre.tab,
{
}

/// A table is scrolled up by what is below zero, else down, or to where it is
/// told; nothing else moves.
pub proof fn libraries_scroll(pre: crate::libraries::Room, delta: i8, pos: usize, post: crate::libraries::Room, out: Option<Outcome>)
    ensures
        crate::libraries::acted(pre, crate::libraries::Act::TableScroll(delta), post, out) ==> post.tscroll == crate::screen::scrolled(
            pre.tscroll,
            delta < 0,
        ) && post.sel == pre.sel,
        crate::libraries::acted(pre, crate::libraries::Act::TableScrollTo(pos), post, out) ==> post.tscroll == pos && post.sel == pre.sel,
{
}

/// In the backups likewise.
pub proof fn backups_scroll(pre: crate::backups::Room, delta: i8, pos: usize, post: crate::backups::Room, out: Option<Outcome>)
    ensures
        crate::backups::acted(pre, crate::backups::Act::TableScroll(delta), post, out) ==> post.tscroll == crate::screen::scrolled(
            pre.tscroll,
            delta < 0,
        ) && post.sel == pre.sel,
        crate::backups::acted(pre, crate::backups::Act::TableScrollTo(pos), post, out) ==> post.tscroll == pos && post.sel == pre.sel,
{
}

/// On the network likewise.
pub proof fn discovery_scrolls(pre: crate::discovery::Room, delta: i8, pos: usize, post: crate::discovery::Room, out: Option<Outcome>)
    ensures
        crate::discovery::acted(pre, crate::discovery::Act::TableScroll(delta), post, out) ==> post.tscroll == crate::screen::scrolled(
            pre.tscroll,
            delta < 0,
        ) && post.sel == pre.sel,
        crate::discovery::acted(pre, crate::discovery::Act::TableScrollTo(pos), post, out) ==> post.tscroll == pos && post.sel == pre.sel,
{
}

/// In the federation likewise.
pub proof fn federation_scrolls(pre: crate::federation::Room, delta: i8, pos: usize, now: i64, post: crate::federation::Room, out: Option<Outcome>)
    ensures
        crate::federation::acted(pre, crate::federation::Act::TableScroll(delta), now, post, out) ==> post.tscroll == crate::screen::scrolled(
            pre.tscroll,
            delta < 0,
        ) && post.sel == pre.sel,
        crate::federation::acted(pre, crate::federation::Act::TableScrollTo(pos), now, post, out) ==> post.tscroll == pos && post.sel
            == pre.sel,
{
}

/// On the statistics likewise.
pub proof fn stats_scroll(pre: crate::stats::Page, delta: i8, pos: usize, post: crate::stats::Page, out: Option<Outcome>)
    ensures
        crate::stats::acted(pre, crate::stats::Act::TableScroll(delta), post, out) ==> post.tscroll == crate::screen::scrolled(
            pre.tscroll,
            delta < 0,
        ) && post.sel == pre.sel,
        crate::stats::acted(pre, crate::stats::Act::TableScrollTo(pos), post, out) ==> post.tscroll == pos && post.sel == pre.sel,
{
}

/// What is under the cursor is of the tab that is open, at the cursor's row;
/// there is nothing past the last.
pub proof fn the_cursor_is_on_the_open_tab(room: crate::federation::Room)
    ensures
        room.cursor_request() is Some <==> room.tab == crate::federation::Tab::Requests && room.sel is Some && room.sel->0 < room.requests@.len(),
        room.cursor_key() is Some <==> room.tab == crate::federation::Tab::Tickets && room.sel is Some && room.sel->0 < room.keys@.len(),
        room.cursor_peer() is Some <==> room.tab == crate::federation::Tab::Peers && room.sel is Some && room.sel->0 < room.peers@.len(),
        room.cursor_request() matches Some(r) ==> r == room.requests@[room.sel->0 as int],
        room.cursor_key() matches Some(k) ==> k == room.keys@[room.sel->0 as int],
        room.cursor_peer() matches Some(p) ==> p == room.peers@[room.sel->0 as int],
        room.tab == crate::federation::Tab::Requests ==> room.row_count() == room.requests@.len(),
        room.tab == crate::federation::Tab::Tickets ==> room.row_count() == room.keys@.len(),
        room.tab == crate::federation::Tab::Peers ==> room.row_count() == room.peers@.len(),
{
}

/// Turning the federation on without a transport is said to have failed, and
/// there is nothing left to wait for; the state is asked for either way.
pub proof fn a_missing_transport_is_said(m: crate::federation::Room, on: bool, available: Option<bool>)
    ensures
        ({
            let post = crate::federation::switched_endpoint(m, on, available);
            &&& post.queued == Some(crate::federation::Op::Load)
            &&& available == Some(false) ==> !post.starting
            &&& available != Some(false) ==> post.starting == m.starting
            &&& post.note is Some <==> on && available == Some(false)
            &&& post.note matches Some(n) ==> n.error
        }),
{
}

/// Peers' plays can be asked for where there are some, or where they are asked
/// for already.
pub proof fn peers_are_offered_where_they_played(page: crate::stats::Page)
    ensures
        page.has_peers() <==> page.origin != crate::stats::Origin::All || (page.data matches Some(d) && d.summary.origins.peers.plays >= 1),
{
}

/// The list of periods ends with all time, and has the current month where the
/// log has none.
pub proof fn periods_end_with_all_time(list: Seq<crate::stats::PeriodOption>, zone: Option<crate::zone::Zone>)
    ensures
        crate::stats::all_options(list, zone).last().preset == crate::stats::Preset::All,
        crate::stats::all_options(list, zone).len() >= 2,
        list.len() == 0 ==> crate::stats::all_options(list, zone).len() == 2 && crate::stats::all_options(list, zone)[0].preset
            == crate::stats::Preset::Month && crate::stats::all_options(list, zone)[0].offset == 0,
{
}

/// A call waits where one is queued that is no listing.
pub proof fn listings_do_not_wait(queued: Option<crate::libraries::Op>)
    ensures
        crate::libraries::waits(queued) <==> queued is Some && !(queued->0 is Complete),
{
}

/// A folder that is to be named has its own name on offer, and nothing wrong
/// with it yet.
pub proof fn folders_are_offered_their_name(pre: crate::libraries::Room, directory: Seq<char>, post: crate::libraries::Room)
    requires
        crate::libraries::naming(pre, directory, post),
    ensures
        crate::text::trimmed(directory).len() == 0 ==> post == pre,
        crate::text::trimmed(directory).len() > 0 ==> (post.modal matches crate::libraries::Modal::Name(d) && d.error is None && d.directory@
            == crate::text::trimmed(directory) && input_value(d.name) == crate::paths::slug(crate::text::trimmed(directory))) && post.note
            is None && post.queued == pre.queued,
{
}

/// A suggestion that is taken ends with the separator of its own path.
pub proof fn suggestions_end_with_their_separator(d: crate::paths::PathDraft, name: Seq<char>)
    ensures
        ({
            let taken = crate::libraries::suggested(d, name);
            &&& taken.len() > 0
            &&& taken.drop_last().contains('\\') <==> taken.last() == '\\'
            &&& taken.last() == '\\' || taken.last() == '/'
        }),
{
    let base = if d.listed_path@.len() == 0 { crate::paths::dir_part(input_value(d.text)) } else { d.listed_path@ };
    assert(crate::libraries::suggested(d, name).drop_last() =~= crate::paths::below(base, name));
}

/// What a failed listing says ends with why it failed, after the folder it was
/// of.
pub proof fn failed_listings_say_why(dir: Seq<char>, words: Seq<char>)
    requires
        dir.len() > 0,
    ensures
        ({
            let said = crate::libraries::listing_error(dir, words);
            &&& said.len() == 17 + dir.len() + words.len()
            &&& said.subrange(15, 15 + dir.len() as int) == dir
            &&& said.skip(17 + dir.len() as int) == words
        }),
{
    reveal_strlit("could not list ");
    reveal_strlit(": ");
    let said = crate::libraries::listing_error(dir, words);
    assert(said.subrange(15, 15 + dir.len() as int) =~= dir);
    assert(said.skip(17 + dir.len() as int) =~= words);
}

/// Where joining left the inbox closed, why is said as an error, and the network
/// is asked for.
pub proof fn a_closed_inbox_is_said(m: crate::discovery::Room, doc: Seq<char>, err: Seq<char>, v: Seq<char>, post: crate::discovery::Room)
    requires
        crate::outside::json_member(doc, "federationError"@) == Some(v),
        crate::outside::json_string(v) == Some(err),
        crate::discovery::joined_into(m, doc, post),
    ensures
        post.queued is Some,
        post.note matches Some(n) && n.error && (n.msg matches Msg::One(key, f) && key == "p2p.inbox_failed" && f.name == "err" && (
        f.arg matches crate::msg::Arg::Text(t) && t@ == err)),
{
}

/// The wheel is over the log on the log's tab alone, from its first row through
/// its last.
pub proof fn the_log_has_its_rows(room: crate::discovery::Room, y: u16)
    ensures
        room.over_log(y) ==> room.tab == crate::discovery::Tab::Activity,
        room.tab == crate::discovery::Tab::Activity ==> !room.over_log(5) && room.over_log(6),
{
}

// ── Lists in modals ──────────────────────────────────────────────────────

/// The history of runs and the browser are walked row by row, and know no other
/// keys.
pub proof fn backups_lists_are_walked(pre: crate::backups::Room, key: Key, post: crate::backups::Room, out: Option<Outcome>)
    requires
        crate::backups::keyed(pre, key, post, out),
    ensures
        pre.modal matches crate::backups::Modal::History { dest, runs, loaded, sel } ==> (key.code == Code::Up || key.code == Code::Down)
            && sel < runs@.len() <= usize::MAX ==> out is None && post.queued == pre.queued && (post.modal matches crate::backups::Modal::History {
            dest: d,
            runs: r,
            loaded: l,
            sel: to,
        } && r == runs && one_row(sel as int, runs@.len() as int, key.code == Code::Up, to as int)),
        pre.modal matches crate::backups::Modal::Browser { browse, form } ==> (key.code == Code::Up || key.code == Code::Down)
            && browse.sel < browse.dirs@.len() <= usize::MAX ==> out is None && post.queued == pre.queued && (
        post.modal matches crate::backups::Modal::Browser { browse: b, form: f } && f == form && b.dirs == browse.dirs && one_row(
            browse.sel as int,
            browse.dirs@.len() as int,
            key.code == Code::Up,
            b.sel as int,
        )),
        (pre.modal is History || pre.modal is Browser) && no_list_key(key) ==> post == pre && out is None,
        pre.modal is History && (key.code == Code::Esc || key.code == Code::Enter) ==> post.modal is Closed && post.queued == pre.queued,
        pre.modal matches crate::backups::Modal::Browser { browse, form } ==> key.code == Code::Esc ==> post.modal
            == crate::backups::Modal::Form(form) && post.queued == pre.queued,
        pre.modal is Remove && no_answer(key) ==> post == pre && out is None,
        pre.modal is Remove && (key.code == Code::Esc || key.code == Code::Enter || key.code == Code::Char('n')) ==> post.modal is Closed
            && post.queued == pre.queued,
{
}

/// The libraries' browser likewise.
pub proof fn libraries_lists_are_walked(pre: crate::libraries::Room, key: Key, post: crate::libraries::Room, out: Option<Outcome>)
    requires
        crate::libraries::keyed(pre, key, post, out),
    ensures
        pre.modal matches crate::libraries::Modal::Browser(b) ==> (key.code == Code::Up || key.code == Code::Down) && b.sel < b.dirs@.len() <= usize::MAX
            ==> out is None && post.queued == pre.queued && (post.modal matches crate::libraries::Modal::Browser(c) && c.dirs == b.dirs
            && one_row(b.sel as int, b.dirs@.len() as int, key.code == Code::Up, c.sel as int)),
        pre.modal is Browser && no_list_key(key) ==> post == pre && out is None,
        pre.modal is Browser && key.code == Code::Esc ==> post.modal is Closed && post.queued == pre.queued,
        pre.modal is Remove && no_answer(key) ==> post == pre && out is None,
        pre.modal is Remove && (key.code == Code::Esc || key.code == Code::Enter || key.code == Code::Char('n')) ==> post.modal is Closed
            && post.queued == pre.queued,
{
}

/// The list of periods likewise, and the warning before a play is forgotten.
pub proof fn periods_are_walked(pre: crate::stats::Page, key: Key, post: crate::stats::Page, out: Option<Outcome>)
    requires
        crate::stats::keyed(pre, key, post, out),
    ensures
        pre.modal matches crate::stats::Modal::Period(i) ==> (key.code == Code::Up || key.code == Code::Down) && i < pre.options@.len() <= usize::MAX
            ==> out is None && post.queued == pre.queued && (post.modal matches crate::stats::Modal::Period(to) && one_row(
            i as int,
            pre.options@.len() as int,
            key.code == Code::Up,
            to as int,
        )),
        pre.modal is Period && no_list_key(key) ==> post == pre && out is None,
        pre.modal is Period && key.code == Code::Esc ==> post.modal is Closed && post.queued == pre.queued && post.period == pre.period,
        pre.modal is Forget && no_answer(key) ==> post == pre && out is None,
        pre.modal is Forget && (key.code == Code::Esc || key.code == Code::Enter || key.code == Code::Char('n')) ==> post.modal is Closed
            && post.queued == pre.queued && post.history == pre.history,
{
}

/// A server's sheet and the blocked servers likewise, and the warnings.
pub proof fn discovery_lists_are_walked(pre: crate::discovery::Room, key: Key, post: crate::discovery::Room, out: Option<Outcome>)
    requires
        crate::discovery::keyed(pre, key, post, out),
    ensures
        pre.modal matches crate::discovery::Modal::Sheet { id, sel } ==> (key.code == Code::Up || key.code == Code::Down) && sel
            < pre.sheet_of(id@).len() <= usize::MAX ==> out is None && post.queued == pre.queued && (
        post.modal matches crate::discovery::Modal::Sheet { id: i, sel: to } && i == id && one_row(
            sel as int,
            pre.sheet_of(id@).len() as int,
            key.code == Code::Up,
            to as int,
        )),
        pre.modal matches crate::discovery::Modal::Blocked(sel) ==> (key.code == Code::Up || key.code == Code::Down) && pre.status is Some
            && sel < pre.status->0.blocked_peers@.len() <= usize::MAX ==> out is None && post.queued == pre.queued && (
        post.modal matches crate::discovery::Modal::Blocked(to) && one_row(
            sel as int,
            pre.status->0.blocked_peers@.len() as int,
            key.code == Code::Up,
            to as int,
        )),
        (pre.modal is Sheet || pre.modal is Blocked) && no_list_key(key) ==> post == pre && out is None,
        (pre.modal is Sheet || pre.modal is Blocked) && key.code == Code::Esc ==> post.modal is Closed && post.queued == pre.queued,
        (pre.modal is Block || pre.modal is Leave) && no_answer(key) ==> post == pre && out is None,
        (pre.modal is Block || pre.modal is Leave) && (key.code == Code::Esc || key.code == Code::Enter || key.code == Code::Char('n'))
            ==> post.modal is Closed && post.queued == pre.queued,
{
}

/// The federation's warnings likewise, and the ticket that was just made.
pub proof fn federation_warnings_wait(pre: crate::federation::Room, key: Key, now: i64, post: crate::federation::Room, out: Option<Outcome>)
    requires
        crate::federation::keyed(pre, key, now, post, out),
    ensures
        (pre.modal is Decline || pre.modal is Revoke || pre.modal is Forget || pre.modal is TurnOff) && no_answer(key) ==> post == pre && out is None,
        (pre.modal is Decline || pre.modal is Revoke || pre.modal is Forget || pre.modal is TurnOff) && (key.code == Code::Esc || key.code
            == Code::Enter || key.code == Code::Char('n')) ==> post.modal is Closed && post.queued == pre.queued,
        pre.modal is Minted && (key.code == Code::Esc || key.code == Code::Enter) ==> post.modal is Closed && post.queued == pre.queued,
        pre.modal matches crate::federation::Modal::Minted { name, ticket, libraries } ==> key.code == Code::Char('y') && ticket is Some
            ==> post.clipboard == ticket && post.modal == pre.modal,
        pre.modal is Minted && key.code != Code::Esc && key.code != Code::Enter && key.code != Code::Char('y') ==> post == pre && out is None,
        pre.modal is PeerName && key.code == Code::Esc ==> post.modal is Closed && post.queued == pre.queued,
        pre.modal is PeerName && key.code == Code::Char('|') ==> post == pre && out is None,
{
}

/// The blocked servers open where there are some.
pub proof fn blocked_servers_open(pre: crate::discovery::Room, post: crate::discovery::Room, out: Option<Outcome>)
    requires
        crate::discovery::acted(pre, crate::discovery::Act::BlockedOpen, post, out),
    ensures
        pre.status is Some && pre.status->0.blocked_peers@.len() > 0 ==> post.modal == crate::discovery::Modal::Blocked(0),
        pre.status is None || pre.status->0.blocked_peers@.len() == 0 ==> post == pre,
{
}

/// The server under the cursor is the one of the visible row that the cursor is
/// on; there is none past the last.
pub proof fn the_cursor_is_on_its_server(room: crate::discovery::Room)
    ensures
        room.cursor_peer() is Some <==> room.sel is Some && room.sel->0 < room.shown().len(),
        room.cursor_peer() matches Some(p) ==> p == room.catalog.peers@[room.shown()[room.sel->0 as int] as int],
{
}

/// The focus of a request goes round its message and its libraries, and back the
/// same way.
pub proof fn the_focus_goes_round(i: usize, n: int)
    requires
        0 <= i < n <= usize::MAX,
    ensures
        crate::discovery::focus_after(None, n) == Some(0usize),
        crate::discovery::focus_after(Some((n - 1) as usize), n) is None,
        crate::discovery::focus_before(None, n) == Some((n - 1) as usize),
        crate::discovery::focus_before(Some(0), n) is None,
        i + 1 < n ==> crate::discovery::focus_after(Some(i), n) == Some((i + 1) as usize),
        i > 0 ==> crate::discovery::focus_before(Some(i), n) == Some((i - 1) as usize),
        crate::discovery::focus_before(crate::discovery::focus_after(Some(i), n), n) == Some(i),
{
}

/// Digits alone go into a setting, a bar never into an identity, and a full
/// field takes no more.
pub proof fn fields_take_their_characters(pre: crate::discovery::Room, c: char, key: Key, post: crate::discovery::Room, out: Option<Outcome>)
    requires
        key.code == Code::Char(c),
        crate::discovery::keyed(pre, key, post, out),
    ensures
        pre.modal is Setting && !is_digit(c) ==> post == pre && out is None,
        pre.modal is Identity && (c == '|' || control(c)) ==> post == pre && out is None,
        pre.modal matches crate::discovery::Modal::Identity(d) ==> input_value(if d.on_description { d.description } else { d.name }).len()
            < 64 && c != '|' && !control(c) ==> (post.modal matches crate::discovery::Modal::Identity(e) && e.error is None) && post.queued
            == pre.queued,
        pre.modal matches crate::discovery::Modal::Identity(d) ==> (!d.on_description && input_value(d.name).len() >= 64 || d.on_description
            && input_value(d.description).len() >= 180) ==> post == pre,
        pre.modal matches crate::discovery::Modal::Federate(m) ==> m.focus is None && input_value(m.message).len() >= 500 ==> post == pre,
        pre.modal matches crate::discovery::Modal::Federate(m) ==> m.focus is None && input_value(m.message).len() < 500 ==> (
        post.modal matches crate::discovery::Modal::Federate(e) && e.error is None && e.libraries == m.libraries),
        pre.modal matches crate::discovery::Modal::Federate(m) ==> m.focus is Some && c != ' ' ==> post == pre && out is None,
{
}

/// Digits alone go into a cap, up to nine of them; no bar and no control
/// character into a name, and no more than fits.
pub proof fn caps_take_digits(pre: crate::federation::Room, f: crate::federation::Form, c: char, key: Key, now: i64, post: crate::federation::Room, out: Option<Outcome>)
    requires
        key.code == Code::Char(c),
        pre.modal == crate::federation::Modal::Form(Box::new(f)),
        f.input(f.focused_field()) is Some,
        crate::federation::keyed(pre, key, now, post, out),
    ensures
        ({
            let field = f.focused_field();
            let typed = input_value(f.input(field)->0).len();
            let taken = if field == crate::federation::Field::Name {
                c != '|' && !control(c) && typed < 64
            } else {
                is_digit(c) && typed < 9
            };
            &&& out is None
            &&& post.queued == pre.queued
            &&& !taken ==> post == pre
            &&& taken ==> (post.modal matches crate::federation::Modal::Form(g) && g.error is None)
        }),
{
}

/// Letters, digits and dashes alone go into a library's name.
pub proof fn names_take_letters(pre: crate::libraries::Room, d: crate::libraries::NameDraft, c: char, key: Key, post: crate::libraries::Room, out: Option<Outcome>)
    requires
        key.code == Code::Char(c),
        pre.modal == crate::libraries::Modal::Name(d),
        crate::libraries::keyed(pre, key, post, out),
    ensures
        out is None,
        post.queued == pre.queued,
        !alphanumeric(c) && c != '-' ==> post == pre,
        alphanumeric(c) || c == '-' ==> (post.modal matches crate::libraries::Modal::Name(e) && e.error is None),
{
}

/// A key that leaves the typed path as it is asks for nothing and keeps the
/// suggestion under the cursor; one that changes it lets go of that.
pub proof fn unchanged_paths_ask_nothing(pre: crate::libraries::Room, d: crate::paths::PathDraft, key: Key, post: crate::libraries::Room, out: Option<Outcome>)
    requires
        pre.modal == crate::libraries::Modal::PathEntry(d),
        crate::libraries::keyed(pre, key, post, out),
        key.code is Char || key.code == Code::Backspace || key.code == Code::Delete || key.code == Code::Home,
    ensures
        out is None,
        !key_changes(d.text, key) ==> post.queued == pre.queued && post.pending_complete == pre.pending_complete && (
        post.modal matches crate::libraries::Modal::PathEntry(e) && e.sel == d.sel && e.entries == d.entries),
        key_changes(d.text, key) ==> (post.modal matches crate::libraries::Modal::PathEntry(e) && e.sel is None && e.scroll == 0),
{
}

/// A path that is taken away takes its suggestions with it.
pub proof fn no_path_no_suggestions(pre: crate::libraries::Room, d: crate::paths::PathDraft, post: crate::libraries::Room)
    requires
        pre.modal == crate::libraries::Modal::PathEntry(d),
        input_value(d.text).len() == 0,
        crate::libraries::refreshed(pre, post),
    ensures
        post.queued == pre.queued,
        post.modal matches crate::libraries::Modal::PathEntry(e) && e.entries@.len() == 0 && e.listed_for@.len() == 0 && e.listed_path@.len() == 0
            && e.error is None,
{
}

/// Where repeated separators are taken out of a path, the cursor keeps its
/// distance from the end.
pub proof fn the_cursor_keeps_its_distance(text: tui_input::Input, post: tui_input::Input)
    requires
        crate::libraries::tidied(text, post),
        input_cursor(text) <= input_value(text).len(),
        crate::paths::collapsed(input_value(text)) != input_value(text),
        input_value(text).len() - input_cursor(text) <= crate::paths::collapsed(input_value(text)).len(),
    ensures
        input_value(post).len() - input_cursor(post) == input_value(text).len() - input_cursor(text),
{
}

// ── Answers ──────────────────────────────────────────────────────────────

/// Once a call has answered, none is running and nothing is busy.
pub proof fn answered_calls_are_over(
    a: crate::backups::Room,
    b: crate::discovery::Room,
    c: crate::federation::Room,
    d: crate::libraries::Room,
    e: crate::stats::Page,
)
    ensures
        !crate::backups::settled(a).in_flight && crate::backups::settled(a).busy is None,
        !crate::discovery::settled(b).in_flight && crate::discovery::settled(b).busy is None && crate::discovery::settled(b).queued == b.queued,
        !crate::federation::settled(c).in_flight && crate::federation::settled(c).busy is None && crate::federation::settled(c).queued
            == c.queued,
        !crate::libraries::settled(d).in_flight && crate::libraries::settled(d).busy is None,
        !crate::stats::settled(e).in_flight && crate::stats::settled(e).busy is None && crate::stats::settled(e).queued == e.queued,
        a.pending_check is Some ==> crate::backups::settled(a).queued == a.pending_check && crate::backups::settled(a).pending_check is None,
        a.pending_check is None ==> crate::backups::settled(a).queued == a.queued,
        d.queued is None && d.pending_complete is Some ==> crate::libraries::settled(d).queued == Some(
            crate::libraries::Op::Complete(d.pending_complete->0),
        ) && crate::libraries::settled(d).pending_complete is None,
        d.queued is Some ==> crate::libraries::settled(d).queued == d.queued,
{
}

/// How the failures are written: no two alike.
proof fn failings_are_told_apart()
    ensures
        "sta.fail_load"@.len() == 13 && "sta.fail_load"@[11] == 'a',
        "sta.fail_top"@.len() == 12 && "sta.fail_top"@[11] == 'p',
        "sta.fail_more"@.len() == 13 && "sta.fail_more"@[11] == 'r',
        "sta.fail_forget"@.len() == 15 && "sta.fail_forget"@[11] == 'r',
        "sta.gate_forbidden"@.len() == 18 && "sta.gate_forbidden"@[11] == 'r',
        "fed.fail_mint"@.len() == 13 && "fed.fail_mint"@[11] == 'n',
        "fed.fail_test"@.len() == 13 && "fed.fail_test"@[11] == 's',
        "fed.load_failed"@.len() == 15 && "fed.load_failed"@[11] == 'i',
{
    reveal_strlit("sta.fail_load");
    reveal_strlit("sta.fail_top");
    reveal_strlit("sta.fail_more");
    reveal_strlit("sta.fail_forget");
    reveal_strlit("sta.gate_forbidden");
    reveal_strlit("fed.fail_mint");
    reveal_strlit("fed.fail_test");
    reveal_strlit("fed.load_failed");
}

/// What failed is said of what was asked, and changes nothing else; an answer to
/// an older question is dropped.
pub proof fn failures_are_said_of_what_was_asked(m: crate::stats::Page, done: crate::stats::Done, e: ApiError, post: crate::stats::Page)
    requires
        crate::stats::applied(m, done, post),
        e is Network,
    ensures
        done matches crate::stats::Done::Top { seq, result } ==> seq == m.seq && result == Err::<Vec<crate::stats::TopItem>, ApiError>(e)
            ==> post.top == m.top && post.note == Some(Note { msg: Msg::Failed("sta.fail_top", e), error: true }),
        done matches crate::stats::Done::Forgot { id, row, result } ==> result == Err::<(), ApiError>(e) ==> post.history == m.history
            && post.note == Some(Note { msg: Msg::Failed("sta.fail_forget", e), error: true }),
        done matches crate::stats::Done::Top { seq, result } ==> seq != m.seq ==> post == m,
        done matches crate::stats::Done::Loaded { seq, result } ==> seq != m.seq ==> post == m,
        done matches crate::stats::Done::History { seq, result } ==> seq != m.seq ==> post == m,
        done matches crate::stats::Done::History { seq, result } ==> seq == m.seq && result is Err && result->Err_0 == e ==> post.history
            == m.history && post.note == Some(Note { msg: Msg::Failed("sta.fail_more", e), error: true }),
{
    failings_are_told_apart();
}

/// A ticket that could not be made is said to have failed, in its form or as a
/// note.
pub proof fn failed_tickets_are_said(m: crate::federation::Room, libraries: Vec<String>, e: ApiError, post: crate::federation::Room)
    requires
        crate::federation::applied(m, crate::federation::Done::Minted { libraries, result: Err(e) }, post),
    ensures
        m.modal is Form ==> (post.modal matches crate::federation::Modal::Form(g) && g.error == Some(Msg::Failed("fed.fail_mint", e)))
            && post.note == m.note,
        !(m.modal is Form) ==> post.modal == m.modal && post.note == Some(Note { msg: Msg::Failed("fed.fail_mint", e), error: true }),
{
}

/// The calls that take something away: a request declined, a ticket revoked, a
/// peer forgotten, the federation turned off; no other.
pub proof fn what_takes_away(op: crate::federation::Op)
    ensures
        crate::federation::takes_away(op) <==> op is Reject || op is Revoke || op is RemovePeer || (
        op matches crate::federation::Op::SetEnabled(on) && !on),
{
}

// ── Periods ──────────────────────────────────────────────────────────────

/// How the kinds of period are written: no two alike.
proof fn names_are_told_apart()
    ensures
        "sta.this_week"@.len() == 13 && "sta.this_week"@[4] == 't' && "sta.this_week"@[9] == 'w',
        "sta.this_month"@.len() == 14 && "sta.this_month"@[4] == 't' && "sta.this_month"@[9] == 'm',
        "sta.this_quarter"@.len() == 16 && "sta.this_quarter"@[4] == 't' && "sta.this_quarter"@[9] == 'q',
        "sta.this_half"@.len() == 13 && "sta.this_half"@[4] == 't' && "sta.this_half"@[9] == 'h',
        "sta.this_year"@.len() == 13 && "sta.this_year"@[4] == 't' && "sta.this_year"@[9] == 'y',
        "sta.last_week"@.len() == 13 && "sta.last_week"@[4] == 'l' && "sta.last_week"@[9] == 'w',
        "sta.last_month"@.len() == 14 && "sta.last_month"@[4] == 'l' && "sta.last_month"@[9] == 'm',
        "sta.last_quarter"@.len() == 16 && "sta.last_quarter"@[4] == 'l' && "sta.last_quarter"@[9] == 'q',
        "sta.last_half"@.len() == 13 && "sta.last_half"@[4] == 'l' && "sta.last_half"@[9] == 'h',
        "sta.last_year"@.len() == 13 && "sta.last_year"@[4] == 'l' && "sta.last_year"@[9] == 'y',
        "sta.vs_week"@.len() == 11 && "sta.vs_week"@[4] == 'v' && "sta.vs_week"@[9] == 'e',
        "sta.vs_month"@.len() == 12 && "sta.vs_month"@[4] == 'v' && "sta.vs_month"@[9] == 'n',
        "sta.vs_quarter"@.len() == 14 && "sta.vs_quarter"@[4] == 'v' && "sta.vs_quarter"@[9] == 'a',
        "sta.vs_half"@.len() == 11 && "sta.vs_half"@[4] == 'v' && "sta.vs_half"@[9] == 'l',
        "sta.vs_year"@.len() == 11 && "sta.vs_year"@[4] == 'v' && "sta.vs_year"@[9] == 'a',
        "sta.vs_previous"@.len() == 15 && "sta.vs_previous"@[4] == 'v' && "sta.vs_previous"@[9] == 'e',
{
    reveal_strlit("sta.this_week");
    reveal_strlit("sta.this_month");
    reveal_strlit("sta.this_quarter");
    reveal_strlit("sta.this_half");
    reveal_strlit("sta.this_year");
    reveal_strlit("sta.last_week");
    reveal_strlit("sta.last_month");
    reveal_strlit("sta.last_quarter");
    reveal_strlit("sta.last_half");
    reveal_strlit("sta.last_year");
    reveal_strlit("sta.vs_week");
    reveal_strlit("sta.vs_month");
    reveal_strlit("sta.vs_quarter");
    reveal_strlit("sta.vs_half");
    reveal_strlit("sta.vs_year");
    reveal_strlit("sta.vs_previous");
}

/// A kind of period goes by its own words: the current one, the one before, and
/// the one that it is compared with.
pub proof fn kinds_go_by_their_words(p: crate::stats::Preset)
    requires
        p != crate::stats::Preset::All,
    ensures
        crate::stats::this_key(p) == "sta.this_week" <==> p == crate::stats::Preset::Week,
        crate::stats::last_key(p) == "sta.last_week" <==> p == crate::stats::Preset::Week,
        crate::stats::versus_key(p) == "sta.vs_week" <==> p == crate::stats::Preset::Week,
        crate::stats::this_key(p) == "sta.this_month" <==> p == crate::stats::Preset::Month,
        crate::stats::last_key(p) == "sta.last_month" <==> p == crate::stats::Preset::Month,
        crate::stats::versus_key(p) == "sta.vs_month" <==> p == crate::stats::Preset::Month,
        crate::stats::this_key(p) == "sta.this_quarter" <==> p == crate::stats::Preset::Quarter,
        crate::stats::last_key(p) == "sta.last_quarter" <==> p == crate::stats::Preset::Quarter,
        crate::stats::versus_key(p) == "sta.vs_quarter" <==> p == crate::stats::Preset::Quarter,
        crate::stats::this_key(p) == "sta.this_half" <==> p == crate::stats::Preset::Half,
        crate::stats::last_key(p) == "sta.last_half" <==> p == crate::stats::Preset::Half,
        crate::stats::versus_key(p) == "sta.vs_half" <==> p == crate::stats::Preset::Half,
        crate::stats::this_key(p) == "sta.this_year" <==> p == crate::stats::Preset::Year,
        crate::stats::last_key(p) == "sta.last_year" <==> p == crate::stats::Preset::Year,
        crate::stats::versus_key(p) == "sta.vs_year" <==> p == crate::stats::Preset::Year,
{
    names_are_told_apart();
}

/// A page opens on the current month, of everyone's plays, by their number.
pub proof fn pages_open_on_this_month(page: crate::stats::Page, username: Option<String>, zone: Option<crate::zone::Zone>, phrases: crate::phrases::Phrases)
    requires
        page.fresh(username, zone, phrases),
    ensures
        page.period.preset == crate::stats::Preset::Month && page.period.offset == 0,
        page.tab == crate::stats::Tab::Overview && page.origin == crate::stats::Origin::All && page.entity == crate::stats::Entity::Tracks
            && page.metric == crate::stats::Metric::Plays,
        page.data is None && page.note is None && page.sel is None && page.modal is Closed && page.history@.len() == 0 && page.top@.len() == 0,
        !page.no_api && !page.in_flight && page.next is None,
        page.username == username && page.zone == zone,
        zone matches Some(z) ==> page.tz@ == z.name@,
{
}

/// A room opens with nothing known, nothing asked and nothing over it.
pub proof fn rooms_open_with_nothing_known(d: crate::discovery::Room, bounds: crate::discovery::Bounds, f: crate::federation::Room)
    requires
        d.fresh(bounds),
        f.fresh(),
    ensures
        d.bounds == bounds && d.status is None && d.note is None && d.sel is None && d.modal is Closed && !d.in_flight,
        !d.filter_on && !d.filter_focus && !d.ticket_focus && !d.show_incompatible && !d.name_after_join && d.accept_requests,
        !d.federation.enabled && !d.federation.available && !d.federation.running && !d.federation.online && !d.federation.accept_requests,
        d.federation.endpoint_id is None && d.federation.relay_url is None,
        d.catalog.peers@.len() == 0 && d.requests@.len() == 0 && d.activity@.len() == 0 && d.activity_seq == 0 && d.clipboard is None,
        f.params is None && f.note is None && f.sel is None && f.modal is Closed && !f.in_flight && !f.starting && !f.ticket_focus,
        f.tab == crate::federation::Tab::Requests && !f.accept_requests && f.clipboard is None && f.last_load is None,
        f.requests@.len() == 0 && f.keys@.len() == 0 && f.peers@.len() == 0 && f.libraries@.len() == 0,
{
}

/// The rows of a tab are those of its list; the overview has none.
pub proof fn tabs_have_their_rows(page: crate::stats::Page)
    ensures
        page.tab == crate::stats::Tab::Overview ==> page.row_count() == 0,
        page.tab == crate::stats::Tab::Top ==> page.row_count() == page.top@.len(),
        page.tab == crate::stats::Tab::Recent ==> page.row_count() == page.history@.len(),
{
}

/// Everything is asked for again under a new number, for the period, the origin
/// and the ranking in force, busy only where it is said aloud.
pub proof fn reloads_ask_for_what_is_chosen(page: crate::stats::Page, loud: bool)
    requires
        page.seq < u64::MAX,
    ensures
        page.reloading(loud).seq == page.seq + 1,
        page.reloading(loud).queued matches Some(crate::stats::Op::Load { seq, period, origin, entity, metric, tz }) && seq == page.seq + 1
            && period == page.period && origin == page.origin && entity == page.entity && metric == page.metric && tz == page.tz,
        loud ==> page.reloading(loud).busy is Some,
        !loud ==> page.reloading(loud).busy == page.busy,
        page.reranking().queued matches Some(crate::stats::Op::Top { seq, period, origin, entity, metric, tz }) && seq == page.seq + 1
            && period == page.period && origin == page.origin && entity == page.entity && metric == page.metric && tz == page.tz,
        page.reranking().sel is None && page.reranking().busy is Some,
{
}

/// Once a row has left the log, the cursor stays, or rests on the last row, and
/// is gone with the last.
pub proof fn the_cursor_stays_in_the_log(s: usize, n: int)
    requires
        0 <= n <= usize::MAX,
    ensures
        n == 0 ==> crate::stats::cursor_left(Some(s), n) is None,
        n > 0 && s < n ==> crate::stats::cursor_left(Some(s), n) == Some(s),
        n > 0 && s >= n ==> crate::stats::cursor_left(Some(s), n) == Some((n - 1) as usize),
        crate::stats::cursor_left(None, n) is None,
{
}

/// A log is empty where nothing was played, in this period or ever.
pub proof fn empty_logs_have_nothing(page: crate::stats::Page)
    ensures
        page.log_is_empty() ==> page.data is Some && page.data->0.summary.events == 0 && (page.data->0.periods matches Some(p) ==> p.earliest is None
            && p.periods@.len() == 0),
        page.data is Some && page.data->0.summary.events == 0 && page.data->0.periods is None ==> page.log_is_empty(),
        page.data is None || page.data->0.summary.events > 0 ==> !page.log_is_empty(),
{
}

// ── Backups ──────────────────────────────────────────────────────────────

/// The triggers in their order, back and forth.
pub proof fn triggers_have_their_places(t: crate::backups::Trigger)
    ensures
        crate::backups::trigger_at(crate::backups::trigger_index(t)) == t,
        crate::backups::trigger_at(0) == crate::backups::Trigger::AfterScan,
        crate::backups::trigger_at(1) == crate::backups::Trigger::Daily,
        crate::backups::trigger_at(2) == crate::backups::Trigger::Manual,
{
}

/// A path is asked about where there is one; what was said of it goes with it.
pub proof fn paths_are_asked_about(pre: crate::backups::Room, f: crate::backups::Form, post: crate::backups::Room)
    requires
        pre.modal == crate::backups::Modal::Form(Box::new(f)),
        crate::backups::path_asked(pre, post),
        f.library_id != 0,
    ensures
        ({
            let typed = crate::text::trimmed(input_value(f.dest));
            &&& typed.len() == 0 ==> post.queued == pre.queued && (post.modal matches crate::backups::Modal::Form(g) && g.check is None
                && g.checked_for@.len() == 0)
            &&& typed.len() > 0 && !pre.in_flight ==> post.modal == pre.modal && (post.queued matches Some(crate::backups::Op::Check {
                library_id,
                dest,
                exclude_dest_id,
            }) && dest@ == typed && library_id == f.library_id && exclude_dest_id == f.editing)
        }),
{
}

/// How the refusals are written: no two alike.
proof fn refusals_are_told_apart()
    ensures
        "bak.err_dest"@.len() == 12 && "bak.err_dest"@[8] == 'd',
        "bak.err_globs"@.len() == 13 && "bak.err_globs"@[8] == 'g',
        "bak.err_retention"@.len() == 17 && "bak.err_retention"@[8] == 'r',
        "bak.err_throttle"@.len() == 16 && "bak.err_throttle"@[8] == 't',
        "bak.err_hour"@.len() == 12 && "bak.err_hour"@[8] == 'h',
{
    reveal_strlit("bak.err_dest");
    reveal_strlit("bak.err_globs");
    reveal_strlit("bak.err_retention");
    reveal_strlit("bak.err_throttle");
    reveal_strlit("bak.err_hour");
}

/// A form is refused for the first thing that is wrong with it, in the words for
/// that.
pub proof fn refusals_say_what_is_wrong(f: crate::backups::Form)
    ensures
        crate::text::trimmed(input_value(f.dest)).len() == 0 <==> crate::backups::refusal(f) == Some(
            crate::backups::Refusal::Says(Msg::Key("bak.err_dest")),
        ),
        crate::text::trimmed(input_value(f.dest)).len() > 0 && f.retention_value() is None <==> crate::backups::refusal(f) == Some(
            crate::backups::Refusal::Says(Msg::Key("bak.err_retention")),
        ),
        crate::backups::refusal(f) == Some(crate::backups::Refusal::Says(Msg::Key("bak.err_throttle"))) <==> crate::text::trimmed(
            input_value(f.dest),
        ).len() > 0 && f.retention_value() is Some && f.throttle_value() is None,
        crate::backups::refusal(f) == Some(crate::backups::Refusal::Says(Msg::Key("bak.err_hour"))) ==> f.trigger
            == crate::backups::Trigger::Daily && f.hour_value() is None,
        crate::backups::refusal(f) matches Some(crate::backups::Refusal::Says(Msg::One(_, fill))) ==> fill.arg == crate::msg::Arg::Num(64)
            && f.patterns().len() > 64,
{
    refusals_are_told_apart();
}

/// Digits alone go into a number, up to six of them; the other fields take what
/// is typed, up to their cap.
pub proof fn numbers_take_digits(pre: crate::backups::Room, f: crate::backups::Form, c: char, key: Key, post: crate::backups::Room, out: Option<Outcome>)
    requires
        key.code == Code::Char(c),
        !key.ctrl,
        pre.modal == crate::backups::Modal::Form(Box::new(f)),
        f.input(f.focused_field()) is Some,
        crate::backups::keyed(pre, key, post, out),
    ensures
        ({
            let field = f.focused_field();
            let typed = input_value(f.input(field)->0).len();
            let number = field == crate::backups::Field::Retention || field == crate::backups::Field::Throttle || field
                == crate::backups::Field::Hour;
            &&& out is None
            &&& number && !is_digit(c) ==> post == pre
            &&& number && typed >= 6 ==> post == pre
            &&& !number && typed >= 4096 ==> post == pre
            &&& number && is_digit(c) && typed < 6 && key_changes(f.input(field)->0, key) ==> post.queued == pre.queued && (
            post.modal matches crate::backups::Modal::Form(g) && g.error is None && g.trigger == f.trigger && g.library == f.library)
        }),
{
}

/// A play that is forgotten leaves the cursor where it can stay; where its row
/// is another's by now, nothing moves.
pub proof fn forgetting_keeps_the_cursor(m: crate::stats::Page, id: Seq<char>, row: usize, post: crate::stats::Page)
    requires
        crate::stats::forgotten(m, id, row, post),
        m.history@.len() <= usize::MAX,
    ensures
        row < m.history@.len() && m.history@[row as int].id@ == id && m.sel is Some && m.history@.len() > 1 && m.sel->0 < m.history@.len() - 1
            ==> post.sel == m.sel,
        row < m.history@.len() && m.history@[row as int].id@ == id && m.history@.len() == 1 ==> post.sel is None,
        row < m.history@.len() && m.history@[row as int].id@ == id && m.history@.len() > 1 && m.sel == Some((m.history@.len() - 1) as usize)
            ==> post.sel == Some((m.history@.len() - 2) as usize),
        row < m.history@.len() && m.history@[row as int].id@ != id ==> post.sel == m.sel && post.history@ == m.history@,
{
}

/// How the heads of the columns and the rows of a sheet are written: no two alike.
proof fn heads_are_told_apart()
    ensures
        "sta.col_track"@.len() == 13 && "sta.col_track"@[9] == 'r',
        "sta.col_artist"@.len() == 14 && "sta.col_artist"@[9] == 'r',
        "sta.col_album"@.len() == 13 && "sta.col_album"@[9] == 'l',
        "sta.col_genre"@.len() == 13 && "sta.col_genre"@[9] == 'e',
        "p2p.menu_update"@.len() == 15 && "p2p.menu_update"@[9] == 'u',
        "p2p.menu_download"@.len() == 17 && "p2p.menu_download"@[9] == 'd',
        "p2p.menu_pin"@.len() == 12 && "p2p.menu_pin"@[9] == 'p',
        "p2p.menu_unpin"@.len() == 14 && "p2p.menu_unpin"@[9] == 'u',
        "p2p.menu_remove"@.len() == 15 && "p2p.menu_remove"@[9] == 'r',
        "p2p.menu_federate"@.len() == 17 && "p2p.menu_federate"@[9] == 'f',
        "p2p.menu_forget"@.len() == 15 && "p2p.menu_forget"@[9] == 'f',
        "p2p.menu_block"@.len() == 14 && "p2p.menu_block"@[9] == 'b',
{
    reveal_strlit("sta.col_track");
    reveal_strlit("sta.col_artist");
    reveal_strlit("sta.col_album");
    reveal_strlit("sta.col_genre");
    reveal_strlit("p2p.menu_update");
    reveal_strlit("p2p.menu_download");
    reveal_strlit("p2p.menu_pin");
    reveal_strlit("p2p.menu_unpin");
    reveal_strlit("p2p.menu_remove");
    reveal_strlit("p2p.menu_federate");
    reveal_strlit("p2p.menu_forget");
    reveal_strlit("p2p.menu_block");
}

/// The names' column goes by what is ranked.
pub proof fn columns_go_by_what_is_ranked(e: crate::stats::Entity)
    ensures
        crate::stats::header_key(e) == "sta.col_track" <==> e == crate::stats::Entity::Tracks,
        crate::stats::header_key(e) == "sta.col_artist" <==> e == crate::stats::Entity::Artists,
        crate::stats::header_key(e) == "sta.col_album" <==> e == crate::stats::Entity::Albums,
        crate::stats::header_key(e) == "sta.col_genre" <==> e == crate::stats::Entity::Genres,
{
    heads_are_told_apart();
}

/// A row of a server's sheet goes by what it does: pinning and letting go,
/// fetching and fetching again are told apart by what is held.
pub proof fn sheet_rows_go_by_what_they_do(room: crate::discovery::Room, p: crate::discovery::CatalogPeer, i: int)
    requires
        0 <= i < room.sheet(p).len(),
    ensures
        ({
            let row = room.sheet(p)[i];
            &&& row.label == "p2p.menu_download" <==> row.act is Fetch && p.fetched is None
            &&& row.label == "p2p.menu_update" <==> row.act is Fetch && p.fetched is Some
            &&& row.label == "p2p.menu_pin" <==> (row.act matches crate::discovery::Act::Pin(_, pinned) && pinned)
            &&& row.label == "p2p.menu_unpin" <==> (row.act matches crate::discovery::Act::Pin(_, pinned) && !pinned)
            &&& row.label == "p2p.menu_remove" <==> row.act is RemoveSnapshot
            &&& row.label == "p2p.menu_federate" <==> row.act is Federate
            &&& row.label == "p2p.menu_forget" <==> row.act is Forget
            &&& row.label == "p2p.menu_block" <==> row.act is Block
            &&& row.act matches crate::discovery::Act::Pin(_, pinned) ==> p.fetched is Some && pinned == !p.fetched->0.pinned
        }),
{
    heads_are_told_apart();
}

/// A month goes by its own name and year, a week by its first day.
pub proof fn labels_say_their_period(msg: Msg, l: crate::stats::Label)
    requires
        crate::stats::is_label_words(msg, l),
    ensures
        l matches crate::stats::Label::MonthOf(m, y) ==> 1 <= m <= 12 ==> (msg matches Msg::Two(_, month, year) && year.arg
            == crate::msg::Arg::Num(y) && (month.arg matches crate::msg::Arg::Phrase(w) && *w == Msg::Listed("sta.months_title", (m - 1) as u32))),
        l matches crate::stats::Label::WeekOf(y, m, d) ==> (msg matches Msg::One(_, f) && (f.arg matches crate::msg::Arg::Text(t) && t@
            == crate::clock::date_text(y as int, m as int, d as int))),
        l matches crate::stats::Label::Server(s) ==> msg == Msg::Raw(s),
{
}

/// A form for a new ticket is about nobody yet.
pub proof fn a_new_ticket_is_about_nobody(pre: crate::federation::Room, now: i64, post: crate::federation::Room, out: Option<Outcome>)
    requires
        pre.on(),
        crate::federation::acted(pre, crate::federation::Act::Mint, now, post, out),
    ensures
        post.modal matches crate::federation::Modal::Form(f) && f.kind == crate::federation::FormKind::Mint && f.id == 0 && f.about@.len() == 0
            && f.endpoint_id@.len() == 0 && f.message@.len() == 0 && f.their_offer@.len() == 0 && f.current_expiry is None,
{
}

} // verus!
