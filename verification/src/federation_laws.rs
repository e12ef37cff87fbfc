//! What holds of the Federation room as a whole: what is typed, ticked and
//! pointed at is what is sent.

use tui_input::Input;
use vstd::prelude::*;

use crate::federation::{
    Act, Did, Done, ExpiryChange, Family, FederationKey, FederationLimits, FederationParams, FederationPeer, FederationRequest, Field, Form,
    FormKind, Loaded, Modal, Op, PeerTest, Room, Tab, TicketPreview,
};
use crate::line::{Code, Key};
use crate::msg::{ApiError, Arg, Fill, Msg, Note};
use crate::screen::Outcome;

verus! {

use crate::clock::{epoch_day, is_timestamp, timestamp_text, timestamp_value, timestamps_round_trip};
use crate::federation::{
    acted, applied, cancellable, cap_words, expiry, family_of, finished, keyed, needs_answer, peer_ids, request_ids, key_ids,
    states_are_told_apart, status_of, ticked,
};
use crate::line::{holds, input_value};
use crate::screen::{place_holds, place_of};
use crate::text::{dec, numbers_read_back, plain_ends_stay, trimmed, white};

// ── What is sent ─────────────────────────────────────────────────────────

/// A second of a year of four digits.
pub open spec fn writable(t: int) -> bool {
    epoch_day(0, 1, 1) * 86400 <= t < epoch_day(10000, 1, 1) * 86400
}

/// Fields that hold three caps, written in decimal.
pub open spec fn caps_typed(f: Form, caps: FederationLimits) -> bool {
    &&& input_value(f.stream_kbps) == dec(caps.stream_kbps as nat)
    &&& input_value(f.daily_mb) == dec(caps.daily_mb as nat)
    &&& input_value(f.max_streams) == dec(caps.max_streams as nat)
}

proof fn typed_caps_are_read(f: Form, caps: FederationLimits)
    requires
        caps_typed(f, caps),
    ensures
        f.caps_read(),
        f.caps() == caps,
{
    numbers_read_back(caps.stream_kbps as nat, u64::MAX as nat);
    numbers_read_back(caps.daily_mb as nat, u64::MAX as nat);
    numbers_read_back(caps.max_streams as nat, u64::MAX as nat);
    crate::text::decimals_are_digits(caps.stream_kbps as nat);
    crate::text::decimals_are_digits(caps.daily_mb as nat);
    crate::text::decimals_are_digits(caps.max_streams as nat);
}

proof fn typed_days_are_read(f: Form, d: nat)
    requires
        input_value(f.expires) == dec(d),
        d <= u64::MAX,
    ensures
        f.days() == Some(Some(d)),
{
    numbers_read_back(d, u64::MAX as nat);
    crate::text::decimals_are_digits(d);
}

/// The caps and the days that are typed into a key's form are what is sent, for
/// that key: the expiry reads back as exactly that many days from now.
pub proof fn limits_are_sent_as_typed(
    pre: Room,
    f: Form,
    caps: FederationLimits,
    d: nat,
    now: i64,
    post: Room,
    out: Option<Outcome>,
)
    requires
        pre.modal == Modal::Form(Box::new(f)),
        f.kind == FormKind::Limits,
        caps_typed(f, caps),
        input_value(f.expires) == dec(d),
        d > 0,
        writable(now + d * 86400),
        acted(pre, Act::FormSubmit, now, post, out),
    ensures
        post.queued matches Some(Op::Limits { id, limits, expiry: ExpiryChange::At(at) }) && id == f.id && limits == caps
            && is_timestamp(at@) && timestamp_value(at@) - now == d * 86400,
{
    assert(d * 86400 < epoch_day(10000, 1, 1) * 86400 - now);
    typed_caps_are_read(f, caps);
    typed_days_are_read(f, d);
    timestamps_round_trip(now + d * 86400);
}

/// A key's expiry is kept where no days are typed, and lifted by zero.
pub proof fn blank_keeps_and_zero_lifts(
    pre: Room,
    f: Form,
    caps: FederationLimits,
    now: i64,
    post: Room,
    out: Option<Outcome>,
)
    requires
        pre.modal == Modal::Form(Box::new(f)),
        f.kind == FormKind::Limits,
        caps_typed(f, caps),
        acted(pre, Act::FormSubmit, now, post, out),
    ensures
        input_value(f.expires).len() == 0 ==> post.queued == Some(
            Op::Limits { id: f.id, limits: caps, expiry: ExpiryChange::Keep },
        ),
        input_value(f.expires) == dec(0) ==> post.queued == Some(
            Op::Limits { id: f.id, limits: caps, expiry: ExpiryChange::Never },
        ),
{
    typed_caps_are_read(f, caps);
    if input_value(f.expires).len() == 0 {
        plain_ends_stay(input_value(f.expires));
    } else if input_value(f.expires) == dec(0) {
        typed_days_are_read(f, 0);
    }
}

/// Forms that differ in their days send different expiries.
pub proof fn other_days_are_another_expiry(
    one: Room,
    f: Form,
    d: nat,
    sent: Room,
    other: Room,
    g: Form,
    e: nat,
    also: Room,
    caps: FederationLimits,
    now: i64,
    out: Option<Outcome>,
)
    requires
        one.modal == Modal::Form(Box::new(f)) && f.kind == FormKind::Limits && caps_typed(f, caps),
        other.modal == Modal::Form(Box::new(g)) && g.kind == FormKind::Limits && caps_typed(g, caps),
        input_value(f.expires) == dec(d) && d > 0 && writable(now + d * 86400),
        input_value(g.expires) == dec(e) && e > 0 && writable(now + e * 86400),
        d != e,
        acted(one, Act::FormSubmit, now, sent, out),
        acted(other, Act::FormSubmit, now, also, out),
    ensures
        sent.queued->0->Limits_expiry->At_0@ != also.queued->0->Limits_expiry->At_0@,
{
    limits_are_sent_as_typed(one, f, caps, d, now, sent, out);
    limits_are_sent_as_typed(other, g, caps, e, now, also, out);
}

/// Whether a cutoff is some days from now: none for zero.
pub open spec fn runs_out_after(at: Option<String>, d: nat, now: i64) -> bool {
    if d == 0 {
        at is None
    } else {
        at matches Some(s) && is_timestamp(s@) && timestamp_value(s@) - now == d * 86400
    }
}

/// Every ticked name is shared, in order, and no other.
pub open spec fn shares_the_ticked(vpaths: Seq<String>, libraries: Seq<(String, bool)>) -> bool {
    vpaths == libraries.filter(|l: (String, bool)| l.1).map_values(|l: (String, bool)| l.0)
}

/// What is ticked is what is shared: each ticked name, in order, and no other.
pub proof fn what_is_ticked_is_shared(libraries: Seq<(String, bool)>)
    ensures
        shares_the_ticked(ticked(libraries), libraries),
    decreases libraries.len(),
{
    reveal(Seq::filter);
    let on = |l: (String, bool)| l.1;
    let name = |l: (String, bool)| l.0;
    if libraries.len() > 0 {
        what_is_ticked_is_shared(libraries.drop_last());
    }
    assert(ticked(libraries) =~= libraries.filter(on).map_values(name));
}

/// A library that is ticked is shared.
pub proof fn a_ticked_library_is_shared(libraries: Seq<(String, bool)>, k: int)
    requires
        0 <= k < libraries.len(),
        libraries[k].1,
    ensures
        ticked(libraries).contains(libraries[k].0),
        ticked(libraries).len() > 0,
    decreases libraries.len(),
{
    let v = ticked(libraries);
    let rest = libraries.drop_last();
    if k == libraries.len() - 1 {
        assert(v[v.len() - 1] == libraries[k].0);
    } else {
        a_ticked_library_is_shared(rest, k);
        let i = choose|i: int| 0 <= i < ticked(rest).len() && ticked(rest)[i] == libraries[k].0;
        assert(v[i] == libraries[k].0);
    }
}

/// A library that is not ticked anywhere is not shared.
pub proof fn an_unticked_library_is_not_shared(libraries: Seq<(String, bool)>, name: String)
    requires
        forall|i: int| 0 <= i < libraries.len() && (#[trigger] libraries[i]).1 ==> libraries[i].0 != name,
    ensures
        !ticked(libraries).contains(name),
    decreases libraries.len(),
{
    if libraries.len() > 0 {
        let rest = libraries.drop_last();
        assert forall|i: int| 0 <= i < rest.len() && (#[trigger] rest[i]).1 implies rest[i].0 != name by {
            assert(libraries[i] == rest[i]);
        }
        an_unticked_library_is_not_shared(rest, name);
        assert(libraries[libraries.len() - 1] == libraries.last());
        if ticked(libraries).contains(name) {
            let i = choose|i: int| 0 <= i < ticked(libraries).len() && ticked(libraries)[i] == name;
            if i < ticked(rest).len() {
                assert(ticked(rest)[i] == name);
            }
        }
    }
}

proof fn cutoffs_read_back(at: Option<String>, d: nat, now: i64)
    requires
        crate::federation::is_cutoff(at, Some(d), now),
        writable(now + d * 86400),
    ensures
        runs_out_after(at, d, now),
{
    timestamps_round_trip(now + d * 86400);
}

/// A ticket is minted as it was typed: the name, the ticked libraries, the caps,
/// and an expiry that many days from now.
#[verifier::spinoff_prover]
pub proof fn tickets_are_minted_as_typed(
    pre: Room,
    f: Form,
    caps: FederationLimits,
    d: nat,
    k: int,
    now: i64,
    post: Room,
    out: Option<Outcome>,
)
    requires
        pre.modal == Modal::Form(Box::new(f)),
        f.kind == FormKind::Mint,
        caps_typed(f, caps),
        input_value(f.name).len() > 0 && !white(input_value(f.name)[0]) && !white(input_value(f.name).last()),
        0 <= k < f.libraries@.len() && f.libraries@[k].1,
        input_value(f.expires) == dec(d),
        writable(now + d * 86400),
        d <= u64::MAX,
        acted(pre, Act::FormSubmit, now, post, out),
    ensures
        post.queued matches Some(Op::Mint { name, vpaths, limits, expires_at }) && name@ == input_value(f.name)
            && shares_the_ticked(vpaths@, f.libraries@) && limits == caps && runs_out_after(expires_at, d, now),
{
    typed_caps_are_read(f, caps);
    typed_days_are_read(f, d);
    plain_ends_stay(input_value(f.name));
    what_is_ticked_is_shared(f.libraries@);
    a_ticked_library_is_shared(f.libraries@, k);
    cutoffs_read_back(post.queued->0->Mint_expires_at, d, now);
}

/// A request is accepted as the form says: that request, the ticked libraries,
/// the caps, the expiry, and whether their offer is taken.
#[verifier::spinoff_prover]
pub proof fn requests_are_accepted_as_typed(
    pre: Room,
    f: Form,
    caps: FederationLimits,
    d: nat,
    k: int,
    now: i64,
    post: Room,
    out: Option<Outcome>,
)
    requires
        pre.modal == Modal::Form(Box::new(f)),
        f.kind == FormKind::Accept,
        caps_typed(f, caps),
        0 <= k < f.libraries@.len() && f.libraries@[k].1,
        input_value(f.expires) == dec(d),
        writable(now + d * 86400),
        d <= u64::MAX,
        acted(pre, Act::FormSubmit, now, post, out),
    ensures
        post.queued matches Some(Op::Accept { id, vpaths, limits, expires_at, accept_their_offer }) && id == f.id
            && shares_the_ticked(vpaths@, f.libraries@) && limits == caps && runs_out_after(expires_at, d, now)
            && accept_their_offer == f.accept_their_offer,
{
    typed_caps_are_read(f, caps);
    typed_days_are_read(f, d);
    what_is_ticked_is_shared(f.libraries@);
    a_ticked_library_is_shared(f.libraries@, k);
    cutoffs_read_back(post.queued->0->Accept_expires_at, d, now);
}

/// Ids that occur once.
pub open spec fn unique(ids: Seq<i64>) -> bool {
    forall|i: int, j: int| 0 <= i < j < ids.len() ==> ids[i] != ids[j]
}

proof fn found_where_it_is(ids: Seq<i64>, i: int)
    requires
        unique(ids),
        0 <= i < ids.len(),
    ensures
        place_of(ids, ids[i]) == Some(i),
{
    place_holds(ids, ids[i]);
}

/// A key's form that is sent as it opened changes nothing: the key's own caps,
/// its expiry kept.
pub proof fn an_untouched_limits_form_changes_nothing(
    pre: Room,
    i: int,
    now: i64,
    open: Room,
    post: Room,
    out: Option<Outcome>,
)
    requires
        0 <= i < pre.keys@.len(),
        unique(key_ids(pre.keys@)),
        acted(pre, Act::Limits(pre.keys@[i].id), now, open, out),
        acted(open, Act::FormSubmit, now, post, out),
    ensures
        post.queued == Some(
            Op::Limits {
                id: pre.keys@[i].id,
                limits: FederationLimits {
                    stream_kbps: pre.keys@[i].stream_kbps,
                    daily_mb: pre.keys@[i].daily_mb,
                    max_streams: pre.keys@[i].max_streams,
                },
                expiry: ExpiryChange::Keep,
            },
        ),
{
    let k = pre.keys@[i];
    found_where_it_is(key_ids(pre.keys@), i);
    let f = *(open.modal->Form_0);
    let caps = FederationLimits { stream_kbps: k.stream_kbps, daily_mb: k.daily_mb, max_streams: k.max_streams };
    blank_keeps_and_zero_lifts(open, f, caps, now, post, out);
}

/// A form for a new ticket offers every library, none of them ticked, so that
/// nothing is shared until one is: sent as it opened, it is refused.
pub proof fn a_fresh_ticket_shares_nothing(pre: Room, now: i64, open: Room, post: Room, out: Option<Outcome>)
    requires
        pre.on(),
        acted(pre, Act::Mint, now, open, out),
        acted(open, Act::FormSubmit, now, post, out),
    ensures
        open.modal matches Modal::Form(f) && f.kind == FormKind::Mint && f.libraries@.len() == pre.libraries@.len() && forall|
            i: int,
        |
            0 <= i < f.libraries@.len() ==> (#[trigger] f.libraries@[i]).0 == pre.libraries@[i] && !f.libraries@[i].1,
        post.queued == pre.queued,
        post.modal matches Modal::Form(g) && g.error is Some,
{
    let f = *(open.modal->Form_0);
    what_is_ticked_is_shared(f.libraries@);
    let v = ticked(f.libraries@);
    if v.len() > 0 {
        an_unticked_library_is_not_shared(f.libraries@, v[0]);
        assert(v.contains(v[0]));
    }
}

/// Accepting opens a form about the request: its id, every library unticked,
/// the server's caps, their offer taken.
pub proof fn accepting_asks_first(pre: Room, i: int, now: i64, open: Room, out: Option<Outcome>)
    requires
        0 <= i < pre.requests@.len(),
        unique(request_ids(pre.requests@)),
        pre.params is Some,
        acted(pre, Act::Accept(pre.requests@[i].id), now, open, out),
    ensures
        open.queued == pre.queued,
        pre.requests@[i].direction@ == "in"@ && pre.requests@[i].state@ == "received"@ ==> {
            &&& open.modal matches Modal::Form(f) && f.kind == FormKind::Accept && f.id == pre.requests@[i].id
                && f.endpoint_id@ == pre.requests@[i].peer_endpoint_id@ && caps_typed(*f, pre.params->0.limit_defaults)
                && f.accept_their_offer && f.libraries@.len() == pre.libraries@.len() && forall|k: int|
                0 <= k < f.libraries@.len() ==> (#[trigger] f.libraries@[k]).0 == pre.libraries@[k] && !f.libraries@[k].1
        },
        !(pre.requests@[i].direction@ == "in"@ && pre.requests@[i].state@ == "received"@) ==> open == pre,
{
    found_where_it_is(request_ids(pre.requests@), i);
}

/// A tick is switched by a second switch back, and no other with it.
pub proof fn ticks_switch_back(f: Form, field: Field, g: Form, h: Form)
    requires
        f.toggled(field, g),
        g.toggled(field, h),
    ensures
        h.libraries@ == f.libraries@,
        h.accept_their_offer == f.accept_their_offer,
        field matches Field::Library(i) ==> i < f.libraries@.len() ==> g.libraries@[i as int].1 != f.libraries@[i as int].1
            && forall|k: int| 0 <= k < f.libraries@.len() && k != i ==> g.libraries@[k] == f.libraries@[k],
        field is TheirOffer ==> g.accept_their_offer != f.accept_their_offer,
{
    assert(h.libraries@ =~= f.libraries@);
}

// ── What a request's state means ─────────────────────────────────────────

/// How the phrases of the states are written: no two alike.
proof fn phrases_are_told_apart()
    ensures
        "fed.st_sending"@.len() == 14 && "fed.st_sending"@[7] == 's',
        "fed.st_waiting_them"@.len() == 19 && "fed.st_waiting_them"@[7] == 'w',
        "fed.st_sharing_back"@.len() == 19 && "fed.st_sharing_back"@[7] == 's',
        "fed.st_needs_answer"@.len() == 19 && "fed.st_needs_answer"@[7] == 'n',
        "fed.st_sending_ticket"@.len() == 21 && "fed.st_sending_ticket"@[7] == 's',
        "fed.st_waiting_share"@.len() == 20 && "fed.st_waiting_share"@[7] == 'w',
        "fed.st_declined"@.len() == 15 && "fed.st_declined"@[7] == 'd',
        "fed.st_you_declined"@.len() == 19 && "fed.st_you_declined"@[7] == 'y',
        "fed.st_inbox_closed"@.len() == 19 && "fed.st_inbox_closed"@[7] == 'i',
        "fed.st_federated"@.len() == 16 && "fed.st_federated"@[7] == 'f',
        "fed.st_withdrawn"@.len() == 16 && "fed.st_withdrawn"@[7] == 'w',
        "fed.st_expired"@.len() == 14 && "fed.st_expired"@[7] == 'e',
{
    reveal_strlit("fed.st_sending");
    reveal_strlit("fed.st_waiting_them");
    reveal_strlit("fed.st_sharing_back");
    reveal_strlit("fed.st_needs_answer");
    reveal_strlit("fed.st_sending_ticket");
    reveal_strlit("fed.st_waiting_share");
    reveal_strlit("fed.st_declined");
    reveal_strlit("fed.st_you_declined");
    reveal_strlit("fed.st_inbox_closed");
    reveal_strlit("fed.st_federated");
    reveal_strlit("fed.st_withdrawn");
    reveal_strlit("fed.st_expired");
}

/// Whether the status of a request is a phrase.
pub open spec fn reads_as(direction: Seq<char>, state: Seq<char>, phrase: &'static str) -> bool {
    status_of(direction, state) matches Some((key, _)) && key == phrase
}

/// A pairing is reported exactly once the exchange is completed, whichever way
/// it went, and so is an end by time or by withdrawal.
pub proof fn ends_are_reported_as_they_came(direction: Seq<char>, state: Seq<char>)
    ensures
        reads_as(direction, state, "fed.st_federated") <==> state == "completed"@,
        reads_as(direction, state, "fed.st_expired") <==> state == "expired"@,
        reads_as(direction, state, "fed.st_withdrawn") <==> state == "cancelled"@,
        (status_of(direction, state) matches Some((_, family)) && family == Family::Good) <==> state == "completed"@,
{
    states_are_told_apart();
    phrases_are_told_apart();
}

/// A request that went out is told from one that came in: who declined, whose
/// inbox was closed, who waits for whom.
pub proof fn each_side_has_its_words(direction: Seq<char>, state: Seq<char>)
    ensures
        reads_as(direction, state, "fed.st_declined") <==> direction == "out"@ && state == "rejected"@,
        reads_as(direction, state, "fed.st_you_declined") <==> direction == "in"@ && state == "rejected"@,
        reads_as(direction, state, "fed.st_inbox_closed") <==> direction == "out"@ && state == "refused"@,
        reads_as(direction, state, "fed.st_needs_answer") <==> direction == "in"@ && state == "received"@,
        reads_as(direction, state, "fed.st_sending") <==> direction == "out"@ && state == "pending-delivery"@,
        reads_as(direction, state, "fed.st_waiting_them") <==> direction == "out"@ && state == "delivered"@,
        reads_as(direction, state, "fed.st_sharing_back") <==> direction == "out"@ && state == "granting"@,
        reads_as(direction, state, "fed.st_waiting_share") <==> direction == "in"@ && state == "granting"@,
        reads_as(direction, state, "fed.st_sending_ticket") <==> direction == "in"@ && state == "accepted"@,
{
    states_are_told_apart();
    phrases_are_told_apart();
}

/// Different known states of one direction have different phrases.
pub proof fn states_have_words_of_their_own(direction: Seq<char>, a: Seq<char>, b: Seq<char>)
    requires
        direction == "in"@ || direction == "out"@,
        a != b,
        status_of(direction, a) is Some,
        status_of(direction, b) is Some,
    ensures
        (status_of(direction, a)->0).0 != (status_of(direction, b)->0).0,
{
    states_are_told_apart();
    phrases_are_told_apart();
}

/// What a state means to the reader goes with what can be done about it: what
/// waits on them can be answered, what is good, dead or over is finished, what
/// can be cancelled still waits.
pub proof fn families_go_with_what_can_be_done(r: FederationRequest)
    ensures
        family_of(r) == Family::Theirs <==> r.direction@ == "in"@ && r.state@ == "received"@,
        family_of(r) == Family::Good <==> r.state@ == "completed"@,
        family_of(r) == Family::Dead ==> r.state@ == "rejected"@ || r.state@ == "refused"@,
        family_of(r) == Family::Mute && status_of(r.direction@, r.state@) is Some <==> r.state@ == "cancelled"@ || r.state@
            == "expired"@,
        cancellable(r) ==> family_of(r) == Family::Wait && !finished(r) && !needs_answer(r),
        needs_answer(r) ==> family_of(r) == Family::Theirs && !finished(r),
        finished(r) ==> family_of(r) != Family::Wait && family_of(r) != Family::Theirs,
        status_of(r.direction@, r.state@) is Some && !finished(r) && !needs_answer(r) ==> family_of(r) == Family::Wait,
{
    states_are_told_apart();
}

// ── What keys and answers do ─────────────────────────────────────────────

/// What is asked about the row under the cursor is asked about that row.
pub proof fn keys_are_about_the_request(pre: Room, s: usize, key: Key, now: i64, post: Room, out: Option<Outcome>)
    requires
        pre.modal is Closed,
        pre.on(),
        !pre.ticket_focus,
        pre.tab == Tab::Requests,
        pre.sel == Some(s),
        s < pre.requests@.len(),
        unique(request_ids(pre.requests@)),
        keyed(pre, key, now, post, out),
    ensures
        ({
            let r = pre.requests@[s as int];
            &&& key.code == Code::Char('c') ==> if r.direction@ == "out"@ && (r.state@ == "pending-delivery"@ || r.state@
                == "delivered"@) {
                post.queued == Some(Op::Cancel(r.id))
            } else {
                post == pre
            }
            &&& key.code == Code::Char('d') ==> if r.state@ == "completed"@ || r.state@ == "rejected"@ || r.state@ == "refused"@
                || r.state@ == "cancelled"@ || r.state@ == "expired"@ {
                post.queued == Some(Op::Dismiss(r.id))
            } else {
                post == pre
            }
            &&& key.code == Code::Char('n') ==> if r.direction@ == "in"@ && r.state@ == "received"@ {
                post.modal == Modal::Decline(r.id) && post.queued == pre.queued
            } else {
                post == pre
            }
            &&& key.code == Code::Char('a') || key.code == Code::Enter ==> if r.direction@ == "in"@ && r.state@ == "received"@ {
                post.modal matches Modal::Form(f) && f.kind == FormKind::Accept && f.id == r.id && post.queued == pre.queued
            } else {
                post == pre
            }
        }),
{
    found_where_it_is(request_ids(pre.requests@), s as int);
}

/// What is asked about the ticket under the cursor is asked about that ticket.
pub proof fn keys_are_about_the_ticket(pre: Room, s: usize, key: Key, now: i64, post: Room, out: Option<Outcome>)
    requires
        pre.modal is Closed,
        pre.on(),
        !pre.ticket_focus,
        pre.tab == Tab::Tickets,
        pre.sel == Some(s),
        s < pre.keys@.len(),
        unique(key_ids(pre.keys@)),
        keyed(pre, key, now, post, out),
    ensures
        ({
            let k = pre.keys@[s as int];
            &&& key.code == Code::Char('y') && k.ticket is Some ==> post.clipboard == k.ticket && post.queued == pre.queued
            &&& key.code == Code::Char('y') && k.ticket is None ==> post == pre
            &&& key.code == Code::Char('b') && k.bound_endpoint_id is Some ==> post.queued == Some(Op::ResetBinding(k.id))
            &&& key.code == Code::Char('b') && k.bound_endpoint_id is None ==> post == pre
            &&& key.code == Code::Char('r') || key.code == Code::Delete ==> post.modal == Modal::Revoke(k.id) && post.queued
                == pre.queued
            &&& key.code == Code::Char('l') ==> (post.modal matches Modal::Form(f) && f.kind == FormKind::Limits && f.id == k.id
                && f.current_expiry == Some(expiry(k, now)) && caps_typed(
                *f,
                FederationLimits { stream_kbps: k.stream_kbps, daily_mb: k.daily_mb, max_streams: k.max_streams },
            ) && input_value(f.expires).len() == 0)
        }),
{
    found_where_it_is(key_ids(pre.keys@), s as int);
}

/// What is asked about the peer under the cursor is asked about that peer.
pub proof fn keys_are_about_the_peer(pre: Room, s: usize, key: Key, now: i64, post: Room, out: Option<Outcome>)
    requires
        pre.modal is Closed,
        pre.on(),
        !pre.ticket_focus,
        pre.tab == Tab::Peers,
        pre.sel == Some(s),
        s < pre.peers@.len(),
        unique(peer_ids(pre.peers@)),
        keyed(pre, key, now, post, out),
    ensures
        ({
            let p = pre.peers@[s as int];
            &&& key.code == Code::Char('t') || key.code == Code::Enter ==> post.queued == Some(Op::Test(p.id))
            &&& key.code == Code::Char('s') ==> post.queued == Some(Op::PeerDiscovery { id: p.id, on: !p.use_discovery })
            &&& key.code == Code::Char('r') || key.code == Code::Delete ==> post.modal == Modal::Forget(p.id) && post.queued
                == pre.queued
        }),
{
    found_where_it_is(peer_ids(pre.peers@), s as int);
}

/// On each warning `y` does what it warns of, to the row it names.
pub proof fn warnings_do_what_they_say(pre: Room, key: Key, now: i64, post: Room, out: Option<Outcome>)
    requires
        key.code == Code::Char('y'),
        keyed(pre, key, now, post, out),
    ensures
        pre.modal matches Modal::Decline(id) ==> post.queued == Some(Op::Reject(id)) && post.modal is Closed,
        pre.modal matches Modal::Revoke(id) ==> post.queued == Some(Op::Revoke(id)) && post.modal is Closed,
        pre.modal matches Modal::Forget(id) ==> post.queued == Some(Op::RemovePeer(id)) && post.modal is Closed,
        pre.modal is TurnOff ==> post.queued == Some(Op::SetEnabled(false)) && post.modal is Closed,
{
}

/// Federation is turned on only where it is off and can run, and the inbox is
/// asked to be what it is not.
pub proof fn switches_ask_for_the_other(pre: Room, p: FederationParams, now: i64, post: Room, out: Option<Outcome>)
    requires
        pre.params == Some(p),
        !pre.starting,
    ensures
        acted(pre, Act::TurnOn, now, post, out) ==> if !p.enabled && p.available {
            post.queued == Some(Op::SetEnabled(true)) && post.starting
        } else {
            post == pre
        },
        acted(pre, Act::ToggleInbox, now, post, out) ==> if p.enabled {
            post.queued == Some(Op::SetInbox(!pre.accept_requests))
        } else {
            post == pre
        },
        acted(pre, Act::TurnOff, now, post, out) && p.enabled ==> post.modal is TurnOff && post.queued == pre.queued,
{
}

/// A peer whose search was switched shows it, it alone, and switching it again
/// asks for the other.
pub proof fn switched_peers_show(m: Room, i: int, on: bool, post: Room, now: i64, next: Room, out: Option<Outcome>)
    requires
        0 <= i < m.peers@.len(),
        unique(peer_ids(m.peers@)),
        applied(m, Done::Did { what: Did::PeerDiscovery(m.peers@[i].id, on), result: Ok(()) }, post),
        acted(post, Act::ToggleDiscovery(m.peers@[i].id), now, next, out),
    ensures
        post.peers@.len() == m.peers@.len(),
        post.peers@[i] == (FederationPeer { use_discovery: on, ..m.peers@[i] }),
        forall|k: int| 0 <= k < m.peers@.len() && k != i ==> post.peers@[k] == m.peers@[k],
        next.queued == Some(Op::PeerDiscovery { id: m.peers@[i].id, on: !on }),
{
    found_where_it_is(peer_ids(m.peers@), i);
    assert(peer_ids(post.peers@) =~= peer_ids(m.peers@));
    found_where_it_is(peer_ids(post.peers@), i);
}

/// The ticket that is pasted is the one that is added, under the name that is
/// typed, or none where that is blank.
pub proof fn pasted_tickets_are_added(pre: Room, ticket: String, name: Input, preview: TicketPreview, now: i64, post: Room, out: Option<Outcome>)
    requires
        pre.modal == (Modal::PeerName { ticket, name, preview }),
        acted(pre, Act::PeerNameAdd, now, post, out),
    ensures
        post.queued matches Some(Op::AddPeer { ticket: t, name: n }) && t == ticket && match n {
            Some(s) => s@ == trimmed(input_value(name)) && s@.len() > 0,
            None => trimmed(input_value(name)).len() == 0,
        },
{
}

/// A ticket is added only once its preview was shown, and the text is the one in
/// the box; what is no ticket is refused.
pub proof fn tickets_are_previewed(pre: Room, now: i64, post: Room, out: Option<Outcome>)
    requires
        acted(pre, Act::TicketAdd, now, post, out),
    ensures
        post.queued == pre.queued,
        trimmed(input_value(pre.ticket)).len() == 0 ==> post == pre,
        post.modal matches Modal::PeerName { ticket, name, preview } ==> post.modal != pre.modal ==> ticket@ == trimmed(
            input_value(pre.ticket),
        ) && input_value(name) == (match preview.name {
            Some(n) => n@,
            None => Seq::empty(),
        }),
        post.modal == pre.modal && trimmed(input_value(pre.ticket)).len() > 0 && !(pre.modal is PeerName) ==> post.note is Some
            && post.note->0.error,
{
}

/// What a test found is kept for the peer that was tested, and for no other.
pub proof fn tests_are_kept_for_their_peer(m: Room, id: i64, t: PeerTest, other: i64, post: Room)
    requires
        applied(m, Done::Tested { id, result: Ok(t) }, post),
        other != id,
    ensures
        t.ok ==> post.shares@.contains_key(id) && (t.libraries matches Some(l) ==> post.shares@[id]@.len() == l@.len()),
        m.shares@.contains_key(other) <==> post.shares@.contains_key(other),
        m.shares@.contains_key(other) ==> post.shares@[other] == m.shares@[other],
        !t.ok ==> post.shares == m.shares,
        post.note matches Some(n) && (n.error <==> !t.ok),
{
    if t.ok {
        if let Some(l) = t.libraries {
            let kept = post.shares@[id]@;
            assert(crate::text::texts(kept).len() == kept.len());
            assert(crate::federation::gated(l@).len() == l@.len());
        }
    }
}

/// A load is shown: what came replaces what was there, what did not come stays,
/// and off the room is empty.
pub proof fn loads_are_shown(m: Room, l: Loaded, post: Room)
    requires
        applied(m, Done::Loaded(Ok(l)), post),
    ensures
        post.params == Some(l.params),
        l.requests matches Some((accept, v)) ==> post.accept_requests == accept && (l.params.enabled ==> post.requests@ == v@),
        l.requests is None ==> post.accept_requests == m.accept_requests && (l.params.enabled ==> post.requests@ == m.requests@),
        l.keys matches Some(v) ==> l.params.enabled ==> post.keys@ == v@,
        l.keys is None && l.params.enabled ==> post.keys@ == m.keys@,
        l.peers matches Some(v) ==> l.params.enabled ==> post.peers@ == v@,
        l.peers is None && l.params.enabled ==> post.peers@ == m.peers@,
        l.libraries matches Some(v) ==> post.libraries == v,
        l.libraries is None ==> post.libraries == m.libraries,
        !l.params.enabled ==> post.requests@.len() == 0 && post.keys@.len() == 0 && post.peers@.len() == 0 && post.sel is None,
        post.queued == m.queued && post.modal == m.modal,
{
}

/// The ticket that was minted is the one that is handed over and copied.
pub proof fn minted_tickets_are_handed_over(
    m: Room,
    libraries: Vec<String>,
    minted: crate::federation::MintedKey,
    shown: Room,
    key: Key,
    now: i64,
    post: Room,
    out: Option<Outcome>,
)
    requires
        applied(m, Done::Minted { libraries, result: Ok(minted) }, shown),
        key.code == Code::Char('y'),
        keyed(shown, key, now, post, out),
    ensures
        shown.modal matches Modal::Minted { name, ticket, libraries: l } && ticket == minted.ticket && l == libraries,
        minted.ticket is Some ==> post.clipboard == minted.ticket && shown.note is None,
        minted.ticket is None ==> post == shown && shown.note is Some && shown.note->0.error,
        shown.queued == Some(Op::Load),
{
}

/// How the notes are written: no two alike.
proof fn notes_are_told_apart()
    ensures
        "fed.done_inbox_on"@.len() == 17 && "fed.done_inbox_on"@[14] == '_',
        "fed.done_inbox_off"@.len() == 18 && "fed.done_inbox_off"@[14] == '_',
        "fed.done_accepted"@.len() == 17 && "fed.done_accepted"@[14] == 't',
        "fed.done_declined"@.len() == 17 && "fed.done_declined"@[14] == 'n',
        "fed.done_cancelled"@.len() == 18 && "fed.done_cancelled"@[14] == 'l',
        "fed.done_dismissed"@.len() == 18 && "fed.done_dismissed"@[14] == 's',
        "fed.done_limits"@.len() == 15 && "fed.done_limits"@[14] == 's',
        "fed.done_binding_reset"@.len() == 22 && "fed.done_binding_reset"@[14] == 'n',
        "fed.done_revoked"@.len() == 16 && "fed.done_revoked"@[14] == 'e',
        "fed.done_peer_added"@.len() == 19 && "fed.done_peer_added"@[14] == 'a',
        "fed.done_discovery"@.len() == 18 && "fed.done_discovery"@[14] == 'v',
        "fed.done_forgotten"@.len() == 18 && "fed.done_forgotten"@[14] == 't',
{
    reveal_strlit("fed.done_inbox_on");
    reveal_strlit("fed.done_inbox_off");
    reveal_strlit("fed.done_accepted");
    reveal_strlit("fed.done_declined");
    reveal_strlit("fed.done_cancelled");
    reveal_strlit("fed.done_dismissed");
    reveal_strlit("fed.done_limits");
    reveal_strlit("fed.done_binding_reset");
    reveal_strlit("fed.done_revoked");
    reveal_strlit("fed.done_peer_added");
    reveal_strlit("fed.done_discovery");
    reveal_strlit("fed.done_forgotten");
}

/// What was done is said as it was done, by a note that is no error, and the
/// state is asked for again.
pub proof fn deeds_are_said_as_done(m: Room, what: Did, post: Room)
    requires
        applied(m, Done::Did { what, result: Ok(()) }, post),
    ensures
        post.queued == Some(Op::Load),
        post.note matches Some(Note { msg: Msg::Key(key), error }) && !error && {
            &&& key == "fed.done_inbox_on" <==> what == Did::Inbox(true)
            &&& key == "fed.done_inbox_off" <==> what == Did::Inbox(false)
            &&& key == "fed.done_accepted" <==> what == Did::Accepted
            &&& key == "fed.done_declined" <==> what == Did::Declined
            &&& key == "fed.done_cancelled" <==> what == Did::Cancelled
            &&& key == "fed.done_dismissed" <==> what == Did::Dismissed
            &&& key == "fed.done_limits" <==> what == Did::LimitsSaved
            &&& key == "fed.done_binding_reset" <==> what == Did::BindingReset
            &&& key == "fed.done_revoked" <==> what == Did::Revoked
            &&& key == "fed.done_peer_added" <==> what == Did::PeerAdded
            &&& key == "fed.done_discovery" <==> what is PeerDiscovery
            &&& key == "fed.done_forgotten" <==> what == Did::PeerRemoved
        },
        what == Did::Accepted || what == Did::LimitsSaved || what == Did::PeerAdded ==> post.modal is Closed,
        what == Did::PeerAdded ==> input_value(post.ticket).len() == 0,
{
    notes_are_told_apart();
}

/// How the failures are written: no two alike.
proof fn failures_are_told_apart()
    ensures
        "fed.fail_inbox"@.len() == 14 && "fed.fail_inbox"@[10] == 'n',
        "fed.fail_accept"@.len() == 15 && "fed.fail_accept"@[10] == 'c',
        "fed.fail_decline"@.len() == 16 && "fed.fail_decline"@[10] == 'e',
        "fed.fail_cancel"@.len() == 15 && "fed.fail_cancel"@[10] == 'a',
        "fed.fail_dismiss"@.len() == 16 && "fed.fail_dismiss"@[10] == 'i',
        "fed.fail_limits"@.len() == 15 && "fed.fail_limits"@[10] == 'i',
        "fed.fail_binding_reset"@.len() == 22 && "fed.fail_binding_reset"@[10] == 'i',
        "fed.fail_revoke"@.len() == 15 && "fed.fail_revoke"@[10] == 'e',
        "fed.fail_add_peer"@.len() == 17 && "fed.fail_add_peer"@[10] == 'd',
        "fed.fail_discovery"@.len() == 18 && "fed.fail_discovery"@[10] == 'i',
        "fed.fail_forget"@.len() == 15 && "fed.fail_forget"@[10] == 'o',
{
    reveal_strlit("fed.fail_inbox");
    reveal_strlit("fed.fail_accept");
    reveal_strlit("fed.fail_decline");
    reveal_strlit("fed.fail_cancel");
    reveal_strlit("fed.fail_dismiss");
    reveal_strlit("fed.fail_limits");
    reveal_strlit("fed.fail_binding_reset");
    reveal_strlit("fed.fail_revoke");
    reveal_strlit("fed.fail_add_peer");
    reveal_strlit("fed.fail_discovery");
    reveal_strlit("fed.fail_forget");
}

/// A failure is said as what failed, with its reason, and never as a success.
pub proof fn failures_are_said_as_they_are(what: Did, e: ApiError, m: Room, post: Room)
    requires
        m.modal is Closed,
        applied(m, Done::Did { what, result: Err(e) }, post),
    ensures
        post.queued == m.queued,
        post.note matches Some(Note { msg: Msg::Failed(key, why), error }) && error && why == e && {
            &&& key == "fed.fail_inbox" <==> what is Inbox
            &&& key == "fed.fail_accept" <==> what == Did::Accepted
            &&& key == "fed.fail_decline" <==> what == Did::Declined
            &&& key == "fed.fail_cancel" <==> what == Did::Cancelled
            &&& key == "fed.fail_dismiss" <==> what == Did::Dismissed
            &&& key == "fed.fail_limits" <==> what == Did::LimitsSaved
            &&& key == "fed.fail_binding_reset" <==> what == Did::BindingReset
            &&& key == "fed.fail_revoke" <==> what == Did::Revoked
            &&& key == "fed.fail_add_peer" <==> what == Did::PeerAdded
            &&& key == "fed.fail_discovery" <==> what is PeerDiscovery
            &&& key == "fed.fail_forget" <==> what == Did::PeerRemoved
        },
{
    failures_are_told_apart();
}

// ── What a ticket's row says ─────────────────────────────────────────────

/// How the expiries are written: no two alike.
proof fn expiries_are_told_apart()
    ensures
        "fed.exp_expired"@.len() == 15 && "fed.exp_expired"@[8] == 'e',
        "fed.exp_never"@.len() == 13 && "fed.exp_never"@[8] == 'n',
        "fed.exp_today"@.len() == 13 && "fed.exp_today"@[8] == 't',
        "fed.exp_in_days"@.len() == 15 && "fed.exp_in_days"@[8] == 'i',
{
    reveal_strlit("fed.exp_expired");
    reveal_strlit("fed.exp_never");
    reveal_strlit("fed.exp_today");
    reveal_strlit("fed.exp_in_days");
}

/// A ticket that runs out is said to do so in as many days as are left, begun
/// ones counted; today within a day.
pub proof fn expiries_count_the_days_left(k: FederationKey, now: i64)
    requires
        !k.expired,
        k.expires_at is Some,
        is_timestamp(k.expires_at->0@),
    ensures
        ({
            let left = timestamp_value(k.expires_at->0@) - now;
            match expiry(k, now) {
                Msg::Key(key) => key == "fed.exp_today" && left <= 86400,
                Msg::One(key, Fill { name, arg: Arg::Num(n) }) => key == "fed.exp_in_days" && left > 86400 && (0 <= left
                    <= 0x7fff_ffff_ffff_ffff ==> 86400 * (n - 1) < left <= 86400 * n),
                _ => false,
            }
        }),
{
    let left = timestamp_value(k.expires_at->0@) - now;
    let n = (left + 86399) / 86400;
    if 86400 < left <= 0x7fff_ffff_ffff_ffff {
        assert(n <= left);
        assert(86400 * (n - 1) < left <= 86400 * n);
    }
}

/// A ticket is said to be expired exactly where the server says so, and never to
/// run out where it has no expiry.
pub proof fn expiries_are_the_servers(k: FederationKey, now: i64)
    ensures
        expiry(k, now) == Msg::Key("fed.exp_expired") <==> k.expired,
        !k.expired && k.expires_at is None ==> expiry(k, now) == Msg::Key("fed.exp_never"),
        expiry(k, now) == Msg::Key("fed.exp_never") ==> !k.expired && (k.expires_at is None || !is_timestamp(k.expires_at->0@)),
{
    expiries_are_told_apart();
}

/// An expiry that was set some days ahead reads as that many days.
pub proof fn a_new_expiry_reads_back(k: FederationKey, d: nat, now: i64)
    requires
        !k.expired,
        k.expires_at is Some,
        d >= 2,
        writable(now + d * 86400),
        k.expires_at->0@ == timestamp_text(now + d * 86400),
    ensures
        expiry(k, now) matches Msg::One(key, Fill { name, arg: Arg::Num(n) }) && key == "fed.exp_in_days" && n == d,
{
    timestamps_round_trip(now + d * 86400);
    assert((d * 86400 + 86399) / 86400 == d);
}

/// How the caps are written: no two alike.
proof fn caps_are_told_apart()
    ensures
        "fed.lim_mbps"@.len() == 12 && "fed.lim_mbps"@[8] == 'm',
        "fed.lim_kbps"@.len() == 12 && "fed.lim_kbps"@[8] == 'k',
        "fed.lim_gb_day"@.len() == 14 && "fed.lim_gb_day"@[8] == 'g',
        "fed.lim_mb_day"@.len() == 14 && "fed.lim_mb_day"@[8] == 'm',
        "fed.lim_stream_one"@.len() == 18 && "fed.lim_stream_one"@[8] == 's',
        "fed.lim_streams"@.len() == 15 && "fed.lim_streams"@[8] == 's',
        "fed.lim_unlimited"@.len() == 17 && "fed.lim_unlimited"@[8] == 'u',
{
    reveal_strlit("fed.lim_mbps");
    reveal_strlit("fed.lim_kbps");
    reveal_strlit("fed.lim_gb_day");
    reveal_strlit("fed.lim_mb_day");
    reveal_strlit("fed.lim_stream_one");
    reveal_strlit("fed.lim_streams");
    reveal_strlit("fed.lim_unlimited");
}

/// What a phrase says of a cap: kilobits per second, megabytes a day, streams.
pub open spec fn says_cap(m: Msg, k: FederationKey) -> bool {
    match m {
        Msg::One(key, Fill { name, arg: Arg::Ratio(n, per) }) => (key == "fed.lim_mbps" && n == k.stream_kbps && per == 1000
            && n >= 1000) || (key == "fed.lim_gb_day" && n == k.daily_mb && per == 1024 && n >= 1024),
        Msg::One(key, Fill { name, arg: Arg::Nat(n) }) => (key == "fed.lim_kbps" && n == k.stream_kbps && 0 < n < 1000) || (key
            == "fed.lim_mb_day" && n == k.daily_mb && 0 < n < 1024) || (key == "fed.lim_streams" && n == k.max_streams && n > 1),
        Msg::Key(key) => (key == "fed.lim_stream_one" && k.max_streams == 1) || (key == "fed.lim_unlimited" && k.stream_kbps == 0
            && k.daily_mb == 0 && k.max_streams == 0),
        _ => false,
    }
}

/// Each cap that is set is said once, in its own unit, and a key without caps is
/// said to have none.
pub proof fn caps_are_said_as_set(k: FederationKey)
    ensures
        forall|i: int| 0 <= i < cap_words(k).len() ==> says_cap(#[trigger] cap_words(k)[i], k),
        cap_words(k).len() == (if k.stream_kbps == 0 && k.daily_mb == 0 && k.max_streams == 0 {
            1int
        } else {
            (if k.stream_kbps > 0 { 1int } else { 0 }) + (if k.daily_mb > 0 { 1int } else { 0 }) + (if k.max_streams > 0 {
                1int
            } else {
                0
            })
        }),
        forall|i: int, j: int|
            0 <= i < j < cap_words(k).len() ==> #[trigger] cap_words(k)[i] != #[trigger] cap_words(k)[j],
{
    caps_are_told_apart();
}

} // verus!
