//! What holds of the Backups room as a whole: that what a form holds is what a
//! destination becomes, and that a key is about the row it is on.

use vstd::prelude::*;

use crate::backups::{Act, BackupDestination, BackupPatch, BackupRun, Did, Done, Form, Loaded, Modal, Op, PathCheck, Room, Trigger};
use crate::line::{Code, Key};
use crate::msg::{ApiError, Msg, Note};
use crate::screen::Outcome;

verus! {

use crate::backups::{acted, applied, find, keyed, refusal};
use crate::line::{holds, input_value};
use crate::text::{dec, join_with, numbers_read_back, plain_ends_stay, split_on, texts, trim_start, trimmed, trimmed_parts, white};

// ── Patterns ─────────────────────────────────────────────────────────────

proof fn split_before_a_part(a: Seq<char>, b: Seq<char>)
    requires
        !b.contains(','),
    ensures
        split_on(a.push(',') + b, ',') == split_on(a, ',').push(b),
    decreases b.len(),
{
    let s = a.push(',') + b;
    if b.len() == 0 {
        assert(s =~= a.push(','));
        assert(s.drop_last() =~= a);
        assert(b =~= Seq::<char>::empty());
    } else {
        let rest = b.drop_last();
        assert forall|i: int| 0 <= i < rest.len() implies rest[i] != ',' by {
            assert(b.contains(b[i]));
        }
        split_before_a_part(a, rest);
        assert(s.drop_last() =~= a.push(',') + rest);
        assert(b.contains(b[b.len() - 1]));
        assert(s.last() == b.last());
        let before = split_on(a, ',').push(rest);
        assert(before.drop_last() =~= split_on(a, ','));
        assert(rest.push(b.last()) =~= b);
    }
}

proof fn one_part(b: Seq<char>)
    requires
        !b.contains(','),
    ensures
        split_on(b, ',') == seq![b],
    decreases b.len(),
{
    if b.len() > 0 {
        let rest = b.drop_last();
        assert forall|i: int| 0 <= i < rest.len() implies rest[i] != ',' by {
            assert(b.contains(b[i]));
        }
        one_part(rest);
        assert(b.contains(b[b.len() - 1]));
        assert(rest.push(b.last()) =~= b);
        assert(split_on(b, ',') =~= seq![b]);
    } else {
        assert(b =~= Seq::<char>::empty());
    }
}

/// A pattern that can stand in a list: not empty, no comma, no white space at
/// its ends.
pub open spec fn listable(g: Seq<char>) -> bool {
    g.len() > 0 && !g.contains(',') && !white(g[0]) && !white(g.last())
}

/// The patterns of a list, written with commas between them, read back.
pub proof fn patterns_read_back(v: Seq<Seq<char>>)
    requires
        forall|i: int| 0 <= i < v.len() ==> listable(#[trigger] v[i]),
    ensures
        trimmed_parts(split_on(join_with(v, ", "@), ',')) == v,
    decreases v.len(),
{
    reveal_strlit(", ");
    let sep = ", "@;
    assert(sep =~= seq![',', ' ']);
    if v.len() == 0 {
        let none = split_on(join_with(v, sep), ',');
        assert(none =~= seq![Seq::<char>::empty()]);
        reveal_with_fuel(trimmed_parts, 2);
        assert(none.drop_last() =~= Seq::<Seq<char>>::empty());
        assert(trimmed_parts(none) =~= v);
    } else {
        let last = v.last();
        assert(listable(v[v.len() - 1]));
        plain_ends_stay(last);
        if v.len() == 1 {
            one_part(last);
            let parts = seq![last];
            reveal_with_fuel(trimmed_parts, 2);
            assert(parts.drop_last() =~= Seq::<Seq<char>>::empty());
            assert(trimmed_parts(parts) =~= v);
        } else {
            let rest = v.drop_last();
            assert forall|i: int| 0 <= i < rest.len() implies listable(#[trigger] rest[i]) by {
                assert(v[i] == rest[i]);
            }
            patterns_read_back(rest);
            let head = join_with(rest, sep);
            let tail = seq![' '] + last;
            assert(join_with(v, sep) =~= head.push(',') + tail);
            assert forall|i: int| 0 <= i < tail.len() implies tail[i] != ',' by {
                if i > 0 {
                    assert(last.contains(last[i - 1]));
                }
            }
            split_before_a_part(head, tail);
            let parts = split_on(head, ',').push(tail);
            assert(parts.drop_last() =~= split_on(head, ','));
            assert(tail.skip(1) =~= last);
            assert(trim_start(tail) == trim_start(last));
            assert(trimmed(tail) == last);
            assert(rest.push(last) =~= v);
        }
    }
}

/// Patterns are read with the white space around them taken off, the empty ones
/// dropped.
pub proof fn patterns_are_trimmed(v: Seq<Seq<char>>)
    ensures
        forall|i: int|
            0 <= i < trimmed_parts(v).len() ==> (#[trigger] trimmed_parts(v)[i]).len() > 0 && !white(trimmed_parts(v)[i][0])
                && !white(trimmed_parts(v)[i].last()),
        trimmed_parts(v).len() <= v.len(),
    decreases v.len(),
{
    if v.len() > 0 {
        patterns_are_trimmed(v.drop_last());
        crate::text::trimming_takes_white_space_alone(v.last());
    }
}

// ── What a form holds ────────────────────────────────────────────────────

/// The numbers in a form's fields, in decimal: the days that versions are kept,
/// the pause between files, the hour.
pub open spec fn typed(f: Form, days: u32, pause: u32, hour: u32) -> bool {
    &&& input_value(f.retention) == dec(days as nat)
    &&& input_value(f.throttle) == dec(pause as nat)
    &&& input_value(f.hour) == dec(hour as nat)
    &&& pause <= 60000
    &&& hour <= 23
}

proof fn typed_numbers_are_read(f: Form, days: u32, pause: u32, hour: u32)
    requires
        typed(f, days, pause, hour),
    ensures
        f.wrong_number() is None,
        f.retention_value() == Some(days as nat),
        f.throttle_value() == Some(pause as nat),
        f.hour_value() == Some(hour as nat),
{
    numbers_read_back(days as nat, u32::MAX as nat);
    numbers_read_back(pause as nat, 60000);
    numbers_read_back(hour as nat, 23);
}

/// A path, the server has nothing against it, and not too many patterns.
pub open spec fn sendable(f: Form) -> bool {
    &&& trimmed(input_value(f.dest)).len() > 0
    &&& f.check is None
    &&& trimmed_parts(split_on(input_value(f.excludes), ',')).len() <= 64
}

/// A value once a change is applied to it.
pub open spec fn or_kept<A>(change: Option<A>, was: A) -> A {
    match change {
        Some(a) => a,
        None => was,
    }
}

/// A text once a change is applied to it.
pub open spec fn text_after(change: Option<String>, was: Seq<char>) -> Seq<char> {
    match change {
        Some(s) => s@,
        None => was,
    }
}

/// The patterns once a change is applied to them; none where they follow the
/// server's.
pub open spec fn patterns_after(change: Option<Option<Vec<String>>>, was: Seq<String>) -> Option<Seq<Seq<char>>> {
    match change {
        Some(Some(v)) => Some(texts(v@)),
        Some(None) => None,
        None => Some(texts(was)),
    }
}

/// How often a destination runs, in the server's word.
pub open spec fn runs(word: Seq<char>, t: Trigger) -> bool {
    match t {
        Trigger::AfterScan => word == "after-scan"@,
        Trigger::Daily => word == "daily"@,
        Trigger::Manual => word == "manual"@,
    }
}

/// Whether a patch makes of a row what a form holds, field by field, and leaves
/// whether it is on.
pub open spec fn makes(p: BackupPatch, row: BackupDestination, f: Form, days: u32, pause: u32, hour: u32) -> bool {
    &&& text_after(p.dest_path, row.dest_path@) == trimmed(input_value(f.dest))
    &&& runs(text_after(p.trigger_type, row.trigger_type@), f.trigger)
    &&& or_kept(p.daily_at_hour, row.daily_at_hour) == (if f.trigger == Trigger::Daily { Some(hour) } else { None })
    &&& or_kept(p.retention_days, row.retention_days) == days
    &&& or_kept(p.inter_file_delay_ms, row.inter_file_delay_ms) == pause
    &&& patterns_after(p.exclude_globs, row.exclude_globs@) == (if f.excludes_reset {
        None
    } else {
        Some(trimmed_parts(split_on(input_value(f.excludes), ',')))
    })
    &&& or_kept(p.enabled, row.enabled) == row.enabled
}

/// A patch that holds nothing that the row has already.
pub open spec fn sends_only_changes(p: BackupPatch, row: BackupDestination) -> bool {
    &&& p.dest_path matches Some(s) ==> s@ != row.dest_path@
    &&& p.trigger_type matches Some(s) ==> s@ != row.trigger_type@
    &&& p.daily_at_hour matches Some(h) ==> h != row.daily_at_hour
    &&& p.retention_days matches Some(n) ==> n != row.retention_days
    &&& p.inter_file_delay_ms matches Some(n) ==> n != row.inter_file_delay_ms
    &&& p.exclude_globs matches Some(Some(v)) ==> texts(v@) != texts(row.exclude_globs@)
    &&& p.enabled is None
}

/// A patch that says nothing.
pub open spec fn nothing() -> BackupPatch {
    BackupPatch {
        dest_path: None,
        trigger_type: None,
        daily_at_hour: None,
        retention_days: None,
        inter_file_delay_ms: None,
        exclude_globs: None,
        enabled: None,
    }
}

/// Saving a row makes of it what the form holds: the patch, applied to the row,
/// gives the form's path, trigger, hour, days, pause and patterns, and holds
/// only what changes. Where nothing is sent the row is as the form already.
pub proof fn a_saved_row_is_as_the_form(
    pre: Room,
    f: Form,
    row: BackupDestination,
    days: u32,
    pause: u32,
    hour: u32,
    post: Room,
    out: Option<Outcome>,
)
    requires
        pre.modal == Modal::Form(Box::new(f)),
        pre.queued is None,
        f.original == Some(row),
        typed(f, days, pause, hour),
        sendable(f),
        acted(pre, Act::FormSubmit, post, out),
    ensures
        match post.queued {
            Some(Op::Patch { id, patch, what }) => id == row.id && what == Did::Saved && makes(
                patch,
                row,
                f,
                days,
                pause,
                hour,
            ) && sends_only_changes(patch, row),
            Some(_) => false,
            None => post.modal is Closed && makes(nothing(), row, f, days, pause, hour),
        },
{
    typed_numbers_are_read(f, days, pause, hour);
}

/// A new destination is as the form: its library, path, trigger, hour, days and
/// pause, and its patterns unless they are the server's own.
pub proof fn a_new_row_is_as_the_form(pre: Room, f: Form, days: u32, pause: u32, hour: u32, post: Room, out: Option<Outcome>)
    requires
        pre.modal == Modal::Form(Box::new(f)),
        f.original is None,
        typed(f, days, pause, hour),
        sendable(f),
        acted(pre, Act::FormSubmit, post, out),
    ensures
        post.queued matches Some(Op::Add(n)) && n.library_id == f.library_id && n.dest_path@ == trimmed(input_value(f.dest)) && runs(
            n.trigger_type@,
            f.trigger,
        ) && n.daily_at_hour == (if f.trigger == Trigger::Daily { Some(hour) } else { None }) && n.retention_days == days
            && n.inter_file_delay_ms == pause && match n.exclude_globs {
            Some(v) => texts(v@) == trimmed_parts(split_on(input_value(f.excludes), ',')),
            None => texts(pre.defaults@) == trimmed_parts(split_on(input_value(f.excludes), ',')),
        },
{
    typed_numbers_are_read(f, days, pause, hour);
}

/// A new destination, as its form opens: the first library, after each scan,
/// thirty days kept, no pause, the server's own patterns.
pub proof fn a_fresh_form_follows_the_server(pre: Room, open: Room, out: Option<Outcome>)
    requires
        pre.libraries@.len() > 0,
        acted(pre, Act::Add, open, out),
    ensures
        open.queued == pre.queued,
        open.modal matches Modal::Form(f) && f.original is None && f.editing is None && f.library_id == pre.libraries@[0].1
            && f.library_name == pre.libraries@[0].0 && f.trigger == Trigger::AfterScan && typed(*f, 30, 0, 3) && input_value(
            f.dest,
        ).len() == 0 && input_value(f.excludes) == join_with(texts(pre.defaults@), ", "@),
{
    reveal_strlit("30");
    reveal_strlit("0");
    reveal_strlit("3");
    reveal_with_fuel(dec, 3);
    assert("30"@ =~= dec(30));
    assert("0"@ =~= dec(0));
    assert("3"@ =~= dec(3));
}

/// A row as the room can have it: a path without white space at its ends, a known
/// trigger, an hour where it runs daily and only there, patterns that can stand
/// in a list.
pub open spec fn ordinary(d: BackupDestination) -> bool {
    &&& d.dest_path@.len() > 0 && !white(d.dest_path@[0]) && !white(d.dest_path@.last())
    &&& d.trigger_type@ == "after-scan"@ || d.trigger_type@ == "daily"@ || d.trigger_type@ == "manual"@
    &&& d.trigger_type@ == "daily"@ <==> d.daily_at_hour is Some
    &&& d.daily_at_hour matches Some(h) ==> h <= 23
    &&& d.inter_file_delay_ms <= 60000
    &&& d.exclude_globs@.len() <= 64
    &&& forall|i: int| 0 <= i < d.exclude_globs@.len() ==> listable((#[trigger] d.exclude_globs@[i])@)
}

/// A form holds its row: editing and saving it untouched sends nothing.
pub proof fn an_untouched_row_is_not_sent(pre: Room, i: int, open: Room, post: Room, out: Option<Outcome>)
    requires
        0 <= i < pre.dests@.len(),
        unique(pre.dests@),
        ordinary(pre.dests@[i]),
        acted(pre, Act::Edit(pre.dests@[i].id), open, out),
        acted(open, Act::FormSubmit, post, out),
    ensures
        post.queued == open.queued,
        !(open.queued matches Some(Op::Patch { id, patch, what }) && pre.queued != open.queued),
        post.modal is Closed,
{
    let d = pre.dests@[i];
    found_where_it_is(pre.dests@, i);
    let f = *(open.modal->Form_0);
    let hour: u32 = if d.daily_at_hour is Some { d.daily_at_hour->0 } else { 3 };
    typed_numbers_are_read(f, d.retention_days, d.inter_file_delay_ms, hour);
    plain_ends_stay(d.dest_path@);
    assert forall|k: int| 0 <= k < texts(d.exclude_globs@).len() implies listable(#[trigger] texts(d.exclude_globs@)[k]) by {
        assert(listable(d.exclude_globs@[k]@));
    }
    patterns_read_back(texts(d.exclude_globs@));
    crate::backups::trigger_words_read_back(f.trigger);
    words_are_told_apart();
    assert(f.patterns() == texts(d.exclude_globs@));
    assert(texts(f.original->0.exclude_globs@) == texts(d.exclude_globs@));
    assert(refusal(f) is None);
}

/// How the triggers are written: no two alike.
proof fn words_are_told_apart()
    ensures
        "after-scan"@.len() == 10,
        "daily"@.len() == 5,
        "manual"@.len() == 6,
{
    reveal_strlit("after-scan");
    reveal_strlit("daily");
    reveal_strlit("manual");
}

/// Destinations with ids of their own.
pub open spec fn unique(dests: Seq<BackupDestination>) -> bool {
    forall|i: int, j: int| 0 <= i < j < dests.len() ==> (#[trigger] dests[i]).id != (#[trigger] dests[j]).id
}

/// A destination is found where it is.
pub proof fn found_where_it_is(dests: Seq<BackupDestination>, i: int)
    requires
        unique(dests),
        0 <= i < dests.len(),
    ensures
        find(dests, dests[i].id) == Some(i),
    decreases dests.len(),
{
    let rest = dests.drop_last();
    let id = dests[i].id;
    crate::backups::found_is_there(rest, id);
    if i < rest.len() {
        assert forall|a: int, b: int| 0 <= a < b < rest.len() implies (#[trigger] rest[a]).id != (#[trigger] rest[b]).id by {
            assert(dests[a].id != dests[b].id);
        }
        found_where_it_is(rest, i);
        assert(rest[i] == dests[i]);
    } else if let Some(k) = find(rest, id) {
        assert(dests[k].id != dests[i].id);
        assert(rest[k] == dests[k]);
    }
}

/// Putting the patterns back to the server's own is sent as that, for a row that
/// exists.
pub proof fn patterns_go_back_to_the_servers(pre: Room, f: Form, row: BackupDestination, reset: Room, post: Room, days: u32, pause: u32, hour: u32, out: Option<Outcome>)
    requires
        pre.modal == Modal::Form(Box::new(f)),
        f.original == Some(row),
        f.editing is Some,
        typed(f, days, pause, hour),
        trimmed(input_value(f.dest)).len() > 0,
        f.check is None,
        trimmed_parts(split_on(join_with(texts(pre.defaults@), ", "@), ',')).len() <= 64,
        acted(pre, Act::FormResetExcludes, reset, out),
        acted(reset, Act::FormSubmit, post, out),
    ensures
        reset.modal matches Modal::Form(g) && input_value(g.excludes) == join_with(texts(pre.defaults@), ", "@),
        post.queued matches Some(Op::Patch { id, patch, what }) && patch.exclude_globs == Some(None::<Vec<String>>),
{
    let g = *(reset.modal->Form_0);
    typed_numbers_are_read(g, days, pause, hour);
}

/// A form that says nothing of where, or a number that is none, is refused: it
/// stays open with an error, and nothing is sent.
pub proof fn a_form_without_a_path_is_refused(pre: Room, f: Form, post: Room, out: Option<Outcome>)
    requires
        pre.modal == Modal::Form(Box::new(f)),
        trimmed(input_value(f.dest)).len() == 0 || input_value(f.retention).len() == 0 || input_value(f.throttle).len() == 0 || (
        f.trigger == Trigger::Daily && input_value(f.hour).len() == 0) || (exists|n: nat|
            n > 23 && f.trigger == Trigger::Daily && input_value(f.hour) == #[trigger] dec(n)) || (exists|n: nat|
            n > 60000 && input_value(f.throttle) == #[trigger] dec(n)),
        acted(pre, Act::FormSubmit, post, out),
    ensures
        post.queued == pre.queued,
        post.modal matches Modal::Form(g) && g.error is Some && g.dest == f.dest && g.retention == f.retention,
{
    plain_ends_stay(Seq::<char>::empty());
    if input_value(f.retention).len() == 0 {
        assert(input_value(f.retention) =~= Seq::<char>::empty());
    }
    if input_value(f.throttle).len() == 0 {
        assert(input_value(f.throttle) =~= Seq::<char>::empty());
    }
    if input_value(f.hour).len() == 0 {
        assert(input_value(f.hour) =~= Seq::<char>::empty());
    }
    if exists|n: nat| n > 23 && f.trigger == Trigger::Daily && input_value(f.hour) == #[trigger] dec(n) {
        let n = choose|n: nat| n > 23 && f.trigger == Trigger::Daily && input_value(f.hour) == #[trigger] dec(n);
        numbers_read_back(n, 23);
    }
    if exists|n: nat| n > 60000 && input_value(f.throttle) == #[trigger] dec(n) {
        let n = choose|n: nat| n > 60000 && input_value(f.throttle) == #[trigger] dec(n);
        numbers_read_back(n, 60000);
    }
}

/// A path that the server has errors about is not sent; one it was never asked
/// about, or only warns about, is.
pub proof fn errors_of_the_server_hold_a_path_up(pre: Room, f: Form, check: PathCheck, days: u32, pause: u32, hour: u32, post: Room, out: Option<Outcome>)
    requires
        pre.modal == Modal::Form(Box::new(f)),
        pre.queued is None,
        f.original is None,
        typed(f, days, pause, hour),
        trimmed(input_value(f.dest)).len() > 0,
        trimmed_parts(split_on(input_value(f.excludes), ',')).len() <= 64,
        f.check == Some(check),
        acted(pre, Act::FormSubmit, post, out),
    ensures
        post.queued is None <==> check.errors@.len() > 0 && f.checked_for@ == trimmed(input_value(f.dest)),
{
    typed_numbers_are_read(f, days, pause, hour);
}

// ── What a key is about ──────────────────────────────────────────────────

/// What is asked of the row under the cursor is asked for that row: a run, only
/// where it is on; its history; its warning.
pub proof fn keys_are_about_the_row(pre: Room, s: usize, key: Key, post: Room, out: Option<Outcome>)
    requires
        pre.modal is Closed,
        pre.sel == Some(s),
        s < pre.dests@.len(),
        unique(pre.dests@),
        keyed(pre, key, post, out),
    ensures
        ({
            let d = pre.dests@[s as int];
            &&& key.code == Code::Char('n') && d.enabled ==> post.queued == Some(Op::Run(d.id))
            &&& key.code == Code::Char('n') && !d.enabled ==> post.queued == pre.queued && post.note is Some && post.note->0.error
            &&& key.code == Code::Enter || key.code == Code::Char('h') ==> post.queued == Some(Op::History(d.id)) && (
            post.modal matches Modal::History { dest, runs, loaded, sel } && dest.id == d.id && dest.dest_path == d.dest_path
                && !loaded)
            &&& key.code == Code::Char('r') || key.code == Code::Delete ==> post.modal == Modal::Remove(d.id) && post.queued
                == pre.queued
            &&& key.code == Code::Char('e') ==> (post.modal matches Modal::Form(f) && f.editing == Some(d.id) && input_value(
                f.dest,
            ) == d.dest_path@ && input_value(f.retention) == dec(d.retention_days as nat) && input_value(f.throttle) == dec(
                d.inter_file_delay_ms as nat,
            ) && f.library_id == d.library_id)
            &&& key.code == Code::Char('s') || key.code == Code::Char(' ') ==> (post.queued matches Some(
                Op::Patch { id, patch, what },
            ) && id == d.id && what == Did::Enabled(!d.enabled) && patch == (BackupPatch { enabled: Some(!d.enabled), ..nothing() }))
        }),
{
    found_where_it_is(pre.dests@, s as int);
}

/// A destination is removed by `y` on its warning.
pub proof fn removing_goes_through(pre: Room, id: i64, key: Key, post: Room, out: Option<Outcome>)
    requires
        pre.modal == Modal::Remove(id),
        key.code == Code::Char('y'),
        keyed(pre, key, post, out),
    ensures
        post.queued == Some(Op::Remove(id)),
        post.modal is Closed,
{
}

/// A row that was switched shows it, it alone, and switching it again asks for
/// the other.
pub proof fn switched_rows_show(m: Room, i: int, on: bool, post: Room, next: Room, out: Option<Outcome>)
    requires
        0 <= i < m.dests@.len(),
        unique(m.dests@),
        applied(m, Done::Patched { id: m.dests@[i].id, what: Did::Enabled(on), result: Ok(()) }, post),
        acted(post, Act::ToggleEnabled(m.dests@[i].id), next, out),
    ensures
        post.dests@.len() == m.dests@.len(),
        post.dests@[i] == (BackupDestination { enabled: on, ..m.dests@[i] }),
        forall|k: int| 0 <= k < m.dests@.len() && k != i ==> post.dests@[k] == m.dests@[k],
        post.queued == Some(Op::Load),
        next.queued matches Some(Op::Patch { id, patch, what }) && id == m.dests@[i].id && patch.enabled == Some(!on),
{
    found_where_it_is(m.dests@, i);
    assert forall|a: int, b: int| 0 <= a < b < post.dests@.len() implies (#[trigger] post.dests@[a]).id != (
    #[trigger] post.dests@[b]).id by {
        assert(m.dests@[a].id != m.dests@[b].id);
    }
    found_where_it_is(post.dests@, i);
}

// ── What comes back ──────────────────────────────────────────────────────

/// A load is shown: the rows, the run in flight, and the libraries where they
/// came.
pub proof fn loads_are_shown(m: Room, l: Loaded, post: Room)
    requires
        applied(m, Done::Loaded(Ok(l)), post),
    ensures
        post.dests == l.dests,
        post.status == l.status,
        l.libraries matches Some(v) ==> post.libraries == v,
        l.libraries is None ==> post.libraries == m.libraries,
        post.loaded,
        post.modal == m.modal && post.queued == m.queued,
        m.sel matches Some(s) ==> s < l.dests@.len() ==> post.sel == m.sel,
{
}

/// The runs of a destination are shown in its own history alone.
pub proof fn runs_are_shown_in_their_history(m: Room, id: i64, list: Vec<BackupRun>, post: Room)
    requires
        applied(m, Done::History { id, result: Ok(list) }, post),
    ensures
        m.modal matches Modal::History { dest, runs, loaded, sel } ==> dest.id == id ==> (post.modal matches Modal::History {
            dest: d,
            runs: r,
            loaded: l,
            sel: s,
        } && d == dest && r == list && l),
        m.modal matches Modal::History { dest, runs, loaded, sel } ==> dest.id != id ==> post == m,
        !(m.modal is History) ==> post == m,
{
}

/// What the server says of a path is kept for that path, errors and warnings
/// apart.
pub proof fn checks_are_kept(m: Room, f: Form, dest: String, check: PathCheck, post: Room)
    requires
        m.modal == Modal::Form(Box::new(f)),
        dest@ == trimmed(input_value(f.dest)),
        applied(m, Done::Checked { dest, result: Ok(check) }, post),
    ensures
        post.modal matches Modal::Form(g) && g.check == Some(check) && g.checked_for == dest && g.dest == f.dest,
        post.queued == m.queued,
{
}

/// How the notes are written: no two alike.
proof fn notes_are_told_apart()
    ensures
        "bak.done_added"@.len() == 14 && "bak.done_added"@[10] == 'd',
        "bak.done_saved"@.len() == 14 && "bak.done_saved"@[10] == 'a',
        "bak.done_on"@.len() == 11 && "bak.done_on"@[10] == 'n',
        "bak.done_off"@.len() == 12 && "bak.done_off"@[10] == 'f',
        "bak.done_removed"@.len() == 16 && "bak.done_removed"@[10] == 'e',
        "bak.run_started"@.len() == 15 && "bak.run_started"@[10] == 'a',
        "bak.run_skipped"@.len() == 15 && "bak.run_skipped"@[10] == 'i',
        "bak.fail_add"@.len() == 12 && "bak.fail_add"@[10] == 'd',
        "bak.fail_save"@.len() == 13 && "bak.fail_save"@[10] == 'a',
        "bak.fail_toggle"@.len() == 15 && "bak.fail_toggle"@[10] == 'o',
        "bak.fail_remove"@.len() == 15 && "bak.fail_remove"@[10] == 'e',
        "bak.fail_run"@.len() == 12 && "bak.fail_run"@[10] == 'u',
{
    reveal_strlit("bak.done_added");
    reveal_strlit("bak.done_saved");
    reveal_strlit("bak.done_on");
    reveal_strlit("bak.done_off");
    reveal_strlit("bak.done_removed");
    reveal_strlit("bak.run_started");
    reveal_strlit("bak.run_skipped");
    reveal_strlit("bak.fail_add");
    reveal_strlit("bak.fail_save");
    reveal_strlit("bak.fail_toggle");
    reveal_strlit("bak.fail_remove");
    reveal_strlit("bak.fail_run");
}

/// What was done is said as it was done: a row on or off as it is, a run started
/// unless the server passed over it.
pub proof fn deeds_are_said_as_done(m: Room, done: Done, post: Room)
    requires
        applied(m, done, post),
    ensures
        done matches Done::Patched { id, what: Did::Enabled(on), result: Ok(_) } ==> (post.note matches Some(
            Note { msg: Msg::Key(key), error },
        ) && !error && (key == "bak.done_on" <==> on) && (key == "bak.done_off" <==> !on)),
        done matches Done::Ran(Ok(answer)) ==> (post.note matches Some(Note { msg: Msg::Key(key), error }) && (error <==> answer.status@
            == "skipped"@) && (key == "bak.run_skipped" <==> answer.status@ == "skipped"@) && (key == "bak.run_started"
            <==> answer.status@ != "skipped"@)),
        done matches Done::Patched { id, what: Did::Saved, result: Ok(_) } ==> post.modal is Closed && post.queued == Some(
            Op::Load,
        ) && (post.note matches Some(Note { msg: Msg::Key(key), error }) && !error && key == "bak.done_saved"),
        done matches Done::Added(Ok(_)) ==> post.modal is Closed && post.queued == Some(Op::Load) && (post.note matches Some(
            Note { msg: Msg::Key(key), error },
        ) && !error && key == "bak.done_added"),
        done matches Done::Removed(Ok(_)) ==> post.queued == Some(Op::Load) && (post.note matches Some(
            Note { msg: Msg::Key(key), error },
        ) && !error && key == "bak.done_removed"),
{
    notes_are_told_apart();
}

/// A save that failed keeps the form, with what was typed and the reason.
pub proof fn a_failed_save_keeps_the_form(m: Room, f: Form, id: i64, e: ApiError, post: Room)
    requires
        m.modal == Modal::Form(Box::new(f)),
        applied(m, Done::Patched { id, what: Did::Saved, result: Err(e) }, post) || applied(m, Done::Added(Err(e)), post),
    ensures
        post.modal matches Modal::Form(g) && *g == (Form { error: g.error, ..f }) && (g.error matches Some(Msg::Failed(_, why))
            && why == e),
        post.queued == m.queued,
{
}

} // verus!
