//! What holds of the Libraries room as a whole: that the folder and the name
//! which were chosen are those that are added, and that a key is about its row.

use vstd::prelude::*;

use crate::libraries::{Act, Done, Lib, Modal, NameDraft, Op, Room};
use crate::line::{Code, Key};
use crate::msg::{ApiError, Arg, Msg, Note};
use crate::paths::{Browse, DirListing, PathDraft};
use crate::screen::Outcome;

verus! {

use crate::libraries::{acted, applied, find, keyed, suggested};
use crate::line::{holds, input_value};
use crate::paths::{begins, below, slug};
use crate::text::{plain_ends_stay, trimmed, white};

/// Libraries with names of their own.
pub open spec fn unique(libs: Seq<Lib>) -> bool {
    forall|i: int, j: int| 0 <= i < j < libs.len() ==> (#[trigger] libs[i]).name@ != (#[trigger] libs[j]).name@
}

/// A library is found by its name, the first that has it, and only where one
/// has.
pub proof fn found_by_name(libs: Seq<Lib>, name: Seq<char>)
    ensures
        match find(libs, name) {
            Some(i) => 0 <= i < libs.len() && libs[i].name@ == name && forall|k: int| 0 <= k < i ==> (#[trigger] libs[k]).name@ != name,
            None => forall|k: int| 0 <= k < libs.len() ==> (#[trigger] libs[k]).name@ != name,
        },
    decreases libs.len(),
{
    if libs.len() > 0 {
        let rest = libs.drop_last();
        found_by_name(rest, name);
        assert forall|k: int| 0 <= k < rest.len() implies #[trigger] libs[k] == rest[k] by {}
    }
}

/// The folder is added that was chosen, under the name that was typed; nothing is
/// sent without a name, or with one that a library has.
pub proof fn folders_are_added_as_named(pre: Room, d: NameDraft, post: Room, out: Option<Outcome>)
    requires
        pre.modal == Modal::Name(d),
        acted(pre, Act::NameAdd, post, out),
    ensures
        ({
            let name = trimmed(input_value(d.name));
            if name.len() > 0 && forall|i: int| 0 <= i < pre.libs@.len() ==> (#[trigger] pre.libs@[i]).name@ != name {
                post.queued matches Some(Op::Add { directory, vpath }) && directory == d.directory && vpath@ == name
            } else {
                post.queued == pre.queued && (post.modal matches Modal::Name(e) && e.error is Some && e.name == d.name && e.directory
                    == d.directory)
            }
        }),
{
    found_by_name(pre.libs@, trimmed(input_value(d.name)));
}

/// A chosen folder is asked a name for, its own offered; added as it opened, it
/// is that folder under that name.
pub proof fn a_chosen_folder_is_offered_its_name(pre: Room, b: Browse, open: Room, post: Room, out: Option<Outcome>)
    requires
        pre.modal == Modal::Browser(b),
        b.path@.len() > 0 && !white(b.path@[0]) && !white(b.path@.last()),
        slug(b.path@).len() > 0,
        forall|i: int| 0 <= i < pre.libs@.len() ==> (#[trigger] pre.libs@[i]).name@ != slug(b.path@),
        acted(pre, Act::BrowseAdd, open, out),
        acted(open, Act::NameAdd, post, out),
    ensures
        open.queued == pre.queued,
        post.queued matches Some(Op::Add { directory, vpath }) && directory@ == b.path@ && vpath@ == slug(b.path@),
{
    plain_ends_stay(b.path@);
    let d = open.modal->Name_0;
    crate::paths::derived_names_are_slugs(b.path@);
    let s = slug(b.path@);
    assert(crate::paths::slug_char(s[0]) && crate::paths::slug_char(s[s.len() - 1]));
    plain_ends_stay(s);
    folders_are_added_as_named(open, d, post, out);
}

/// A library is removed by `y` on its warning: the one on the warning's row.
pub proof fn removing_goes_through(pre: Room, i: usize, key: Key, post: Room, out: Option<Outcome>)
    requires
        pre.modal == Modal::Remove(i),
        i < pre.libs@.len(),
        key.code == Code::Char('y'),
        keyed(pre, key, post, out),
    ensures
        post.queued == Some(Op::Remove(pre.libs@[i as int].name)),
        post.modal is Closed,
{
}

/// A key is about the row under the cursor: its warning, or its links switched to
/// what they are not.
pub proof fn keys_are_about_the_row(pre: Room, s: usize, key: Key, post: Room, out: Option<Outcome>)
    requires
        pre.modal is Closed,
        pre.sel == Some(s),
        s < pre.libs@.len(),
        keyed(pre, key, post, out),
    ensures
        key.code == Code::Char('r') || key.code == Code::Delete ==> post.modal == Modal::Remove(s) && post.queued == pre.queued,
        key.code == Code::Char('s') || key.code == Code::Char(' ') ==> post.queued == Some(
            Op::Symlinks { vpath: pre.libs@[s as int].name, on: !pre.libs@[s as int].follow_symlinks },
        ),
{
}

/// A library whose links were switched shows it, it alone, and switching them
/// again asks for the other.
pub proof fn switched_links_show(m: Room, i: usize, on: bool, post: Room, next: Room, out: Option<Outcome>)
    requires
        i < m.libs@.len(),
        unique(m.libs@),
        applied(m, Done::Symlinks { vpath: m.libs@[i as int].name, on, result: Ok(()) }, post),
        acted(post, Act::ToggleSymlinks(i), next, out),
    ensures
        post.libs@.len() == m.libs@.len(),
        post.libs@[i as int] == (Lib { follow_symlinks: on, ..m.libs@[i as int] }),
        forall|k: int| 0 <= k < m.libs@.len() && k != i ==> post.libs@[k] == m.libs@[k],
        next.queued == Some(Op::Symlinks { vpath: m.libs@[i as int].name, on: !on }),
{
    found_by_name(m.libs@, m.libs@[i as int].name@);
    let k = find(m.libs@, m.libs@[i as int].name@)->0;
    if k != i {
        assert(k < i);
        assert(m.libs@[k].name@ != m.libs@[i as int].name@);
    }
}

/// A load is shown; a library just added is brought into view where it is.
pub proof fn loads_are_shown(m: Room, libs: Vec<Lib>, post: Room)
    requires
        applied(m, Done::Loaded(Ok(libs)), post),
        libs@.len() <= usize::MAX,
    ensures
        post.libs == libs,
        post.note is None,
        m.reveal_name matches Some(name) ==> post.reveal matches Some(i) ==> i < libs@.len() && libs@[i as int].name@ == name@,
        m.reveal_name matches Some(name) ==> post.reveal is None ==> forall|k: int|
            0 <= k < libs@.len() ==> (#[trigger] libs@[k]).name@ != name@,
        post.modal == m.modal && post.queued == m.queued,
{
    if let Some(name) = m.reveal_name {
        found_by_name(libs@, name@);
    }
}

/// What was added is looked for in the list that is asked for next; a removal
/// asks for the list as well.
pub proof fn changes_ask_for_the_list(m: Room, vpath: String, post: Room)
    ensures
        applied(m, Done::Added { vpath, result: Ok(()) }, post) ==> post.queued == Some(Op::Load) && post.reveal_name == Some(vpath)
            && post.modal is Closed,
        applied(m, Done::Removed { vpath, result: Ok(()) }, post) ==> post.queued == Some(Op::Load),
{
}

/// A failure names its library and what failed, keeps the name that was typed,
/// and sends nothing.
pub proof fn failures_name_their_library(m: Room, vpath: String, on: bool, e: ApiError, post: Room)
    ensures
        ({
            let says = |msg: Msg, key: &'static str| msg matches Msg::FailedOn(k, f, why) && k == key && f.arg == Arg::Text(vpath)
                && why == e;
            &&& applied(m, Done::Added { vpath, result: Err(e) }, post) ==> post.queued == m.queued && match m.modal {
                Modal::Name(d) => post.modal matches Modal::Name(q) && q.name == d.name && q.directory == d.directory && (
                q.error matches Some(msg) && says(msg, "admin.add_failed")),
                _ => post.note matches Some(Note { msg, error }) && error && says(msg, "admin.add_failed"),
            }
            &&& applied(m, Done::Removed { vpath, result: Err(e) }, post) ==> post.queued == m.queued && post.libs == m.libs && (
            post.note matches Some(Note { msg, error }) && error && says(msg, "admin.remove_failed"))
            &&& applied(m, Done::Symlinks { vpath, on, result: Err(e) }, post) ==> post.queued == m.queued && post.libs == m.libs
                && (post.note matches Some(Note { msg, error }) && error && says(msg, "admin.symlinks_failed"))
        }),
{
}

// ── Walking and typing ───────────────────────────────────────────────────

/// The browser goes into the folder under its cursor.
pub proof fn the_browser_goes_where_it_points(pre: Room, b: Browse, post: Room, out: Option<Outcome>)
    requires
        pre.modal == Modal::Browser(b),
        b.sel < b.dirs@.len(),
        b.path@.len() > 0,
        acted(pre, Act::BrowseEnter, post, out),
    ensures
        post.queued matches Some(Op::BrowseTo(p)) && p@.take(b.path@.len() as int) == b.path@ && p@.skip(
            p@.len() - b.dirs@[b.sel as int]@.len(),
        ) == b.dirs@[b.sel as int]@,
{
    crate::paths::subfolders_lie_below(b.path@, b.dirs@[b.sel as int]@);
}

/// A listing is shown as it came, the cursor on its first folder.
pub proof fn listings_are_shown(m: Room, l: DirListing, post: Room)
    requires
        applied(m, Done::Browsed(Ok(l)), post),
    ensures
        post.modal matches Modal::Browser(b) && b.path == l.path && b.dirs == l.directories && b.sel == 0,
        post.queued == m.queued,
{
}

/// The path that is typed is the folder that gets a name.
pub proof fn typed_paths_get_a_name(pre: Room, d: PathDraft, key: Key, post: Room, out: Option<Outcome>)
    requires
        pre.modal == Modal::PathEntry(d),
        key.code == Code::Enter,
        keyed(pre, key, post, out),
    ensures
        trimmed(input_value(d.text)).len() > 0 ==> (post.modal matches Modal::Name(n) && n.directory@ == trimmed(
            input_value(d.text),
        )),
        trimmed(input_value(d.text)).len() == 0 ==> post.modal is Closed,
        post.queued == pre.queued,
{
}

/// A suggestion that is taken makes a path in the listed folder that ends with
/// the suggestion and a separator.
pub proof fn suggestions_go_on_inside(d: PathDraft, name: Seq<char>)
    requires
        d.listed_path@.len() > 0,
    ensures
        ({
            let s = suggested(d, name);
            &&& s.take(d.listed_path@.len() as int) == d.listed_path@
            &&& s.last() == '/' || s.last() == '\\'
            &&& s.drop_last().skip(s.len() - 1 - name.len()) == name
        }),
{
    crate::paths::subfolders_lie_below(d.listed_path@, name);
    let path = below(d.listed_path@, name);
    let s = suggested(d, name);
    assert(s.drop_last() =~= path);
    assert(s.take(d.listed_path@.len() as int) =~= path.take(d.listed_path@.len() as int));
}

/// Only what begins as typed is suggested, and an answer for another folder than
/// the one being typed changes nothing.
pub proof fn suggestions_are_of_the_typed_folder(m: Room, d: PathDraft, dir: String, l: DirListing, post: Room)
    requires
        m.modal == Modal::PathEntry(d),
        applied(m, Done::Completed { dir, listing: Ok(l) }, post),
    ensures
        dir@ != d.listed_for@ ==> post == m,
        dir@ == d.listed_for@ ==> (post.modal matches Modal::PathEntry(q) && q.entries == l.directories && q.listed_path == l.path
            && q.text == d.text && q.error is None),
{
}

} // verus!
