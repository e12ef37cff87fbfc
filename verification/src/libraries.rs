//! The Libraries room: the server's music folders.
//!
//! A folder is browsed for, picked in the system's dialog or typed with
//! completion; then it is named, and added. Removing one is gated.

use tui_input::Input;
use vstd::prelude::*;

use crate::backups::Pick;
use crate::line::{edit, Code, Key};
use crate::msg::{gate_message, ApiError, Arg, Fill, Msg, Note};
use crate::paths::{
    collapse, common_prefix, derive_name, is_alphanumeric, join_server_path, parent_server_path, split_input, to_lower,
    Browse, DirListing, PathDraft,
};
use crate::screen::{
    clamp_row, cursor_down, cursor_up, keep_cursor, next_choice, previous_choice, scroll, Outcome,
};
use crate::text::{chars_of, same, trim};

verus! {

use crate::line::{after_key, all_of, holds, input_cursor, input_cut, input_value, key_changes, stays_of_a_kind};
use crate::msg::{error, gate, one, remark, says};
use crate::paths::{
    above, alphanumeric, below, collapsed, derived_names_are_slugs, dir_part, is_blank_draft, lower, partial, prefix_of,
    slug, slug_char,
};
use crate::screen::{after, before, kept, row_down, row_up, scrolled, within};
use crate::text::trimmed;

/// One library folder as the server lists it.
#[derive(Debug, PartialEq)]
pub struct Lib {
    /// The short name apps see, permanent once set.
    pub name: String,
    /// The folder as the server sees it.
    pub root: String,
    pub follow_symlinks: bool,
}

/// A chosen folder waiting for its name.
pub struct NameDraft {
    pub directory: String,
    pub name: Input,
    /// Why the last attempt was refused.
    pub error: Option<Msg>,
}

pub enum Modal {
    Closed,
    Browser(Browse),
    PathEntry(PathDraft),
    Name(NameDraft),
    /// The warning before removing the library at this row.
    Remove(usize),
}

/// Everything a click can mean.
#[derive(Clone, Copy, Debug, PartialEq)]
pub enum Act {
    Add,
    TypePath,
    ToggleSymlinks(usize),
    RemoveAt(usize),
    RemoveConfirm,
    RemoveCancel,
    TableScroll(i8),
    TableScrollTo(usize),
    BrowseRow(usize),
    BrowseEnter,
    BrowseUp,
    BrowseAdd,
    BrowseCancel,
    PathSuggest(usize),
    PathCancel,
    PathScroll(i8),
    PathScrollTo(usize),
    NameCancel,
    NameAdd,
    Quit,
}

/// A call to the server, with everything it needs.
#[derive(Debug, PartialEq)]
pub enum Op {
    Load,
    PickNative,
    OpenBrowser(String),
    BrowseTo(String),
    /// A listing for the suggestions, quiet.
    Complete(String),
    Add { directory: String, vpath: String },
    Remove(String),
    Symlinks { vpath: String, on: bool },
}

/// What a call comes back as. A failed listing brings the error's words.
#[allow(inconsistent_fields)]
pub enum Done {
    Loaded(Result<Vec<Lib>, ApiError>),
    Picked(Pick),
    Browsed(Result<DirListing, String>),
    Completed { dir: String, listing: Result<DirListing, String> },
    Added { vpath: String, result: Result<(), ApiError> },
    Removed { vpath: String, result: Result<(), ApiError> },
    Symlinks { vpath: String, on: bool, result: Result<(), ApiError> },
}

pub struct Room {
    /// The terminal shares the server's disk: the system's folder dialog adds.
    pub same_machine: bool,
    pub libs: Vec<Lib>,
    /// The cursor, once there is one.
    pub sel: Option<usize>,
    /// A row to scroll into view on the next draw.
    pub reveal: Option<usize>,
    /// A library just added, to reveal once the list has it.
    pub reveal_name: Option<String>,
    pub modal: Modal,
    pub note: Option<Note>,
    pub busy: Option<Msg>,
    pub queued: Option<Op>,
    pub in_flight: bool,
    /// The newest listing asked for while another call ran.
    pub pending_complete: Option<String>,
    pub tscroll: usize,
    pub sel_anchor: Option<usize>,
}

/// The place of the first library with a name.
pub open spec fn find(libs: Seq<Lib>, name: Seq<char>) -> Option<int>
    decreases libs.len(),
{
    if libs.len() == 0 {
        None
    } else {
        match find(libs.drop_last(), name) {
            Some(i) => Some(i),
            None => if libs.last().name@ == name {
                Some(libs.len() - 1)
            } else {
                None
            },
        }
    }
}

proof fn found_early(libs: Seq<Lib>, name: Seq<char>, n: int)
    requires
        0 <= n <= libs.len(),
        find(libs.take(n), name) is Some,
    ensures
        find(libs, name) == find(libs.take(n), name),
    decreases libs.len() - n,
{
    if n < libs.len() {
        assert(libs.take(n + 1).drop_last() =~= libs.take(n));
        found_early(libs, name, n + 1);
    } else {
        assert(libs.take(n) =~= libs);
    }
}

fn position(libs: &Vec<Lib>, name: &str) -> (r: Option<usize>)
    ensures
        match find(libs@, name@) {
            Some(i) => r is Some && r->0 == i && 0 <= i < libs@.len(),
            None => r is None,
        },
{
    let mut i: usize = 0;
    while i < libs.len()
        invariant
            i <= libs@.len(),
            find(libs@.take(i as int), name@) is None,
        decreases libs@.len() - i,
    {
        proof {
            assert(libs@.take(i + 1).drop_last() =~= libs@.take(i as int));
        }
        if same(libs[i].name.as_str(), name) {
            proof {
                found_early(libs@, name@, i + 1);
            }
            return Some(i);
        }
        i += 1;
    }
    proof {
        assert(libs@.take(i as int) =~= libs@);
    }
    None
}

impl Room {
    /// The room with a call queued and its busy line.
    pub open spec fn calling(self, op: Op, busy: Msg) -> Room {
        Room { queued: Some(op), busy: Some(busy), ..self }
    }

    /// The room with a message on the status line.
    pub open spec fn saying(self, note: Option<Note>) -> Room {
        Room { note, ..self }
    }

    pub fn new(same_machine: bool) -> (room: Room)
        ensures
            room.same_machine == same_machine,
            room.libs@.len() == 0,
            room.sel is None && room.reveal is None && room.reveal_name is None,
            room.modal is Closed,
            room.note is None && room.busy is None && room.queued is None,
            !room.in_flight && room.pending_complete is None,
            room.tscroll == 0 && room.sel_anchor is None,
    {
        Room {
            same_machine,
            libs: Vec::new(),
            sel: None,
            reveal: None,
            reveal_name: None,
            modal: Modal::Closed,
            note: None,
            busy: None,
            queued: None,
            in_flight: false,
            pending_complete: None,
            tscroll: 0,
            sel_anchor: None,
        }
    }

    fn queue(&mut self, op: Op, busy: Msg)
        ensures
            *final(self) == old(self).calling(op, busy),
    {
        self.queued = Some(op);
        self.busy = Some(busy);
    }

    fn fail(&mut self, msg: Msg)
        ensures
            *final(self) == old(self).saying(error(msg)),
    {
        self.note = Some(Note { msg, error: true });
    }
}

/// The room, loading.
pub fn start(same_machine: bool) -> (room: Room)
    ensures
        room.queued == Some(Op::Load),
        room.busy == Some(Msg::Key("admin.busy_loading")),
        room.same_machine == same_machine,
        room.libs@.len() == 0 && room.sel is None && room.modal is Closed && room.note is None && !room.in_flight,
        room.pending_complete is None && room.reveal is None && room.reveal_name is None,
        room.tscroll == 0 && room.sel_anchor is None,
{
    let mut room = Room::new(same_machine);
    room.queue(Op::Load, Msg::Key("admin.busy_loading"));
    room
}

// ── What input does ──────────────────────────────────────────────────────

/// A listing on its way, with its busy line.
pub open spec fn listing(pre: Room, post: Room, path: Seq<char>, open: bool) -> bool {
    &&& post == (Room { queued: post.queued, busy: Some(Msg::Key("busy.listing")), ..pre })
    &&& if open {
        post.queued matches Some(Op::OpenBrowser(p)) && p@ == path
    } else {
        post.queued matches Some(Op::BrowseTo(p)) && p@ == path
    }
}

/// What asking for a folder's name makes of the room: nothing for a blank
/// path, the name modal with the folder's own name as a slug otherwise.
pub open spec fn naming(pre: Room, directory: Seq<char>, post: Room) -> bool {
    if trimmed(directory).len() == 0 {
        post == pre
    } else {
        &&& post == (Room { modal: post.modal, note: None, ..pre })
        &&& post.modal matches Modal::Name(d) && d.directory@ == trimmed(directory) && holds(
            d.name,
            slug(trimmed(directory)),
        ) && d.error is None
    }
}

/// What adding the named folder makes of the room: an empty name and one that
/// another library holds are refused before the server sees them.
pub open spec fn named(pre: Room, post: Room) -> bool {
    match pre.modal {
        Modal::Name(d) => {
            let name = trimmed(input_value(d.name));
            if name.len() == 0 {
                post == (Room {
                    modal: Modal::Name(NameDraft { error: Some(Msg::Key("admin.name_empty")), ..d }),
                    ..pre
                })
            } else if find(pre.libs@, name) is Some {
                post == (Room {
                    modal: Modal::Name(NameDraft { error: Some(Msg::Key("admin.name_taken")), ..d }),
                    ..pre
                })
            } else {
                &&& post == (Room {
                    modal: Modal::Name(NameDraft { error: None, ..d }),
                    queued: post.queued,
                    busy: post.busy,
                    ..pre
                })
                &&& post.queued matches Some(Op::Add { directory, vpath }) && directory == d.directory && vpath@ == name
                &&& post.busy matches Some(msg) && says(msg, "admin.busy_adding", "name", name)
            }
        },
        _ => post == pre,
    }
}

/// The text of a draft once repeated separators are gone: the cursor keeps its
/// distance from the end.
pub open spec fn tidied(text: Input, post: Input) -> bool {
    let raw = input_value(text);
    let clean = collapsed(raw);
    if clean == raw {
        post == text
    } else {
        let from_end: int = if input_cursor(text) <= raw.len() { raw.len() - input_cursor(text) } else { 0 };
        &&& input_value(post) == clean
        &&& input_cursor(post) == (if from_end <= clean.len() { clean.len() - from_end } else { 0 })
        &&& input_cut(post) == (Seq::<char>::empty(), false)
    }
}

/// A call that a listing may not push aside: one that waits, and is no listing
/// for suggestions itself.
pub open spec fn waits(queued: Option<Op>) -> bool {
    queued matches Some(op) && !(op is Complete)
}

/// What a change of the typed path makes of its draft and the queue: an empty
/// path suggests nothing; another folder part is asked for, quietly, behind a
/// call that waits; the same one keeps its listing.
pub open spec fn refreshed(pre: Room, post: Room) -> bool {
    match pre.modal {
        Modal::PathEntry(d) => {
            let base = PathDraft { sel: None, sel_anchor: None, scroll: 0, ..d };
            &&& post == (Room {
                modal: post.modal,
                queued: post.queued,
                pending_complete: post.pending_complete,
                ..pre
            })
            &&& post.modal is PathEntry
            &&& {
                let q = post.modal->PathEntry_0;
                if input_value(d.text).len() == 0 {
                    &&& post.queued == pre.queued && post.pending_complete == pre.pending_complete
                    &&& q == (PathDraft {
                        listed_for: q.listed_for,
                        listed_path: q.listed_path,
                        entries: q.entries,
                        error: None,
                        ..base
                    })
                    &&& q.listed_for@.len() == 0 && q.listed_path@.len() == 0 && q.entries@.len() == 0
                } else {
                    let dir = dir_part(collapsed(input_value(d.text)));
                    &&& tidied(d.text, q.text)
                    &&& if dir == d.listed_for@ {
                        &&& q == (PathDraft { text: q.text, ..base })
                        &&& post.queued == pre.queued && post.pending_complete == pre.pending_complete
                    } else {
                        &&& q == (PathDraft {
                            text: q.text,
                            listed_for: q.listed_for,
                            entries: q.entries,
                            error: None,
                            ..base
                        })
                        &&& q.listed_for@ == dir && q.entries@.len() == 0
                        &&& if waits(pre.queued) {
                            &&& post.queued == pre.queued
                            &&& post.pending_complete matches Some(asked) && asked@ == dir
                        } else {
                            &&& post.queued matches Some(Op::Complete(asked)) && asked@ == dir
                            &&& post.pending_complete == pre.pending_complete
                        }
                    }
                }
            }
        },
        _ => post == pre,
    }
}

/// The path that a taken suggestion makes: the folder, the suggestion and the
/// folder's separator.
pub open spec fn suggested(d: PathDraft, name: Seq<char>) -> Seq<char> {
    let base = if d.listed_path@.len() == 0 { dir_part(input_value(d.text)) } else { d.listed_path@ };
    let path = below(base, name);
    path.push(if path.contains('\\') { '\\' } else { '/' })
}

/// What taking suggestion `i` makes of the room: the path goes on inside it.
pub open spec fn suggestion_taken(pre: Room, i: int, post: Room) -> bool {
    match pre.modal {
        Modal::PathEntry(d) => if i < d.offers().len() {
            exists|text: Input| #[trigger]
                holds(text, suggested(d, d.offers()[i]@)) && refreshed(
                    Room { modal: Modal::PathEntry(PathDraft { text, ..d }), ..pre },
                    post,
                )
        } else {
            post == pre
        },
        _ => post == pre,
    }
}

/// What Tab makes of the typed path: the picked suggestion, the only one, or
/// the longest beginning that all of them share — and where that gains
/// nothing, the first one is picked.
pub open spec fn completed(pre: Room, post: Room) -> bool {
    match pre.modal {
        Modal::PathEntry(d) => {
            let offers = d.offers();
            let typed = partial(input_value(d.text));
            let common = prefix_of(offers);
            if d.sel is Some {
                suggestion_taken(pre, d.sel->0 as int, post)
            } else if offers.len() == 1 {
                suggestion_taken(pre, 0, post)
            } else if offers.len() == 0 {
                post == pre
            } else if common.len() > typed.len() {
                &&& post == (Room { modal: post.modal, ..pre })
                &&& post.modal matches Modal::PathEntry(q) && q == (PathDraft { text: q.text, ..d }) && holds(
                    q.text,
                    dir_part(input_value(d.text)) + common,
                )
            } else {
                post == (Room { modal: Modal::PathEntry(PathDraft { sel: Some(0), ..d }), ..pre })
            }
        },
        _ => post == pre,
    }
}

/// What an action makes of the room, and whether it ends it.
pub open spec fn acted(pre: Room, act: Act, post: Room, out: Option<Outcome>) -> bool {
    &&& out == (if act == Act::Quit { Some(Outcome::Quit) } else { None })
    &&& match act {
        Act::Add => if pre.same_machine {
            post == pre.calling(Op::PickNative, Msg::Key("admin.busy_picker"))
        } else {
            listing(pre, post, "~"@, true)
        },
        Act::TypePath => {
            &&& post == (Room { modal: post.modal, ..pre })
            &&& post.modal matches Modal::PathEntry(d) && is_blank_draft(d)
        },
        Act::ToggleSymlinks(i) => if i < pre.libs@.len() {
            let lib = pre.libs@[i as int];
            post == pre.calling(
                Op::Symlinks { vpath: lib.name, on: !lib.follow_symlinks },
                Msg::Key("admin.busy_saving"),
            )
        } else {
            post == pre
        },
        Act::RemoveAt(i) => post == (if i < pre.libs@.len() { Room { modal: Modal::Remove(i), ..pre } } else { pre }),
        Act::RemoveConfirm => match pre.modal {
            Modal::Remove(i) => if i < pre.libs@.len() {
                let name = pre.libs@[i as int].name;
                post == (Room { modal: Modal::Closed, ..pre }).calling(
                    Op::Remove(name),
                    one("admin.busy_removing", "name", Arg::Text(name)),
                )
            } else {
                post == pre
            },
            _ => post == pre,
        },
        Act::RemoveCancel | Act::NameCancel | Act::PathCancel | Act::BrowseCancel => post == (Room {
            modal: Modal::Closed,
            ..pre
        }),
        Act::TableScroll(delta) => post == (Room { tscroll: scrolled(pre.tscroll, delta < 0), ..pre }),
        Act::TableScrollTo(pos) => post == (Room { tscroll: pos, ..pre }),
        Act::BrowseRow(i) => match pre.modal {
            Modal::Browser(b) => post == (Room {
                modal: Modal::Browser(Browse { sel: within(i as int, b.dirs@.len() as int) as usize, ..b }),
                ..pre
            }),
            _ => post == pre,
        },
        Act::BrowseEnter => match pre.modal {
            Modal::Browser(b) => if b.sel < b.dirs@.len() {
                listing(pre, post, below(b.path@, b.dirs@[b.sel as int]@), false)
            } else {
                post == pre
            },
            _ => post == pre,
        },
        Act::BrowseUp => match pre.modal {
            Modal::Browser(b) => match above(b.path@) {
                Some(up) => listing(pre, post, up, false),
                None => post == pre,
            },
            _ => post == pre,
        },
        Act::BrowseAdd => match pre.modal {
            Modal::Browser(b) => naming(pre, b.path@, post),
            _ => post == pre,
        },
        Act::PathSuggest(i) => suggestion_taken(pre, i as int, post),
        Act::PathScroll(delta) => match pre.modal {
            Modal::PathEntry(d) => post == (Room {
                modal: Modal::PathEntry(PathDraft { scroll: scrolled(d.scroll, delta < 0), ..d }),
                ..pre
            }),
            _ => post == pre,
        },
        Act::PathScrollTo(pos) => match pre.modal {
            Modal::PathEntry(d) => post == (Room {
                modal: Modal::PathEntry(PathDraft { scroll: pos, ..d }),
                ..pre
            }),
            _ => post == pre,
        },
        Act::NameAdd => named(pre, post),
        Act::Quit => post == pre,
    }
}

impl Room {
    /// A folder was chosen, whichever way: asks for its name.
    pub fn open_name(&mut self, directory: String)
        ensures
            naming(*old(self), directory@, *final(self)),
    {
        let directory = trim(directory.as_str());
        if directory.as_str().is_empty() {
            return;
        }
        let name = derive_name(directory.as_str());
        self.modal = Modal::Name(NameDraft { directory, name: Input::new(name), error: None });
        self.note = None;
    }

    /// Adds the named folder — after the two refusals that need no server.
    fn submit_name(&mut self)
        ensures
            named(*old(self), *final(self)),
    {
        let mut call: Option<(Op, Msg)> = None;
        if let Modal::Name(draft) = &mut self.modal {
            let name = trim(draft.name.value());
            if name.as_str().is_empty() {
                draft.error = Some(Msg::Key("admin.name_empty"));
                return;
            }
            if position(&self.libs, name.as_str()).is_some() {
                draft.error = Some(Msg::Key("admin.name_taken"));
                return;
            }
            draft.error = None;
            let busy = Msg::One("admin.busy_adding", Fill { name: "name", arg: Arg::Text(name.clone()) });
            call = Some((Op::Add { directory: draft.directory.clone(), vpath: name }, busy));
        }
        if let Some((op, busy)) = call {
            self.queue(op, busy);
        }
    }

    /// Asks for a listing of the draft's folder part, if it changed.
    fn refresh_completion(&mut self)
        ensures
            refreshed(*old(self), *final(self)),
    {
        let mut ask: Option<String> = None;
        if let Modal::PathEntry(draft) = &mut self.modal {
            draft.sel = None;
            draft.sel_anchor = None;
            draft.scroll = 0;
            if draft.text.value().is_empty() {
                draft.listed_for = String::new();
                draft.listed_path = String::new();
                draft.entries = Vec::new();
                draft.error = None;
                return;
            }
            let clean = collapse(draft.text.value());
            if !same(clean.as_str(), draft.text.value()) {
                let len: usize = draft.text.value().unicode_len();
                let at: usize = draft.text.cursor();
                let from_end: usize = if at <= len { len - at } else { 0 };
                let left: usize = clean.as_str().unicode_len();
                let cursor: usize = if from_end <= left { left - from_end } else { 0 };
                draft.text = Input::new(clean).with_cursor(cursor);
            }
            let (dir, _) = split_input(draft.text.value());
            if !same(dir.as_str(), draft.listed_for.as_str()) {
                draft.listed_for = dir.clone();
                draft.entries = Vec::new();
                draft.error = None;
                ask = Some(dir);
            }
        }
        if let Some(dir) = ask {
            match &self.queued {
                None | Some(Op::Complete(_)) => {
                    self.queued = Some(Op::Complete(dir));
                },
                Some(_) => {
                    self.pending_complete = Some(dir);
                },
            }
        }
    }

    /// Takes suggestion `i` as the next part of the path.
    fn accept_suggestion(&mut self, i: usize)
        ensures
            suggestion_taken(*old(self), i as int, *final(self)),
    {
        let mut taken = false;
        if let Modal::PathEntry(draft) = &mut self.modal {
            let offers = draft.suggestions();
            if i < offers.len() {
                let base = if draft.listed_path.as_str().is_empty() {
                    split_input(draft.text.value()).0
                } else {
                    draft.listed_path.clone()
                };
                let mut path = join_server_path(base.as_str(), offers[i].as_str());
                let windows = holds_backslash(path.as_str());
                path.push(if windows { '\\' } else { '/' });
                draft.text = Input::new(path);
                taken = true;
            }
        }
        if taken {
            proof {
                let d = old(self).modal->PathEntry_0;
                let text = self.modal->PathEntry_0.text;
                assert(*self == (Room { modal: Modal::PathEntry(PathDraft { text, ..d }), ..*old(self) }));
                assert(holds(text, suggested(d, d.offers()[i as int]@)));
            }
            self.refresh_completion();
        }
    }

    /// A click, or the action behind a key.
    pub fn act(&mut self, act: Act) -> (out: Option<Outcome>)
        ensures
            acted(*old(self), act, *final(self), out),
    {
        match act {
            Act::Add => {
                if self.same_machine {
                    self.queue(Op::PickNative, Msg::Key("admin.busy_picker"));
                } else {
                    self.queue(Op::OpenBrowser("~".to_owned()), Msg::Key("busy.listing"));
                }
            },
            Act::TypePath => {
                self.modal = Modal::PathEntry(PathDraft::new());
                self.refresh_completion();
            },
            Act::ToggleSymlinks(i) => {
                if i < self.libs.len() {
                    let vpath = self.libs[i].name.clone();
                    let on = !self.libs[i].follow_symlinks;
                    self.queue(Op::Symlinks { vpath, on }, Msg::Key("admin.busy_saving"));
                }
            },
            Act::RemoveAt(i) => {
                if i < self.libs.len() {
                    self.modal = Modal::Remove(i);
                }
            },
            Act::RemoveConfirm => {
                if let Modal::Remove(i) = &self.modal {
                    let i: usize = *i;
                    if i < self.libs.len() {
                        let name = self.libs[i].name.clone();
                        self.modal = Modal::Closed;
                        let busy = Msg::One("admin.busy_removing", Fill { name: "name", arg: Arg::Text(name.clone()) });
                        self.queue(Op::Remove(name), busy);
                    }
                }
            },
            Act::RemoveCancel | Act::NameCancel | Act::PathCancel | Act::BrowseCancel => {
                self.modal = Modal::Closed;
            },
            Act::TableScroll(delta) => {
                self.tscroll = scroll(self.tscroll, delta < 0);
            },
            Act::TableScrollTo(pos) => {
                self.tscroll = pos;
            },
            Act::BrowseRow(i) => {
                if let Modal::Browser(b) = &mut self.modal {
                    b.sel = clamp_row(i, b.dirs.len());
                }
            },
            Act::BrowseEnter => {
                let mut to: Option<String> = None;
                if let Modal::Browser(b) = &self.modal {
                    if b.sel < b.dirs.len() {
                        to = Some(join_server_path(b.path.as_str(), b.dirs[b.sel].as_str()));
                    }
                }
                if let Some(to) = to {
                    self.queue(Op::BrowseTo(to), Msg::Key("busy.listing"));
                }
            },
            Act::BrowseUp => {
                let mut to: Option<String> = None;
                if let Modal::Browser(b) = &self.modal {
                    to = parent_server_path(b.path.as_str());
                }
                if let Some(to) = to {
                    self.queue(Op::BrowseTo(to), Msg::Key("busy.listing"));
                }
            },
            Act::BrowseAdd => {
                let mut path: Option<String> = None;
                if let Modal::Browser(b) = &self.modal {
                    path = Some(b.path.clone());
                }
                if let Some(path) = path {
                    self.open_name(path);
                }
            },
            Act::PathSuggest(i) => self.accept_suggestion(i),
            Act::PathScroll(delta) => {
                if let Modal::PathEntry(draft) = &mut self.modal {
                    draft.scroll = scroll(draft.scroll, delta < 0);
                }
            },
            Act::PathScrollTo(pos) => {
                if let Modal::PathEntry(draft) = &mut self.modal {
                    draft.scroll = pos;
                }
            },
            Act::NameAdd => self.submit_name(),
            Act::Quit => return Some(Outcome::Quit),
        }
        None
    }
}

fn holds_backslash(s: &str) -> (r: bool)
    ensures
        r == s@.contains('\\'),
{
    let cs = chars_of(s);
    let mut i: usize = 0;
    while i < cs.len()
        invariant
            i <= cs@.len(),
            cs@ == s@,
            forall|k: int| 0 <= k < i ==> cs@[k] != '\\',
        decreases cs@.len() - i,
    {
        if cs[i] == '\\' {
            return true;
        }
        i += 1;
    }
    false
}

/// Tab, or Right at the end of the line.
fn complete_path(room: &mut Room)
    ensures
        completed(*old(room), *final(room)),
{
    let mut take: Option<usize> = None;
    if let Modal::PathEntry(draft) = &mut room.modal {
        let offers = draft.suggestions();
        if let Some(i) = draft.sel {
            take = Some(i);
        } else if offers.len() == 1 {
            take = Some(0);
        } else if offers.len() > 0 {
            let (dir, typed) = split_input(draft.text.value());
            let common = common_prefix(&offers);
            if common.as_str().unicode_len() > typed.as_str().unicode_len() {
                let mut text = dir;
                text.append(common.as_str());
                draft.text = Input::new(text);
                draft.sel = None;
            } else {
                draft.sel = Some(0);
            }
        }
    }
    if let Some(i) = take {
        room.accept_suggestion(i);
    }
}

// ── What an answer does ──────────────────────────────────────────────────

/// The room once a call has answered, before the answer is looked at. A listing
/// that waited is up next, quietly. It waits on behind a call that waits, and
/// gives way to a later listing.
pub open spec fn settled(pre: Room) -> Room {
    Room {
        in_flight: false,
        busy: None,
        queued: match (pre.queued, pre.pending_complete) {
            (None, Some(dir)) => Some(Op::Complete(dir)),
            _ => pre.queued,
        },
        pending_complete: if waits(pre.queued) { pre.pending_complete } else { None },
        ..pre
    }
}

/// What a failed listing of the draft's own folder says.
pub open spec fn listing_error(dir: Seq<char>, words: Seq<char>) -> Seq<char> {
    "could not list "@ + (if dir.len() == 0 { "that folder"@ } else { dir }) + ": "@ + words
}

/// A phrase about a library, and what went wrong.
pub open spec fn failure(key: &'static str, vpath: String, e: ApiError) -> Msg {
    Msg::FailedOn(key, Fill { name: "name", arg: Arg::Text(vpath) }, e)
}

/// What an answer makes of the settled room.
pub open spec fn applied(m: Room, done: Done, post: Room) -> bool {
    match done {
        Done::Loaded(Ok(libs)) => post == (Room {
            libs,
            note: None,
            sel: kept(m.sel, libs@.len() as int),
            reveal: match m.reveal_name {
                Some(name) => match find(libs@, name@) {
                    Some(i) => Some(i as usize),
                    None => None,
                },
                None => m.reveal,
            },
            reveal_name: None,
            ..m
        }),
        Done::Loaded(Err(e)) => post == m.saying(error(gate(e, "admin.load_failed"))),
        Done::Picked(Pick::Folder(path)) => naming(m, path@, post),
        Done::Picked(Pick::Cancelled) => post == m,
        Done::Picked(Pick::Unavailable(why)) => listing(
            m.saying(remark(one("note.no_picker", "why", Arg::Text(why)))),
            post,
            "~"@,
            true,
        ),
        Done::Browsed(Ok(l)) => post == (Room {
            modal: Modal::Browser(Browse { path: l.path, dirs: l.directories, sel: 0 }),
            ..m
        }),
        Done::Browsed(Err(words)) => post == m.saying(error(one("note.browse_failed", "err", Arg::Text(words)))),
        Done::Completed { dir, listing } => match m.modal {
            Modal::PathEntry(d) => if d.listed_for@ == dir@ {
                &&& post == (Room { modal: post.modal, ..m })
                &&& post.modal matches Modal::PathEntry(q) && match listing {
                    Ok(l) => q == (PathDraft { error: None, listed_path: l.path, entries: l.directories, ..d }),
                    Err(words) => {
                        &&& q == (PathDraft { entries: q.entries, error: q.error, ..d })
                        &&& q.entries@.len() == 0
                        &&& q.error matches Some(Msg::Raw(s)) && s@ == listing_error(dir@, words@)
                    },
                }
            } else {
                post == m
            },
            _ => post == m,
        },
        Done::Added { vpath, result } => match result {
            Ok(_) => post == (Room {
                modal: Modal::Closed,
                note: None,
                reveal_name: Some(vpath),
                ..m
            }).calling(Op::Load, Msg::Key("admin.busy_loading")),
            Err(e) => match m.modal {
                Modal::Name(d) => post == (Room {
                    modal: Modal::Name(NameDraft { error: Some(failure("admin.add_failed", vpath, e)), ..d }),
                    ..m
                }),
                _ => post == m.saying(error(failure("admin.add_failed", vpath, e))),
            },
        },
        Done::Removed { vpath, result } => match result {
            Ok(_) => post == (Room { note: None, ..m }).calling(Op::Load, Msg::Key("admin.busy_loading")),
            Err(e) => post == m.saying(error(failure("admin.remove_failed", vpath, e))),
        },
        Done::Symlinks { vpath, on, result } => match result {
            Ok(_) => {
                &&& post == (Room { libs: post.libs, ..m })
                &&& post.libs@ == (match find(m.libs@, vpath@) {
                    Some(i) => m.libs@.update(i, Lib { follow_symlinks: on, ..m.libs@[i] }),
                    None => m.libs@,
                })
            },
            Err(e) => post == m.saying(error(failure("admin.symlinks_failed", vpath, e))),
        },
    }
}

impl Room {
    fn take_completion(&mut self, dir: String, listing: Result<DirListing, String>)
        ensures
            applied(*old(self), Done::Completed { dir, listing }, *final(self)),
    {
        if let Modal::PathEntry(draft) = &mut self.modal {
            if same(draft.listed_for.as_str(), dir.as_str()) {
                match listing {
                    Ok(l) => {
                        draft.error = None;
                        draft.listed_path = l.path;
                        draft.entries = l.directories;
                    },
                    Err(words) => {
                        draft.entries = Vec::new();
                        let mut text = "could not list ".to_owned();
                        if dir.as_str().is_empty() {
                            text.append("that folder");
                        } else {
                            text.append(dir.as_str());
                        }
                        text.append(": ");
                        text.append(words.as_str());
                        draft.error = Some(Msg::Raw(text));
                    },
                }
            }
        }
    }

    fn take_libs(&mut self, libs: Vec<Lib>)
        ensures
            applied(*old(self), Done::Loaded(Ok(libs)), *final(self)),
    {
        self.note = None;
        self.sel = keep_cursor(self.sel, libs.len());
        if let Some(name) = self.reveal_name.take() {
            self.reveal = position(&libs, name.as_str());
        }
        self.libs = libs;
    }

    /// Folds one answer back into the state.
    pub fn apply(&mut self, done: Done)
        ensures
            applied(settled(*old(self)), done, *final(self)),
    {
        self.in_flight = false;
        self.busy = None;
        match &self.queued {
            None => {
                if let Some(dir) = self.pending_complete.take() {
                    self.queued = Some(Op::Complete(dir));
                }
            },
            Some(Op::Complete(_)) => {
                self.pending_complete = None;
            },
            Some(_) => {},
        }
        match done {
            Done::Loaded(Ok(libs)) => self.take_libs(libs),
            Done::Loaded(Err(e)) => {
                self.note = Some(Note { msg: gate_message(e, "admin.load_failed"), error: true });
            },
            Done::Picked(Pick::Folder(path)) => self.open_name(path),
            Done::Picked(Pick::Cancelled) => {},
            Done::Picked(Pick::Unavailable(why)) => {
                self.note = Some(Note { msg: Msg::One("note.no_picker", Fill { name: "why", arg: Arg::Text(why) }), error: false });
                self.queue(Op::OpenBrowser("~".to_owned()), Msg::Key("busy.listing"));
            },
            Done::Browsed(Ok(l)) => {
                self.modal = Modal::Browser(Browse { path: l.path, dirs: l.directories, sel: 0 });
            },
            Done::Browsed(Err(words)) => {
                self.fail(Msg::One("note.browse_failed", Fill { name: "err", arg: Arg::Text(words) }));
            },
            Done::Completed { dir, listing } => self.take_completion(dir, listing),
            Done::Added { vpath, result } => match result {
                Ok(_) => {
                    self.modal = Modal::Closed;
                    self.note = None;
                    self.reveal_name = Some(vpath);
                    self.queue(Op::Load, Msg::Key("admin.busy_loading"));
                },
                Err(e) => {
                    let msg = Msg::FailedOn("admin.add_failed", Fill { name: "name", arg: Arg::Text(vpath) }, e);
                    if let Modal::Name(draft) = &mut self.modal {
                        draft.error = Some(msg);
                    } else {
                        self.fail(msg);
                    }
                },
            },
            Done::Removed { vpath, result } => match result {
                Ok(_) => {
                    self.note = None;
                    self.queue(Op::Load, Msg::Key("admin.busy_loading"));
                },
                Err(e) => {
                    self.fail(Msg::FailedOn("admin.remove_failed", Fill { name: "name", arg: Arg::Text(vpath) }, e));
                },
            },
            Done::Symlinks { vpath, on, result } => match result {
                Ok(_) => {
                    if let Some(i) = position(&self.libs, vpath.as_str()) {
                        self.libs[i].follow_symlinks = on;
                    }
                },
                Err(e) => {
                    self.fail(Msg::FailedOn("admin.symlinks_failed", Fill { name: "name", arg: Arg::Text(vpath) }, e));
                },
            },
        }
    }

    /// Hands out the queued call, while none is running; a listing that comes
    /// up meanwhile waits, and a newer one replaces it.
    pub fn dispatch_queued(&mut self) -> (op: Option<Op>)
        ensures
            old(self).in_flight ==> op is None && *final(self) == (match old(self).queued {
                Some(Op::Complete(dir)) => Room { pending_complete: Some(dir), queued: None, ..*old(self) },
                _ => *old(self),
            }),
            !old(self).in_flight ==> op == old(self).queued && *final(self) == (if old(self).queued is Some {
                Room { queued: None, in_flight: true, ..*old(self) }
            } else {
                *old(self)
            }),
            op is Some <==> !old(self).in_flight && old(self).queued is Some,
            op is Some ==> op == old(self).queued && final(self).in_flight && final(self).queued is None,
    {
        let op = self.queued.take();
        if self.in_flight {
            match op {
                Some(Op::Complete(dir)) => {
                    self.pending_complete = Some(dir);
                },
                other => {
                    self.queued = other;
                },
            }
            return None;
        }
        if op.is_some() {
            self.in_flight = true;
        }
        op
    }

    /// A call could not be handed to the worker.
    pub fn send_failed(&mut self)
        ensures
            *final(self) == (Room { in_flight: false, note: error(Msg::Key("note.worker_gone")), ..*old(self) }),
    {
        self.in_flight = false;
        self.fail(Msg::Key("note.worker_gone"));
    }

    /// The worker is gone.
    pub fn worker_gone(&mut self)
        ensures
            *final(self) == old(self).saying(error(Msg::Key("note.worker_gone"))),
    {
        self.fail(Msg::Key("note.worker_gone"));
    }

    /// The wheel scrolls the suggestions, or the table while no modal covers it.
    pub fn wheel(&mut self, up: bool)
        ensures
            *final(self) == (match old(self).modal {
                Modal::PathEntry(d) => Room {
                    modal: Modal::PathEntry(PathDraft { scroll: scrolled(d.scroll, up), ..d }),
                    ..*old(self)
                },
                Modal::Closed => Room { tscroll: scrolled(old(self).tscroll, up), ..*old(self) },
                _ => *old(self),
            }),
    {
        match &mut self.modal {
            Modal::PathEntry(draft) => {
                draft.scroll = scroll(draft.scroll, up);
            },
            Modal::Closed => {
                self.tscroll = scroll(self.tscroll, up);
            },
            _ => {},
        }
    }
}

// ── Keys ─────────────────────────────────────────────────────────────────

/// What a key makes of the path modal.
pub open spec fn path_keyed(pre: Room, d: PathDraft, key: Key, post: Room) -> bool {
    let n = d.offers().len() as int;
    let at_end = input_cursor(d.text) == input_value(d.text).len();
    match key.code {
        Code::Esc => post == (Room { modal: Modal::Closed, ..pre }),
        Code::Enter => naming(Room { modal: Modal::Closed, ..pre }, input_value(d.text), post),
        Code::Down => post == (Room {
            modal: Modal::PathEntry(
                PathDraft {
                    sel: if n == 0 {
                        d.sel
                    } else {
                        match d.sel {
                            Some(i) => Some(after(i as int, n) as usize),
                            None => Some(0),
                        }
                    },
                    ..d
                },
            ),
            ..pre
        }),
        Code::Up | Code::BackTab => post == (Room {
            modal: Modal::PathEntry(
                PathDraft {
                    sel: if n == 0 {
                        d.sel
                    } else {
                        match d.sel {
                            Some(i) => Some(before(i as int, n) as usize),
                            None => Some((n - 1) as usize),
                        }
                    },
                    ..d
                },
            ),
            ..pre
        }),
        Code::Tab => completed(pre, post),
        _ => if key.code == Code::Right && at_end {
            completed(pre, post)
        } else {
            path_typed(pre, d, key, post)
        },
    }
}

/// What typing makes of the path modal.
pub open spec fn path_typed(pre: Room, d: PathDraft, key: Key, post: Room) -> bool {
    let changed = key_changes(d.text, key);
    exists|text: Input| {
        let room = Room { modal: Modal::PathEntry(PathDraft { text, ..d }), ..pre };
        &&& #[trigger] after_key(d.text, key, text, changed)
        &&& if changed { refreshed(room, post) } else { post == room }
    }
}

/// The key that reaches the name's line editor: letters in lower case.
pub open spec fn folded(key: Key) -> Key {
    match key.code {
        Code::Char(c) => Key { code: Code::Char(lower(c)), ..key },
        _ => key,
    }
}

/// What a key makes of the name modal: only letters, digits and dashes reach
/// the name.
pub open spec fn name_keyed(pre: Room, d: NameDraft, key: Key, post: Room, out: Option<Outcome>) -> bool {
    match key.code {
        Code::Esc => acted(pre, Act::NameCancel, post, out),
        Code::Enter => acted(pre, Act::NameAdd, post, out),
        _ => out is None && if key.code matches Code::Char(c) && !alphanumeric(c) && c != '-' {
            post == pre
        } else {
            &&& post == (Room { modal: post.modal, ..pre })
            &&& post.modal matches Modal::Name(q) && q == (NameDraft { name: q.name, error: None, ..d }) && after_key(
                d.name,
                folded(key),
                q.name,
                key_changes(d.name, folded(key)),
            )
        },
    }
}

/// An action on the row under the cursor, if there is one.
pub open spec fn on_cursor(pre: Room, act: spec_fn(usize) -> Act, post: Room, out: Option<Outcome>) -> bool {
    match pre.sel {
        Some(s) => acted(pre, act(s), post, out),
        None => post == pre && out is None,
    }
}

/// What a key makes of the room, and whether it ends it.
pub open spec fn keyed(pre: Room, key: Key, post: Room, out: Option<Outcome>) -> bool {
    match pre.modal {
        Modal::PathEntry(d) => out is None && path_keyed(pre, d, key, post),
        Modal::Name(d) => name_keyed(pre, d, key, post, out),
        Modal::Browser(b) => match key.code {
            Code::Esc => acted(pre, Act::BrowseCancel, post, out),
            Code::Up => out is None && post == (Room {
                modal: Modal::Browser(Browse { sel: if b.sel > 0 { (b.sel - 1) as usize } else { 0 }, ..b }),
                ..pre
            }),
            Code::Down => out is None && post == (Room {
                modal: Modal::Browser(Browse { sel: within(b.sel + 1, b.dirs@.len() as int) as usize, ..b }),
                ..pre
            }),
            Code::Enter | Code::Right => acted(pre, Act::BrowseEnter, post, out),
            Code::Left | Code::Backspace => acted(pre, Act::BrowseUp, post, out),
            Code::Char(c) => if c == 'a' {
                acted(pre, Act::BrowseAdd, post, out)
            } else {
                post == pre && out is None
            },
            _ => post == pre && out is None,
        },
        Modal::Remove(_) => match key.code {
            Code::Esc | Code::Enter => acted(pre, Act::RemoveCancel, post, out),
            Code::Char(c) => if c == 'y' {
                acted(pre, Act::RemoveConfirm, post, out)
            } else if c == 'n' {
                acted(pre, Act::RemoveCancel, post, out)
            } else {
                post == pre && out is None
            },
            _ => post == pre && out is None,
        },
        Modal::Closed => {
            let n = pre.libs@.len() as int;
            match key.code {
                Code::Up => out is None && post == (if n > 0 { Room { sel: row_up(pre.sel, n), ..pre } } else { pre }),
                Code::Down => out is None && post == (if n > 0 { Room { sel: row_down(pre.sel, n), ..pre } } else { pre }),
                Code::Esc => if pre.sel is Some {
                    out is None && post == (Room { sel: None, ..pre })
                } else {
                    acted(pre, Act::Quit, post, out)
                },
                Code::Delete => on_cursor(pre, |s: usize| Act::RemoveAt(s), post, out),
                Code::Char(c) => if c == 'b' {
                    acted(pre, Act::Add, post, out)
                } else if c == 't' {
                    acted(pre, Act::TypePath, post, out)
                } else if c == 's' || c == ' ' {
                    on_cursor(pre, |s: usize| Act::ToggleSymlinks(s), post, out)
                } else if c == 'r' {
                    on_cursor(pre, |s: usize| Act::RemoveAt(s), post, out)
                } else if c == 'q' {
                    acted(pre, Act::Quit, post, out)
                } else {
                    post == pre && out is None
                },
                _ => post == pre && out is None,
            }
        },
    }
}

fn path_key(room: &mut Room, key: Key)
    requires
        old(room).modal is PathEntry,
    ensures
        path_keyed(*old(room), old(room).modal->PathEntry_0, key, *final(room)),
{
    let mut complete = false;
    let mut refresh = false;
    let mut typed: Option<String> = None;
    if let Modal::PathEntry(draft) = &mut room.modal {
        let at_end = draft.text.cursor() == draft.text.value().unicode_len();
        match key.code {
            Code::Esc => {},
            Code::Enter => {
                typed = Some(draft.text.value().to_owned());
            },
            Code::Down => {
                let n: usize = draft.suggestions().len();
                if n > 0 {
                    draft.sel = match draft.sel {
                        Some(i) => Some(next_choice(i, n)),
                        None => Some(0),
                    };
                }
            },
            Code::Up | Code::BackTab => {
                let n: usize = draft.suggestions().len();
                if n > 0 {
                    draft.sel = match draft.sel {
                        Some(i) => Some(previous_choice(i, n)),
                        None => Some(n - 1),
                    };
                }
            },
            Code::Tab => {
                complete = true;
            },
            _ => {
                if key.code == Code::Right && at_end {
                    complete = true;
                } else {
                    refresh = edit(&mut draft.text, key);
                }
            },
        }
    }
    proof {
        let d = old(room).modal->PathEntry_0;
        let text = room.modal->PathEntry_0.text;
        if after_key(d.text, key, text, refresh) {
            assert(after_key(d.text, key, text, key_changes(d.text, key)));
        }
    }
    if key.code == Code::Esc {
        room.modal = Modal::Closed;
    } else if let Some(path) = typed {
        room.modal = Modal::Closed;
        room.open_name(path);
    } else if complete {
        complete_path(room);
    } else if refresh {
        room.refresh_completion();
    }
}

fn name_key(room: &mut Room, key: Key) -> (out: Option<Outcome>)
    requires
        old(room).modal is Name,
    ensures
        name_keyed(*old(room), old(room).modal->Name_0, key, *final(room), out),
{
    match key.code {
        Code::Esc => room.act(Act::NameCancel),
        Code::Enter => room.act(Act::NameAdd),
        _ => {
            let mut key = key;
            if let Code::Char(c) = key.code {
                if !is_alphanumeric(c) && c != '-' {
                    return None;
                }
                key.code = Code::Char(to_lower(c));
            }
            if let Modal::Name(draft) = &mut room.modal {
                edit(&mut draft.name, key);
                draft.error = None;
            }
            None
        },
    }
}

/// A key press.
pub fn handle_key(room: &mut Room, key: Key) -> (out: Option<Outcome>)
    ensures
        keyed(*old(room), key, *final(room), out),
{
    match &mut room.modal {
        Modal::PathEntry(_) => {
            path_key(room, key);
            None
        },
        Modal::Name(_) => name_key(room, key),
        Modal::Browser(b) => match key.code {
            Code::Esc => room.act(Act::BrowseCancel),
            Code::Up => {
                b.sel = if b.sel > 0 { b.sel - 1 } else { 0 };
                None
            },
            Code::Down => {
                let n: usize = b.dirs.len();
                b.sel = if n > 0 && b.sel < n - 1 { b.sel + 1 } else { clamp_row(n, n) };
                None
            },
            Code::Enter | Code::Right => room.act(Act::BrowseEnter),
            Code::Left | Code::Backspace => room.act(Act::BrowseUp),
            Code::Char(c) => if c == 'a' {
                room.act(Act::BrowseAdd)
            } else {
                None
            },
            _ => None,
        },
        Modal::Remove(_) => match key.code {
            Code::Esc | Code::Enter => room.act(Act::RemoveCancel),
            Code::Char(c) => if c == 'y' {
                room.act(Act::RemoveConfirm)
            } else if c == 'n' {
                room.act(Act::RemoveCancel)
            } else {
                None
            },
            _ => None,
        },
        Modal::Closed => {
            let n: usize = room.libs.len();
            match key.code {
                Code::Up => {
                    if n > 0 {
                        room.sel = cursor_up(room.sel, n);
                    }
                    None
                },
                Code::Down => {
                    if n > 0 {
                        room.sel = cursor_down(room.sel, n);
                    }
                    None
                },
                Code::Esc => {
                    if room.sel.is_some() {
                        room.sel = None;
                        None
                    } else {
                        room.act(Act::Quit)
                    }
                },
                Code::Delete => match room.sel {
                    Some(s) => room.act(Act::RemoveAt(s)),
                    None => None,
                },
                Code::Char(c) => {
                    if c == 'b' {
                        room.act(Act::Add)
                    } else if c == 't' {
                        room.act(Act::TypePath)
                    } else if c == 'q' {
                        room.act(Act::Quit)
                    } else {
                        match room.sel {
                            Some(s) => if c == 's' || c == ' ' {
                                room.act(Act::ToggleSymlinks(s))
                            } else if c == 'r' {
                                room.act(Act::RemoveAt(s))
                            } else {
                                None
                            },
                            None => None,
                        }
                    }
                },
                _ => None,
            }
        },
    }
}

// ── Laws ─────────────────────────────────────────────────────────────────

/// Enter and Esc are the safe choice on the warning: they close it, and the queue
/// stays as it was.
pub proof fn the_gate_is_safe_on_enter(pre: Room, key: Key, post: Room, out: Option<Outcome>)
    requires
        pre.modal is Remove,
        key.code == Code::Enter || key.code == Code::Esc,
        keyed(pre, key, post, out),
    ensures
        post == (Room { modal: Modal::Closed, ..pre }),
        out is None,
{
}

/// A removal is queued only from the warning, and only by `y`.
pub proof fn removal_needs_the_gate(pre: Room, key: Key, post: Room, out: Option<Outcome>, name: String)
    requires
        keyed(pre, key, post, out),
        post.queued == Some(Op::Remove(name)),
        pre.queued != post.queued,
    ensures
        pre.modal is Remove,
        key.code == Code::Char('y'),
{
}

/// A row shows its symlinks switched only once the server has agreed: no key
/// changes the list.
pub proof fn keys_leave_the_list(pre: Room, key: Key, post: Room, out: Option<Outcome>)
    requires
        keyed(pre, key, post, out),
    ensures
        post.libs == pre.libs,
{
}

/// A name that is being typed holds lower-case letters, digits and dashes
/// alone: it opens so, and no key brings in anything else.
pub proof fn names_stay_slugs(pre: Room, d: NameDraft, key: Key, post: Room, out: Option<Outcome>)
    requires
        pre.modal == Modal::Name(d),
        all_of(d.name, |c: char| slug_char(c)),
        keyed(pre, key, post, out),
    ensures
        post.modal matches Modal::Name(q) ==> all_of(q.name, |c: char| slug_char(c)),
{
    if post.modal is Name {
        let q = post.modal->Name_0;
        let k = folded(key);
        if after_key(d.name, k, q.name, key_changes(d.name, k)) && (k.code matches Code::Char(c) ==> slug_char(c)) {
            stays_of_a_kind(d.name, k, q.name, key_changes(d.name, k), |c: char| slug_char(c));
        }
    }
}

/// A name opens as a slug.
pub proof fn names_open_as_slugs(pre: Room, directory: Seq<char>, post: Room)
    requires
        naming(pre, directory, post),
        trimmed(directory).len() > 0,
    ensures
        post.modal matches Modal::Name(d) && all_of(d.name, |c: char| slug_char(c)),
{
    derived_names_are_slugs(trimmed(directory));
}

/// No listing pushes a waiting call aside: neither typing a path nor the end of
/// the running call puts one in its place, and the newest listing waits behind
/// it.
pub proof fn waiting_calls_are_kept(pre: Room, typed: Room)
    requires
        waits(pre.queued),
        refreshed(pre, typed),
    ensures
        typed.queued == pre.queued,
        settled(pre).queued == pre.queued,
        settled(pre).pending_complete == pre.pending_complete,
{
}

/// After a load the cursor is on a row that exists, or nowhere.
pub proof fn the_cursor_stays_on_a_row(m: Room, libs: Vec<Lib>, post: Room)
    requires
        applied(m, Done::Loaded(Ok(libs)), post),
    ensures
        post.sel matches Some(s) ==> s < post.libs@.len(),
{
}

/// Two libraries never get one name: a name that the list holds is refused,
/// and nothing is sent.
pub proof fn taken_names_are_refused(pre: Room, d: NameDraft, post: Room)
    requires
        pre.modal == Modal::Name(d),
        find(pre.libs@, trimmed(input_value(d.name))) is Some,
        named(pre, post),
    ensures
        post.queued == pre.queued,
        post.modal is Name,
{
}

} // verus!
