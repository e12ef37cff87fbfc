//! How the libraries room and the sign-in page are shown.

use vstd::prelude::*;

use crate::layout::{table_view, tone_of, Rect, Tone};
use crate::libraries::{Lib, Modal, Room};
use crate::login::{Field, SignIn};
use crate::msg::{Arg, Fill, Msg};
use crate::paths::PathDraft;
use crate::text::mask;

verus! {

use crate::layout::{further, left_of, row_tone, window};
use crate::line::input_value;
use crate::msg::says;

/// The smallest window that the room is drawn into.
pub const MIN_W: u16 = 58;

pub const MIN_H: u16 = 12;

/// The columns: the name's, the mark for symbolic links', and the one that
/// takes a library away.
pub const NAME_W: u16 = 16;

pub const SYM_W: u16 = 8;

pub const REMOVE_W: u16 = 4;

/// The tips for what has the keys.
pub open spec fn hint(room: Room) -> &'static str {
    match room.modal {
        Modal::Browser(_) => "hint.browser",
        Modal::PathEntry(_) => "hint.path",
        Modal::Name(_) => "admin.hint_name",
        Modal::Remove(_) => "admin.hint_remove",
        Modal::Closed => if room.libs@.len() == 0 {
            "admin.hint_empty"
        } else if room.sel is None {
            "admin.hint_rows"
        } else {
            "admin.hint_selected"
        },
    }
}

pub fn footer_hint(room: &Room) -> (key: &'static str)
    ensures
        key == hint(*room),
{
    match &room.modal {
        Modal::Browser(_) => "hint.browser",
        Modal::PathEntry(_) => "hint.path",
        Modal::Name(_) => "admin.hint_name",
        Modal::Remove(_) => "admin.hint_remove",
        Modal::Closed => {
            if room.libs.len() == 0 {
                "admin.hint_empty"
            } else if room.sel.is_none() {
                "admin.hint_rows"
            } else {
                "admin.hint_selected"
            }
        },
    }
}

/// What the card that adds says when the pointer rests on it.
pub fn add_tip(room: &Room) -> (key: &'static str)
    ensures
        key == (if room.same_machine { "admin.tip_add_native" } else { "admin.tip_add_server" }),
{
    if room.same_machine { "admin.tip_add_native" } else { "admin.tip_add_server" }
}

/// The room's parts: the card that adds, the table's head and rule, and the
/// first row of its libraries with how many there is room for.
#[derive(Clone, Copy, Debug, PartialEq, Eq, Structural)]
pub struct Places {
    pub add: Rect,
    pub head: Rect,
    pub rule: Rect,
    pub rows_y: u16,
    pub room: u16,
    pub path: u16,
    pub path_width: u16,
    pub links: u16,
    pub remove: u16,
}

pub open spec fn places_of(c: Rect) -> Places {
    let w = left_of(c.width as int, 4);
    let rows_y = further(c.y as int, 6);
    Places {
        add: Rect { height: 3, ..c },
        head: Rect { x: c.x, y: further(c.y as int, 4) as u16, width: w as u16, height: 1 },
        rule: Rect { x: c.x, y: further(c.y as int, 5) as u16, width: c.width, height: 1 },
        rows_y: rows_y as u16,
        room: left_of(c.ends_below(), rows_y) as u16,
        path: further(c.x as int, 16) as u16,
        path_width: left_of(w, 26) as u16,
        links: left_of(further(c.x as int, w), 8) as u16,
        remove: further(further(c.x as int, w), 1) as u16,
    }
}

pub fn places(column: Rect) -> (p: Places)
    ensures
        p == places_of(column),
{
    let w: u16 = column.width.saturating_sub(REMOVE_W);
    let rows_y: u16 = column.y.saturating_add(6);
    Places {
        add: Rect { x: column.x, y: column.y, width: column.width, height: 3 },
        head: Rect { x: column.x, y: column.y.saturating_add(4), width: w, height: 1 },
        rule: Rect { x: column.x, y: column.y.saturating_add(5), width: column.width, height: 1 },
        rows_y,
        room: column.bottom().saturating_sub(rows_y),
        path: column.x.saturating_add(NAME_W),
        path_width: w.saturating_sub(NAME_W + SYM_W + 2),
        links: column.x.saturating_add(w).saturating_sub(SYM_W),
        remove: column.x.saturating_add(w).saturating_add(1),
    }
}

/// In any window that the room is drawn into, a row's name, path, mark and
/// cross stand in order, none over another, within the column.
pub proof fn the_columns_fit(c: Rect)
    requires
        MIN_W - 4 <= c.width,
        c.x + c.width <= u16::MAX,
    ensures
        ({
            let p = places_of(c);
            &&& p.path == c.x + NAME_W
            &&& p.path + p.path_width + 2 == p.links
            &&& p.links + SYM_W < p.remove
            &&& p.remove + 3 <= c.x + c.width
        }),
{
}

impl Room {
    /// The rows of the table that are in view: a row asked for, else a cursor
    /// that moved since the last draw, is followed; the wheel is left alone.
    pub fn rows_in_view(&mut self, room: usize) -> (out: (usize, usize))
        ensures
            (out.0 as int, out.1 as int) == window(
                old(self).libs@.len() as int,
                match old(self).reveal {
                    Some(r) => Some(r),
                    None => if old(self).sel != old(self).sel_anchor { old(self).sel } else { None },
                },
                old(self).tscroll as int,
                room as int,
            ),
            *final(self) == (Room { sel_anchor: old(self).sel, reveal: None, tscroll: out.0, ..*old(self) }),
    {
        let moved = match (self.sel, self.sel_anchor) {
            (Some(a), Some(b)) => a != b,
            (None, None) => false,
            _ => true,
        };
        self.sel_anchor = self.sel;
        let reveal = match self.reveal {
            Some(r) => Some(r),
            None => if moved { self.sel } else { None },
        };
        self.reveal = None;
        let (first, visible) = table_view(self.libs.len(), reveal, self.tscroll, room);
        self.tscroll = first;
        (first, visible)
    }
}

/// The colours of a row: the name and path, the mark for symbolic links, and
/// the cross that takes the library away.
pub fn row_tones(lib: &Lib, selected: bool, mark_hovered: bool, cross_hovered: bool) -> (out: (Tone, Tone, Tone))
    ensures
        out.0 == (if selected { Tone::Selected } else { Tone::Plain }),
        out.1 == row_tone(selected, mark_hovered, if lib.follow_symlinks { Tone::Fine } else { Tone::Dim }),
        out.2 == (if cross_hovered { Tone::Danger } else { Tone::Dim }),
{
    (
        if selected { Tone::Selected } else { Tone::Plain },
        tone_of(selected, mark_hovered, if lib.follow_symlinks { Tone::Fine } else { Tone::Dim }),
        if cross_hovered { Tone::Danger } else { Tone::Dim },
    )
}

/// How many suggestions the box for a path shows at once.
pub const SUGGESTIONS: usize = 6;

impl PathDraft {
    /// The suggestions in view, of `len`.
    pub fn suggestions_in_view(&mut self, len: usize) -> (out: (usize, usize))
        ensures
            (out.0 as int, out.1 as int) == window(
                len as int,
                if old(self).sel != old(self).sel_anchor { old(self).sel } else { None },
                old(self).scroll as int,
                SUGGESTIONS as int,
            ),
            *final(self) == (PathDraft { sel_anchor: old(self).sel, scroll: out.0, ..*old(self) }),
    {
        let moved = match (self.sel, self.sel_anchor) {
            (Some(a), Some(b)) => a != b,
            (None, None) => false,
            _ => true,
        };
        self.sel_anchor = self.sel;
        let reveal = if moved { self.sel } else { None };
        let (first, visible) = table_view(len, reveal, self.scroll, SUGGESTIONS);
        self.scroll = first;
        (first, visible)
    }
}

/// How tall the box for a path is: it grows downward with its suggestions.
pub fn path_box_height(suggestions: usize) -> (h: u16)
    ensures
        h == 7 + (if suggestions < 6 { suggestions as int } else { 6 }),
{
    if suggestions < 6 { 7 + suggestions as u16 } else { 13 }
}

/// What the warning asks and warns of before a library is taken away.
pub fn remove_words(room: &Room, i: usize) -> (out: (Msg, Msg))
    ensures
        ({
            let name = if i < room.libs@.len() { room.libs@[i as int].name@ } else { Seq::empty() };
            says(out.0, "admin.remove_title", "name", name) && says(out.1, "admin.remove_users", "name", name)
        }),
{
    let name = if i < room.libs.len() { room.libs[i].name.clone() } else { String::new() };
    proof {
        if i >= room.libs@.len() {
            assert(name@ =~= Seq::<char>::empty());
        }
    }
    (
        Msg::One("admin.remove_title", Fill { name: "name", arg: Arg::Text(name.clone()) }),
        Msg::One("admin.remove_users", Fill { name: "name", arg: Arg::Text(name) }),
    )
}

// ── The fixed words ──────────────────────────────────────────────────────

/// What the room says whatever is in it: its title, the card that adds, the
/// columns, and that there is nothing yet where there is nothing.
pub open spec fn page_keys(room: Room) -> Seq<&'static str> {
    seq!["admin.title", "folders.add_card", "folders.col_name", "folders.col_folder", "admin.col_symlinks"]
        + (if room.libs@.len() == 0 { seq!["folders.nothing_yet"] } else { Seq::empty() })
}

pub fn page_words(room: &Room) -> (out: Vec<&'static str>)
    ensures
        out@ == page_keys(*room),
{
    let mut out: Vec<&'static str> =
        vec!["admin.title", "folders.add_card", "folders.col_name", "folders.col_folder", "admin.col_symlinks"];
    if room.libs.len() == 0 {
        out.push("folders.nothing_yet");
    }
    proof {
        assert(out@ =~= page_keys(*room));
    }
    out
}

/// What the open card says, top to bottom; of the warning, what does not name
/// the library.
pub open spec fn card_keys(room: Room) -> Seq<&'static str> {
    match room.modal {
        Modal::Closed => Seq::empty(),
        Modal::Browser(b) => seq!["browse.title"] + (if b.dirs@.len() == 0 { seq!["browse.empty"] } else { Seq::empty() })
            + seq!["browse.up", "browse.open", "browse.add", "browse.close"],
        Modal::PathEntry(_) => seq!["path_modal.title"],
        Modal::Name(_) => seq![
            "admin.name_title",
            "admin.name_folder",
            "admin.name_label",
            "admin.name_charset",
            "admin.name_permanent_1",
            "admin.name_permanent_2",
            "admin.name_add",
        ],
        Modal::Remove(_) => seq!["admin.remove_files_stay", "admin.remove_tracks", "admin.remove_keep", "admin.remove_confirm"],
    }
}

pub fn card_words(room: &Room) -> (out: Vec<&'static str>)
    ensures
        out@ == card_keys(*room),
{
    let out: Vec<&'static str> = match &room.modal {
        Modal::Closed => Vec::new(),
        Modal::Browser(b) => {
            if b.dirs.len() == 0 {
                vec!["browse.title", "browse.empty", "browse.up", "browse.open", "browse.add", "browse.close"]
            } else {
                vec!["browse.title", "browse.up", "browse.open", "browse.add", "browse.close"]
            }
        },
        Modal::PathEntry(_) => vec!["path_modal.title"],
        Modal::Name(_) => vec![
            "admin.name_title",
            "admin.name_folder",
            "admin.name_label",
            "admin.name_charset",
            "admin.name_permanent_1",
            "admin.name_permanent_2",
            "admin.name_add",
        ],
        Modal::Remove(_) => vec![
            "admin.remove_files_stay",
            "admin.remove_tracks",
            "admin.remove_keep",
            "admin.remove_confirm",
        ],
    };
    proof {
        assert(out@ =~= card_keys(*room));
    }
    out
}

// ── The sign-in page ─────────────────────────────────────────────────────

/// The smallest window that the page is drawn into.
pub const SIGN_IN_MIN_W: u16 = 58;

pub const SIGN_IN_MIN_H: u16 = 20;

/// The widest a field gets.
pub const FIELD_W: u16 = 44;

/// The page's parts, centred: the words over the fields, and the fields.
#[derive(Clone, Copy, Debug, PartialEq, Eq, Structural)]
pub struct SignInPlaces {
    pub words: Rect,
    pub x: u16,
    pub width: u16,
    pub fields_y: u16,
}

pub open spec fn at_most(a: int, b: int) -> int {
    if a < b { a } else { b }
}

pub fn sign_in_places(area: Rect) -> (p: SignInPlaces)
    ensures
        ({
            let column = at_most(left_of(area.width as int, 4), 74);
            let width = at_most(44, column);
            &&& p.words == (Rect {
                x: further(area.x as int, (area.width - column) / 2) as u16,
                y: further(area.y as int, 3) as u16,
                width: column as u16,
                height: 2,
            })
            &&& p.width == width
            &&& p.x == further(area.x as int, (area.width - width) / 2)
            &&& p.fields_y == further(further(area.y as int, 3), 3)
        }),
{
    let inside: u16 = area.width.saturating_sub(4);
    let column: u16 = if inside < 74 { inside } else { 74 };
    let width: u16 = if FIELD_W < column { FIELD_W } else { column };
    let y: u16 = area.y.saturating_add(3);
    SignInPlaces {
        words: Rect { x: area.x.saturating_add((area.width - column) / 2), y, width: column, height: 2 },
        x: area.x.saturating_add((area.width - width) / 2),
        width,
        fields_y: y.saturating_add(3),
    }
}

/// What a field shows: the name as typed, of the password as many marks.
pub fn field_text(page: &SignIn, field: Field) -> (out: String)
    ensures
        match field {
            Field::Username => out@ == input_value(page.username),
            Field::Password => out@ == Seq::new(input_value(page.password).len(), |i: int| '•'),
        },
{
    match field {
        Field::Username => page.username.value().to_owned(),
        Field::Password => mask(page.password.value()),
    }
}

/// Whether the button that signs in can be pressed.
pub fn can_press(page: &SignIn) -> (r: bool)
    ensures
        r == (!page.queued && !page.in_flight),
{
    !page.queued && !page.in_flight
}

} // verus!
