//! The hub round the rooms: what was asked for, what comes of the first word
//! from the server, how the terminal's events are answered, and the chrome
//! every room shares.

use vstd::prelude::*;

use crate::layout::{Rect, Tone};
use crate::line::{Code, Key};
use crate::msg::{ApiError, Msg, Note};

verus! {

use crate::layout::left_of;
use crate::msg::reads;

/// What the command line asked for.
#[derive(Debug, PartialEq)]
pub struct AdminArgs {
    /// The server to manage; the saved session's where nothing is named.
    pub server: Option<String>,
    /// A token in place of the saved one.
    pub token: Option<String>,
    /// Whether this terminal runs on the server's own machine.
    pub same_machine: bool,
    pub room: Option<RoomCmd>,
}

/// The rooms.
#[derive(Clone, Copy, Debug, PartialEq, Eq, Structural)]
pub enum RoomCmd {
    /// The server's music folders.
    Libraries,
    /// The network of servers.
    Discovery,
    /// Requests, tickets and peers.
    Federation,
    /// Each library's copies on other drives.
    Backups,
    /// The torrent client.
    Torrents,
}

impl AdminArgs {
    /// The room to open: the libraries where none was named.
    pub open spec fn opens(self) -> RoomCmd {
        match self.room {
            Some(room) => room,
            None => RoomCmd::Libraries,
        }
    }

    pub fn room_to_open(&self) -> (room: RoomCmd)
        ensures
            room == self.opens(),
    {
        match self.room {
            Some(room) => room,
            None => RoomCmd::Libraries,
        }
    }
}

// ── Before the room ──────────────────────────────────────────────────────

/// Whether to ask for a sign-in first: exactly where the server's answer to
/// the ping is that nobody is signed in. Whatever else it says is the room's
/// to show.
pub fn needs_sign_in(ping: &Result<(), ApiError>) -> (r: bool)
    ensures
        r == (*ping matches Err(e) && e is Unauthorized),
{
    match ping {
        Err(ApiError::Unauthorized) => true,
        _ => false,
    }
}

/// What comes after the sign-in page closed.
#[derive(Debug, PartialEq)]
pub enum AfterSignIn {
    /// The program ends with this code.
    Leave(i32),
    /// The room opens, as this account with this token.
    Enter { username: String, token: String },
}

/// A page that failed ends the program with its code; one left without a
/// session ends it in peace; a session opens the room.
pub fn after_sign_in(code: i32, session: Option<(String, String)>) -> (next: AfterSignIn)
    ensures
        code != 0 ==> next == AfterSignIn::Leave(code),
        code == 0 && session is None ==> next == AfterSignIn::Leave(0),
        code == 0 ==> (session matches Some((username, token)) ==> next == (AfterSignIn::Enter { username, token })),
{
    if code != 0 {
        return AfterSignIn::Leave(code);
    }
    match session {
        Some((username, token)) => AfterSignIn::Enter { username, token },
        None => AfterSignIn::Leave(0),
    }
}

// ── The terminal's events ────────────────────────────────────────────────

/// What the mouse did.
#[derive(Clone, Copy, Debug, PartialEq, Eq, Structural)]
pub enum Mouse {
    LeftDown,
    OtherDown,
    Moved,
    Drag,
    Up,
    ScrollUp,
    ScrollDown,
    Other,
}

/// An event of the terminal.
#[derive(Clone, Copy, Debug, PartialEq, Eq, Structural)]
pub enum Event {
    Key { key: Key, press: bool },
    Mouse { mouse: Mouse, x: u16, y: u16 },
    Other,
}

/// What the loop does with an event.
#[derive(Clone, Copy, Debug, PartialEq, Eq, Structural)]
pub enum Answer {
    /// The loop ends, whatever the screen shows.
    Quit,
    /// The screen gets the key.
    Press(Key),
    /// What is under the pointer is acted on, and a bar there can be dragged.
    Click { x: u16, y: u16 },
    /// The pointer is here now.
    Point { x: u16, y: u16 },
    /// The pointer is here now and pulls what it holds.
    Pull { x: u16, y: u16 },
    /// What is held is let go.
    Release,
    /// The pointer is here now and the list under it scrolls.
    Wheel { up: bool, x: u16, y: u16 },
    Nothing,
}

pub open spec fn quits(key: Key) -> bool {
    key.ctrl && key.code == Code::Char('c')
}

pub open spec fn answered(event: Event) -> Answer {
    match event {
        Event::Key { key, press } => if !press {
            Answer::Nothing
        } else if quits(key) {
            Answer::Quit
        } else {
            Answer::Press(key)
        },
        Event::Mouse { mouse, x, y } => match mouse {
            Mouse::LeftDown => Answer::Click { x, y },
            Mouse::Moved => Answer::Point { x, y },
            Mouse::Drag => Answer::Pull { x, y },
            Mouse::Up => Answer::Release,
            Mouse::ScrollUp => Answer::Wheel { up: true, x, y },
            Mouse::ScrollDown => Answer::Wheel { up: false, x, y },
            Mouse::OtherDown => Answer::Nothing,
            Mouse::Other => Answer::Nothing,
        },
        Event::Other => Answer::Nothing,
    }
}

/// How the loop answers an event: Ctrl-C is its own, keys going up are
/// nobody's, the rest is the screen's.
pub fn answer(event: Event) -> (a: Answer)
    ensures
        a == answered(event),
{
    match event {
        Event::Key { key, press } => {
            if !press {
                return Answer::Nothing;
            }
            if key.ctrl {
                if let Code::Char(c) = key.code {
                    if c == 'c' {
                        return Answer::Quit;
                    }
                }
            }
            Answer::Press(key)
        },
        Event::Mouse { mouse, x, y } => match mouse {
            Mouse::LeftDown => Answer::Click { x, y },
            Mouse::Moved => Answer::Point { x, y },
            Mouse::Drag => Answer::Pull { x, y },
            Mouse::Up => Answer::Release,
            Mouse::ScrollUp => Answer::Wheel { up: true, x, y },
            Mouse::ScrollDown => Answer::Wheel { up: false, x, y },
            Mouse::OtherDown => Answer::Nothing,
            Mouse::Other => Answer::Nothing,
        },
        Event::Other => Answer::Nothing,
    }
}

/// No screen ever sees Ctrl-C, and every other key going down reaches it.
pub proof fn the_way_out_is_the_loops(key: Key)
    ensures
        answered(Event::Key { key, press: true }) == Answer::Quit <==> quits(key),
        !quits(key) ==> answered(Event::Key { key, press: true }) == Answer::Press(key),
        answered(Event::Key { key, press: false }) == Answer::Nothing,
{
}

// ── Chrome ───────────────────────────────────────────────────────────────

/// Whether a room fits into a window; one that does not is not drawn.
pub fn fits(area: Rect, min_width: u16, min_height: u16) -> (r: bool)
    ensures
        r == (area.width >= min_width && area.height >= min_height),
{
    area.width >= min_width && area.height >= min_height
}

/// The rows of the chrome: the heading on the top row, the status line above
/// the tips on the bottom edge, each two cells in from both sides.
#[derive(Clone, Copy, Debug, PartialEq, Eq, Structural)]
pub struct Chrome {
    pub header: Rect,
    pub status: Rect,
    pub tips: Rect,
}

pub fn chrome(area: Rect) -> (out: Chrome)
    ensures
        out.header == (Rect { x: 2, y: 0, width: left_of(area.width as int, 4) as u16, height: 1 }),
        out.status == (Rect { y: left_of(area.height as int, 2) as u16, ..out.header }),
        out.tips == (Rect { y: left_of(area.height as int, 1) as u16, ..out.header }),
{
    let width: u16 = area.width.saturating_sub(4);
    Chrome {
        header: Rect { x: 2, y: 0, width, height: 1 },
        status: Rect { x: 2, y: area.height.saturating_sub(2), width, height: 1 },
        tips: Rect { x: 2, y: area.height.saturating_sub(1), width, height: 1 },
    }
}

/// The column that a room draws into, between the heading and the status line.
pub fn room_column(area: Rect) -> (r: Rect)
    ensures
        r == (Rect {
            x: 2,
            y: 2,
            width: left_of(area.width as int, 4) as u16,
            height: left_of(area.height as int, 5) as u16,
        }),
{
    Rect { x: 2, y: 2, width: area.width.saturating_sub(4), height: area.height.saturating_sub(5) }
}

/// What stands at the right of the heading: the server and the role.
pub fn header_words(host: &str) -> (out: Msg)
    ensures
        out matches Msg::Both(a, b) && reads(*a, host@ + seq![' ', '·', ' ']) && *b == Msg::Key("admin.role"),
{
    let mut text: String = String::new();
    text.append(host);
    text.push(' ');
    text.push('·');
    text.push(' ');
    proof {
        assert(text@ =~= host@ + seq![' ', '·', ' ']);
    }
    Msg::Both(Box::new(Msg::Raw(text)), Box::new(Msg::Key("admin.role")))
}

/// What the status line shows: what is under way before any note, an error as
/// a warning, any other note in the background.
pub open spec fn status(note: Option<Note>, busy: Option<Msg>) -> Option<(Msg, Tone)> {
    match (busy, note) {
        (Some(b), _) => Some((b, Tone::Accent)),
        (None, Some(n)) => Some((n.msg, if n.error { Tone::Gold } else { Tone::Dim })),
        (None, None) => None,
    }
}

pub fn status_line<'a>(note: &'a Option<Note>, busy: &'a Option<Msg>) -> (out: Option<(&'a Msg, Tone)>)
    ensures
        out is Some == status(*note, *busy) is Some,
        out matches Some(o) ==> (*o.0, o.1) == status(*note, *busy)->0,
{
    if let Some(b) = busy {
        return Some((b, Tone::Accent));
    }
    match note {
        Some(n) => Some((&n.msg, if n.error { Tone::Gold } else { Tone::Dim })),
        None => None,
    }
}

} // verus!
