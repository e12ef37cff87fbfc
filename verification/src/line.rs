//! The keyboard, and the line editor behind every text field.

use ratatui::crossterm::event::{Event, KeyCode, KeyEvent, KeyModifiers};
use tui_input::backend::crossterm::EventHandler;
use tui_input::Input;
use vstd::prelude::*;

verus! {

/// A key, by what it is called.
#[derive(Clone, Copy, Debug, PartialEq, Eq, Structural)]
pub enum Code {
    Esc,
    Enter,
    Tab,
    BackTab,
    Up,
    Down,
    Left,
    Right,
    Home,
    End,
    PageUp,
    PageDown,
    Backspace,
    Delete,
    Char(char),
    Other,
}

/// A key press and the modifiers held with it.
#[derive(Clone, Copy, Debug, PartialEq, Eq, Structural)]
pub struct Key {
    pub code: Code,
    pub shift: bool,
    pub ctrl: bool,
    pub alt: bool,
    pub sup: bool,
    pub hyper: bool,
    pub meta: bool,
}

/// The keys that a line editor answers to.
#[derive(Clone, Copy, Debug, PartialEq, Eq, Structural)]
pub enum Stroke {
    Char(char),
    Backspace,
    Delete,
    Left,
    Right,
    Home,
    End,
}

/// A modifier's weight in the sum that stands for the modifiers held.
pub open spec fn weight(held: bool, w: int) -> int {
    if held { w } else { 0 }
}

impl Key {
    /// A key on its own.
    pub fn plain(code: Code) -> (key: Key)
        ensures
            key == (Key { code, shift: false, ctrl: false, alt: false, sup: false, hyper: false, meta: false }),
    {
        Key { code, shift: false, ctrl: false, alt: false, sup: false, hyper: false, meta: false }
    }

    /// The modifiers held, as the sum of their weights.
    pub open spec fn held(self) -> int {
        weight(self.shift, 1) + weight(self.ctrl, 2) + weight(self.alt, 4) + weight(self.sup, 8) + weight(self.hyper, 16)
            + weight(self.meta, 32)
    }

    /// The editing key that this press is, if it is one.
    pub open spec fn stroke(self) -> Option<Stroke> {
        match self.code {
            Code::Char(c) => Some(Stroke::Char(c)),
            Code::Backspace => Some(Stroke::Backspace),
            Code::Delete => Some(Stroke::Delete),
            Code::Left => Some(Stroke::Left),
            Code::Right => Some(Stroke::Right),
            Code::Home => Some(Stroke::Home),
            Code::End => Some(Stroke::End),
            _ => None,
        }
    }

    fn bits(self) -> (b: u8)
        ensures
            b == self.held(),
    {
        (if self.shift { 1u8 } else { 0 }) + (if self.ctrl { 2u8 } else { 0 }) + (if self.alt { 4u8 } else { 0 }) + (if self.sup {
            8u8
        } else {
            0
        }) + (if self.hyper { 16u8 } else { 0 }) + (if self.meta { 32u8 } else { 0 })
    }
}

/// The line editor's buffer: its text, the cursor, and what it cut last.
#[verifier::external_type_specification]
#[verifier::external_body]
pub struct ExInput(tui_input::Input);

/// The text in a line editor.
pub uninterp spec fn input_value(i: Input) -> Seq<char>;

/// The characters before a line editor's cursor.
pub uninterp spec fn input_cursor(i: Input) -> nat;

/// What a line editor cut last, and whether it was just cutting.
pub uninterp spec fn input_cut(i: Input) -> (Seq<char>, bool);

/// What a key makes of a line editor that holds a text, a cursor and a cut:
/// the same three afterwards, and whether it counts as a change of the text.
pub uninterp spec fn edited(
    value: Seq<char>,
    cursor: nat,
    cut: (Seq<char>, bool),
    stroke: Stroke,
    held: u8,
) -> (Seq<char>, nat, (Seq<char>, bool), bool);

/// `tui_input::Input::new`: the text, the cursor behind it, nothing cut.
pub assume_specification[ tui_input::Input::new ](value: String) -> (i: Input)
    ensures
        input_value(i) == value@,
        input_cursor(i) == value@.len(),
        input_cut(i) == (Seq::<char>::empty(), false),
;

/// `tui_input::Input::value`: the text.
pub assume_specification[ tui_input::Input::value ](i: &Input) -> (value: &str)
    ensures
        value@ == input_value(*i),
;

/// `tui_input::Input::cursor`: the characters before the cursor.
pub assume_specification[ tui_input::Input::cursor ](i: &Input) -> (cursor: usize)
    ensures
        cursor == input_cursor(*i),
;

/// `tui_input::Input::with_cursor`: the same line, the cursor moved, to the
/// end where it would lie beyond.
pub assume_specification[ tui_input::Input::with_cursor ](i: Input, cursor: usize) -> (r: Input)
    ensures
        input_value(r) == input_value(i),
        input_cursor(r) == (if cursor <= input_value(i).len() { cursor as nat } else { input_value(i).len() }),
        input_cut(r) == input_cut(i),
;

/// A key that types its character: alone, with shift, or with control and alt.
pub open spec fn types(stroke: Stroke, held: int) -> bool {
    stroke is Char && (held == 0 || held == 1 || held == 6)
}

/// The key that puts back what was cut last.
pub open spec fn yanks(stroke: Stroke, held: int) -> bool {
    stroke == Stroke::Char('y') && held == 2
}

/// `s` with `c` put in behind the first `at` characters.
pub open spec fn typed(s: Seq<char>, at: nat, c: char) -> Seq<char> {
    let k: int = if at <= s.len() { at as int } else { s.len() as int };
    s.take(k).push(c) + s.skip(k)
}

/// Every character of `a` occurs in `b` or in `c`.
pub open spec fn drawn_from(a: Seq<char>, b: Seq<char>, c: Seq<char>) -> bool {
    forall|i: int| 0 <= i < a.len() ==> b.contains(#[trigger] a[i]) || c.contains(a[i])
}

/// `tui_input`'s `handle_event` on a key press. What becomes of the text, the
/// cursor and the cut, and the result (whether the answer reports a change of
/// the text), depends on them, the key and the modifiers alone. A typed
/// character goes in at the cursor. Putting the cut back draws on the text and
/// the cut, any other key on the text alone, and none of those makes it longer.
/// What is cut comes from the text and what was cut before. Without a reported change the text stays. Where words and
/// user-perceived characters begin and end is left to the crate.
#[verifier::external_body]
fn feed(input: &mut Input, stroke: Stroke, held: u8) -> (changed: bool)
    requires
        held < 64,
    ensures
        (input_value(*final(input)), input_cursor(*final(input)), input_cut(*final(input)), changed) == edited(
            input_value(*old(input)),
            input_cursor(*old(input)),
            input_cut(*old(input)),
            stroke,
            held,
        ),
        types(stroke, held as int) ==> input_value(*final(input)) == typed(
            input_value(*old(input)),
            input_cursor(*old(input)),
            stroke->Char_0,
        ) && input_cursor(*final(input)) == input_cursor(*old(input)) + 1 && changed,
        !types(stroke, held as int) ==> drawn_from(
            input_value(*final(input)),
            input_value(*old(input)),
            if yanks(stroke, held as int) { input_cut(*old(input)).0 } else { Seq::empty() },
        ),
        drawn_from(input_cut(*final(input)).0, input_value(*old(input)), input_cut(*old(input)).0),
        !types(stroke, held as int) && !yanks(stroke, held as int) ==> input_value(*final(input)).len() <= input_value(
            *old(input),
        ).len(),
        !changed ==> input_value(*final(input)) == input_value(*old(input)),
{
    let code = match stroke {
        Stroke::Char(c) => KeyCode::Char(c),
        Stroke::Backspace => KeyCode::Backspace,
        Stroke::Delete => KeyCode::Delete,
        Stroke::Left => KeyCode::Left,
        Stroke::Right => KeyCode::Right,
        Stroke::Home => KeyCode::Home,
        Stroke::End => KeyCode::End,
    };
    let key = KeyEvent::new(code, KeyModifiers::from_bits_truncate(held));
    input.handle_event(&Event::Key(key)).is_some_and(|c| c.value)
}

/// What a key makes of a line.
pub open spec fn after_key(i: Input, key: Key, j: Input, changed: bool) -> bool {
    match key.stroke() {
        Some(stroke) => {
            &&& (input_value(j), input_cursor(j), input_cut(j), changed) == edited(
                input_value(i),
                input_cursor(i),
                input_cut(i),
                stroke,
                key.held() as u8,
            )
            &&& types(stroke, key.held()) ==> input_value(j) == typed(input_value(i), input_cursor(i), stroke->Char_0)
                && input_cursor(j) == input_cursor(i) + 1 && changed
            &&& !types(stroke, key.held()) ==> drawn_from(
                input_value(j),
                input_value(i),
                if yanks(stroke, key.held()) { input_cut(i).0 } else { Seq::empty() },
            )
            &&& drawn_from(input_cut(j).0, input_value(i), input_cut(i).0)
            &&& !types(stroke, key.held()) && !yanks(stroke, key.held()) ==> input_value(j).len() <= input_value(i).len()
            &&& !changed ==> input_value(j) == input_value(i)
        },
        None => j == i && !changed,
    }
}

/// Whether a key counts as a change of a line's text.
pub open spec fn key_changes(i: Input, key: Key) -> bool {
    match key.stroke() {
        Some(stroke) => edited(input_value(i), input_cursor(i), input_cut(i), stroke, key.held() as u8).3,
        None => false,
    }
}

/// Hands a key to a line; whether it changed the text. Keys that a line editor
/// does not answer to leave it as it was.
pub fn edit(input: &mut Input, key: Key) -> (changed: bool)
    ensures
        after_key(*old(input), key, *final(input), changed),
{
    let held: u8 = key.bits();
    match key.code {
        Code::Char(c) => feed(input, Stroke::Char(c), held),
        Code::Backspace => feed(input, Stroke::Backspace, held),
        Code::Delete => feed(input, Stroke::Delete, held),
        Code::Left => feed(input, Stroke::Left, held),
        Code::Right => feed(input, Stroke::Right, held),
        Code::Home => feed(input, Stroke::Home, held),
        Code::End => feed(input, Stroke::End, held),
        _ => false,
    }
}

/// An empty line.
pub open spec fn is_blank(i: Input) -> bool {
    input_value(i) == Seq::<char>::empty() && input_cursor(i) == 0 && input_cut(i) == (Seq::<char>::empty(), false)
}

/// A line that holds `value`, the cursor behind it.
pub open spec fn holds(i: Input, value: Seq<char>) -> bool {
    input_value(i) == value && input_cursor(i) == value.len() && input_cut(i) == (Seq::<char>::empty(), false)
}

/// An empty line.
pub fn blank() -> (i: Input)
    ensures
        is_blank(i),
{
    Input::new(String::new())
}

/// Every character of a line, and of what it cut, is one of a kind.
pub open spec fn all_of(i: Input, kind: spec_fn(char) -> bool) -> bool {
    (forall|k: int| 0 <= k < input_value(i).len() ==> kind(#[trigger] input_value(i)[k])) && (forall|k: int|
        0 <= k < input_cut(i).0.len() ==> kind(#[trigger] input_cut(i).0[k]))
}

/// A field that lets only characters of one kind be typed never holds any
/// other: no key brings one in.
pub proof fn stays_of_a_kind(i: Input, key: Key, j: Input, changed: bool, kind: spec_fn(char) -> bool)
    requires
        all_of(i, kind),
        after_key(i, key, j, changed),
        key.code matches Code::Char(c) ==> kind(c),
    ensures
        all_of(j, kind),
{
    if let Some(stroke) = key.stroke() {
        if types(stroke, key.held()) {
            assert forall|k: int| 0 <= k < input_value(j).len() implies kind(#[trigger] input_value(j)[k]) by {
                let at = input_cursor(i);
                let n: int = if at <= input_value(i).len() { at as int } else { input_value(i).len() as int };
                if k < n {
                    assert(input_value(j)[k] == input_value(i)[k]);
                } else if k > n {
                    assert(input_value(j)[k] == input_value(i)[k - 1]);
                }
            }
        }
    }
}

} // verus!
