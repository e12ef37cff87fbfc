//! Where things stand on the screen: areas, rows of buttons and tabs, and the
//! part of a long table that is in view.

use vstd::prelude::*;

use crate::msg::Msg;

verus! {

/// A part of the screen, in cells.
#[derive(Clone, Copy, Debug, PartialEq, Eq, Structural)]
pub struct Rect {
    pub x: u16,
    pub y: u16,
    pub width: u16,
    pub height: u16,
}

/// How a text is shown.
#[derive(Clone, Copy, Debug, PartialEq, Eq, Structural)]
pub enum Tone {
    Plain,
    Dim,
    Bold,
    Accent,
    Bright,
    /// A warning.
    Gold,
    /// A good sign.
    Fine,
    /// What cannot be taken back.
    Danger,
    /// The row under the cursor.
    Selected,
}

/// A text and how it is shown.
#[derive(Debug, PartialEq)]
pub struct Cell {
    pub msg: Msg,
    pub tone: Tone,
}

/// A cell further on, as far as the screen's numbers go.
pub open spec fn further(a: int, b: int) -> int {
    if a + b > u16::MAX { u16::MAX as int } else { a + b }
}

/// What `b` leaves of `a`.
pub open spec fn left_of(a: int, b: int) -> int {
    if a > b { a - b } else { 0 }
}

impl Rect {
    pub open spec fn ends_at(self) -> int {
        further(self.x as int, self.width as int)
    }

    pub open spec fn ends_below(self) -> int {
        further(self.y as int, self.height as int)
    }

    /// The first column past the area.
    pub fn right(&self) -> (r: u16)
        ensures
            r == self.ends_at(),
    {
        self.x.saturating_add(self.width)
    }

    /// The first row past the area.
    pub fn bottom(&self) -> (r: u16)
        ensures
            r == self.ends_below(),
    {
        self.y.saturating_add(self.height)
    }

    /// Whether a cell lies in the area.
    pub open spec fn holds(self, x: int, y: int) -> bool {
        self.x <= x < self.ends_at() && self.y <= y < self.ends_below()
    }

    pub fn contains(&self, x: u16, y: u16) -> (r: bool)
        ensures
            r == self.holds(x as int, y as int),
    {
        x >= self.x && x < self.right() && y >= self.y && y < self.bottom()
    }

    /// One row of the area, as wide as it is.
    pub open spec fn row(self, y: int) -> Rect {
        Rect { x: self.x, y: y as u16, width: self.width, height: 1 }
    }

    pub fn line(&self, y: u16) -> (r: Rect)
        ensures
            r == self.row(y as int),
    {
        Rect { x: self.x, y, width: self.width, height: 1 }
    }
}

/// A row's tone: under the cursor, under the pointer, or neither.
pub open spec fn row_tone(selected: bool, hovered: bool, plain: Tone) -> Tone {
    if selected {
        Tone::Selected
    } else if hovered {
        Tone::Bright
    } else {
        plain
    }
}

pub fn tone_of(selected: bool, hovered: bool, plain: Tone) -> (r: Tone)
    ensures
        r == row_tone(selected, hovered, plain),
{
    if selected {
        Tone::Selected
    } else if hovered {
        Tone::Bright
    } else {
        plain
    }
}

// ── Rows of labels ───────────────────────────────────────────────────────

/// Where the `i`-th of a row of labels starts: each is as wide as its text and
/// `pad` more, and `gap` columns stand between two.
pub open spec fn starts(x: int, widths: Seq<u16>, pad: int, gap: int, i: int) -> int
    decreases i,
{
    if i <= 0 {
        x
    } else {
        further(starts(x, widths, pad, gap, i - 1), widths[i - 1] + pad + gap)
    }
}

/// The tabs of a room, left to right: two cells round each name, two between.
pub fn tab_places(x: u16, widths: &Vec<u16>) -> (out: Vec<Rect>)
    ensures
        out@.len() == widths@.len(),
        forall|i: int|
            0 <= i < widths@.len() ==> (#[trigger] out@[i]).x == starts(x as int, widths@, 2, 2, i)
                && out@[i].width == further(widths@[i] as int, 2) && out@[i].y == 0 && out@[i].height == 1,
{
    let mut out: Vec<Rect> = Vec::new();
    let mut at: u16 = x;
    let mut i: usize = 0;
    while i < widths.len()
        invariant
            i <= widths@.len(),
            out@.len() == i,
            at == starts(x as int, widths@, 2, 2, i as int),
            forall|k: int|
                0 <= k < i ==> (#[trigger] out@[k]).x == starts(x as int, widths@, 2, 2, k)
                    && out@[k].width == further(widths@[k] as int, 2) && out@[k].y == 0 && out@[k].height == 1,
        decreases widths@.len() - i,
    {
        out.push(Rect { x: at, y: 0, width: widths[i].saturating_add(2), height: 1 });
        at = at.saturating_add(widths[i]).saturating_add(4);
        i = i + 1;
    }
    out
}

/// How many of the choices of a picker fit before `right`: the first that
/// would cross it and all after are left out.
pub open spec fn choices_fit(x: int, widths: Seq<u16>, right: int, n: int) -> bool {
    &&& 0 <= n <= widths.len()
    &&& forall|k: int| 0 <= k < n ==> further(#[trigger] starts(x, widths, 4, 3, k), widths[k] + 4) <= right
    &&& n < widths.len() ==> further(starts(x, widths, 4, 3, n), widths[n] + 4) > right
}

/// The choices of a picker, left to right: a mark of four cells before each
/// name, three cells between.
pub fn choice_places(x: u16, widths: &Vec<u16>, right: u16) -> (out: Vec<Rect>)
    ensures
        choices_fit(x as int, widths@, right as int, out@.len() as int),
        forall|i: int|
            0 <= i < out@.len() ==> (#[trigger] out@[i]).x == starts(x as int, widths@, 4, 3, i)
                && out@[i].width == further(widths@[i] as int, 4) && out@[i].y == 0 && out@[i].height == 1,
{
    let mut out: Vec<Rect> = Vec::new();
    let mut at: u16 = x;
    let mut i: usize = 0;
    while i < widths.len()
        invariant
            i <= widths@.len(),
            out@.len() == i,
            at == starts(x as int, widths@, 4, 3, i as int),
            forall|k: int| 0 <= k < i ==> further(#[trigger] starts(x as int, widths@, 4, 3, k), widths@[k] + 4) <= right,
            forall|k: int|
                0 <= k < i ==> (#[trigger] out@[k]).x == starts(x as int, widths@, 4, 3, k)
                    && out@[k].width == further(widths@[k] as int, 4) && out@[k].y == 0 && out@[k].height == 1,
        decreases widths@.len() - i,
    {
        let width: u16 = widths[i].saturating_add(4);
        if at.saturating_add(width) > right {
            return out;
        }
        out.push(Rect { x: at, y: 0, width, height: 1 });
        at = at.saturating_add(width).saturating_add(3);
        i = i + 1;
    }
    out
}

/// Two labels of one row never share a column.
pub proof fn labels_stand_apart(x: int, widths: Seq<u16>, pad: int, gap: int, i: int, j: int)
    requires
        0 <= x,
        0 <= pad,
        0 < gap,
        0 <= i < j <= widths.len(),
        starts(x, widths, pad, gap, j) < u16::MAX,
    ensures
        starts(x, widths, pad, gap, i) + widths[i] + pad < starts(x, widths, pad, gap, j),
    decreases j,
{
    if i + 1 < j {
        labels_stand_apart(x, widths, pad, gap, i, j - 1);
    }
}

/// Whether a remark fits on a row, two cells after what ends at `x`.
pub fn note_fits(x: u16, width: u16, right: u16) -> (r: bool)
    ensures
        r == (x + 2 + width <= right),
{
    x as u32 + 2 + width as u32 <= right as u32
}

// ── Buttons ──────────────────────────────────────────────────────────────

/// A button against the right edge: its label and two cells on each side.
pub open spec fn against_right(right: int, label: int) -> int {
    left_of(right, further(label, 4))
}

pub fn button_at_right(right: u16, label: u16) -> (x: u16)
    ensures
        x == against_right(right as int, label as int),
{
    right.saturating_sub(label.saturating_add(4))
}

/// The two buttons of a warning, the safe one left of the other with two cells
/// between: where each starts.
pub fn gate_buttons(right: u16, safe: u16, go: u16) -> (out: (u16, u16))
    ensures
        out.0 == left_of(right as int, further(further(further(go as int, 4), 2), further(safe as int, 4))),
        out.1 == further(further(out.0 as int, further(safe as int, 4)), 2),
{
    let go_width: u16 = go.saturating_add(4);
    let safe_width: u16 = safe.saturating_add(4);
    let x: u16 = right.saturating_sub(go_width.saturating_add(2).saturating_add(safe_width));
    (x, x.saturating_add(safe_width).saturating_add(2))
}

// ── Tables ───────────────────────────────────────────────────────────────

/// The rows of a table in view: how many there is room for, and the first, at
/// `scroll` unless the table ends before it, moved just far enough that the
/// row to reveal is among them.
pub open spec fn window(len: int, reveal: Option<usize>, scroll: int, room: int) -> (int, int) {
    let visible = if len < room { len } else { room };
    let last = len - visible;
    let first = if scroll < last { scroll } else { last };
    match reveal {
        Some(r) => if r < len && visible > 0 {
            if r < first {
                (r as int, visible)
            } else if r >= first + visible {
                (r + 1 - visible, visible)
            } else {
                (first, visible)
            }
        } else {
            (first, visible)
        },
        None => (first, visible),
    }
}

pub fn table_view(len: usize, reveal: Option<usize>, scroll: usize, room: usize) -> (out: (usize, usize))
    ensures
        (out.0 as int, out.1 as int) == window(len as int, reveal, scroll as int, room as int),
{
    let visible: usize = if len < room { len } else { room };
    let last: usize = len - visible;
    let first: usize = if scroll < last { scroll } else { last };
    match reveal {
        Some(r) => {
            if r < len && visible > 0 {
                if r < first {
                    return (r, visible);
                }
                if r - first >= visible {
                    return (r + 1 - visible, visible);
                }
            }
            (first, visible)
        },
        None => (first, visible),
    }
}

/// The rows in view are rows of the table, as many as there is room for.
pub proof fn the_window_is_full(len: int, reveal: Option<usize>, scroll: int, room: int)
    requires
        0 <= len,
        0 <= scroll,
        0 <= room,
    ensures
        ({
            let (first, visible) = window(len, reveal, scroll, room);
            &&& 0 <= first
            &&& first + visible <= len
            &&& visible <= room
            &&& visible == len || visible == room
        }),
{
}

/// A row to reveal is in view, wherever the table was scrolled to.
pub proof fn the_revealed_row_is_in_view(len: int, row: usize, scroll: int, room: int)
    requires
        row < len,
        0 <= scroll,
        0 < room,
    ensures
        ({
            let (first, visible) = window(len, Some(row), scroll, room);
            first <= row < first + visible
        }),
{
}

/// A table already in view stays where it is: the rows found are found again.
pub proof fn the_window_settles(len: int, reveal: Option<usize>, scroll: int, room: int)
    requires
        0 <= len,
        0 <= scroll,
        0 <= room,
    ensures
        ({
            let (first, visible) = window(len, reveal, scroll, room);
            window(len, reveal, first, room) == (first, visible) && window(len, None, first, room) == (first, visible)
        }),
{
}

// ── Facts in a row ───────────────────────────────────────────────────────

/// What the first `n` of a row of facts take.
pub open spec fn taken(widths: Seq<u16>, n: int) -> int
    decreases n,
{
    if n <= 0 {
        0
    } else {
        taken(widths, n - 1) + widths[n - 1]
    }
}

/// How many of a row of facts are shown: the first always, the others while
/// they all fit.
pub open spec fn facts_shown(widths: Seq<u16>, width: int, n: int) -> bool {
    &&& 1 <= n <= widths.len()
    &&& n > 1 ==> taken(widths, n) <= width
    &&& forall|m: int| n < m <= widths.len() ==> #[trigger] taken(widths, m) > width
}

proof fn taken_grows(widths: Seq<u16>, n: int, m: int)
    requires
        0 <= n <= m <= widths.len(),
    ensures
        0 <= taken(widths, n) <= taken(widths, m) <= taken(widths, n) + (m - n) * u16::MAX,
    decreases m,
{
    if n < m {
        taken_grows(widths, n, m - 1);
    } else if n > 0 {
        taken_grows(widths, n - 1, n - 1);
    }
}

/// The facts that a row of `width` cells holds: the last ones go first, the
/// first one never.
pub fn facts_kept(widths: &Vec<u16>, width: u16) -> (n: usize)
    requires
        widths@.len() > 0,
    ensures
        facts_shown(widths@, width as int, n as int),
{
    let mut n: usize = 1;
    let mut sum: u64 = widths[0] as u64;
    proof {
        reveal_with_fuel(taken, 3);
    }
    while n < widths.len()
        invariant
            1 <= n <= widths@.len(),
            sum == taken(widths@, n as int),
            n > 1 ==> sum <= width,
            sum <= u16::MAX,
        decreases widths@.len() - n,
    {
        let more: u64 = sum + widths[n] as u64;
        if more > width as u64 {
            proof {
                assert forall|m: int| n < m <= widths@.len() implies #[trigger] taken(widths@, m) > width by {
                    taken_grows(widths@, n + 1, m);
                }
            }
            return n;
        }
        sum = more;
        n = n + 1;
    }
    n
}

/// Of two windows the wider shows no fewer facts.
pub proof fn wider_shows_more(widths: Seq<u16>, narrow: int, wide: int, n: int, m: int)
    requires
        facts_shown(widths, narrow, n),
        facts_shown(widths, wide, m),
        narrow <= wide,
    ensures
        n <= m,
{
    if m < n {
        assert(taken(widths, n) > wide);
    }
}

// ── Boxes and grids ──────────────────────────────────────────────────────

/// The colour of a box: lit under the pointer, marked while it is typed into.
pub fn box_tone(hovered: bool, focused: bool) -> (t: Tone)
    ensures
        t == (if hovered {
            Tone::Bright
        } else if focused {
            Tone::Accent
        } else {
            Tone::Dim
        }),
{
    if hovered {
        Tone::Bright
    } else if focused {
        Tone::Accent
    } else {
        Tone::Dim
    }
}

/// The `i`-th place of a grid of three columns, row by row.
pub open spec fn in_grid(at: Rect, i: int) -> Rect {
    Rect {
        x: further(at.x as int, (i % 3) * (at.width as int / 3)) as u16,
        y: further(at.y as int, i / 3) as u16,
        width: left_of(at.width as int / 3, 1) as u16,
        height: 1,
    }
}

pub fn grid_place(at: Rect, i: u16) -> (r: Rect)
    ensures
        r == in_grid(at, i as int),
{
    let w: u16 = at.width / 3;
    proof {
        assert(0 <= (i % 3) * w <= 2 * w) by (nonlinear_arith)
            requires
                0 <= w,
        ;
    }
    Rect {
        x: at.x.saturating_add((i % 3) * w),
        y: at.y.saturating_add(i / 3),
        width: w.saturating_sub(1),
        height: 1,
    }
}

/// Two places of a grid never share a cell, and each lies within its columns.
pub proof fn grids_stand_apart(at: Rect, i: int, j: int)
    requires
        at.x + at.width <= u16::MAX,
        at.y + j / 3 <= u16::MAX,
        3 <= at.width,
        0 <= i < j,
    ensures
        in_grid(at, i).y == in_grid(at, j).y ==> in_grid(at, i).x + in_grid(at, i).width < in_grid(at, j).x,
        at.x <= in_grid(at, i).x,
        in_grid(at, i).x + in_grid(at, i).width < at.x + at.width,
{
    let w = at.width as int / 3;
    let (a, b) = (i % 3, j % 3);
    assert(0 <= a * w <= 2 * w) by (nonlinear_arith)
        requires
            0 <= a <= 2,
            0 <= w,
    ;
    assert(0 <= b * w <= 2 * w) by (nonlinear_arith)
        requires
            0 <= b <= 2,
            0 <= w,
    ;
    if i / 3 == j / 3 {
        assert(a < b);
        assert(a * w + w <= b * w) by (nonlinear_arith)
            requires
                a + 1 <= b,
                0 <= w,
        ;
    }
}

// ── Facts after a head, and choices over several rows ────────────────────

/// What a head and the first `n` facts after it take, three cells before each.
pub open spec fn strung(head: int, widths: Seq<u16>, n: int) -> int
    decreases n,
{
    if n <= 0 {
        head
    } else {
        strung(head, widths, n - 1) + widths[n - 1] + 3
    }
}

/// How many facts are shown after a head: as many from the first as fit, the
/// last ones gone first.
pub open spec fn strung_shown(head: int, widths: Seq<u16>, width: int, n: int) -> bool {
    &&& 0 <= n <= widths.len()
    &&& n > 0 ==> strung(head, widths, n) <= width
    &&& forall|m: int| n < m <= widths.len() ==> #[trigger] strung(head, widths, m) > width
}

proof fn strings_grow(head: int, widths: Seq<u16>, n: int, m: int)
    requires
        0 <= n <= m <= widths.len(),
    ensures
        strung(head, widths, n) <= strung(head, widths, m),
    decreases m,
{
    if n < m {
        strings_grow(head, widths, n, m - 1);
    }
}

pub fn strung_kept(head: u16, widths: &Vec<u16>, width: u16) -> (n: usize)
    ensures
        strung_shown(head as int, widths@, width as int, n as int),
{
    let mut n: usize = 0;
    let mut sum: u64 = head as u64;
    while n < widths.len()
        invariant
            n <= widths@.len(),
            sum == strung(head as int, widths@, n as int),
            n > 0 ==> sum <= width,
            sum <= u16::MAX,
        decreases widths@.len() - n,
    {
        let more: u64 = sum + widths[n] as u64 + 3;
        if more > width as u64 {
            proof {
                assert forall|m: int| n < m <= widths@.len() implies #[trigger] strung(head as int, widths@, m) > width by {
                    strings_grow(head as int, widths@, n + 1, m);
                }
            }
            return n;
        }
        sum = more;
        n = n + 1;
    }
    n
}

/// The row and column of the `i`-th choice where they wrap to a width: one
/// that would cross it starts the next row.
pub open spec fn wrapped(widths: Seq<u16>, width: int, i: int) -> (int, int)
    decreases i,
{
    if i <= 0 {
        (0, 0)
    } else {
        let (row, x) = wrapped(widths, width, i - 1);
        let next = x + widths[i - 1] + 7;
        if next + widths[i] + 4 > width { (row + 1, 0) } else { (row, next) }
    }
}

pub fn wrap_places(widths: &Vec<u16>, width: u16) -> (out: Vec<(usize, u32)>)
    ensures
        out@.len() == widths@.len(),
        forall|i: int|
            0 <= i < out@.len() ==> ((#[trigger] out@[i]).0 as int, out@[i].1 as int) == wrapped(widths@, width as int, i),
{
    let mut out: Vec<(usize, u32)> = Vec::new();
    let mut row: usize = 0;
    let mut x: u32 = 0;
    let mut i: usize = 0;
    while i < widths.len()
        invariant
            i <= widths@.len(),
            out@.len() == i,
            i < widths@.len() ==> (row as int, x as int) == wrapped(widths@, width as int, i as int),
            row <= i,
            x <= u16::MAX,
            forall|k: int|
                0 <= k < i ==> ((#[trigger] out@[k]).0 as int, out@[k].1 as int) == wrapped(widths@, width as int, k),
        decreases widths@.len() - i,
    {
        out.push((row, x));
        let next: u32 = x + widths[i] as u32 + 7;
        i = i + 1;
        if i < widths.len() {
            if next + widths[i] as u32 + 4 > width as u32 {
                row = row + 1;
                x = 0;
            } else {
                x = next;
            }
        }
    }
    out
}

/// How many rows the choices take, at least one.
pub open spec fn rows_taken(widths: Seq<u16>, width: int) -> int {
    if widths.len() == 0 { 1 } else { wrapped(widths, width, widths.len() - 1).0 + 1 }
}

/// A choice that wraps lies within the width, unless it is alone on its row
/// and wider than that; choices of one row stand three cells apart.
pub proof fn choices_wrap_within(widths: Seq<u16>, width: int, i: int)
    requires
        0 <= i < widths.len(),
    ensures
        ({
            let (row, x) = wrapped(widths, width, i);
            &&& 0 <= row <= i
            &&& 0 <= x
            &&& x > 0 ==> x + widths[i] + 4 <= width
            &&& i + 1 < widths.len() ==> ({
                let (next_row, next_x) = wrapped(widths, width, i + 1);
                (next_row == row && next_x == x + widths[i] + 4 + 3) || (next_row == row + 1 && next_x == 0)
            })
        }),
    decreases i,
{
    if i > 0 {
        choices_wrap_within(widths, width, i - 1);
    }
}

} // verus!
