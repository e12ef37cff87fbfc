//! What every screen shares: how its loop ends, and cursors that wrap.

use vstd::prelude::*;

verus! {

/// How a screen's loop ended.
#[derive(Clone, Copy, Debug, PartialEq, Eq, Structural)]
pub enum Outcome {
    Quit,
}

/// The choice after `i` among `n`, the first after the last.
pub open spec fn after(i: int, n: int) -> int {
    if i % n + 1 == n { 0 } else { i % n + 1 }
}

/// The choice before `i` among `n`, the last before the first.
pub open spec fn before(i: int, n: int) -> int {
    if i % n == 0 { n - 1 } else { i % n - 1 }
}

pub fn next_choice(i: usize, n: usize) -> (r: usize)
    requires
        n > 0,
    ensures
        r == after(i as int, n as int),
        r < n,
{
    let c: usize = i % n;
    if c + 1 == n { 0 } else { c + 1 }
}

pub fn previous_choice(i: usize, n: usize) -> (r: usize)
    requires
        n > 0,
    ensures
        r == before(i as int, n as int),
        r < n,
{
    let c: usize = i % n;
    if c == 0 { n - 1 } else { c - 1 }
}

/// A step forward and one back leave a choice where it was.
pub proof fn steps_undo(i: int, n: int)
    requires
        0 <= i < n,
    ensures
        before(after(i, n), n) == i,
        after(before(i, n), n) == i,
{
    vstd::arithmetic::div_mod::lemma_small_mod(i as nat, n as nat);
    if i + 1 < n {
        vstd::arithmetic::div_mod::lemma_small_mod((i + 1) as nat, n as nat);
    }
    if i > 0 {
        vstd::arithmetic::div_mod::lemma_small_mod((i - 1) as nat, n as nat);
    }
    vstd::arithmetic::div_mod::lemma_small_mod((n - 1) as nat, n as nat);
    vstd::arithmetic::div_mod::lemma_small_mod(0, n as nat);
}

/// The row below the cursor, or the first; the last row stays.
pub open spec fn row_down(sel: Option<usize>, n: int) -> Option<usize> {
    match sel {
        Some(s) => Some((if s + 1 < n { s + 1 } else { n - 1 }) as usize),
        None => Some(0),
    }
}

/// The row above the cursor, or the last; the first row stays.
pub open spec fn row_up(sel: Option<usize>, n: int) -> Option<usize> {
    match sel {
        Some(s) => Some((if s > 0 { s - 1 } else { 0 }) as usize),
        None => Some((n - 1) as usize),
    }
}

pub fn cursor_down(sel: Option<usize>, n: usize) -> (r: Option<usize>)
    requires
        n > 0,
    ensures
        r == row_down(sel, n as int),
{
    match sel {
        Some(s) => if s < n - 1 { Some(s + 1) } else { Some(n - 1) },
        None => Some(0),
    }
}

pub fn cursor_up(sel: Option<usize>, n: usize) -> (r: Option<usize>)
    requires
        n > 0,
    ensures
        r == row_up(sel, n as int),
{
    match sel {
        Some(s) => if s > 0 { Some(s - 1) } else { Some(0) },
        None => Some(n - 1),
    }
}

/// The cursor on a list that now has `n` rows: a row that exists, or none.
pub open spec fn kept(sel: Option<usize>, n: int) -> Option<usize> {
    match sel {
        Some(s) => if n == 0 {
            None
        } else if s < n {
            Some(s)
        } else {
            Some((n - 1) as usize)
        },
        None => None,
    }
}

pub fn keep_cursor(sel: Option<usize>, n: usize) -> (r: Option<usize>)
    ensures
        r == kept(sel, n as int),
        r matches Some(s) ==> s < n,
{
    match sel {
        Some(s) => if n == 0 {
            None
        } else if s < n {
            Some(s)
        } else {
            Some(n - 1)
        },
        None => None,
    }
}

/// `i`, or the last of `n` where there is no such row.
pub open spec fn within(i: int, n: int) -> int {
    if i < n {
        i
    } else if n > 0 {
        n - 1
    } else {
        0
    }
}

pub fn clamp_row(i: usize, n: usize) -> (r: usize)
    ensures
        r == within(i as int, n as int),
{
    if i < n {
        i
    } else if n > 0 {
        n - 1
    } else {
        0
    }
}

/// A scroll position one line up or down, never below zero.
pub open spec fn scrolled(at: usize, up: bool) -> usize {
    if up {
        if at == 0 { 0 } else { (at - 1) as usize }
    } else {
        if at == usize::MAX { at } else { (at + 1) as usize }
    }
}

pub fn scroll(at: usize, up: bool) -> (r: usize)
    ensures
        r == scrolled(at, up),
{
    if up {
        if at == 0 { 0 } else { at - 1 }
    } else {
        if at == usize::MAX { at } else { at + 1 }
    }
}

/// The place of the first of a list's ids that is `id`.
pub open spec fn place_of<A>(ids: Seq<A>, id: A) -> Option<int>
    decreases ids.len(),
{
    if ids.len() == 0 {
        None
    } else {
        match place_of(ids.drop_last(), id) {
            Some(i) => Some(i),
            None => if ids.last() == id {
                Some(ids.len() - 1)
            } else {
                None
            },
        }
    }
}

/// A place that is found holds the id asked for, and no place before it does.
pub proof fn place_holds<A>(ids: Seq<A>, id: A)
    ensures
        match place_of(ids, id) {
            Some(i) => 0 <= i < ids.len() && ids[i] == id && forall|k: int| 0 <= k < i ==> ids[k] != id,
            None => forall|k: int| 0 <= k < ids.len() ==> ids[k] != id,
        },
    decreases ids.len(),
{
    if ids.len() > 0 {
        place_holds(ids.drop_last(), id);
        assert forall|k: int| 0 <= k < ids.len() - 1 implies #[trigger] ids[k] == ids.drop_last()[k] by {}
    }
}

/// A place with the id, and none before it, is the one that is found.
pub proof fn first_place<A>(ids: Seq<A>, id: A, i: int)
    requires
        0 <= i <= ids.len(),
        forall|k: int| 0 <= k < i ==> ids[k] != id,
        i < ids.len() ==> ids[i] == id,
    ensures
        place_of(ids, id) == (if i < ids.len() { Some(i) } else { None }),
{
    place_holds(ids, id);
}

} // verus!
