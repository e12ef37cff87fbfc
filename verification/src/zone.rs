//! A time zone, as the offsets it had and will have, and the wall clock there.

use vstd::prelude::*;

use crate::clock::{civil_from_days, floor_div, floor_mod};

verus! {

use crate::clock::{date_of, date_of_is, valid_date};

/// From an instant on, the zone is this far ahead of UTC, in seconds.
#[derive(Clone, Copy, Debug, PartialEq, Eq, Structural)]
pub struct Change {
    pub at: i64,
    pub offset: i32,
}

/// A zone: its name, its first offset, and the changes since, in order.
#[derive(Debug, PartialEq)]
pub struct Zone {
    pub name: String,
    pub base: i32,
    pub changes: Vec<Change>,
}

/// The offset at an instant: that of the last change at or before it.
pub open spec fn offset_in(base: i32, changes: Seq<Change>, t: int) -> i32
    decreases changes.len(),
{
    if changes.len() == 0 {
        base
    } else if changes.last().at <= t {
        changes.last().offset
    } else {
        offset_in(base, changes.drop_last(), t)
    }
}

/// The offset at an instant; without a zone the clock is UTC's.
pub open spec fn offset_of(zone: Option<Zone>, t: int) -> i32 {
    match zone {
        Some(z) => offset_in(z.base, z.changes@, t),
        None => 0,
    }
}

impl Zone {
    /// The offset at an instant, in seconds ahead of UTC.
    pub fn offset_at(&self, t: i64) -> (offset: i32)
        ensures
            offset == offset_in(self.base, self.changes@, t as int),
    {
        let mut i: usize = self.changes.len();
        proof {
            assert(self.changes@.take(i as int) =~= self.changes@);
        }
        while i > 0
            invariant
                i <= self.changes@.len(),
                offset_in(self.base, self.changes@, t as int) == offset_in(self.base, self.changes@.take(i as int), t as int),
            decreases i,
        {
            proof {
                assert(self.changes@.take(i as int).drop_last() =~= self.changes@.take(i - 1));
            }
            if self.changes[i - 1].at <= t {
                return self.changes[i - 1].offset;
            }
            i -= 1;
        }
        self.base
    }
}

/// The offset at an instant; without a zone the clock is UTC's.
pub fn offset_at(zone: &Option<Zone>, t: i64) -> (offset: i32)
    ensures
        offset == offset_of(*zone, t as int),
{
    match zone {
        Some(z) => z.offset_at(t),
        None => 0,
    }
}

/// A wall clock's reading.
#[derive(Clone, Copy, Debug, PartialEq, Eq, Structural)]
pub struct Wall {
    /// Days from 1970.
    pub days: i64,
    pub year: i64,
    pub month: u32,
    pub day: u32,
    pub hour: u32,
    pub minute: u32,
}

/// The wall clock's reading at an instant, some seconds ahead of UTC.
pub open spec fn is_wall(w: Wall, t: int, offset: int) -> bool {
    let local = t + offset;
    &&& w.days == local / 86400
    &&& (w.year as int, w.month as int, w.day as int) == date_of(local / 86400)
    &&& valid_date(w.year as int, w.month as int, w.day as int)
    &&& w.hour == local % 86400 / 3600
    &&& w.minute == local % 3600 / 60
}

/// The seconds of an hour are those of the day, less its hours.
proof fn minutes_of_the_hour(a: int)
    ensures
        a % 86400 % 3600 == a % 3600,
        0 <= a % 86400 / 3600 < 24,
        0 <= a % 3600 / 60 < 60,
{
}

/// The wall clock's reading at an instant, some seconds ahead of UTC.
#[verifier::spinoff_prover]
pub fn local_parts(t: i64, offset: i32) -> (w: Wall)
    requires
        i64::MIN <= t + offset <= i64::MAX,
    ensures
        is_wall(w, t as int, offset as int),
        -1_000_000_000_000 <= w.year <= 1_000_000_000_000,
{
    let local: i64 = t + offset as i64;
    let days: i64 = floor_div(local, 86_400);
    let rem: i64 = floor_mod(local, 86_400);
    let (year, month, day) = civil_from_days(days);
    proof {
        date_of_is(days as int, year as int, month as int, day as int);
        minutes_of_the_hour(local as int);
    }
    Wall { days, year, month, day, hour: (rem / 3600) as u32, minute: (rem % 3600 / 60) as u32 }
}

} // verus!
