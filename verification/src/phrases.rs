//! Phrases of the catalogue, as the reader's language has them.

use vstd::prelude::*;

use crate::outside::fill_gaps;
use crate::text::{decimal, same};

verus! {

use crate::outside::gaps_filled;
use crate::text::{dec, texts};

/// Phrases of the catalogue: the key of each, and its words with the gaps left
/// open.
#[derive(Debug, PartialEq)]
pub struct Phrases {
    pub list: Vec<(String, String)>,
}

/// The words behind a key: those of the last phrase with it, or the key itself.
pub open spec fn phrase_in(list: Seq<(String, String)>, key: Seq<char>) -> Seq<char>
    decreases list.len(),
{
    if list.len() == 0 {
        key
    } else if list.last().0@ == key {
        list.last().1@
    } else {
        phrase_in(list.drop_last(), key)
    }
}

/// A whole number in decimal, with its sign.
pub open spec fn signed(n: int) -> Seq<char> {
    if n < 0 {
        seq!['-'] + dec((-n) as nat)
    } else {
        dec(n as nat)
    }
}

/// A whole number in decimal, with its sign.
pub fn signed_decimal(n: i64) -> (out: String)
    ensures
        out@ == signed(n as int),
{
    if n < 0 {
        let mut out: String = String::new();
        out.push('-');
        let size: u64 = (-(n + 1)) as u64 + 1;
        out.append(decimal(size).as_str());
        proof {
            assert(out@ =~= signed(n as int));
        }
        out
    } else {
        decimal(n as u64)
    }
}

impl Phrases {
    /// The words behind a key.
    pub open spec fn of(self, key: Seq<char>) -> Seq<char> {
        phrase_in(self.list@, key)
    }

    /// The words behind a key.
    pub fn phrase(&self, key: &str) -> (out: String)
        ensures
            out@ == self.of(key@),
    {
        let mut i: usize = self.list.len();
        proof {
            assert(self.list@.take(i as int) =~= self.list@);
        }
        while i > 0
            invariant
                i <= self.list@.len(),
                self.of(key@) == phrase_in(self.list@.take(i as int), key@),
            decreases i,
        {
            proof {
                assert(self.list@.take(i as int).drop_last() =~= self.list@.take(i - 1));
            }
            if same(self.list[i - 1].0.as_str(), key) {
                return self.list[i - 1].1.clone();
            }
            i -= 1;
        }
        key.to_owned()
    }

    /// The words behind a key, with one gap.
    pub fn with_one(&self, key: &str, name: &'static str, value: String) -> (out: String)
        requires
            !name@.contains('%'),
        ensures
            out@ == gaps_filled(self.of(key@), seq![name@], seq![value@]),
    {
        let mut names: Vec<&'static str> = Vec::new();
        names.push(name);
        let mut values: Vec<String> = Vec::new();
        values.push(value);
        proof {
            assert(names@.map_values(|n: &'static str| n@) =~= seq![name@]);
            assert(texts(values@) =~= seq![value@]);
        }
        fill_gaps(self.phrase(key).as_str(), &names, &values)
    }

    /// The words behind a key, with two gaps.
    pub fn with_two(&self, key: &str, name: &'static str, value: String, name2: &'static str, value2: String) -> (out: String)
        requires
            !name@.contains('%'),
            !name2@.contains('%'),
        ensures
            out@ == gaps_filled(self.of(key@), seq![name@, name2@], seq![value@, value2@]),
    {
        let mut names: Vec<&'static str> = Vec::new();
        names.push(name);
        names.push(name2);
        let mut values: Vec<String> = Vec::new();
        values.push(value);
        values.push(value2);
        proof {
            assert(names@.map_values(|n: &'static str| n@) =~= seq![name@, name2@]);
            assert(texts(values@) =~= seq![value@, value2@]);
        }
        fill_gaps(self.phrase(key).as_str(), &names, &values)
    }
}

} // verus!
