//! Characters, numbers and the short texts the rooms show.

use vstd::prelude::*;

verus! {

/// `std`'s `String::push`: appends one character.
pub assume_specification[ String::push ](s: &mut String, c: char)
    ensures
        final(s)@ == old(s)@.push(c),
;

/// The characters of a text, in order.
pub fn chars_of(s: &str) -> (out: Vec<char>)
    ensures
        out@ == s@,
{
    let mut out: Vec<char> = Vec::new();
    for c in it: s.chars()
        invariant
            it.seq() == s@,
            out@ == s@.take(it.index() as int),
    {
        proof {
            assert(s@.take(it.index() + 1) == s@.take(it.index() as int).push(c));
        }
        out.push(c);
    }
    proof {
        assert(s@.take(s@.len() as int) == s@);
    }
    out
}

/// The part of `cs` from `from` up to `to`, as a text.
pub fn text_of(cs: &Vec<char>, from: usize, to: usize) -> (out: String)
    requires
        from <= to <= cs@.len(),
    ensures
        out@ == cs@.subrange(from as int, to as int),
{
    let mut out: String = String::new();
    let mut i: usize = from;
    while i < to
        invariant
            from <= i <= to <= cs@.len(),
            out@ == cs@.subrange(from as int, i as int),
        decreases to - i,
    {
        proof {
            assert(cs@.subrange(from as int, i + 1) == cs@.subrange(from as int, i as int).push(cs@[i as int]));
        }
        out.push(cs[i]);
        i += 1;
    }
    out
}

/// Whether two texts hold the same characters.
pub fn same(a: &str, b: &str) -> (r: bool)
    ensures
        r == (a@ == b@),
{
    let x = chars_of(a);
    let y = chars_of(b);
    if x.len() != y.len() {
        return false;
    }
    let mut i: usize = 0;
    while i < x.len()
        invariant
            x@ == a@,
            y@ == b@,
            x@.len() == y@.len(),
            i <= x@.len(),
            forall|k: int| 0 <= k < i ==> x@[k] == y@[k],
        decreases x@.len() - i,
    {
        if x[i] != y[i] {
            return false;
        }
        i += 1;
    }
    proof {
        assert(a@ =~= b@);
    }
    true
}

/// Whether an optional text is what it should be.
pub open spec fn is_text(o: Option<String>, want: Option<Seq<char>>) -> bool {
    match want {
        Some(t) => o matches Some(s) && s@ == t,
        None => o is None,
    }
}

// ── Numbers ──────────────────────────────────────────────────────────────

/// The character of a decimal digit.
pub open spec fn digit(d: int) -> char {
    (48 + d) as char
}

/// A natural number in decimal, without leading zeros.
pub open spec fn dec(n: nat) -> Seq<char>
    decreases n,
{
    if n < 10 {
        seq![digit(n as int)]
    } else {
        dec(n / 10).push(digit((n % 10) as int))
    }
}

/// A natural number in decimal, zero-padded on the left to `w` digits.
pub open spec fn padded(n: nat, w: nat) -> Seq<char> {
    Seq::new((if w > dec(n).len() { w - dec(n).len() } else { 0 }) as nat, |i: int| '0') + dec(n)
}

/// A number is written in digits, at least one.
pub proof fn decimals_are_digits(n: nat)
    ensures
        dec(n).len() > 0,
        forall|i: int| 0 <= i < dec(n).len() ==> is_digit(#[trigger] dec(n)[i]),
    decreases n,
{
    if n >= 10 {
        decimals_are_digits(n / 10);
        assert forall|i: int| 0 <= i < dec(n).len() implies is_digit(#[trigger] dec(n)[i]) by {
            if i < dec(n / 10).len() {
                assert(dec(n)[i] == dec(n / 10)[i]);
            } else {
                assert(dec(n)[i] == digit((n % 10) as int));
            }
        }
    } else {
        assert(dec(n)[0] == digit(n as int));
    }
}

/// The last three digits of a number from a thousand on.
proof fn last_three(n: nat)
    requires
        n >= 1000,
    ensures
        dec(n) == dec(n / 1000) + seq![
            digit((n / 100 % 10) as int),
            digit((n / 10 % 10) as int),
            digit((n % 10) as int),
        ],
{
    let (a, b) = (n / 10, n / 100);
    assert(a / 10 == b);
    assert(b / 10 == n / 1000);
    assert(dec(n) == dec(a).push(digit((n % 10) as int)));
    assert(dec(a) == dec(b).push(digit((a % 10) as int)));
    assert(dec(b) == dec(n / 1000).push(digit((b % 10) as int)));
    assert(dec(n) =~= dec(n / 1000) + seq![
        digit((n / 100 % 10) as int),
        digit((n / 10 % 10) as int),
        digit((n % 10) as int),
    ]);
}

/// Three digits of a number below a thousand.
proof fn padded_three(r: nat)
    requires
        r < 1000,
    ensures
        padded(r, 3) == seq![digit((r / 100) as int), digit((r / 10 % 10) as int), digit((r % 10) as int)],
{
    let a = r / 10;
    if r >= 10 {
        assert(dec(r) == dec(a).push(digit((r % 10) as int)));
        if r >= 100 {
            assert(a / 10 == r / 100);
            assert(dec(a) == dec(a / 10).push(digit((a % 10) as int)));
        }
    }
    assert(padded(r, 3) =~= seq![digit((r / 100) as int), digit((r / 10 % 10) as int), digit((r % 10) as int)]);
}

/// The separators are the only difference: without its commas, a grouped
/// number is the number in decimal.
pub proof fn grouping_only_adds_commas(n: nat)
    ensures
        grouped(n).filter(|c: char| c != ',') == dec(n),
    decreases n,
{
    let keep = |c: char| c != ',';
    if n < 1000 {
        decimals_are_digits(n);
        all_kept(dec(n), keep);
    } else {
        let (q, r) = (n / 1000, n % 1000);
        grouping_only_adds_commas(q);
        last_three(n);
        padded_three(r);
        digits_of_the_rest(n);
        let tail = padded(r, 3);
        all_kept(tail, keep);
        Seq::filter_distributes_over_add(grouped(q).push(','), tail, keep);
        comma_dropped(grouped(q), keep);
    }
}

/// The last three digits of a number are those of what is left over from its
/// thousands.
proof fn digits_of_the_rest(n: nat)
    ensures
        n % 1000 / 100 == n / 100 % 10,
        n % 1000 / 10 % 10 == n / 10 % 10,
        n % 1000 % 10 == n % 10,
{
    let (q, r) = (n / 1000, n % 1000);
    assert(n / 100 == 10 * q + r / 100);
    assert(n / 10 == 100 * q + r / 10);
}

proof fn comma_dropped(s: Seq<char>, keep: spec_fn(char) -> bool)
    requires
        !keep(','),
    ensures
        s.push(',').filter(keep) == s.filter(keep),
{
    reveal(Seq::filter);
    assert(s.push(',').drop_last() =~= s);
}

proof fn all_kept(s: Seq<char>, keep: spec_fn(char) -> bool)
    requires
        forall|i: int| 0 <= i < s.len() ==> keep(#[trigger] s[i]),
    ensures
        s.filter(keep) == s,
    decreases s.len(),
{
    reveal(Seq::filter);
    if s.len() > 0 {
        all_kept(s.drop_last(), keep);
        assert(s.drop_last().push(s.last()) =~= s);
    } else {
        assert(s.filter(keep) =~= s);
    }
}

/// A decimal digit as a character.
pub fn digit_char(d: u8) -> (c: char)
    requires
        d < 10,
    ensures
        c == digit(d as int),
{
    (48 + d) as char
}

/// `n` in decimal.
pub fn decimal(n: u64) -> (out: String)
    ensures
        out@ == dec(n as nat),
    decreases n,
{
    if n < 10 {
        let mut out: String = String::new();
        out.push(digit_char(n as u8));
        proof {
            assert(out@ =~= dec(n as nat));
        }
        out
    } else {
        let mut out: String = decimal(n / 10);
        out.push(digit_char((n % 10) as u8));
        out
    }
}

/// `n` in decimal, padded with zeros to `w` digits.
pub fn zero_padded(n: u64, w: usize) -> (out: String)
    ensures
        out@ == padded(n as nat, w as nat),
{
    let digits = decimal(n);
    let have: usize = digits.as_str().unicode_len();
    let mut out: String = String::new();
    let mut i: usize = have;
    while i < w
        invariant
            have as nat == dec(n as nat).len(),
            have <= i <= w || (i == have && have > w),
            out@ == Seq::new((i - have) as nat, |k: int| '0'),
        decreases w - i,
    {
        out.push('0');
        i += 1;
        proof {
            assert(out@ =~= Seq::new((i - have) as nat, |k: int| '0'));
        }
    }
    out.append(digits.as_str());
    out
}


/// A natural number in decimal with a comma before every group of three.
pub open spec fn grouped(n: nat) -> Seq<char>
    decreases n,
{
    if n < 1000 {
        dec(n)
    } else {
        grouped(n / 1000).push(',') + padded(n % 1000, 3)
    }
}

/// `n` with thousands separators: `12,204`.
pub fn fmt_count(n: u64) -> (out: String)
    ensures
        out@ == grouped(n as nat),
    decreases n,
{
    if n < 1000 {
        decimal(n)
    } else {
        let mut out: String = fmt_count(n / 1000);
        out.push(',');
        out.append(zero_padded(n % 1000, 3).as_str());
        out
    }
}

/// The quotient of `n` by `d` rounded to the nearest whole number, a tie to
/// the even one.
pub open spec fn nearest_even(n: nat, d: nat) -> nat
    recommends
        d > 0,
{
    let q = n / d;
    let r = n % d;
    if 2 * r > d || (2 * r == d && q % 2 == 1) {
        q + 1
    } else {
        q
    }
}

/// The gap between two neighbouring doubles at `n`: 1 up to 2^53, then twice
/// as much at every power of two.
pub open spec fn double_gap(n: nat) -> nat {
    if n < 0x20_0000_0000_0000 {
        1
    } else if n < 0x40_0000_0000_0000 {
        2
    } else if n < 0x80_0000_0000_0000 {
        4
    } else if n < 0x100_0000_0000_0000 {
        8
    } else if n < 0x200_0000_0000_0000 {
        16
    } else if n < 0x400_0000_0000_0000 {
        32
    } else if n < 0x800_0000_0000_0000 {
        64
    } else if n < 0x1000_0000_0000_0000 {
        128
    } else if n < 0x2000_0000_0000_0000 {
        256
    } else if n < 0x4000_0000_0000_0000 {
        512
    } else if n < 0x8000_0000_0000_0000 {
        1024
    } else {
        2048
    }
}

/// The double nearest to `n`: what the byte counts are measured by.
pub open spec fn as_double(n: nat) -> nat {
    nearest_even(n, double_gap(n)) * double_gap(n)
}

/// `n` divided by `unit` with one decimal, and the unit's name.
pub open spec fn one_decimal(n: nat, unit: nat, name: Seq<char>) -> Seq<char> {
    let tenths = nearest_even(as_double(n) * 10, unit);
    dec(tenths / 10).push('.').push(digit((tenths % 10) as int)) + name
}

/// A byte count in words: GB past a gigabyte, MB past a megabyte, whole KB
/// (rounded up) below.
pub open spec fn bytes_text(n: nat) -> Seq<char> {
    if n >= 0x4000_0000 {
        one_decimal(n, 0x4000_0000, " GB"@)
    } else if n >= 0x10_0000 {
        one_decimal(n, 0x10_0000, " MB"@)
    } else {
        dec((n + 1023) / 1024) + " KB"@
    }
}

fn gap_of(n: u64) -> (g: u128)
    ensures
        g as nat == double_gap(n as nat),
{
    if n < 0x20_0000_0000_0000 {
        1
    } else if n < 0x40_0000_0000_0000 {
        2
    } else if n < 0x80_0000_0000_0000 {
        4
    } else if n < 0x100_0000_0000_0000 {
        8
    } else if n < 0x200_0000_0000_0000 {
        16
    } else if n < 0x400_0000_0000_0000 {
        32
    } else if n < 0x800_0000_0000_0000 {
        64
    } else if n < 0x1000_0000_0000_0000 {
        128
    } else if n < 0x2000_0000_0000_0000 {
        256
    } else if n < 0x4000_0000_0000_0000 {
        512
    } else if n < 0x8000_0000_0000_0000 {
        1024
    } else {
        2048
    }
}

fn round_even(n: u128, d: u128) -> (q: u128)
    requires
        0 < d <= 0x4000_0000,
        n <= 0x1_0000_0000_0000_0000_0000,
    ensures
        q as nat == nearest_even(n as nat, d as nat),
        q <= n / d + 1,
{
    let q: u128 = n / d;
    let r: u128 = n % d;
    proof {
        assert(q <= n) by (nonlinear_arith)
            requires
                q == n / d,
                d > 0,
        ;
    }
    if 2 * r > d || (2 * r == d && q % 2 == 1) {
        q + 1
    } else {
        q
    }
}

/// The double nearest to `n`.
pub fn double_of(n: u64) -> (d: u128)
    ensures
        d as nat == as_double(n as nat),
        d <= 0x1_0000_0000_0000_0000,
        n > 0 ==> d > 0,
{
    let gap: u128 = gap_of(n);
    let whole: u128 = round_even(n as u128, gap);
    proof {
        assert(whole * gap <= n + gap) by (nonlinear_arith)
            requires
                whole <= n as u128 / gap + 1,
                gap > 0,
        ;
    }
    whole * gap
}

/// A number that is not zero has a double that is not.
pub proof fn doubles_are_positive(n: nat)
    requires
        0 < n <= u64::MAX,
    ensures
        as_double(n) > 0,
{
    let g = double_gap(n);
    assert(n / g >= 1) by (nonlinear_arith)
        requires
            n >= g,
            g > 0,
    ;
    assert(nearest_even(n, g) * g > 0) by (nonlinear_arith)
        requires
            nearest_even(n, g) >= 1,
            g > 0,
    ;
}

fn decimal_with_tenth(n: u64, unit: u128, name: &str) -> (out: String)
    requires
        unit == 0x4000_0000 || unit == 0x10_0000,
    ensures
        out@ == one_decimal(n as nat, unit as nat, name@),
{
    let tenths: u128 = round_even(double_of(n) * 10, unit);
    let mut out: String = decimal((tenths / 10) as u64);
    out.push('.');
    out.push(digit_char((tenths % 10) as u8));
    out.append(name);
    out
}

/// The byte count in words: `23.0 MB`.
pub fn fmt_bytes(n: u64) -> (out: String)
    ensures
        out@ == bytes_text(n as nat),
{
    if n >= 0x4000_0000 {
        decimal_with_tenth(n, 0x4000_0000, " GB")
    } else if n >= 0x10_0000 {
        decimal_with_tenth(n, 0x10_0000, " MB")
    } else {
        let mut out: String = decimal((n + 1023) / 1024);
        out.append(" KB");
        out
    }
}

// ── Cutting and cleaning ─────────────────────────────────────────────────

/// Unicode white space.
pub open spec fn white(c: char) -> bool {
    let u = c as u32;
    ||| 9 <= u <= 13
    ||| u == 32
    ||| u == 0x85
    ||| u == 0xa0
    ||| u == 0x1680
    ||| 0x2000 <= u <= 0x200a
    ||| u == 0x2028
    ||| u == 0x2029
    ||| u == 0x202f
    ||| u == 0x205f
    ||| u == 0x3000
}

/// A character that shows itself: not a control character, and none of the
/// marks that reorder a reader.
pub open spec fn shows(c: char) -> bool {
    let u = c as u32;
    !(u <= 0x1f || 0x7f <= u <= 0x9f || 0x202a <= u <= 0x202e || 0x2066 <= u <= 0x2069)
}

/// A control character.
pub open spec fn control(c: char) -> bool {
    let u = c as u32;
    u <= 0x1f || 0x7f <= u <= 0x9f
}

/// An ASCII hexadecimal digit.
pub open spec fn hex_digit(c: char) -> bool {
    ('0' <= c <= '9') || ('a' <= c <= 'f') || ('A' <= c <= 'F')
}

/// An ASCII decimal digit.
pub open spec fn is_digit(c: char) -> bool {
    '0' <= c <= '9'
}

/// `s` without the white space it begins with.
pub open spec fn trim_start(s: Seq<char>) -> Seq<char>
    decreases s.len(),
{
    if s.len() > 0 && white(s[0]) {
        trim_start(s.skip(1))
    } else {
        s
    }
}

/// `s` without the white space it ends with.
pub open spec fn trim_end(s: Seq<char>) -> Seq<char>
    decreases s.len(),
{
    if s.len() > 0 && white(s.last()) {
        trim_end(s.drop_last())
    } else {
        s
    }
}

/// `s` without the white space around it.
pub open spec fn trimmed(s: Seq<char>) -> Seq<char> {
    trim_end(trim_start(s))
}

/// At most the first `n` elements.
pub open spec fn at_most(s: Seq<char>, n: int) -> Seq<char> {
    if s.len() <= n {
        s
    } else {
        s.take(n)
    }
}

/// What [`printable`] makes of a text.
pub open spec fn printed(raw: Seq<char>, cap: nat) -> Seq<char> {
    at_most(trimmed(raw.filter(|c: char| shows(c))), cap as int)
}

pub fn is_white(c: char) -> (r: bool)
    ensures
        r == white(c),
{
    let u: u32 = c as u32;
    (9 <= u && u <= 13) || u == 32 || u == 0x85 || u == 0xa0 || u == 0x1680 || (0x2000 <= u && u <= 0x200a)
        || u == 0x2028 || u == 0x2029 || u == 0x202f || u == 0x205f || u == 0x3000
}

pub fn is_control(c: char) -> (r: bool)
    ensures
        r == control(c),
{
    let u: u32 = c as u32;
    u <= 0x1f || (0x7f <= u && u <= 0x9f)
}

fn is_shown(c: char) -> (r: bool)
    ensures
        r == shows(c),
{
    let u: u32 = c as u32;
    !(u <= 0x1f || (0x7f <= u && u <= 0x9f) || (0x202a <= u && u <= 0x202e) || (0x2066 <= u && u <= 0x2069))
}

/// Where the text begins and ends once the white space around it is gone.
fn trim_bounds(cs: &Vec<char>) -> (r: (usize, usize))
    ensures
        r.0 <= r.1 <= cs@.len(),
        cs@.subrange(r.0 as int, r.1 as int) == trimmed(cs@),
{
    let n: usize = cs.len();
    let mut from: usize = 0;
    proof {
        assert(cs@.skip(0) =~= cs@);
    }
    while from < n && is_white(cs[from])
        invariant
            n == cs@.len(),
            from <= n,
            trim_start(cs@.skip(from as int)) == trim_start(cs@),
        decreases n - from,
    {
        proof {
            assert(cs@.skip(from as int).skip(1) =~= cs@.skip(from + 1));
            assert(cs@.skip(from as int)[0] == cs@[from as int]);
        }
        from += 1;
    }
    let ghost started = cs@.skip(from as int);
    proof {
        if from < n {
            assert(started[0] == cs@[from as int]);
        }
        assert(started == trim_start(cs@));
    }
    let mut to: usize = n;
    proof {
        assert(cs@.subrange(from as int, to as int) =~= started);
    }
    while from < to && is_white(cs[to - 1])
        invariant
            n == cs@.len(),
            from <= to <= n,
            trim_end(cs@.subrange(from as int, to as int)) == trim_end(started),
        decreases to - from,
    {
        proof {
            let part = cs@.subrange(from as int, to as int);
            assert(part.last() == cs@[to - 1]);
            assert(part.drop_last() =~= cs@.subrange(from as int, to - 1));
        }
        to -= 1;
    }
    proof {
        let part = cs@.subrange(from as int, to as int);
        if from < to {
            assert(part.last() == cs@[to - 1]);
        }
    }
    (from, to)
}

/// `s` without the white space around it.
pub fn trim(s: &str) -> (out: String)
    ensures
        out@ == trimmed(s@),
{
    let cs = chars_of(s);
    let (from, to) = trim_bounds(&cs);
    text_of(&cs, from, to)
}

/// `raw` minus every character that acts on the terminal or reorders a reader
/// instead of showing itself, trimmed, cut to `cap` characters.
pub fn printable(raw: &str, cap: usize) -> (out: String)
    ensures
        out@ == printed(raw@, cap as nat),
{
    let ghost keep = |c: char| shows(c);
    let all = chars_of(raw);
    let mut cs: Vec<char> = Vec::new();
    let mut i: usize = 0;
    proof {
        reveal(Seq::filter);
        assert(all@.take(0).filter(keep) =~= Seq::<char>::empty());
    }
    while i < all.len()
        invariant
            i <= all@.len(),
            keep == (|c: char| shows(c)),
            cs@ == all@.take(i as int).filter(keep),
        decreases all@.len() - i,
    {
        proof {
            reveal(Seq::filter);
            assert(all@.take(i + 1).drop_last() =~= all@.take(i as int));
        }
        if is_shown(all[i]) {
            cs.push(all[i]);
        }
        i += 1;
    }
    proof {
        assert(all@.take(i as int) =~= raw@);
    }
    let (from, to) = trim_bounds(&cs);
    let end: usize = if to - from > cap { from + cap } else { to };
    let out = text_of(&cs, from, end);
    proof {
        assert(cs@.subrange(from as int, end as int) =~= at_most(cs@.subrange(from as int, to as int), cap as int));
    }
    out
}

/// The first twelve hex digits of an identifier, and an ellipsis.
pub open spec fn fingerprint(id: Seq<char>) -> Seq<char> {
    at_most(id.filter(|c: char| hex_digit(c)), 12).push('…')
}

/// The first twelve hex digits and an ellipsis.
pub fn short_id(id: &str) -> (out: String)
    ensures
        out@ == fingerprint(id@),
{
    let ghost keep = |c: char| hex_digit(c);
    let all = chars_of(id);
    let mut out: String = String::new();
    let mut taken: usize = 0;
    let mut i: usize = 0;
    proof {
        reveal(Seq::filter);
        assert(all@.take(0).filter(keep) =~= Seq::<char>::empty());
    }
    while i < all.len()
        invariant
            i <= all@.len(),
            keep == (|c: char| hex_digit(c)),
            out@ == at_most(all@.take(i as int).filter(keep), 12),
            taken == out@.len(),
            taken <= 12,
        decreases all@.len() - i,
    {
        let c: char = all[i];
        proof {
            reveal(Seq::filter);
            assert(all@.take(i + 1).drop_last() =~= all@.take(i as int));
        }
        let ghost before = all@.take(i as int).filter(keep);
        if ('0' <= c && c <= '9') || ('a' <= c && c <= 'f') || ('A' <= c && c <= 'F') {
            if taken < 12 {
                out.push(c);
                taken += 1;
            } else {
                proof {
                    assert(before.push(c).take(12) =~= at_most(before, 12));
                }
            }
        }
        i += 1;
    }
    proof {
        assert(all@.take(i as int) =~= id@);
    }
    out.push('…');
    out
}

/// `text` in at most `width` columns, an ellipsis for what does not fit.
pub open spec fn clipped(text: Seq<char>, width: nat) -> Seq<char> {
    if text.len() <= width {
        text
    } else {
        text.take(if width == 0 { 0 } else { width - 1 }).push('…')
    }
}

/// `text` in at most `width` columns: its beginning and an ellipsis where it
/// is longer. The ellipsis stands even where there is no room at all.
pub fn clip(text: &str, width: u16) -> (out: String)
    ensures
        out@ == clipped(text@, width as nat),
{
    let w: usize = width as usize;
    let cs = chars_of(text);
    if cs.len() <= w {
        text.to_owned()
    } else {
        let mut out: String = text_of(&cs, 0, if w == 0 { 0 } else { w - 1 });
        out.push('…');
        out
    }
}

/// The end of `text` in at most `width` columns, behind an ellipsis.
pub open spec fn tail_clipped(text: Seq<char>, width: nat) -> Seq<char> {
    if text.len() <= width {
        text
    } else {
        seq!['…'] + text.skip(if width == 0 { text.len() as int } else { text.len() + 1 - width })
    }
}

/// Keeps the end of a value visible (paths, long pattern lists).
pub fn clip_tail(text: &str, width: u16) -> (out: String)
    ensures
        out@ == tail_clipped(text@, width as nat),
{
    let w: usize = width as usize;
    let cs = chars_of(text);
    let n: usize = cs.len();
    if n <= w {
        text.to_owned()
    } else {
        let from: usize = if w == 0 { n } else { n - (w - 1) };
        let mut out: String = String::new();
        out.push('…');
        out.append(text_of(&cs, from, n).as_str());
        proof {
            assert(out@ =~= tail_clipped(text@, width as nat));
        }
        out
    }
}

/// One bullet for every character of a secret.
pub fn mask(text: &str) -> (out: String)
    ensures
        out@ == Seq::new(text@.len(), |i: int| '•'),
{
    let n: usize = text.unicode_len();
    let mut out: String = String::new();
    let mut i: usize = 0;
    while i < n
        invariant
            i <= n,
            n == text@.len(),
            out@ == Seq::new(i as nat, |k: int| '•'),
        decreases n - i,
    {
        out.push('•');
        i += 1;
        proof {
            assert(out@ =~= Seq::new(i as nat, |k: int| '•'));
        }
    }
    out
}

// ── Lists ────────────────────────────────────────────────────────────────

/// The characters of each text of a list.
pub open spec fn texts(v: Seq<String>) -> Seq<Seq<char>> {
    v.map_values(|s: String| s@)
}

/// The parts of `s` between the separators `c`: one more than there are
/// separators.
pub open spec fn split_on(s: Seq<char>, c: char) -> Seq<Seq<char>>
    decreases s.len(),
{
    if s.len() == 0 {
        seq![Seq::<char>::empty()]
    } else {
        let before = split_on(s.drop_last(), c);
        if s.last() == c {
            before.push(Seq::<char>::empty())
        } else {
            before.drop_last().push(before.last().push(s.last()))
        }
    }
}

/// The texts of a list with `sep` between each two.
pub open spec fn join_with(v: Seq<Seq<char>>, sep: Seq<char>) -> Seq<char>
    decreases v.len(),
{
    if v.len() == 0 {
        Seq::empty()
    } else if v.len() == 1 {
        v[0]
    } else {
        join_with(v.drop_last(), sep) + sep + v.last()
    }
}

/// The list without its empty texts, each other one trimmed.
pub open spec fn trimmed_parts(v: Seq<Seq<char>>) -> Seq<Seq<char>>
    decreases v.len(),
{
    if v.len() == 0 {
        Seq::empty()
    } else if trimmed(v.last()).len() == 0 {
        trimmed_parts(v.drop_last())
    } else {
        trimmed_parts(v.drop_last()).push(trimmed(v.last()))
    }
}

/// The texts of a list, joined.
pub fn join(v: &Vec<String>, sep: &str) -> (out: String)
    ensures
        out@ == join_with(texts(v@), sep@),
{
    let mut out: String = String::new();
    let mut i: usize = 0;
    proof {
        assert(texts(v@).take(0) =~= Seq::<Seq<char>>::empty());
    }
    while i < v.len()
        invariant
            i <= v@.len(),
            out@ == join_with(texts(v@).take(i as int), sep@),
        decreases v@.len() - i,
    {
        proof {
            let part = texts(v@).take(i + 1);
            assert(part.drop_last() =~= texts(v@).take(i as int));
            assert(part.last() == v@[i as int]@);
            assert(i == 0 ==> out@ =~= Seq::<char>::empty());
        }
        if i > 0 {
            out.append(sep);
        }
        out.append(v[i].as_str());
        i += 1;
        proof {
            assert(out@ =~= join_with(texts(v@).take(i as int), sep@));
        }
    }
    proof {
        assert(texts(v@).take(i as int) =~= texts(v@));
    }
    out
}

/// The parts of `s` between separators `c`, trimmed, the empty ones dropped.
pub fn split_trimmed(s: &str, c: char) -> (out: Vec<String>)
    ensures
        texts(out@) == trimmed_parts(split_on(s@, c)),
{
    let cs = chars_of(s);
    let mut out: Vec<String> = Vec::new();
    let mut part: String = String::new();
    let mut i: usize = 0;
    proof {
        assert(cs@.take(0) =~= Seq::<char>::empty());
        let whole = split_on(cs@.take(0), c);
        assert(whole.drop_last() =~= Seq::<Seq<char>>::empty());
        assert(texts(out@) =~= Seq::<Seq<char>>::empty());
    }
    while i < cs.len()
        invariant
            i <= cs@.len(),
            split_on(cs@.take(i as int), c).len() > 0,
            part@ == split_on(cs@.take(i as int), c).last(),
            texts(out@) == trimmed_parts(split_on(cs@.take(i as int), c).drop_last()),
        decreases cs@.len() - i,
    {
        let ghost before = split_on(cs@.take(i as int), c);
        let ghost was = out@;
        proof {
            let next = cs@.take(i + 1);
            assert(next.drop_last() =~= cs@.take(i as int));
            assert(next.last() == cs@[i as int]);
        }
        if cs[i] == c {
            let word = trim(part.as_str());
            proof {
                let after = split_on(cs@.take(i + 1), c);
                assert(after.drop_last() =~= before);
            }
            if !word.as_str().is_empty() {
                out.push(word);
                proof {
                    assert(texts(out@) =~= texts(was).push(word@));
                }
            }
            part = String::new();
        } else {
            part.push(cs[i]);
            proof {
                let after = split_on(cs@.take(i + 1), c);
                assert(after.drop_last() =~= before.drop_last());
            }
        }
        i += 1;
    }
    let ghost whole = split_on(cs@.take(i as int), c);
    let ghost was = out@;
    proof {
        assert(cs@.take(i as int) =~= s@);
    }
    let word = trim(part.as_str());
    if !word.as_str().is_empty() {
        out.push(word);
        proof {
            assert(texts(out@) =~= texts(was).push(word@));
        }
    }
    out
}

/// Whether two lists hold the same texts.
pub fn same_texts(a: &Vec<String>, b: &Vec<String>) -> (r: bool)
    ensures
        r == (texts(a@) == texts(b@)),
{
    if a.len() != b.len() {
        proof {
            assert(texts(a@).len() != texts(b@).len());
        }
        return false;
    }
    let mut i: usize = 0;
    while i < a.len()
        invariant
            i <= a@.len(),
            a@.len() == b@.len(),
            forall|k: int| 0 <= k < i ==> a@[k]@ == b@[k]@,
        decreases a@.len() - i,
    {
        if !same(a[i].as_str(), b[i].as_str()) {
            proof {
                assert(texts(a@)[i as int] != texts(b@)[i as int]);
            }
            return false;
        }
        i += 1;
    }
    proof {
        assert(texts(a@) =~= texts(b@));
    }
    true
}

/// A list of texts, copied.
pub fn copy_texts(v: &Vec<String>) -> (out: Vec<String>)
    ensures
        out@ == v@,
{
    let mut out: Vec<String> = Vec::new();
    let mut i: usize = 0;
    while i < v.len()
        invariant
            i <= v@.len(),
            out@ == v@.take(i as int),
        decreases v@.len() - i,
    {
        proof {
            assert(v@.take(i + 1) =~= v@.take(i as int).push(v@[i as int]));
        }
        out.push(v[i].clone());
        i += 1;
    }
    proof {
        assert(v@.take(i as int) =~= v@);
    }
    out
}

// ── Reading numbers ──────────────────────────────────────────────────────

/// The value of a row of digits.
pub open spec fn digits_value(s: Seq<char>) -> nat
    decreases s.len(),
{
    if s.len() == 0 {
        0
    } else {
        10 * digits_value(s.drop_last()) + (s.last() as int - 48) as nat
    }
}

/// Only digits, and at least one.
pub open spec fn is_number(s: Seq<char>) -> bool {
    s.len() > 0 && forall|i: int| 0 <= i < s.len() ==> is_digit(#[trigger] s[i])
}

/// `s` without the one plus sign that may stand before a number.
pub open spec fn unsigned(s: Seq<char>) -> Seq<char> {
    if s.len() > 1 && s[0] == '+' {
        s.skip(1)
    } else {
        s
    }
}

/// The number that a text is, if it is one and no more than `max`.
pub open spec fn number_upto(s: Seq<char>, max: nat) -> Option<nat> {
    let u = unsigned(s);
    if is_number(u) && digits_value(u) <= max {
        Some(digits_value(u))
    } else {
        None
    }
}

/// Reads a number of at most `max`: digits, a plus sign before them or none.
pub fn read_number(s: &str, max: u64) -> (r: Option<u64>)
    ensures
        match number_upto(s@, max as nat) {
            Some(n) => r == Some(n as u64) && n <= max,
            None => r is None,
        },
{
    let cs = chars_of(s);
    let from: usize = if cs.len() > 1 && cs[0] == '+' { 1 } else { 0 };
    let ghost u = unsigned(s@);
    proof {
        assert(cs@.skip(from as int) =~= u);
    }
    if cs.len() == from {
        return None;
    }
    let mut acc: u128 = 0;
    let mut over = false;
    let mut i: usize = from;
    proof {
        assert(u.take(0) =~= Seq::<char>::empty());
    }
    while i < cs.len()
        invariant
            from <= i <= cs@.len(),
            from <= 1,
            cs@.skip(from as int) == u,
            u == unsigned(s@),
            forall|k: int| 0 <= k < i - from ==> is_digit(#[trigger] u[k]),
            over ==> digits_value(u.take(i - from)) > max,
            !over ==> acc == digits_value(u.take(i - from)) && acc <= max,
        decreases cs@.len() - i,
    {
        let c: char = cs[i];
        proof {
            assert(u[i - from] == c);
            assert(u.take(i + 1 - from).drop_last() =~= u.take(i - from));
        }
        if !('0' <= c && c <= '9') {
            proof {
                assert(!is_digit(u[i - from]));
            }
            return None;
        }
        if !over {
            acc = acc * 10 + (c as u32 as u128 - 48);
            if acc > max as u128 {
                over = true;
            }
        }
        i += 1;
    }
    proof {
        assert(u.take(i - from) =~= u);
    }
    if over {
        None
    } else {
        Some(acc as u64)
    }
}

/// `part` occurs in `s`.
pub open spec fn contains_text(s: Seq<char>, part: Seq<char>) -> bool {
    exists|i: int| 0 <= i && i + part.len() <= s.len() && #[trigger] s.subrange(i, i + part.len()) == part
}

/// Whether `part` stands at a place of `cs`.
fn stands_at(cs: &Vec<char>, part: &Vec<char>, at: usize) -> (r: bool)
    requires
        at + part@.len() <= cs@.len(),
    ensures
        r == (cs@.subrange(at as int, at + part@.len()) == part@),
{
    let n: usize = cs.len();
    let mut k: usize = 0;
    while k < part.len()
        invariant
            n == cs@.len(),
            k <= part@.len(),
            at + part@.len() <= n,
            forall|j: int| 0 <= j < k ==> cs@[at + j] == part@[j],
        decreases part@.len() - k,
    {
        if cs[at + k] != part[k] {
            proof {
                assert(cs@.subrange(at as int, at + part@.len())[k as int] == cs@[at + k]);
            }
            return false;
        }
        k += 1;
    }
    proof {
        assert(cs@.subrange(at as int, at + part@.len()) =~= part@);
    }
    true
}

/// Whether `part` occurs in `s`.
pub fn contains(s: &str, part: &str) -> (r: bool)
    ensures
        r == contains_text(s@, part@),
{
    let cs = chars_of(s);
    let ps = chars_of(part);
    if ps.len() > cs.len() {
        return false;
    }
    let last: usize = cs.len() - ps.len();
    let mut at: usize = 0;
    loop
        invariant
            cs@ == s@,
            ps@ == part@,
            last + ps@.len() == cs@.len(),
            at <= last,
            forall|i: int| 0 <= i < at ==> #[trigger] cs@.subrange(i, i + ps@.len()) != ps@,
        decreases last - at,
    {
        if stands_at(&cs, &ps, at) {
            return true;
        }
        if at == last {
            return false;
        }
        at += 1;
    }
}

// ── Whole figures ────────────────────────────────────────────────────────

/// A text without the `.0` before any blank.
pub open spec fn unzeroed(s: Seq<char>) -> Seq<char>
    decreases s.len(),
{
    if s.len() < 3 {
        s
    } else if s[0] == '.' && s[1] == '0' && s[2] == ' ' {
        seq![' '] + unzeroed(s.skip(3))
    } else {
        seq![s[0]] + unzeroed(s.skip(1))
    }
}

/// A figure without the decimal that says nothing: `218 MB`, not `218.0 MB`.
pub fn without_zeroes(s: &str) -> (out: String)
    ensures
        out@ == unzeroed(s@),
{
    let cs = chars_of(s);
    let n: usize = cs.len();
    let mut out: String = String::new();
    let mut i: usize = 0;
    proof {
        assert(s@.skip(0) =~= s@);
        assert(Seq::<char>::empty() + unzeroed(s@) =~= unzeroed(s@));
    }
    while i < n
        invariant
            i <= n,
            n == cs@.len(),
            cs@ == s@,
            out@ + unzeroed(s@.skip(i as int)) == unzeroed(s@),
        decreases n - i,
    {
        let ghost rest = s@.skip(i as int);
        let ghost was = out@;
        if n - i >= 3 && cs[i] == '.' && cs[i + 1] == '0' && cs[i + 2] == ' ' {
            out.push(' ');
            proof {
                assert(rest.skip(3) =~= s@.skip(i + 3));
                assert(was + (seq![' '] + unzeroed(rest.skip(3))) =~= out@ + unzeroed(rest.skip(3)));
            }
            i = i + 3;
        } else {
            out.push(cs[i]);
            proof {
                assert(rest.skip(1) =~= s@.skip(i + 1));
                if rest.len() < 3 {
                    assert(rest =~= seq![rest[0]] + rest.skip(1));
                }
                assert(was + (seq![rest[0]] + unzeroed(rest.skip(1))) =~= out@ + unzeroed(rest.skip(1)));
            }
            i = i + 1;
        }
    }
    proof {
        assert(s@.skip(n as int) =~= Seq::<char>::empty());
        assert(out@ =~= out@ + Seq::<char>::empty());
    }
    out
}

// ── What holds of every text on the screen ───────────────────────────────

/// Every character shows itself.
pub open spec fn all_show(s: Seq<char>) -> bool {
    forall|i: int| 0 <= i < s.len() ==> shows(#[trigger] s[i])
}

proof fn trimming_keeps_to_the_text(s: Seq<char>)
    ensures
        all_show(s) ==> all_show(trim_start(s)) && all_show(trim_end(s)),
        trim_start(s).len() <= s.len(),
        trim_end(s).len() <= s.len(),
    decreases s.len(),
{
    if s.len() > 0 {
        if white(s[0]) {
            trimming_keeps_to_the_text(s.skip(1));
            if all_show(s) {
                assert forall|i: int| 0 <= i < s.skip(1).len() implies shows(#[trigger] s.skip(1)[i]) by {
                    assert(s.skip(1)[i] == s[i + 1]);
                }
            }
        }
        if white(s.last()) {
            trimming_keeps_to_the_text(s.drop_last());
            if all_show(s) {
                assert forall|i: int| 0 <= i < s.drop_last().len() implies shows(#[trigger] s.drop_last()[i]) by {
                    assert(s.drop_last()[i] == s[i]);
                }
            }
        }
    }
}

/// What is put on the screen of a foreign text acts on nothing: every
/// character of it shows itself, and there are no more of them than the cap.
pub proof fn foreign_text_is_inert(raw: Seq<char>, cap: nat)
    ensures
        all_show(printed(raw, cap)),
        printed(raw, cap).len() <= cap,
{
    let kept = raw.filter(|c: char| shows(c));
    assert(all_show(kept)) by {
        broadcast use vstd::seq_lib::group_filter_ensures;

        assert forall|i: int| 0 <= i < kept.len() implies shows(#[trigger] kept[i]) by {}
    }
    trimming_keeps_to_the_text(kept);
    trimming_keeps_to_the_text(trim_start(kept));
}

/// A clipped text fits its width, wherever there is any, and one that fits is
/// left alone.
pub proof fn clipping_fits(text: Seq<char>, width: nat)
    ensures
        width > 0 ==> clipped(text, width).len() <= width,
        width > 0 ==> tail_clipped(text, width).len() <= width,
        text.len() <= width ==> clipped(text, width) == text && tail_clipped(text, width) == text,
        text.len() > width ==> clipped(text, width).last() == '…' && tail_clipped(text, width)[0] == '…',
{
}

// ── What cutting and reading keep ────────────────────────────────────────

proof fn start_has_its_ends(s: Seq<char>)
    ensures
        trim_start(s).len() <= s.len(),
        trim_start(s) == s.skip(s.len() - trim_start(s).len()),
        forall|i: int| 0 <= i < s.len() - trim_start(s).len() ==> white(#[trigger] s[i]),
        trim_start(s).len() > 0 ==> !white(trim_start(s)[0]),
    decreases s.len(),
{
    if s.len() > 0 && white(s[0]) {
        let rest = s.skip(1);
        start_has_its_ends(rest);
        let t = trim_start(s);
        assert(rest.skip(rest.len() - t.len()) =~= s.skip(s.len() - t.len()));
        assert forall|i: int| 0 <= i < s.len() - t.len() implies white(#[trigger] s[i]) by {
            if i > 0 {
                assert(rest[i - 1] == s[i]);
            }
        }
    } else {
        assert(s.skip(0) =~= s);
    }
}

proof fn end_has_its_ends(s: Seq<char>)
    ensures
        trim_end(s).len() <= s.len(),
        trim_end(s) == s.take(trim_end(s).len() as int),
        forall|i: int| trim_end(s).len() <= i < s.len() ==> white(#[trigger] s[i]),
        trim_end(s).len() > 0 ==> !white(trim_end(s).last()),
    decreases s.len(),
{
    if s.len() > 0 && white(s.last()) {
        let rest = s.drop_last();
        end_has_its_ends(rest);
        let t = trim_end(s);
        assert(rest.take(t.len() as int) =~= s.take(t.len() as int));
        assert forall|i: int| t.len() <= i < s.len() implies white(#[trigger] s[i]) by {
            if i < s.len() - 1 {
                assert(rest[i] == s[i]);
            }
        }
    } else {
        assert(s.take(s.len() as int) =~= s);
    }
}

/// Where trimming begins to keep a text.
pub open spec fn kept_from(s: Seq<char>) -> int {
    s.len() - trim_start(s).len()
}

/// Trimming takes white space from the ends of a text, all of it, and nothing
/// else.
pub proof fn trimming_takes_white_space_alone(s: Seq<char>)
    ensures
        0 <= kept_from(s) <= kept_from(s) + trimmed(s).len() <= s.len(),
        trimmed(s) == s.subrange(kept_from(s), kept_from(s) + trimmed(s).len()),
        forall|i: int| 0 <= i < kept_from(s) ==> white(#[trigger] s[i]),
        forall|i: int| kept_from(s) + trimmed(s).len() <= i < s.len() ==> white(#[trigger] s[i]),
        trimmed(s).len() > 0 ==> !white(trimmed(s)[0]) && !white(trimmed(s).last()),
{
    let t = trim_start(s);
    let from = kept_from(s);
    start_has_its_ends(s);
    end_has_its_ends(t);
    let u = trimmed(s);
    assert(u =~= s.subrange(from, from + u.len()));
    assert forall|i: int| from + u.len() <= i < s.len() implies white(#[trigger] s[i]) by {
        assert(t[i - from] == s[i]);
    }
    if u.len() > 0 {
        assert(u[0] == t[0]);
    }
}

/// A text without white space at its ends is left alone by trimming.
pub proof fn plain_ends_stay(s: Seq<char>)
    requires
        s.len() > 0 ==> !white(s[0]) && !white(s.last()),
    ensures
        trimmed(s) == s,
{
}

/// A text that shows itself, has no white space at its ends and is no longer
/// than the cap is shown as it is.
pub proof fn harmless_text_is_shown_whole(s: Seq<char>, cap: nat)
    requires
        all_show(s),
        s.len() <= cap,
        s.len() > 0 ==> !white(s[0]) && !white(s.last()),
    ensures
        printed(s, cap) == s,
{
    all_kept(s, |c: char| shows(c));
    plain_ends_stay(s);
}

/// A number written in decimal reads back, up to the largest that is taken.
pub proof fn numbers_read_back(n: nat, max: nat)
    ensures
        trimmed(dec(n)) == dec(n),
        n <= max ==> number_upto(dec(n), max) == Some(n),
        n > max ==> number_upto(dec(n), max) is None,
{
    decimals_are_digits(n);
    decimals_have_their_value(n);
    let s = dec(n);
    assert(is_digit(s[0]) && is_digit(s[s.len() - 1]));
    plain_ends_stay(s);
    assert(unsigned(s) == s);
}

proof fn decimals_have_their_value(n: nat)
    ensures
        digits_value(dec(n)) == n,
    decreases n,
{
    reveal_with_fuel(digits_value, 2);
    if n < 10 {
        assert(dec(n).drop_last() =~= Seq::<char>::empty());
    } else {
        decimals_have_their_value(n / 10);
        assert(dec(n).drop_last() =~= dec(n / 10));
    }
}

/// Two numbers that are written alike are the same.
pub proof fn numbers_are_told_apart(n: nat, m: nat)
    requires
        n != m,
    ensures
        dec(n) != dec(m),
        grouped(n) != grouped(m),
{
    decimals_have_their_value(n);
    decimals_have_their_value(m);
    grouping_only_adds_commas(n);
    grouping_only_adds_commas(m);
}

/// A short byte count is in whole kilobytes, rounded up: enough for the bytes,
/// and not one too many.
pub proof fn kilobytes_are_rounded_up(n: nat, k: nat)
    requires
        n < 0x10_0000,
        bytes_text(n) == dec(k) + " KB"@,
    ensures
        1024 * (k - 1) < n <= 1024 * k || (n == 0 && k == 0),
{
    let kb = (n + 1023) / 1024;
    let unit = " KB"@;
    assert(dec(k) =~= (dec(k) + unit).take((dec(k) + unit).len() - unit.len()));
    assert(dec(kb) =~= (dec(kb) + unit).take((dec(kb) + unit).len() - unit.len()));
    if kb != k {
        numbers_are_told_apart(kb, k);
    }
}

/// A byte count from a megabyte on is the nearest tenth of its unit, which is
/// the largest of megabyte and gigabyte that it reaches.
pub proof fn byte_counts_are_the_nearest_tenth(n: nat)
    requires
        0x10_0000 <= n < 0x20_0000_0000_0000,
    ensures
        exists|tenths: nat|
            {
                let (unit, name) = if n >= 0x4000_0000 { (0x4000_0000nat, " GB"@) } else { (0x10_0000nat, " MB"@) };
                &&& bytes_text(n) == #[trigger] dec(tenths / 10).push('.').push(digit((tenths % 10) as int)) + name
                &&& 2 * (tenths * unit - 10 * n) <= unit
                &&& 2 * (10 * n - tenths * unit) <= unit
            },
{
    let (unit, name) = if n >= 0x4000_0000 { (0x4000_0000nat, " GB"@) } else { (0x10_0000nat, " MB"@) };
    let whole = n * 10;
    assert(nearest_even(n, 1) == n);
    assert(as_double(n) == n);
    let tenths = nearest_even(whole, unit);
    let (q, r) = (whole / unit, whole % unit);
    assert(whole == q * unit + r) by {
        vstd::arithmetic::div_mod::lemma_fundamental_div_mod(whole as int, unit as int);
        assert(unit * q == q * unit) by (nonlinear_arith);
    }
    assert(tenths * unit == q * unit || tenths * unit == q * unit + unit) by (nonlinear_arith)
        requires
            tenths == q || tenths == q + 1,
    ;
    if tenths == q {
        assert(tenths * unit == q * unit);
    } else {
        assert(tenths * unit == q * unit + unit) by (nonlinear_arith)
            requires
                tenths == q + 1,
        ;
    }
    assert(bytes_text(n) == dec(tenths / 10).push('.').push(digit((tenths % 10) as int)) + name);
}

/// Joined texts lie side by side, in order: joining a list with one text more
/// adds the separator and that text.
pub proof fn joining_adds_at_the_end(v: Seq<Seq<char>>, sep: Seq<char>, last: Seq<char>)
    ensures
        v.len() > 0 ==> join_with(v.push(last), sep) == join_with(v, sep) + sep + last,
        v.len() == 0 ==> join_with(v.push(last), sep) == last,
{
    assert(v.push(last).drop_last() =~= v);
}

/// A short identifier keeps hex digits alone, the first twelve, and says that
/// it is short.
pub proof fn short_identifiers_are_a_beginning(id: Seq<char>)
    ensures
        fingerprint(id).last() == '…',
        fingerprint(id).len() <= 13,
        (forall|i: int| 0 <= i < id.len() ==> hex_digit(#[trigger] id[i])) ==> fingerprint(id).drop_last() == at_most(id, 12),
{
    if forall|i: int| 0 <= i < id.len() ==> hex_digit(#[trigger] id[i]) {
        all_kept(id, |c: char| hex_digit(c));
    }
    assert(fingerprint(id).drop_last() =~= at_most(id.filter(|c: char| hex_digit(c)), 12));
}

} // verus!
