//! Paths on the server, which may use either platform's separator, and the
//! folder browser that walks them.

use tui_input::Input;
use vstd::prelude::*;

use crate::msg::Msg;
use crate::text::{chars_of, text_of};

verus! {

use crate::line::{input_value, is_blank};

use crate::home::{bare, separator};

/// A folder of the server, its subfolders, and the cursor among them.
pub struct Browse {
    pub path: String,
    pub dirs: Vec<String>,
    pub sel: usize,
}

/// A listing of a folder of the server.
pub struct DirListing {
    pub path: String,
    pub directories: Vec<String>,
}

/// The separator that a path is written with.
pub open spec fn separator_of(path: Seq<char>) -> char {
    if path.contains('\\') && !path.contains('/') { '\\' } else { '/' }
}

/// A subfolder's path.
pub open spec fn below(base: Seq<char>, name: Seq<char>) -> Seq<char> {
    if base.len() > 0 && separator(base.last()) {
        base + name
    } else {
        base.push(separator_of(base)) + name
    }
}

/// The position of the last separator, or -1.
pub open spec fn last_separator(s: Seq<char>) -> int
    decreases s.len(),
{
    if s.len() == 0 {
        -1
    } else if separator(s.last()) {
        s.len() - 1
    } else {
        last_separator(s.drop_last())
    }
}

/// The folder above: none at a root, the root itself just below it.
pub open spec fn above(path: Seq<char>) -> Option<Seq<char>> {
    let b = bare(path);
    let i = last_separator(b);
    if i < 0 {
        None
    } else if i == 0 || b[i - 1] == ':' {
        Some(b.take(i + 1))
    } else {
        Some(b.take(i))
    }
}

fn holds_char(cs: &Vec<char>, c: char) -> (r: bool)
    ensures
        r == cs@.contains(c),
{
    let mut i: usize = 0;
    while i < cs.len()
        invariant
            i <= cs@.len(),
            forall|k: int| 0 <= k < i ==> cs@[k] != c,
        decreases cs@.len() - i,
    {
        if cs[i] == c {
            return true;
        }
        i += 1;
    }
    false
}

/// A subfolder's path, in the folder's own separator.
pub fn join_server_path(base: &str, name: &str) -> (out: String)
    ensures
        out@ == below(base@, name@),
{
    let cs = chars_of(base);
    let n: usize = cs.len();
    let mut out: String = base.to_owned();
    if !(n > 0 && (cs[n - 1] == '/' || cs[n - 1] == '\\')) {
        if holds_char(&cs, '\\') && !holds_char(&cs, '/') {
            out.push('\\');
        } else {
            out.push('/');
        }
    }
    out.append(name);
    out
}

/// The folder above, if there is one.
pub fn parent_server_path(path: &str) -> (out: Option<String>)
    ensures
        match above(path@) {
            Some(p) => out matches Some(s) && s@ == p,
            None => out is None,
        },
{
    let cs = chars_of(path);
    let mut n: usize = cs.len();
    proof {
        assert(cs@.take(n as int) =~= cs@);
    }
    while n > 0 && (cs[n - 1] == '/' || cs[n - 1] == '\\')
        invariant
            n <= cs@.len(),
            bare(cs@.take(n as int)) == bare(cs@),
        decreases n,
    {
        proof {
            assert(cs@.take(n as int).drop_last() =~= cs@.take(n - 1));
        }
        n -= 1;
    }
    let ghost b = cs@.take(n as int);
    proof {
        if n > 0 {
            assert(b.last() == cs@[n - 1]);
        }
        assert(b == bare(cs@));
    }
    let mut k: usize = n;
    proof {
        assert(b.take(k as int) =~= b);
    }
    while k > 0 && !(cs[k - 1] == '/' || cs[k - 1] == '\\')
        invariant
            k <= n <= cs@.len(),
            b == cs@.take(n as int),
            last_separator(b.take(k as int)) == last_separator(b),
        decreases k,
    {
        proof {
            assert(b.take(k as int).last() == cs@[k - 1]);
            assert(b.take(k as int).drop_last() =~= b.take(k - 1));
        }
        k -= 1;
    }
    if k == 0 {
        return None;
    }
    proof {
        assert(b.take(k as int).last() == cs@[k - 1]);
    }
    let i: usize = k - 1;
    if i == 0 || cs[i - 1] == ':' {
        proof {
            assert(cs@.subrange(0, i + 1) =~= b.take(i + 1));
        }
        Some(text_of(&cs, 0, i + 1))
    } else {
        proof {
            assert(cs@.subrange(0, i as int) =~= b.take(i as int));
        }
        Some(text_of(&cs, 0, i))
    }
}

/// No separator in a name.
pub open spec fn is_name(name: Seq<char>) -> bool {
    name.len() > 0 && forall|i: int| 0 <= i < name.len() ==> !separator(#[trigger] name[i])
}

proof fn name_has_no_separator(prefix: Seq<char>, name: Seq<char>)
    requires
        forall|i: int| 0 <= i < name.len() ==> !separator(#[trigger] name[i]),
        prefix.len() > 0,
        separator(prefix.last()),
    ensures
        last_separator(prefix + name) == prefix.len() - 1,
    decreases name.len(),
{
    if name.len() == 0 {
        assert(prefix + name =~= prefix);
    } else {
        let s = prefix + name;
        assert(s.last() == name.last());
        assert(s.drop_last() =~= prefix + name.drop_last());
        name_has_no_separator(prefix, name.drop_last());
    }
}

/// Going into a subfolder and back up ends where it began, at every folder
/// that is not a root.
pub proof fn down_and_up(base: Seq<char>, name: Seq<char>)
    requires
        base.len() > 0,
        !separator(base.last()),
        base.last() != ':',
        is_name(name),
    ensures
        above(below(base, name)) == Some(base),
{
    let s = below(base, name);
    let prefix = base.push(separator_of(base));
    assert(s.last() == name.last());
    assert(bare(s) == s);
    name_has_no_separator(prefix, name);
    assert(s[base.len() - 1] == base.last());
    assert(s.take(base.len() as int) =~= base);
}

// ── Typing a path ────────────────────────────────────────────────────────

/// The folder part of a typed path, up to its last separator.
pub open spec fn dir_part(text: Seq<char>) -> Seq<char> {
    text.take(last_separator(text) + 1)
}

/// What follows the last separator of a typed path.
pub open spec fn partial(text: Seq<char>) -> Seq<char> {
    text.skip(last_separator(text) + 1)
}

/// Where the text after the last separator begins.
fn split_at(cs: &Vec<char>) -> (k: usize)
    ensures
        k == last_separator(cs@) + 1,
        k <= cs@.len(),
{
    let n: usize = cs.len();
    let mut k: usize = n;
    proof {
        assert(cs@.take(k as int) =~= cs@);
    }
    while k > 0 && !(cs[k - 1] == '/' || cs[k - 1] == '\\')
        invariant
            k <= n == cs@.len(),
            last_separator(cs@.take(k as int)) == last_separator(cs@),
        decreases k,
    {
        proof {
            assert(cs@.take(k as int).last() == cs@[k - 1]);
            assert(cs@.take(k as int).drop_last() =~= cs@.take(k - 1));
        }
        k -= 1;
    }
    proof {
        if k > 0 {
            assert(cs@.take(k as int).last() == cs@[k - 1]);
        }
    }
    k
}

/// A typed path, parted behind its last separator.
pub fn split_input(text: &str) -> (r: (String, String))
    ensures
        r.0@ == dir_part(text@),
        r.1@ == partial(text@),
{
    let cs = chars_of(text);
    let k: usize = split_at(&cs);
    proof {
        assert(cs@.subrange(0, k as int) =~= dir_part(text@));
        assert(cs@.subrange(k as int, cs@.len() as int) =~= partial(text@));
    }
    (text_of(&cs, 0, k), text_of(&cs, k, cs.len()))
}

/// The two parts of a typed path are the whole of it.
pub proof fn parts_make_the_path(text: Seq<char>)
    ensures
        dir_part(text) + partial(text) == text,
{
    last_separator_is_inside(text);
    assert(dir_part(text) + partial(text) =~= text);
}

proof fn last_separator_is_inside(s: Seq<char>)
    ensures
        -1 <= last_separator(s) < s.len(),
    decreases s.len(),
{
    if s.len() > 0 && !separator(s.last()) {
        last_separator_is_inside(s.drop_last());
    }
}

/// Whether the character at `i` repeats a separator. A leading pair stays, for
/// network paths.
pub open spec fn repeats(s: Seq<char>, i: int) -> bool {
    i > 1 && separator(s[i]) && separator(s[i - 1])
}

/// `s` without repeated separators.
pub open spec fn collapsed(s: Seq<char>) -> Seq<char>
    decreases s.len(),
{
    if s.len() == 0 {
        s
    } else if repeats(s, s.len() - 1) {
        collapsed(s.drop_last())
    } else {
        collapsed(s.drop_last()).push(s.last())
    }
}

proof fn collapsing_shortens(s: Seq<char>)
    ensures
        collapsed(s).len() <= s.len(),
    decreases s.len(),
{
    if s.len() > 0 {
        collapsing_shortens(s.drop_last());
    }
}

/// A typed path without repeated separators.
pub fn collapse(text: &str) -> (out: String)
    ensures
        out@ == collapsed(text@),
{
    let cs = chars_of(text);
    let mut out: String = String::new();
    let mut i: usize = 0;
    proof {
        assert(cs@.take(0) =~= Seq::<char>::empty());
    }
    while i < cs.len()
        invariant
            i <= cs@.len(),
            out@ == collapsed(cs@.take(i as int)),
        decreases cs@.len() - i,
    {
        let sep = cs[i] == '/' || cs[i] == '\\';
        let again = i > 1 && sep && (cs[i - 1] == '/' || cs[i - 1] == '\\');
        proof {
            let next = cs@.take(i + 1);
            assert(next.drop_last() =~= cs@.take(i as int));
            assert(next[i as int] == cs@[i as int]);
            if i > 0 {
                assert(next[i - 1] == cs@[i - 1]);
            }
        }
        if !again {
            out.push(cs[i]);
        }
        i += 1;
    }
    proof {
        assert(cs@.take(i as int) =~= text@);
    }
    out
}

/// `s` begins with `p`.
pub open spec fn begins(s: Seq<char>, p: Seq<char>) -> bool {
    p.len() <= s.len() && s.take(p.len() as int) == p
}

/// The names that begin with a prefix, in their order.
pub open spec fn matching(names: Seq<String>, prefix: Seq<char>) -> Seq<String>
    decreases names.len(),
{
    if names.len() == 0 {
        names
    } else if begins(names.last()@, prefix) {
        matching(names.drop_last(), prefix).push(names.last())
    } else {
        matching(names.drop_last(), prefix)
    }
}

/// How many characters two texts have in common at their beginning.
pub open spec fn shared(a: Seq<char>, b: Seq<char>) -> nat
    decreases a.len(),
{
    if a.len() > 0 && b.len() > 0 && a[0] == b[0] {
        1 + shared(a.skip(1), b.skip(1))
    } else {
        0
    }
}

/// The longest beginning that all names have in common.
pub open spec fn prefix_of(names: Seq<String>) -> Seq<char>
    decreases names.len(),
{
    if names.len() == 0 {
        Seq::empty()
    } else if names.len() == 1 {
        names[0]@
    } else {
        let p = prefix_of(names.drop_last());
        p.take(shared(p, names.last()@) as int)
    }
}

/// Whether `s` begins with `p`.
pub fn starts_with(s: &str, p: &str) -> (r: bool)
    ensures
        r == begins(s@, p@),
{
    let a = chars_of(s);
    let b = chars_of(p);
    if b.len() > a.len() {
        return false;
    }
    let mut i: usize = 0;
    while i < b.len()
        invariant
            i <= b@.len() <= a@.len(),
            a@ == s@,
            b@ == p@,
            forall|k: int| 0 <= k < i ==> a@[k] == b@[k],
        decreases b@.len() - i,
    {
        if a[i] != b[i] {
            proof {
                assert(s@.take(p@.len() as int)[i as int] != p@[i as int]);
            }
            return false;
        }
        i += 1;
    }
    proof {
        assert(s@.take(p@.len() as int) =~= p@);
    }
    true
}

proof fn sharing_is_bounded(a: Seq<char>, b: Seq<char>)
    ensures
        shared(a, b) <= a.len(),
        shared(a, b) <= b.len(),
    decreases a.len(),
{
    if a.len() > 0 && b.len() > 0 && a[0] == b[0] {
        sharing_is_bounded(a.skip(1), b.skip(1));
    }
}

fn count_shared(a: &Vec<char>, b: &Vec<char>) -> (n: usize)
    ensures
        n == shared(a@, b@),
        n <= a@.len(),
{
    let mut i: usize = 0;
    proof {
        assert(a@.skip(0) =~= a@);
        assert(b@.skip(0) =~= b@);
    }
    while i < a.len() && i < b.len() && a[i] == b[i]
        invariant
            i <= a@.len(),
            i <= b@.len(),
            shared(a@, b@) == i + shared(a@.skip(i as int), b@.skip(i as int)),
        decreases a@.len() - i,
    {
        proof {
            assert(a@.skip(i as int)[0] == a@[i as int]);
            assert(b@.skip(i as int)[0] == b@[i as int]);
            assert(a@.skip(i as int).skip(1) =~= a@.skip(i + 1));
            assert(b@.skip(i as int).skip(1) =~= b@.skip(i + 1));
        }
        i += 1;
    }
    proof {
        if i < a@.len() && i < b@.len() {
            assert(a@.skip(i as int)[0] == a@[i as int]);
            assert(b@.skip(i as int)[0] == b@[i as int]);
        }
    }
    i
}

/// The longest beginning that all names have in common.
pub fn common_prefix(names: &Vec<String>) -> (out: String)
    ensures
        out@ == prefix_of(names@),
{
    if names.len() == 0 {
        return String::new();
    }
    let mut p: Vec<char> = chars_of(names[0].as_str());
    let mut i: usize = 1;
    proof {
        assert(names@.take(1)[0] == names@[0]);
    }
    while i < names.len()
        invariant
            1 <= i <= names@.len(),
            p@ == prefix_of(names@.take(i as int)),
        decreases names@.len() - i,
    {
        let b = chars_of(names[i].as_str());
        let n: usize = count_shared(&p, &b);
        proof {
            assert(names@.take(i + 1).drop_last() =~= names@.take(i as int));
            assert(p@.subrange(0, n as int) =~= p@.take(n as int));
        }
        p.truncate(n);
        i += 1;
    }
    proof {
        assert(names@.take(i as int) =~= names@);
        assert(p@.subrange(0, p@.len() as int) =~= p@);
    }
    text_of(&p, 0, p.len())
}

/// A path being typed, with the server's listing of its folder part.
pub struct PathDraft {
    pub text: Input,
    /// The picked suggestion.
    pub sel: Option<usize>,
    pub sel_anchor: Option<usize>,
    pub scroll: usize,
    /// The folder part that was listed, or is being listed.
    pub listed_for: String,
    /// The folder as the server resolved it.
    pub listed_path: String,
    pub entries: Vec<String>,
    pub error: Option<Msg>,
}

/// A draft with nothing typed.
pub open spec fn is_blank_draft(d: PathDraft) -> bool {
    &&& is_blank(d.text)
    &&& d.sel is None
    &&& d.sel_anchor is None
    &&& d.scroll == 0
    &&& d.listed_for@.len() == 0
    &&& d.listed_path@.len() == 0
    &&& d.entries@.len() == 0
    &&& d.error is None
}

impl PathDraft {
    pub fn new() -> (d: PathDraft)
        ensures
            is_blank_draft(d),
    {
        PathDraft {
            text: crate::line::blank(),
            sel: None,
            sel_anchor: None,
            scroll: 0,
            listed_for: String::new(),
            listed_path: String::new(),
            entries: Vec::new(),
            error: None,
        }
    }

    /// The entries that what was typed last could become.
    pub open spec fn offers(self) -> Seq<String> {
        matching(self.entries@, partial(input_value(self.text)))
    }

    pub fn suggestions(&self) -> (out: Vec<String>)
        ensures
            out@ == self.offers(),
    {
        let (_, typed) = split_input(self.text.value());
        let mut out: Vec<String> = Vec::new();
        let mut i: usize = 0;
        proof {
            assert(self.entries@.take(0) =~= Seq::<String>::empty());
        }
        while i < self.entries.len()
            invariant
                i <= self.entries@.len(),
                typed@ == partial(input_value(self.text)),
                out@ == matching(self.entries@.take(i as int), typed@),
            decreases self.entries@.len() - i,
        {
            proof {
                assert(self.entries@.take(i + 1).drop_last() =~= self.entries@.take(i as int));
            }
            if starts_with(self.entries[i].as_str(), typed.as_str()) {
                out.push(self.entries[i].clone());
            }
            i += 1;
        }
        proof {
            assert(self.entries@.take(i as int) =~= self.entries@);
        }
        out
    }
}

// ── Naming a library ─────────────────────────────────────────────────────

/// A character that a library's name may hold.
pub open spec fn slug_char(c: char) -> bool {
    ('a' <= c <= 'z') || ('0' <= c <= '9') || c == '-'
}

/// An ASCII letter or digit.
pub open spec fn alphanumeric(c: char) -> bool {
    ('a' <= c <= 'z') || ('A' <= c <= 'Z') || ('0' <= c <= '9')
}

/// The lower case of an ASCII letter; anything else as it is.
pub open spec fn lower(c: char) -> char {
    if 'A' <= c <= 'Z' { (c as u32 + 32) as char } else { c }
}

/// Letters and digits in lower case, one dash for each run of anything else
/// but a leading one.
pub open spec fn dashed(s: Seq<char>) -> Seq<char>
    decreases s.len(),
{
    if s.len() == 0 {
        s
    } else {
        let before = dashed(s.drop_last());
        if alphanumeric(s.last()) {
            before.push(lower(s.last()))
        } else if before.len() > 0 && before.last() != '-' {
            before.push('-')
        } else {
            before
        }
    }
}

/// A name for a folder: its own name as a slug.
pub open spec fn slug(path: Seq<char>) -> Seq<char> {
    let d = dashed(partial(bare(path)));
    if d.len() > 0 && d.last() == '-' {
        d.drop_last()
    } else {
        d
    }
}

pub fn is_alphanumeric(c: char) -> (r: bool)
    ensures
        r == alphanumeric(c),
{
    ('a' <= c && c <= 'z') || ('A' <= c && c <= 'Z') || ('0' <= c && c <= '9')
}

pub fn to_lower(c: char) -> (r: char)
    ensures
        r == lower(c),
{
    if 'A' <= c && c <= 'Z' {
        (c as u8 + 32) as char
    } else {
        c
    }
}

/// The folder's own name as a slug: what a library in it would be called.
pub fn derive_name(path: &str) -> (out: String)
    ensures
        out@ == slug(path@),
{
    let cs = chars_of(path);
    let mut n: usize = cs.len();
    proof {
        assert(cs@.take(n as int) =~= cs@);
    }
    while n > 0 && (cs[n - 1] == '/' || cs[n - 1] == '\\')
        invariant
            n <= cs@.len(),
            bare(cs@.take(n as int)) == bare(cs@),
        decreases n,
    {
        proof {
            assert(cs@.take(n as int).drop_last() =~= cs@.take(n - 1));
        }
        n -= 1;
    }
    let mut b: Vec<char> = cs;
    b.truncate(n);
    proof {
        assert(b@ =~= cs@.take(n as int));
        if n > 0 {
            assert(b@.last() == cs@[n - 1]);
        }
        assert(b@ == bare(path@));
    }
    let k: usize = split_at(&b);
    let ghost leaf = partial(b@);
    let mut out: Vec<char> = Vec::new();
    let mut i: usize = k;
    proof {
        assert(leaf.take(0) =~= Seq::<char>::empty());
    }
    while i < b.len()
        invariant
            k <= i <= b@.len(),
            k == last_separator(b@) + 1,
            leaf == b@.skip(k as int),
            out@ == dashed(leaf.take(i - k)),
        decreases b@.len() - i,
    {
        proof {
            assert(leaf[i - k] == b@[i as int]);
            assert(leaf.take(i + 1 - k).drop_last() =~= leaf.take(i - k));
        }
        if is_alphanumeric(b[i]) {
            out.push(to_lower(b[i]));
        } else if out.len() > 0 && out[out.len() - 1] != '-' {
            out.push('-');
        }
        i += 1;
    }
    proof {
        assert(leaf.take(i - k) =~= leaf);
    }
    let m: usize = out.len();
    if m > 0 && out[m - 1] == '-' {
        proof {
            assert(out@.subrange(0, m - 1) =~= out@.drop_last());
        }
        text_of(&out, 0, m - 1)
    } else {
        proof {
            assert(out@.subrange(0, m as int) =~= out@);
        }
        text_of(&out, 0, m)
    }
}

proof fn dashed_is_slug(s: Seq<char>)
    ensures
        forall|i: int| 0 <= i < dashed(s).len() ==> slug_char(#[trigger] dashed(s)[i]),
    decreases s.len(),
{
    if s.len() > 0 {
        dashed_is_slug(s.drop_last());
        let before = dashed(s.drop_last());
        assert forall|i: int| 0 <= i < dashed(s).len() implies slug_char(#[trigger] dashed(s)[i]) by {
            if i < before.len() {
                assert(dashed(s)[i] == before[i]);
            }
        }
    }
}

/// A derived name holds lower-case letters, digits and dashes alone.
pub proof fn derived_names_are_slugs(path: Seq<char>)
    ensures
        forall|i: int| 0 <= i < slug(path).len() ==> slug_char(#[trigger] slug(path)[i]),
{
    dashed_is_slug(partial(bare(path)));
    let d = dashed(partial(bare(path)));
    assert forall|i: int| 0 <= i < slug(path).len() implies slug_char(#[trigger] slug(path)[i]) by {
        assert(slug(path)[i] == d[i]);
    }
}

// ── What paths keep ──────────────────────────────────────────────────────

/// A folder's path begins with the one it is in and ends with its own name, one
/// separator of the path's own kind between them.
pub proof fn subfolders_lie_below(base: Seq<char>, name: Seq<char>)
    requires
        base.len() > 0,
    ensures
        ({
            let s = below(base, name);
            let gap = s.len() - base.len() - name.len();
            &&& s.take(base.len() as int) == base
            &&& s.skip(s.len() - name.len()) == name
            &&& gap == (if base.last() == '/' || base.last() == '\\' { 0int } else { 1 })
            &&& gap == 1 && base.contains('/') ==> s[base.len() as int] == '/'
            &&& gap == 1 && base.contains('\\') && !base.contains('/') ==> s[base.len() as int] == '\\'
        }),
{
    let s = below(base, name);
    assert(s.take(base.len() as int) =~= base);
    assert(s.skip(s.len() - name.len()) =~= name);
}

proof fn nothing_parts_behind(s: Seq<char>)
    ensures
        -1 <= last_separator(s) < s.len(),
        last_separator(s) >= 0 ==> separator(s[last_separator(s)]),
        forall|i: int| last_separator(s) < i < s.len() ==> !separator(#[trigger] s[i]),
    decreases s.len(),
{
    if s.len() > 0 && !separator(s.last()) {
        let rest = s.drop_last();
        nothing_parts_behind(rest);
        assert forall|i: int| last_separator(s) < i < s.len() implies !separator(#[trigger] s[i]) by {
            if i < rest.len() {
                assert(rest[i] == s[i]);
            }
        }
    }
}

/// A typed path is parted at its last separator: the folder ends with it, and
/// what follows holds none.
pub proof fn paths_part_at_the_last_separator(text: Seq<char>)
    ensures
        dir_part(text).len() > 0 ==> dir_part(text).last() == '/' || dir_part(text).last() == '\\',
        forall|i: int| 0 <= i < partial(text).len() ==> (#[trigger] partial(text)[i]) != '/' && partial(text)[i] != '\\',
        dir_part(text).len() + partial(text).len() == text.len(),
{
    nothing_parts_behind(text);
    let at = last_separator(text);
    assert forall|i: int| 0 <= i < partial(text).len() implies (#[trigger] partial(text)[i]) != '/' && partial(text)[i] != '\\' by {
        assert(partial(text)[i] == text[at + 1 + i]);
    }
}

/// Of repeated separators one stays, and nothing else goes: no two follow one
/// another past the first two, and a path without repeats is left alone.
pub proof fn collapsing_takes_repeats_alone(s: Seq<char>)
    ensures
        forall|i: int| 1 < i < collapsed(s).len() ==> !(separator(#[trigger] collapsed(s)[i]) && separator(collapsed(s)[i - 1])),
        collapsed(s).filter(|c: char| !separator(c)) == s.filter(|c: char| !separator(c)),
        (forall|i: int| 1 < i < s.len() ==> !(separator(#[trigger] s[i]) && separator(s[i - 1]))) ==> collapsed(s) == s,
        collapsed(s).len() <= s.len(),
        s.len() > 0 ==> collapsed(s).len() > 0 && separator(collapsed(s).last()) == separator(s.last()),
    decreases s.len(),
{
    reveal(Seq::filter);
    if s.len() > 0 {
        let rest = s.drop_last();
        let keep = |c: char| !separator(c);
        collapsing_takes_repeats_alone(rest);
        let c = collapsed(rest);
        if rest.len() > 0 {
            assert(rest.last() == s[s.len() - 2]);
        }
        if repeats(s, s.len() - 1) {
        } else {
            assert(collapsed(s).drop_last() =~= c);
        }
        if forall|i: int| 1 < i < s.len() ==> !(separator(#[trigger] s[i]) && separator(s[i - 1])) {
            assert forall|i: int| 1 < i < rest.len() implies !(separator(#[trigger] rest[i]) && separator(rest[i - 1])) by {
                assert(rest[i] == s[i] && rest[i - 1] == s[i - 1]);
            }
            assert(rest.push(s.last()) =~= s);
            if s.len() > 2 {
                assert(!(separator(s[s.len() - 1]) && separator(s[s.len() - 2])));
            }
        }
    }
}

/// The suggestions are the names that begin as typed, all of them, in order.
pub proof fn suggestions_begin_as_typed(names: Seq<String>, prefix: Seq<char>)
    ensures
        matching(names, prefix) == names.filter(|n: String| n@.len() >= prefix.len() && n@.take(prefix.len() as int) == prefix),
    decreases names.len(),
{
    reveal(Seq::filter);
    let keep = |n: String| n@.len() >= prefix.len() && n@.take(prefix.len() as int) == prefix;
    if names.len() > 0 {
        suggestions_begin_as_typed(names.drop_last(), prefix);
    } else {
        assert(matching(names, prefix) =~= names.filter(keep));
    }
}

proof fn sharing_is_the_longest(a: Seq<char>, b: Seq<char>, q: Seq<char>)
    ensures
        shared(a, b) <= a.len() && shared(a, b) <= b.len(),
        a.take(shared(a, b) as int) == b.take(shared(a, b) as int),
        begins(a, q) && begins(b, q) ==> q.len() <= shared(a, b),
    decreases a.len(),
{
    if a.len() > 0 && b.len() > 0 && a[0] == b[0] {
        let (x, y) = (a.skip(1), b.skip(1));
        let n = shared(x, y) as int;
        if q.len() > 0 {
            sharing_is_the_longest(x, y, q.skip(1));
            if begins(a, q) && begins(b, q) {
                assert(x.take(q.len() - 1) =~= a.take(q.len() as int).skip(1));
                assert(y.take(q.len() - 1) =~= b.take(q.len() as int).skip(1));
            }
        } else {
            sharing_is_the_longest(x, y, q);
        }
        assert(a.take(n + 1) =~= seq![a[0]] + x.take(n));
        assert(b.take(n + 1) =~= seq![b[0]] + y.take(n));
    } else {
        assert(a.take(0) =~= b.take(0));
        if begins(a, q) && begins(b, q) && q.len() > 0 {
            assert(a.take(q.len() as int)[0] == a[0]);
            assert(b.take(q.len() as int)[0] == b[0]);
        }
    }
}

/// What is filled in is the longest beginning that all names share: each of them
/// begins with it, and nothing longer would do.
pub proof fn completion_is_the_longest(names: Seq<String>, q: Seq<char>)
    requires
        names.len() > 0,
    ensures
        forall|i: int| 0 <= i < names.len() ==> begins((#[trigger] names[i])@, prefix_of(names)),
        (forall|i: int| 0 <= i < names.len() ==> begins((#[trigger] names[i])@, q)) ==> begins(prefix_of(names), q),
    decreases names.len(),
{
    if names.len() == 1 {
        assert(names[0]@.take(names[0]@.len() as int) =~= names[0]@);
    } else {
        let rest = names.drop_last();
        let p = prefix_of(rest);
        let last = names.last()@;
        let n = shared(p, last) as int;
        completion_is_the_longest(rest, q);
        sharing_is_the_longest(p, last, q);
        assert(prefix_of(names) == p.take(n));
        assert forall|i: int| 0 <= i < names.len() implies begins((#[trigger] names[i])@, prefix_of(names)) by {
            if i < rest.len() {
                assert(begins(rest[i]@, p));
                assert(names[i]@.take(n) =~= names[i]@.take(p.len() as int).take(n));
            }
        }
        if forall|i: int| 0 <= i < names.len() ==> begins((#[trigger] names[i])@, q) {
            assert forall|i: int| 0 <= i < rest.len() implies begins((#[trigger] rest[i])@, q) by {
                assert(names[i] == rest[i]);
            }
            assert(begins(names[names.len() - 1]@, q));
            assert(p.take(n).take(q.len() as int) =~= p.take(q.len() as int));
        }
    }
}

proof fn dashing_keeps_letters(s: Seq<char>)
    ensures
        dashed(s).filter(|c: char| alphanumeric(c)) == s.filter(|c: char| alphanumeric(c)).map_values(|c: char| lower(c)),
    decreases s.len(),
{
    reveal(Seq::filter);
    let keep = |c: char| alphanumeric(c);
    let low = |c: char| lower(c);
    if s.len() > 0 {
        let rest = s.drop_last();
        dashing_keeps_letters(rest);
        let b = dashed(rest);
        assert(b.push(lower(s.last())).drop_last() =~= b);
        assert(b.push('-').drop_last() =~= b);
        assert(dashed(s).filter(keep) =~= s.filter(keep).map_values(low));
    } else {
        assert(dashed(s).filter(keep) =~= s.filter(keep).map_values(low));
    }
}

/// A name made from a folder keeps the letters and digits of the folder's own
/// name, in order and in lower case.
pub proof fn names_keep_letters_and_digits(path: Seq<char>)
    ensures
        slug(path).filter(|c: char| alphanumeric(c)) == partial(bare(path)).filter(|c: char| alphanumeric(c)).map_values(
            |c: char| lower(c),
        ),
{
    reveal(Seq::filter);
    dashing_keeps_letters(partial(bare(path)));
}

/// A name that could be typed: lower-case letters, digits, single dashes inside.
pub open spec fn is_slug(name: Seq<char>) -> bool {
    &&& name.len() > 0
    &&& name[0] != '-'
    &&& forall|i: int| 0 <= i < name.len() ==> slug_char(#[trigger] name[i])
    &&& forall|i: int| 0 < i < name.len() ==> !(name[i - 1] == '-' && #[trigger] name[i] == '-')
}

proof fn slugs_are_left_alone(name: Seq<char>)
    requires
        is_slug(name),
    ensures
        dashed(name) == name,
    decreases name.len(),
{
    let rest = name.drop_last();
    if rest.len() > 0 {
        assert forall|i: int| 0 <= i < rest.len() implies slug_char(#[trigger] rest[i]) by {
            assert(slug_char(name[i]));
        }
        assert forall|i: int| 0 < i < rest.len() implies !(rest[i - 1] == '-' && #[trigger] rest[i] == '-') by {
            assert(!(name[i - 1] == '-' && name[i] == '-'));
        }
        slugs_are_left_alone(rest);
        assert(!(name[name.len() - 2] == '-' && name[name.len() - 1] == '-'));
    } else {
        assert(rest =~= Seq::<char>::empty());
    }
    let c = name[name.len() - 1];
    assert(slug_char(c) && name.last() == c);
    assert(dashed(rest) == rest);
    if alphanumeric(c) {
        assert(lower(c) == c);
    } else {
        assert(c == '-');
        assert(rest.len() > 0 && rest.last() == name[name.len() - 2]);
    }
    assert(rest.push(c) =~= name);
}

/// A folder whose name could be typed as it is keeps it, whatever it lies in and
/// however many separators end its path.
pub proof fn plain_names_stay(base: Seq<char>, name: Seq<char>)
    requires
        is_slug(name),
        name.last() != '-',
    ensures
        slug(base.push('/') + name) == name,
        slug((base.push('/') + name).push('/')) == name,
{
    let path = base.push('/') + name;
    assert(slug_char(name[name.len() - 1]));
    assert(path.last() == name.last());
    assert(bare(path) == path);
    assert(path.push('/').drop_last() =~= path);
    assert(bare(path.push('/')) == bare(path));
    assert forall|i: int| 0 <= i < name.len() implies !separator(#[trigger] name[i]) by {
        assert(slug_char(name[i]));
    }
    name_has_no_separator(base.push('/'), name);
    assert(partial(path) =~= name);
    slugs_are_left_alone(name);
}

} // verus!
