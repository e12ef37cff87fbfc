//! What the listening report says: durations, counts, tracks, plays, days.

use vstd::prelude::*;

use crate::clock::{days_from_civil, floor_div, floor_mod, weekday};
use crate::msg::{Arg, Fill, Msg};
use crate::outside::{int_of, member_of, object_is, string_of};
use crate::paths::starts_with;
use crate::text::{chars_of, decimal, printable, same, text_of, trim, zero_padded};
use crate::zone::local_parts;

verus! {

use crate::clock::{date_of, epoch_day, weekday_of};
use crate::msg::one;
use crate::outside::{json_int, json_is_object, json_member, json_string};
use crate::paths::begins;
use crate::text::{dec, is_text, padded, printed, texts, trimmed};
use vstd::utf8::encode_utf8;

// ── Durations and counts ─────────────────────────────────────────────────

/// A number of units, rounded to the nearest, halves up.
pub open spec fn rounded(n: int, unit: int) -> int {
    (n + unit / 2) / unit
}

fn rounded_to(n: u64, unit: u64) -> (r: u64)
    requires
        unit > 1,
        unit % 2 == 0,
        unit < 0x1_0000_0000,
    ensures
        r == rounded(n as int, unit as int),
{
    let r: u64 = ((n as u128 + (unit / 2) as u128) / (unit as u128)) as u64;
    proof {
        let s = n as int + unit as int / 2;
        assert(s / unit as int <= s) by (nonlinear_arith)
            requires
                s >= 0,
                unit > 1,
        ;
        assert(s / unit as int <= u64::MAX) by (nonlinear_arith)
            requires
                s == n as int + unit as int / 2,
                unit > 1,
                unit < 0x1_0000_0000,
                0 <= n <= u64::MAX,
        ;
    }
    r
}

/// A total of listening: whole minutes under an hour, then hours and minutes.
pub open spec fn duration(ms: int) -> Msg {
    let mins = rounded(ms, 60000);
    let h = Fill { name: "h", arg: Arg::Nat((mins / 60) as u64) };
    if mins < 60 {
        one("sta.minutes", "n", Arg::Nat(mins as u64))
    } else if mins % 60 > 0 {
        Msg::Two("sta.hours_minutes", h, Fill { name: "m", arg: Arg::TwoDigits((mins % 60) as u64) })
    } else {
        Msg::One("sta.hours", h)
    }
}

/// A total of listening, in words.
pub fn fmt_duration(ms: u64) -> (out: Msg)
    ensures
        out == duration(ms as int),
{
    let mins: u64 = rounded_to(ms, 60_000);
    if mins < 60 {
        return Msg::One("sta.minutes", Fill { name: "n", arg: Arg::Nat(mins) });
    }
    let h = Fill { name: "h", arg: Arg::Nat(mins / 60) };
    if mins % 60 > 0 {
        Msg::Two("sta.hours_minutes", h, Fill { name: "m", arg: Arg::TwoDigits(mins % 60) })
    } else {
        Msg::One("sta.hours", h)
    }
}

/// The time of one play, to the second: `M:SS`, or `H:MM:SS` from an hour on.
pub open spec fn clock_words(ms: int) -> Seq<char> {
    let s = rounded(ms, 1000);
    if s >= 3600 {
        dec((s / 3600) as nat) + seq![':'] + padded((s % 3600 / 60) as nat, 2) + seq![':'] + padded((s % 60) as nat, 2)
    } else {
        dec((s % 3600 / 60) as nat) + seq![':'] + padded((s % 60) as nat, 2)
    }
}

/// The time of one play.
pub fn fmt_clock(ms: u64) -> (out: String)
    ensures
        out@ == clock_words(ms as int),
{
    let s: u64 = rounded_to(ms, 1000);
    let mut out: String = String::new();
    if s >= 3600 {
        out.append(decimal(s / 3600).as_str());
        out.push(':');
        out.append(zero_padded(s % 3600 / 60, 2).as_str());
    } else {
        out.append(decimal(s % 3600 / 60).as_str());
    }
    out.push(':');
    out.append(zero_padded(s % 60, 2).as_str());
    proof {
        assert(out@ =~= clock_words(ms as int));
    }
    out
}

/// A count of things: one by its own phrase, any other by its number.
pub open spec fn counted(n: u64, single: &'static str, many: &'static str) -> Msg {
    if n == 1 { Msg::Key(single) } else { one(many, "n", Arg::Count(n)) }
}

fn count_words(n: u64, single: &'static str, many: &'static str) -> (out: Msg)
    ensures
        out == counted(n, single, many),
{
    if n == 1 { Msg::Key(single) } else { Msg::One(many, Fill { name: "n", arg: Arg::Count(n) }) }
}

pub open spec fn plays_said(n: u64) -> Msg {
    counted(n, "sta.plays_one", "sta.plays_n")
}

pub open spec fn tracks_said(n: u64) -> Msg {
    counted(n, "sta.tracks_one", "sta.tracks_n")
}

pub open spec fn days_said(n: u64) -> Msg {
    counted(n, "sta.days_one", "sta.days_n")
}

pub fn plays_words(n: u64) -> (out: Msg)
    ensures
        out == plays_said(n),
{
    count_words(n, "sta.plays_one", "sta.plays_n")
}

pub fn tracks_words(n: u64) -> (out: Msg)
    ensures
        out == tracks_said(n),
{
    count_words(n, "sta.tracks_one", "sta.tracks_n")
}

pub fn days_words(n: u64) -> (out: Msg)
    ensures
        out == days_said(n),
{
    count_words(n, "sta.days_one", "sta.days_n")
}

/// Whose play it is: a peer by its name, or just a peer.
pub open spec fn is_via(msg: Msg, peer: Option<Seq<char>>) -> bool {
    msg matches Msg::One(key, Fill { name, arg }) && key == "sta.via" && name == "peer" && match peer {
        Some(p) => if p.len() > 0 {
            arg matches Arg::Text(s) && s@ == printed(p, 40)
        } else {
            arg == Arg::Phrase(Box::new(Msg::Key("sta.a_peer")))
        },
        None => arg == Arg::Phrase(Box::new(Msg::Key("sta.a_peer"))),
    }
}

/// Whose play it is.
pub fn via_words(peer: Option<&str>) -> (out: Msg)
    ensures
        is_via(
            out,
            match peer {
                Some(p) => Some(p@),
                None => None,
            },
        ),
{
    let arg = match peer {
        Some(p) => if p.is_empty() {
            Arg::Phrase(Box::new(Msg::Key("sta.a_peer")))
        } else {
            Arg::Text(printable(p, 40))
        },
        None => Arg::Phrase(Box::new(Msg::Key("sta.a_peer"))),
    };
    Msg::One("sta.via", Fill { name: "peer", arg })
}

/// `Artist - Title`, or the title alone.
pub open spec fn joined_artist(artist: Seq<char>, title: Seq<char>) -> Seq<char> {
    if artist.len() == 0 { title } else { artist + seq![' ', '-', ' '] + title }
}

/// `Artist - Title`, or the title alone.
pub fn join_artist(artist: &str, title: &str) -> (out: String)
    ensures
        out@ == joined_artist(artist@, title@),
{
    if artist.is_empty() {
        title.to_owned()
    } else {
        let mut out: String = artist.to_owned();
        out.push(' ');
        out.push('-');
        out.push(' ');
        out.append(title);
        proof {
            assert(out@ =~= joined_artist(artist@, title@));
        }
        out
    }
}

// ── Tracks ───────────────────────────────────────────────────────────────

/// A track in words.
#[derive(Debug, PartialEq)]
pub struct Track {
    pub title: String,
    pub artist: String,
    pub album: String,
    pub year: Option<i64>,
}

/// What follows the last slash.
pub open spec fn file_name(path: Seq<char>) -> Seq<char>
    decreases path.len(),
{
    if path.len() == 0 || path.last() == '/' {
        Seq::empty()
    } else {
        file_name(path.drop_last()).push(path.last())
    }
}

/// A tag's text, trimmed; nothing where that leaves nothing.
pub open spec fn tag(raw: Option<Seq<char>>) -> Option<Seq<char>> {
    match raw {
        Some(s) => if trimmed(s).len() > 0 {
            Some(trimmed(s))
        } else {
            None
        },
        None => None,
    }
}

/// A track's title: its tag, else the name of its file, else that it is
/// unknown.
pub open spec fn title_of(title: Option<Seq<char>>, path: Option<Seq<char>>, unknown: Seq<char>) -> Seq<char> {
    match tag(title) {
        Some(t) => t,
        None => match path {
            Some(p) => if file_name(p).len() > 0 {
                file_name(p)
            } else {
                unknown
            },
            None => unknown,
        },
    }
}

/// A text, or none at all.
pub open spec fn or_empty(o: Option<Seq<char>>) -> Seq<char> {
    match o {
        Some(s) => s,
        None => Seq::empty(),
    }
}

fn last_component(path: &str) -> (out: String)
    ensures
        out@ == file_name(path@),
{
    let cs = chars_of(path);
    let mut i: usize = cs.len();
    proof {
        assert(cs@.take(i as int) =~= cs@);
        assert(cs@.subrange(i as int, cs@.len() as int) =~= Seq::<char>::empty());
        assert(file_name(cs@.take(i as int)) + cs@.subrange(i as int, cs@.len() as int) =~= file_name(path@));
    }
    while i > 0 && cs[i - 1] != '/'
        invariant
            cs@ == path@,
            i <= cs@.len(),
            file_name(cs@.take(i as int)) + cs@.subrange(i as int, cs@.len() as int) == file_name(path@),
        decreases i,
    {
        proof {
            let head = cs@.take(i as int);
            assert(head.drop_last() =~= cs@.take(i - 1));
            assert(file_name(head) == file_name(cs@.take(i - 1)).push(cs@[i - 1]));
            assert(file_name(cs@.take(i - 1)) + cs@.subrange(i - 1, cs@.len() as int) =~= file_name(head) + cs@.subrange(
                i as int,
                cs@.len() as int,
            ));
        }
        i -= 1;
    }
    let out = text_of(&cs, i, cs.len());
    proof {
        assert(file_name(cs@.take(i as int)) =~= Seq::<char>::empty());
        assert(Seq::<char>::empty() + out@ =~= out@);
    }
    out
}

fn read_tag(raw: &Option<String>) -> (out: Option<String>)
    ensures
        is_text(
            out,
            tag(
                match raw {
                    Some(s) => Some(s@),
                    None => None,
                },
            ),
        ),
{
    match raw {
        Some(s) => {
            let t = trim(s.as_str());
            if t.as_str().is_empty() {
                None
            } else {
                Some(t)
            }
        },
        None => None,
    }
}

/// The texts of what a track's tags and path are.
pub struct Tags {
    pub title: Option<String>,
    pub artist: Option<String>,
    pub album: Option<String>,
    pub path: Option<String>,
    pub year: Option<i64>,
}

/// The text that an optional string is.
pub open spec fn text_in(o: Option<String>) -> Option<Seq<char>> {
    match o {
        Some(s) => Some(s@),
        None => None,
    }
}

/// A track in words, from the texts of its tags.
pub open spec fn track_is(
    t: Track,
    title: Option<Seq<char>>,
    artist: Option<Seq<char>>,
    album: Option<Seq<char>>,
    path: Option<Seq<char>>,
    year: Option<i64>,
    unknown: Seq<char>,
) -> bool {
    &&& t.title@ == title_of(title, path, unknown)
    &&& t.artist@ == or_empty(tag(artist))
    &&& t.album@ == or_empty(tag(album))
    &&& t.year == (match year {
        Some(y) => if y > 0 {
            Some(y)
        } else {
            None
        },
        None => None,
    })
}

/// A track in words, from its tags.
pub open spec fn is_track(t: Track, tags: Tags, unknown: Seq<char>) -> bool {
    track_is(
        t,
        text_in(tags.title),
        text_in(tags.artist),
        text_in(tags.album),
        text_in(tags.path),
        tags.year,
        unknown,
    )
}

/// A track in words, from its tags; `unknown` names one without a title.
pub fn track_of(tags: &Tags, unknown: &str) -> (t: Track)
    ensures
        is_track(t, *tags, unknown@),
{
    let title = match read_tag(&tags.title) {
        Some(t) => t,
        None => match &tags.path {
            Some(p) => {
                let name = last_component(p.as_str());
                if name.as_str().is_empty() {
                    unknown.to_owned()
                } else {
                    name
                }
            },
            None => unknown.to_owned(),
        },
    };
    let artist = match read_tag(&tags.artist) {
        Some(a) => a,
        None => String::new(),
    };
    let album = match read_tag(&tags.album) {
        Some(a) => a,
        None => String::new(),
    };
    let year = match tags.year {
        Some(y) => if y > 0 {
            Some(y)
        } else {
            None
        },
        None => None,
    };
    Track { title, artist, album, year }
}

/// The document that holds a track's tags: its `metadata` where that is an
/// object, else the track itself.
pub open spec fn tags_doc(doc: Seq<char>) -> Seq<char> {
    match json_member(doc, "metadata"@) {
        Some(m) => if json_is_object(m) {
            m
        } else {
            doc
        },
        None => doc,
    }
}

/// The string that a member of a document is.
pub open spec fn string_at(doc: Seq<char>, key: Seq<char>) -> Option<Seq<char>> {
    match json_member(doc, key) {
        Some(m) => json_string(m),
        None => None,
    }
}

/// Where a track's document says its file is.
pub open spec fn path_at(doc: Seq<char>) -> Option<Seq<char>> {
    match json_member(doc, "filepath"@) {
        Some(p) => json_string(p),
        None => string_at(tags_doc(doc), "filepath"@),
    }
}

/// The year that a track's document gives.
pub open spec fn year_at(doc: Seq<char>) -> Option<i64> {
    match json_member(tags_doc(doc), "year"@) {
        Some(y) => json_int(y),
        None => None,
    }
}

/// The tags in a track's document.
pub open spec fn are_tags(tags: Tags, doc: Seq<char>) -> bool {
    let m = tags_doc(doc);
    &&& is_text(tags.title, string_at(m, "title"@))
    &&& is_text(tags.artist, string_at(m, "artist"@))
    &&& is_text(tags.album, string_at(m, "album"@))
    &&& is_text(tags.path, path_at(doc))
    &&& tags.year == year_at(doc)
}

fn read_string(doc: &str, key: &str) -> (s: Option<String>)
    ensures
        is_text(s, string_at(doc@, key@)),
{
    match member_of(doc, key) {
        Some(m) => string_of(m.as_str()),
        None => None,
    }
}

/// The tags in a track's document, in either shape: with its `metadata`, or
/// the bare fields.
pub fn read_tags(doc: &str) -> (tags: Tags)
    ensures
        are_tags(tags, doc@),
{
    let inner: Option<String> = match member_of(doc, "metadata") {
        Some(m) => if object_is(m.as_str()) {
            Some(m)
        } else {
            None
        },
        None => None,
    };
    let m: &str = match &inner {
        Some(s) => s.as_str(),
        None => doc,
    };
    let path = match member_of(doc, "filepath") {
        Some(p) => string_of(p.as_str()),
        None => read_string(m, "filepath"),
    };
    let year = match member_of(m, "year") {
        Some(y) => int_of(y.as_str()),
        None => None,
    };
    Tags {
        title: read_string(m, "title"),
        artist: read_string(m, "artist"),
        album: read_string(m, "album"),
        path,
        year,
    }
}

/// A track's document in words: an unknown track where there is none.
pub open spec fn is_track_words(t: Track, doc: Option<Seq<char>>, unknown: Seq<char>) -> bool {
    match doc {
        Some(d) => track_is(
            t,
            string_at(tags_doc(d), "title"@),
            string_at(tags_doc(d), "artist"@),
            string_at(tags_doc(d), "album"@),
            path_at(d),
            year_at(d),
            unknown,
        ),
        None => t.title@ == unknown && t.artist@.len() == 0 && t.album@.len() == 0 && t.year is None,
    }
}

/// A track's document in words; `unknown` names one without a title.
pub fn track_words(doc: Option<&str>, unknown: &str) -> (t: Track)
    ensures
        is_track_words(
            t,
            match doc {
                Some(d) => Some(d@),
                None => None,
            },
            unknown@,
        ),
{
    match doc {
        Some(d) => {
            let tags = read_tags(d);
            track_of(&tags, unknown)
        },
        None => Track { title: unknown.to_owned(), artist: String::new(), album: String::new(), year: None },
    }
}

// ── Plays ────────────────────────────────────────────────────────────────

/// One play of the log.
#[derive(Debug, PartialEq)]
pub struct HistoryItem {
    pub id: String,
    pub started_at: String,
    pub played_ms: u64,
    pub duration_ms: Option<u64>,
    pub outcome: String,
    pub counted: bool,
    pub source: Option<String>,
    pub client: Option<String>,
    pub origin: String,
    pub peer_name: Option<String>,
    /// The track's document.
    pub track: Option<String>,
}

/// A play that an older client reported.
pub open spec fn legacy(item: HistoryItem) -> bool {
    item.source is Some && item.source->0@ == "legacy"@
}

/// A play that ran to its end, as far as its client can tell.
pub open spec fn completed(item: HistoryItem) -> bool {
    item.outcome@ == "completed"@ && !legacy(item)
}

pub fn is_legacy(item: &HistoryItem) -> (r: bool)
    ensures
        r == legacy(*item),
{
    match &item.source {
        Some(s) => same(s.as_str(), "legacy"),
        None => false,
    }
}

/// A phrase whose one gap is filled with a time.
pub open spec fn at_time(msg: Msg, key: &'static str, ms: u64) -> bool {
    crate::msg::says(msg, key, "t", clock_words(ms as int))
}

/// How a play ended.
pub open spec fn is_outcome(msg: Msg, item: HistoryItem) -> bool {
    if legacy(item) {
        at_time(msg, "sta.out_scrobbled", item.played_ms)
    } else if item.outcome@ == "completed"@ {
        msg == Msg::Key("sta.out_completed")
    } else if item.outcome@ == "skipped"@ {
        at_time(msg, "sta.out_skipped", item.played_ms)
    } else {
        at_time(msg, "sta.out_stopped", item.played_ms)
    }
}

/// How a play ended: completed, or skipped, stopped or scrobbled at a time.
pub fn outcome_words(item: &HistoryItem) -> (out: Msg)
    ensures
        is_outcome(out, *item),
{
    let at = Fill { name: "t", arg: Arg::Text(fmt_clock(item.played_ms)) };
    if is_legacy(item) {
        Msg::One("sta.out_scrobbled", at)
    } else if same(item.outcome.as_str(), "completed") {
        Msg::Key("sta.out_completed")
    } else if same(item.outcome.as_str(), "skipped") {
        Msg::One("sta.out_skipped", at)
    } else {
        Msg::One("sta.out_stopped", at)
    }
}

/// The track's length, where it is known.
pub open spec fn known_length(item: HistoryItem) -> Option<u64> {
    match item.duration_ms {
        Some(d) => if d > 0 {
            Some(d)
        } else {
            None
        },
        None => None,
    }
}

fn length_of(item: &HistoryItem) -> (r: Option<u64>)
    ensures
        r == known_length(*item),
{
    match item.duration_ms {
        Some(d) => if d > 0 {
            Some(d)
        } else {
            None
        },
        None => None,
    }
}

/// What was listened: the whole track for a completed play, so much of so much
/// where the length is known, else the time played.
pub open spec fn is_listened(msg: Msg, item: HistoryItem) -> bool {
    match known_length(item) {
        Some(total) => if completed(item) {
            msg matches Msg::Raw(s) && s@ == clock_words(total as int)
        } else {
            msg matches Msg::Two(key, a, b) && key == "sta.listened_of" && crate::msg::filled(
                a,
                "played",
                clock_words(item.played_ms as int),
            ) && crate::msg::filled(b, "total", clock_words(total as int))
        },
        None => msg matches Msg::Raw(s) && s@ == clock_words(item.played_ms as int),
    }
}

/// What was listened.
pub fn listened_words(item: &HistoryItem) -> (out: Msg)
    ensures
        is_listened(out, *item),
{
    match length_of(item) {
        Some(total) => if same(item.outcome.as_str(), "completed") && !is_legacy(item) {
            Msg::Raw(fmt_clock(total))
        } else {
            Msg::Two(
                "sta.listened_of",
                Fill { name: "played", arg: Arg::Text(fmt_clock(item.played_ms)) },
                Fill { name: "total", arg: Arg::Text(fmt_clock(total)) },
            )
        },
        None => Msg::Raw(fmt_clock(item.played_ms)),
    }
}

/// The place of the first slash, or the length.
pub open spec fn slash_at(s: Seq<char>) -> int
    decreases s.len(),
{
    if s.len() == 0 || s[0] == '/' {
        0
    } else {
        1 + slash_at(s.skip(1))
    }
}

/// A client's name: what stands before the first slash.
pub open spec fn client_name(c: Seq<char>) -> Seq<char> {
    printed(c.take(slash_at(c)), 40)
}

/// A client's version: what stands behind the first slash.
pub open spec fn client_version(c: Seq<char>) -> Seq<char> {
    if slash_at(c) < c.len() { c.skip(slash_at(c) + 1) } else { Seq::empty() }
}

/// The client in words, with its version and without.
pub open spec fn is_client(words: (Msg, Msg), item: HistoryItem) -> bool {
    let c = or_empty(text_in(item.client));
    if c.len() == 0 {
        if legacy(item) {
            words == (Msg::Key("sta.client_old"), Msg::Key("sta.client_old"))
        } else {
            &&& words.0 matches Msg::Raw(s) && s@.len() == 0
            &&& words.1 matches Msg::Raw(s) && s@.len() == 0
        }
    } else if c == "legacy"@ {
        words == (Msg::Key("sta.client_web_old"), Msg::Key("sta.client_web_old"))
    } else if begins(c, "mstream-webapp"@) {
        words == (Msg::Key("sta.client_web"), Msg::Key("sta.client_web"))
    } else if begins(c, "mstream-player"@) {
        words == (Msg::Key("sta.client_this"), Msg::Key("sta.client_this"))
    } else {
        &&& words.0 matches Msg::Raw(s) && s@ == (if client_version(c).len() == 0 {
            client_name(c)
        } else {
            client_name(c) + seq![' '] + printed(client_version(c), 20)
        })
        &&& words.1 matches Msg::Raw(s) && s@ == client_name(c)
    }
}

fn find_slash(cs: &Vec<char>) -> (at: usize)
    ensures
        at == slash_at(cs@),
        at <= cs@.len(),
{
    let mut i: usize = 0;
    proof {
        assert(cs@.skip(0) =~= cs@);
    }
    while i < cs.len() && cs[i] != '/'
        invariant
            i <= cs@.len(),
            slash_at(cs@) == i + slash_at(cs@.skip(i as int)),
        decreases cs@.len() - i,
    {
        proof {
            assert(cs@.skip(i as int).skip(1) =~= cs@.skip(i + 1));
            assert(cs@.skip(i as int)[0] == cs@[i as int]);
        }
        i += 1;
    }
    proof {
        if i < cs@.len() {
            assert(cs@.skip(i as int)[0] == cs@[i as int]);
        }
    }
    i
}

/// The client column: the server's own clients by what they are, any other by
/// its name and version — and by its name alone, for a narrow column.
pub fn client_words(item: &HistoryItem) -> (out: (Msg, Msg))
    ensures
        is_client(out, *item),
{
    let c: &str = match &item.client {
        Some(s) => s.as_str(),
        None => "",
    };
    proof {
        reveal_strlit("");
        assert(""@ =~= Seq::<char>::empty());
    }
    if c.is_empty() {
        return if is_legacy(item) {
            (Msg::Key("sta.client_old"), Msg::Key("sta.client_old"))
        } else {
            (Msg::Raw(String::new()), Msg::Raw(String::new()))
        };
    }
    if same(c, "legacy") {
        (Msg::Key("sta.client_web_old"), Msg::Key("sta.client_web_old"))
    } else if starts_with(c, "mstream-webapp") {
        (Msg::Key("sta.client_web"), Msg::Key("sta.client_web"))
    } else if starts_with(c, "mstream-player") {
        (Msg::Key("sta.client_this"), Msg::Key("sta.client_this"))
    } else {
        let cs = chars_of(c);
        let n: usize = cs.len();
        let at: usize = find_slash(&cs);
        let head = text_of(&cs, 0, at);
        proof {
            assert(head@ =~= c@.take(at as int));
        }
        let name = printable(head.as_str(), 40);
        let mut full: String = name.clone();
        if at < n && at + 1 < n {
            let tail = text_of(&cs, at + 1, n);
            proof {
                assert(tail@ =~= c@.skip(at + 1));
            }
            full.push(' ');
            full.append(printable(tail.as_str(), 20).as_str());
            proof {
                assert(full@ =~= client_name(c@) + seq![' '] + printed(client_version(c@), 20));
            }
        } else {
            proof {
                assert(client_version(c@).len() == 0);
            }
        }
        (Msg::Raw(full), Msg::Raw(name))
    }
}

// ── Names out of lists ───────────────────────────────────────────────────

/// A dot between spaces begins a text.
pub open spec fn dotted(s: Seq<char>) -> bool {
    s.len() >= 3 && s[0] == ' ' && s[1] == '·' && s[2] == ' '
}

/// The parts, the first of them with more in front.
pub open spec fn prefixed(head: Seq<char>, parts: Seq<Seq<char>>) -> Seq<Seq<char>> {
    seq![head + parts[0]] + parts.skip(1)
}

/// The names of a list, which a dot between spaces separates.
pub open spec fn named(s: Seq<char>) -> Seq<Seq<char>>
    decreases s.len(),
{
    if s.len() == 0 {
        seq![s]
    } else if dotted(s) {
        seq![Seq::<char>::empty()] + named(s.skip(3))
    } else {
        prefixed(seq![s[0]], named(s.skip(1)))
    }
}

proof fn some_name(s: Seq<char>)
    ensures
        named(s).len() > 0,
{
}

/// The names of a list.
pub fn names(list: &str) -> (out: Vec<String>)
    ensures
        texts(out@) == named(list@),
{
    let cs = chars_of(list);
    let n: usize = cs.len();
    let mut out: Vec<String> = Vec::new();
    let mut part: String = String::new();
    let mut i: usize = 0;
    proof {
        some_name(list@);
        assert(list@.skip(0) =~= list@);
        assert(Seq::<char>::empty() + named(list@)[0] =~= named(list@)[0]);
        assert(texts(out@) + prefixed(part@, named(list@)) =~= named(list@));
    }
    while i < n
        invariant
            cs@ == list@,
            n == cs@.len(),
            i <= n,
            texts(out@) + prefixed(part@, named(list@.skip(i as int))) == named(list@),
        decreases n - i,
    {
        let ghost rest = list@.skip(i as int);
        let ghost was = out@;
        proof {
            assert(rest.len() == n - i);
            assert(rest[0] == cs@[i as int]);
        }
        if n - i >= 3 && cs[i] == ' ' && cs[i + 1] == '·' && cs[i + 2] == ' ' {
            proof {
                assert(rest[1] == cs@[i + 1] && rest[2] == cs@[i + 2]);
                assert(dotted(rest));
                let tail = named(rest.skip(3));
                some_name(rest.skip(3));
                assert(rest.skip(3) =~= list@.skip(i + 3));
                assert(part@ + Seq::<char>::empty() =~= part@);
                assert(Seq::<char>::empty() + tail[0] =~= tail[0]);
                assert(named(rest).skip(1) =~= tail);
                assert(prefixed(part@, named(rest)) =~= seq![part@] + tail);
                assert(prefixed(Seq::<char>::empty(), tail) =~= tail);
            }
            let mut done: String = String::new();
            std::mem::swap(&mut done, &mut part);
            out.push(done);
            i += 3;
            proof {
                assert(texts(out@) =~= texts(was).push(done@));
                assert(part@ =~= Seq::<char>::empty());
                assert(texts(out@) + prefixed(part@, named(list@.skip(i as int))) =~= named(list@));
            }
        } else {
            proof {
                assert(!dotted(rest)) by {
                    if rest.len() >= 3 {
                        assert(rest[1] == cs@[i + 1] && rest[2] == cs@[i + 2]);
                    }
                }
                let tail = named(rest.skip(1));
                some_name(rest.skip(1));
                assert(rest.skip(1) =~= list@.skip(i + 1));
                assert(named(rest).skip(1) =~= tail.skip(1));
                assert(part@ + (seq![rest[0]] + tail[0]) =~= part@.push(rest[0]) + tail[0]);
                assert(prefixed(part@, named(rest)) =~= prefixed(part@.push(rest[0]), tail));
            }
            part.push(cs[i]);
            i += 1;
        }
    }
    proof {
        let rest = list@.skip(i as int);
        assert(rest.len() == 0);
        assert(part@ + rest =~= part@);
        assert(prefixed(part@, named(rest)) =~= seq![part@]);
    }
    let ghost was = out@;
    let ghost last = part@;
    out.push(part);
    proof {
        assert(texts(out@) =~= texts(was).push(last));
        assert(texts(out@) =~= texts(was) + seq![last]);
    }
    out
}

/// The name at a place of a list; nothing past its end.
pub open spec fn name_at(list: Seq<char>, i: int) -> Seq<char> {
    if 0 <= i < named(list).len() { named(list)[i] } else { Seq::empty() }
}

/// The name at a place of a list; nothing past its end.
pub fn nth_name(list: &str, i: usize) -> (out: String)
    ensures
        out@ == name_at(list@, i as int),
{
    let all = names(list);
    proof {
        assert(texts(all@).len() == all@.len());
    }
    if i < all.len() {
        proof {
            assert(texts(all@)[i as int] == all@[i as int]@);
        }
        all[i].clone()
    } else {
        String::new()
    }
}

/// The place of a month in a list of the twelve.
pub open spec fn month_place(m: u32) -> u32 {
    if m == 0 { 0 } else { (m - 1) as u32 }
}

/// A month's name, from a list of the twelve.
pub fn month_name(m: u32, list: &str) -> (out: String)
    ensures
        out@ == name_at(list@, month_place(m) as int),
{
    nth_name(list, if m == 0 { 0 } else { (m - 1) as usize })
}

/// A weekday's short name, Sunday 0, from a list of the seven.
pub fn weekday_short(w: u32, list: &str) -> (out: String)
    ensures
        out@ == name_at(list@, w as int),
{
    nth_name(list, w as usize)
}

/// A weekday's name for all of them, Sunday 0, from a list of the seven.
pub fn weekday_plural(w: u32, list: &str) -> (out: String)
    ensures
        out@ == name_at(list@, w as int),
{
    nth_name(list, w as usize)
}

// ── Days and times ───────────────────────────────────────────────────────

/// A day relative to today: today, yesterday, by month and day in this year,
/// with the year otherwise.
pub open spec fn day_said(t: int, now: int, offset: int, now_offset: int) -> Msg {
    let (y, m, d) = date_of((t + offset) / 86400);
    let this_year = date_of((now + now_offset) / 86400).0;
    let ago = (now + now_offset) / 86400 - (t + offset) / 86400;
    let month = Fill { name: "month", arg: Arg::Phrase(Box::new(Msg::Listed("sta.months_short", (m - 1) as u32))) };
    let day = Fill { name: "day", arg: Arg::Nat(d as u64) };
    if ago == 0 {
        Msg::Key("sta.today")
    } else if ago == 1 {
        Msg::Key("sta.yesterday")
    } else if y == this_year {
        Msg::Two("sta.day_label", month, day)
    } else {
        Msg::Three("sta.day_label_year", month, day, Fill { name: "year", arg: Arg::Num(y as i64) })
    }
}

/// A day relative to now, on the local clock.
pub fn day_label(t: i64, now: i64, offset: i32, now_offset: i32) -> (out: Msg)
    requires
        i64::MIN <= t + offset <= i64::MAX,
        i64::MIN <= now + now_offset <= i64::MAX,
    ensures
        out == day_said(t as int, now as int, offset as int, now_offset as int),
{
    let w = local_parts(t, offset);
    let today = local_parts(now, now_offset);
    let ago: i64 = today.days - w.days;
    if ago == 0 {
        return Msg::Key("sta.today");
    }
    if ago == 1 {
        return Msg::Key("sta.yesterday");
    }
    let month = Fill { name: "month", arg: Arg::Phrase(Box::new(Msg::Listed("sta.months_short", w.month - 1))) };
    let day = Fill { name: "day", arg: Arg::Nat(w.day as u64) };
    if w.year == today.year {
        Msg::Two("sta.day_label", month, day)
    } else {
        Msg::Three("sta.day_label_year", month, day, Fill { name: "year", arg: Arg::Num(w.year) })
    }
}

/// The time of day on the local clock, `HH:MM`.
pub open spec fn time_said(t: int, offset: int) -> Seq<char> {
    let local = t + offset;
    padded((local % 86400 / 3600) as nat, 2) + seq![':'] + padded((local % 3600 / 60) as nat, 2)
}

/// The time of day on the local clock.
pub fn time_label(t: i64, offset: i32) -> (out: String)
    requires
        i64::MIN <= t + offset <= i64::MAX,
    ensures
        out@ == time_said(t as int, offset as int),
{
    let w = local_parts(t, offset);
    let mut out: String = zero_padded(w.hour as u64, 2);
    out.push(':');
    out.append(zero_padded(w.minute as u64, 2).as_str());
    proof {
        assert(out@ =~= time_said(t as int, offset as int));
    }
    out
}

/// A date with its month's name.
pub open spec fn date_said(t: int, offset: int) -> Msg {
    let (y, m, d) = date_of((t + offset) / 86400);
    Msg::Three(
        "sta.date_long",
        Fill { name: "day", arg: Arg::Nat(d as u64) },
        Fill { name: "month", arg: Arg::Phrase(Box::new(Msg::Listed("sta.months_long", (m - 1) as u32))) },
        Fill { name: "year", arg: Arg::Num(y as i64) },
    )
}

/// A date with its month's name, on the local clock.
pub fn date_long(t: i64, offset: i32) -> (out: Msg)
    requires
        i64::MIN <= t + offset <= i64::MAX,
    ensures
        out == date_said(t as int, offset as int),
{
    let w = local_parts(t, offset);
    Msg::Three(
        "sta.date_long",
        Fill { name: "day", arg: Arg::Nat(w.day as u64) },
        Fill { name: "month", arg: Arg::Phrase(Box::new(Msg::Listed("sta.months_long", w.month - 1))) },
        Fill { name: "year", arg: Arg::Num(w.year) },
    )
}

/// A whole hour of the day, `HH:00`.
pub open spec fn hour_said(h: int) -> Seq<char> {
    padded((if h < 0 { 0 } else if h > 23 { 23 } else { h }) as nat, 2) + seq![':', '0', '0']
}

/// A whole hour of the day; what lies outside it counts as its first or last.
pub fn hour_label(h: i32) -> (out: String)
    ensures
        out@ == hour_said(h as int),
{
    let mut out: String = zero_padded((if h < 0 { 0 } else if h > 23 { 23 } else { h }) as u64, 2);
    out.push(':');
    out.push('0');
    out.push('0');
    proof {
        assert(out@ =~= hour_said(h as int));
    }
    out
}

// ── Keys of the calendar ─────────────────────────────────────────────────

/// The number that a run of digits is.
pub open spec fn digits_of(b: Seq<u8>) -> int
    decreases b.len(),
{
    if b.len() == 0 {
        0
    } else {
        10 * digits_of(b.drop_last()) + (b.last() as int - 48)
    }
}

/// A run of digits, at least one.
pub open spec fn all_digits(b: Seq<u8>) -> bool {
    b.len() > 0 && forall|i: int| 0 <= i < b.len() ==> 48 <= #[trigger] b[i] <= 57
}

/// The number that a stretch of a text's bytes is, with a sign or without.
pub open spec fn number_in(bytes: Seq<u8>, from: int, to: int) -> Option<int> {
    let b = bytes.subrange(from, to);
    let tail = b.skip(1);
    if to > bytes.len() {
        None
    } else if all_digits(b) {
        Some(digits_of(b))
    } else if b.len() > 0 && b[0] == 43 && all_digits(tail) {
        Some(digits_of(tail))
    } else if b.len() > 0 && b[0] == 45 && all_digits(tail) {
        Some(-digits_of(tail))
    } else {
        None
    }
}

fn digits_at(bytes: &[u8], from: usize, to: usize) -> (r: Option<i64>)
    requires
        from <= to <= bytes@.len(),
        to - from <= 4,
    ensures
        all_digits(bytes@.subrange(from as int, to as int)) ==> r == Some(
            digits_of(bytes@.subrange(from as int, to as int)) as i64,
        ) && 0 <= digits_of(bytes@.subrange(from as int, to as int)) <= 9999,
        !all_digits(bytes@.subrange(from as int, to as int)) ==> r is None,
{
    if from == to {
        return None;
    }
    let ghost all = bytes@.subrange(from as int, to as int);
    let mut v: i64 = 0;
    let mut i: usize = from;
    proof {
        assert(all.take(0) =~= Seq::<u8>::empty());
    }
    while i < to
        invariant
            from <= i <= to <= bytes@.len(),
            to - from <= 4,
            all == bytes@.subrange(from as int, to as int),
            forall|k: int| 0 <= k < i - from ==> 48 <= #[trigger] all[k] <= 57,
            v == digits_of(all.take(i - from)),
            i - from == 0 ==> v == 0,
            i - from == 1 ==> 0 <= v <= 9,
            i - from == 2 ==> 0 <= v <= 99,
            i - from == 3 ==> 0 <= v <= 999,
            i - from == 4 ==> 0 <= v <= 9999,
        decreases to - i,
    {
        let b: u8 = bytes[i];
        proof {
            assert(all[i - from] == b);
            assert(all.take(i + 1 - from).drop_last() =~= all.take(i - from));
        }
        if b < 48 || b > 57 {
            return None;
        }
        v = 10 * v + (b as i64 - 48);
        i += 1;
    }
    proof {
        assert(all.take(i - from) =~= all);
    }
    Some(v)
}

/// Reads the number that a stretch of a text's bytes is.
pub fn number_at(key: &str, from: usize, to: usize) -> (r: Option<i64>)
    requires
        from <= to,
        to - from <= 4,
    ensures
        match number_in(encode_utf8(key@), from as int, to as int) {
            Some(n) => r == Some(n as i64) && -9999 <= n <= 9999,
            None => r is None,
        },
{
    let bytes = key.as_bytes();
    if to > bytes.len() {
        return None;
    }
    let ghost b = bytes@.subrange(from as int, to as int);
    if let Some(n) = digits_at(bytes, from, to) {
        return Some(n);
    }
    if from < to {
        proof {
            assert(b.skip(1) =~= bytes@.subrange(from + 1, to as int));
            assert(b[0] == bytes@[from as int]);
        }
        if bytes[from] == 43 {
            return digits_at(bytes, from + 1, to);
        }
        if bytes[from] == 45 {
            return match digits_at(bytes, from + 1, to) {
                Some(n) => Some(-n),
                None => None,
            };
        }
    }
    None
}

/// A number of the calendar, which has no sign: one below zero is taken 2^32
/// higher.
pub open spec fn unsigned_of(n: int) -> int {
    if n < 0 { n + 0x1_0000_0000 } else { n }
}

/// The day of three numbers: months past the year's end, or before its start,
/// and days past the month's end count on.
pub open spec fn counted_day(y: int, m: int, d: int) -> int {
    let months = unsigned_of(m) - 1;
    epoch_day(y + months / 12, months % 12 + 1, unsigned_of(d))
}

/// A day of the calendar by its key: the weekday and the day, or the key as it
/// stands where it is not three numbers.
pub open spec fn is_day_key(msg: Msg, key: Seq<char>) -> bool {
    let b = encode_utf8(key);
    match (number_in(b, 0, 4), number_in(b, 5, 7), number_in(b, 8, 10)) {
        (Some(y), Some(m), Some(d)) => msg == Msg::Two(
            "sta.day_key",
            Fill {
                name: "weekday",
                arg: Arg::Phrase(Box::new(Msg::Listed("sta.weekdays_short", weekday_of(counted_day(y, m, d)) as u32))),
            },
            Fill { name: "day", arg: Arg::Num(d as i64) },
        ),
        _ => msg matches Msg::Raw(s) && s@ == key,
    }
}

/// A day of the calendar by its key, `YYYY-MM-DD`.
pub fn day_key_label(key: &str) -> (out: Msg)
    ensures
        is_day_key(out, key@),
{
    match (number_at(key, 0, 4), number_at(key, 5, 7), number_at(key, 8, 10)) {
        (Some(y), Some(m), Some(d)) => {
            let months: i64 = if m < 0 { m + 0xffff_ffff } else { m - 1 };
            let day: i64 = if d < 0 { d + 0x1_0000_0000 } else { d };
            let days: i64 = days_from_civil(y + floor_div(months, 12), floor_mod(months, 12) + 1, day);
            Msg::Two(
                "sta.day_key",
                Fill {
                    name: "weekday",
                    arg: Arg::Phrase(Box::new(Msg::Listed("sta.weekdays_short", weekday(days)))),
                },
                Fill { name: "day", arg: Arg::Num(d) },
            )
        },
        _ => Msg::Raw(key.to_owned()),
    }
}

} // verus!
