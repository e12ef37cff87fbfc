//! What other crates and the system compute for the library: addresses,
//! base64, JSON, the gaps of phrases, letter case, the time.

use base64::engine::general_purpose::{STANDARD, STANDARD_NO_PAD, URL_SAFE_NO_PAD};
use base64::Engine;
use serde_json::Value;
use std::time::{SystemTime, UNIX_EPOCH};
use url::Url;
use vstd::prelude::*;

verus! {

use crate::text::{is_text, texts};

// ── Phrases ──────────────────────────────────────────────────────────────

/// A phrase with its gaps filled: the value behind each name in the gaps that
/// are called so.
pub uninterp spec fn gaps_filled(phrase: Seq<char>, names: Seq<Seq<char>>, values: Seq<Seq<char>>) -> Seq<char>;

/// `rust_i18n::replace_patterns`: a phrase with its gaps, written `%{name}`,
/// filled with the values behind their names. A gap whose name is not given
/// stays. What becomes of a gap that is not closed is the crate's. A name with
/// a percent sign in it, which could stand for the stretch between two gaps, is
/// left out.
#[verifier::external_body]
pub(crate) fn fill_gaps(phrase: &str, names: &Vec<&'static str>, values: &Vec<String>) -> (out: String)
    requires
        names@.len() == values@.len(),
        forall|i: int| 0 <= i < names@.len() ==> !(#[trigger] names@[i])@.contains('%'),
    ensures
        out@ == gaps_filled(phrase@, names@.map_values(|n: &'static str| n@), texts(values@)),
{
    rust_i18n::replace_patterns(phrase, names, values)
}

// ── Addresses ────────────────────────────────────────────────────────────

/// The host in an address, if it is one and has one.
pub uninterp spec fn host_in(address: Seq<char>) -> Option<Seq<char>>;

/// `url::Url::parse` and `Url::host_str`: the host of an address, nothing for
/// a text that is no address or has no host. What counts as an address is the
/// crate's.
#[verifier::external_body]
fn url_host(address: &str) -> (host: Option<String>)
    ensures
        is_text(host, host_in(address@)),
{
    Url::parse(address).ok().and_then(|u| u.host_str().map(str::to_string))
}

/// The server's host, for a header: the whole address where it has none.
pub open spec fn shown_host(server: Seq<char>) -> Seq<char> {
    match host_in(server) {
        Some(host) => host,
        None => server,
    }
}

/// The host, or the address where there is none.
pub fn host_or(host: Option<String>, server: String) -> (out: String)
    ensures
        out == (match host {
            Some(h) => h,
            None => server,
        }),
{
    match host {
        Some(h) => h,
        None => server,
    }
}

/// The server's host, for a header.
pub fn host_of(server: String) -> (out: String)
    ensures
        out@ == shown_host(server@),
{
    let host = url_host(server.as_str());
    host_or(host, server)
}

// ── Base64 ───────────────────────────────────────────────────────────────

/// A text in padded base64.
pub uninterp spec fn base64_of(text: Seq<char>) -> Seq<char>;

/// The bytes of a text in unpadded base64, in the alphabet for addresses.
pub uninterp spec fn url_base64_bytes(text: Seq<char>) -> Option<Seq<u8>>;

/// The bytes of a text in unpadded base64, in the standard alphabet.
pub uninterp spec fn base64_bytes(text: Seq<char>) -> Option<Seq<u8>>;

/// A character of padded base64.
pub open spec fn base64_char(c: char) -> bool {
    ('A' <= c <= 'Z') || ('a' <= c <= 'z') || ('0' <= c <= '9') || c == '+' || c == '/' || c == '='
}

/// `base64`'s `STANDARD.encode` on a text's bytes: the encoding, in the
/// characters of the standard alphabet and the padding.
#[verifier::external_body]
fn base64_encode(text: &str) -> (out: String)
    ensures
        out@ == base64_of(text@),
        forall|i: int| 0 <= i < out@.len() ==> base64_char(#[trigger] out@[i]),
{
    STANDARD.encode(text)
}

/// `base64`'s `URL_SAFE_NO_PAD.decode`: the bytes, nothing where the text is
/// not their encoding.
#[verifier::external_body]
pub(crate) fn decode_url_safe(text: &str) -> (bytes: Option<Vec<u8>>)
    ensures
        match url_base64_bytes(text@) {
            Some(b) => bytes matches Some(v) && v@ == b,
            None => bytes is None,
        },
{
    URL_SAFE_NO_PAD.decode(text).ok()
}

/// `base64`'s `STANDARD_NO_PAD.decode`: the bytes, nothing where the text is
/// not their encoding.
#[verifier::external_body]
pub(crate) fn decode_standard(text: &str) -> (bytes: Option<Vec<u8>>)
    ensures
        match base64_bytes(text@) {
            Some(b) => bytes matches Some(v) && v@ == b,
            None => bytes is None,
        },
{
    STANDARD_NO_PAD.decode(text).ok()
}

/// The escape sequence around a clipboard's payload.
pub open spec fn clipboard_frame(payload: Seq<char>) -> Seq<char> {
    seq!['\x1b', ']', '5', '2', ';', 'c', ';'] + payload + seq!['\x1b', '\\']
}

/// The escape sequence with a payload inside.
pub fn frame_clipboard(payload: &str) -> (out: String)
    ensures
        out@ == clipboard_frame(payload@),
{
    let mut out: String = String::new();
    out.push('\x1b');
    out.push(']');
    out.push('5');
    out.push('2');
    out.push(';');
    out.push('c');
    out.push(';');
    out.append(payload);
    out.push('\x1b');
    out.push('\\');
    proof {
        assert(out@ =~= clipboard_frame(payload@));
    }
    out
}

/// The escape sequence that hands a text to the terminal's clipboard. Nothing
/// between its first character and its last two can end it early.
pub fn clipboard_sequence(text: &str) -> (out: String)
    ensures
        out@ == clipboard_frame(base64_of(text@)),
        forall|i: int| 0 < i < out@.len() - 2 ==> #[trigger] out@[i] != '\x1b',
{
    let payload = base64_encode(text);
    let out = frame_clipboard(payload.as_str());
    proof {
        assert forall|i: int| 0 < i < out@.len() - 2 implies #[trigger] out@[i] != '\x1b' by {
            if i >= 7 {
                assert(out@[i] == payload@[i - 7]);
            }
        }
    }
    out
}

// ── JSON ─────────────────────────────────────────────────────────────────

/// A document's text, from its bytes.
pub uninterp spec fn json_text(bytes: Seq<u8>) -> Option<Seq<char>>;

/// The text of a member of an object.
pub uninterp spec fn json_member(doc: Seq<char>, key: Seq<char>) -> Option<Seq<char>>;

/// The string that a document is.
pub uninterp spec fn json_string(doc: Seq<char>) -> Option<Seq<char>>;

/// The truth value that a document is.
pub uninterp spec fn json_bool(doc: Seq<char>) -> Option<bool>;

/// The whole number that a document is.
pub uninterp spec fn json_int(doc: Seq<char>) -> Option<i64>;

/// The texts of the items of the list that a document is.
pub uninterp spec fn json_items(doc: Seq<char>) -> Option<Seq<Seq<char>>>;

/// Whether a document is an object.
pub uninterp spec fn json_is_object(doc: Seq<char>) -> bool;

/// `serde_json::from_slice` into a `Value`, and its text: nothing for bytes
/// that are no JSON.
#[verifier::external_body]
pub(crate) fn json_of_bytes(bytes: &Vec<u8>) -> (doc: Option<String>)
    ensures
        is_text(doc, json_text(bytes@)),
{
    serde_json::from_slice::<Value>(bytes).ok().map(|v| v.to_string())
}

/// `serde_json::from_str` and `Value::get` with a key: the member's text,
/// nothing where the document is no object or has no such member.
#[verifier::external_body]
pub(crate) fn member_of(doc: &str, key: &str) -> (member: Option<String>)
    ensures
        is_text(member, json_member(doc@, key@)),
{
    serde_json::from_str::<Value>(doc).ok()?.get(key).map(|v| v.to_string())
}

/// `serde_json::from_str` and `Value::as_str`: the string, nothing where the
/// document is none.
#[verifier::external_body]
pub(crate) fn string_of(doc: &str) -> (s: Option<String>)
    ensures
        is_text(s, json_string(doc@)),
{
    serde_json::from_str::<Value>(doc).ok()?.as_str().map(str::to_string)
}

/// `serde_json::from_str` and `Value::as_bool`.
#[verifier::external_body]
pub(crate) fn bool_of(doc: &str) -> (b: Option<bool>)
    ensures
        b == json_bool(doc@),
{
    serde_json::from_str::<Value>(doc).ok()?.as_bool()
}

/// `serde_json::from_str` and `Value::as_i64`.
#[verifier::external_body]
pub(crate) fn int_of(doc: &str) -> (n: Option<i64>)
    ensures
        n == json_int(doc@),
{
    serde_json::from_str::<Value>(doc).ok()?.as_i64()
}

/// `serde_json::from_str` and `Value::as_array`: the text of each item,
/// nothing where the document is no list.
#[verifier::external_body]
pub(crate) fn items_of(doc: &str) -> (items: Option<Vec<String>>)
    ensures
        match json_items(doc@) {
            Some(t) => items matches Some(v) && texts(v@) == t,
            None => items is None,
        },
{
    let value = serde_json::from_str::<Value>(doc).ok()?;
    value.as_array().map(|l| l.iter().map(|v| v.to_string()).collect())
}

/// `serde_json::from_str` and `Value::is_object`.
#[verifier::external_body]
pub(crate) fn object_is(doc: &str) -> (r: bool)
    ensures
        r == json_is_object(doc@),
{
    serde_json::from_str::<Value>(doc).is_ok_and(|v| v.is_object())
}

// ── Letter case ──────────────────────────────────────────────────────────

/// A text in lower case.
pub uninterp spec fn lower_case(text: Seq<char>) -> Seq<char>;

/// `std`'s `str::to_lowercase`: the text in lower case, by Unicode's rules.
pub assume_specification[ str::to_lowercase ](text: &str) -> (out: String)
    ensures
        out@ == lower_case(text@),
;

// ── The time ─────────────────────────────────────────────────────────────

/// `std`'s `SystemTime::now` since the Unix epoch, in whole seconds: nothing
/// for a clock set before it.
#[verifier::external_body]
fn seconds_since_epoch() -> (s: Option<u64>)
{
    SystemTime::now().duration_since(UNIX_EPOCH).ok().map(|d| d.as_secs())
}

/// Unix seconds from a reading of the clock: zero before the epoch.
pub fn unix_seconds(reading: Option<u64>) -> (t: i64)
    ensures
        t == (match reading {
            Some(s) => s as i64,
            None => 0,
        }),
{
    match reading {
        Some(s) => s as i64,
        None => 0,
    }
}

/// The time, in Unix seconds.
pub fn unix_now() -> (t: i64) {
    unix_seconds(seconds_since_epoch())
}

} // verus!
