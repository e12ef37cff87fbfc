//! Texts, the clock, lines being typed, paths and places on the screen.

use base64::Engine;
use mstream_admin::clock::{age_since, civil_from_days, days_from_civil, elapsed_since, floor_div, floor_mod, fmt_date, iso_at, iso_unix, weekday};
use mstream_admin::layout::{box_tone, button_at_right, choice_places, facts_kept, gate_buttons, grid_place, note_fits, strung_kept, tab_places, table_view, tone_of, wrap_places, Rect, Tone};
use mstream_admin::line::{blank, edit, Code, Key};
use mstream_admin::msg::{Arg, Fill, Msg};
use mstream_admin::outside::{clipboard_sequence, frame_clipboard, host_of, unix_now, unix_seconds};
use mstream_admin::paths::{collapse, common_prefix, derive_name, join_server_path, parent_server_path, split_input};
use mstream_admin::screen::{clamp_row, cursor_down, cursor_up, keep_cursor, next_choice, previous_choice, scroll};
use mstream_admin::text::{clip, clip_tail, contains, fmt_bytes, fmt_count, is_control, is_white, join, mask, printable, read_number, short_id, split_trimmed, trim, without_zeroes, zero_padded};
use tui_input::Input;

#[test]
fn sizes_read_as_a_float_would_print_them() {
    let mib = 1_048_576u64;
    let gib = 1_073_741_824u64;
    for n in [0, 1, 511, 512, 1023, 1024, 1535, 1536, 2048, mib - 1, mib, mib + 52_428, mib + 52_429, 7 * mib + 1, gib - 1, gib, gib + gib / 20, 3 * gib, 812 * gib + 77] {
        let expected = if n >= gib {
            format!("{:.1} GB", n as f64 / gib as f64)
        } else if n >= mib {
            format!("{:.1} MB", n as f64 / mib as f64)
        } else {
            format!("{:.0} KB", (n as f64 / 1024.0).ceil())
        };
        assert_eq!(fmt_bytes(n), expected, "{n}");
    }
    assert_eq!(without_zeroes("218.0 MB"), "218 MB");
    assert_eq!(without_zeroes("4.1 MB"), "4.1 MB");
}

#[test]
fn counts_are_grouped_by_thousands() {
    for n in [0u64, 9, 999, 1000, 12_204, 999_999, 1_000_000, u64::MAX] {
        let s = fmt_count(n);
        assert_eq!(s.replace(',', ""), n.to_string());
        assert!(s.split(',').skip(1).all(|g| g.len() == 3), "{s}");
        assert!((1..=3).contains(&s.split(',').next().unwrap().len()), "{s}");
    }
    assert_eq!(zero_padded(7, 3), "007");
    assert_eq!(zero_padded(1234, 3), "1234");
}

#[test]
fn foreign_text_never_moves_the_cursor() {
    let odd: String = (0u32..0x300).chain(0x2000..0x2070).filter_map(char::from_u32).collect();
    assert!(printable(&odd, 10_000).chars().all(|c| !c.is_control()));
    assert_eq!(printable("abc", 2), "ab");
    for c in (0u32..0x3100).filter_map(char::from_u32) {
        assert_eq!(is_control(c), c.is_control(), "{:x}", c as u32);
        assert_eq!(is_white(c), c.is_whitespace(), "{:x}", c as u32);
    }
    assert_eq!(trim("\u{2003} a b\t\n"), "a b");
}

#[test]
fn texts_are_cut_at_either_end() {
    assert_eq!(clip("abcdef", 4), "abc…");
    assert_eq!(clip("abcd", 4), "abcd");
    assert_eq!(clip_tail("abcdef", 4), "…def");
    assert_eq!(clip_tail("abcd", 4), "abcd");
    assert_eq!(mask("pässwörd"), "••••••••");
    assert_eq!(short_id("01-23 456789abcdef"), "0123456789ab…");
    assert_eq!(short_id("zzz"), "…");
}

#[test]
fn lists_are_joined_and_split() {
    let v = vec!["a".to_string(), "b".to_string(), "c".to_string()];
    assert_eq!(join(&v, ", "), "a, b, c");
    assert_eq!(join(&vec![], ", "), "");
    assert_eq!(split_trimmed(" a ,, b,c ", ','), v);
    assert!(contains("haystack", "stack") && contains("x", "") && !contains("x", "y"));
}

#[test]
fn whole_numbers_are_read_up_to_their_bound() {
    for (s, max, wanted) in [("0", 5, Some(0)), ("+5", 5, Some(5)), ("6", 5, None), ("007", 9, Some(7)), ("", 9, None), ("-1", 9, None), ("1 ", 9, None), ("18446744073709551615", u64::MAX, Some(u64::MAX)), ("18446744073709551616", u64::MAX, None)] {
        assert_eq!(read_number(s, max), wanted, "{s:?}");
        assert_eq!(s.parse::<u64>().ok().filter(|n| *n <= max), wanted, "{s:?}");
    }
}

#[test]
fn every_day_has_its_date_and_back() {
    let mut day = days_from_civil(1890, 1, 1);
    let end = days_from_civil(2110, 1, 1);
    let mut before = (0, 0, 0);
    while day < end {
        let (y, m, d) = civil_from_days(day);
        assert!((y, m, d) > before, "dates follow days");
        assert_eq!(days_from_civil(y, m as i64, d as i64), day);
        before = (y, m, d);
        day += 1;
    }
    assert_eq!(civil_from_days(0), (1970, 1, 1));
    assert_eq!(civil_from_days(11_016), (2000, 2, 29));
    assert_eq!(weekday(0), 4, "a Thursday");
    assert_eq!(fmt_date(2026, 9, 6), "2026-09-06");
    assert_eq!((floor_div(-1, 7), floor_mod(-1, 7)), (-1, 6));
}

#[test]
fn timestamps_go_there_and_back() {
    for t in [-1, 0, 59, 86_399, 86_400, 951_782_399, 951_782_400, 1_790_000_000, 253_402_300_799] {
        assert_eq!(iso_unix(&iso_at(t)), Some(t), "{t}");
    }
    for (s, wanted) in [("2026-09-06T09:41:52+02:00", None), ("2026-13-06T09:41:52Z", None), ("2026-09-06", None), ("", None), ("2026-09-06 09:41:52", Some(1_788_687_712))] {
        assert_eq!(iso_unix(s), wanted, "{s}");
    }
}

#[test]
fn ages_and_spans_count_from_then_to_now() {
    assert_eq!(age_since(1_000, 940), Msg::One("p2p.age_m", Fill { name: "n", arg: Arg::Num(1) }));
    assert_eq!(age_since(940, 1_000), Msg::Key("p2p.age_now"), "a clock that runs ahead");
    assert_eq!(elapsed_since(1_134, 1_000), "2m 14s");
    assert_eq!(elapsed_since(0, 1_000), "0s");
}

#[test]
fn the_clock_is_past_the_year_2020() {
    assert!(unix_now() > 1_577_836_800);
    assert_eq!(unix_seconds(None), 0);
    assert_eq!(unix_seconds(Some(12)), 12);
}

#[test]
fn the_clipboard_sequence_carries_the_text_in_base64() {
    let text = "mstrfed1:ticket ü";
    let encoded = base64::engine::general_purpose::STANDARD.encode(text);
    assert_eq!(clipboard_sequence(text), format!("\u{1b}]52;c;{encoded}\u{1b}\\"));
    assert_eq!(frame_clipboard("eA=="), "\u{1b}]52;c;eA==\u{1b}\\");
}

#[test]
fn hosts_are_read_off_addresses() {
    assert_eq!(host_of("http://Home.mstream.example:3000/x".into()), "home.mstream.example");
    assert_eq!(host_of("not an address".into()), "not an address");
}

fn held(code: Code) -> Key {
    Key { ctrl: true, ..Key::plain(code) }
}

#[test]
fn a_line_is_edited_at_its_cursor() {
    let mut line = blank();
    for c in "hello".chars() {
        assert!(edit(&mut line, Key::plain(Code::Char(c))));
    }
    assert_eq!((line.value(), line.cursor()), ("hello", 5));
    edit(&mut line, Key::plain(Code::Left));
    edit(&mut line, Key::plain(Code::Backspace));
    assert_eq!((line.value(), line.cursor()), ("helo", 3));
    edit(&mut line, Key::plain(Code::Home));
    edit(&mut line, Key::plain(Code::Delete));
    assert_eq!((line.value(), line.cursor()), ("elo", 0));
    edit(&mut line, Key::plain(Code::End));
    assert_eq!(line.cursor(), 3);
    edit(&mut line, held(Code::Char('u')));
    assert_eq!(line.value(), "", "the line is cleared");
    assert!(!edit(&mut line, Key::plain(Code::Up)), "not a key of a line");
    let mut words = Input::new("one two".into());
    edit(&mut words, held(Code::Char('w')));
    assert_eq!(words.value(), "one ");
}

#[test]
fn paths_are_joined_split_and_climbed() {
    assert_eq!(join_server_path("/srv", "music"), "/srv/music");
    assert_eq!(join_server_path("/", "music"), "/music");
    assert_eq!(join_server_path("C:\\", "music"), "C:\\music");
    assert_eq!(parent_server_path("/srv/music").as_deref(), Some("/srv"));
    assert_eq!(parent_server_path("/srv").as_deref(), Some("/"));
    assert_eq!(parent_server_path("/"), None);
    assert_eq!(split_input("/srv/mu"), ("/srv/".to_string(), "mu".to_string()));
    assert_eq!(collapse("/srv//music///x"), "/srv/music/x");
    assert_eq!(common_prefix(&vec!["music".into(), "museum".into()]), "mus");
    assert_eq!(derive_name("/srv/My Music!"), "my-music");
}

#[test]
fn cursors_stop_at_the_ends_and_choices_go_round() {
    assert_eq!(cursor_down(None, 3), Some(0));
    assert_eq!(cursor_down(Some(2), 3), Some(2));
    assert_eq!(cursor_up(Some(0), 3), Some(0));
    assert_eq!(keep_cursor(Some(5), 3), Some(2));
    assert_eq!(keep_cursor(Some(5), 0), None);
    assert_eq!(clamp_row(9, 3), 2);
    for i in 0..4 {
        assert_eq!(previous_choice(next_choice(i, 4), 4), i);
        assert_eq!(next_choice(previous_choice(i, 4), 4), i);
    }
    assert!(scroll(10, true) < 10 && scroll(10, false) > 10);
    assert_eq!(scroll(0, true), 0);
}

fn rect(x: u16, y: u16, width: u16, height: u16) -> Rect {
    Rect { x, y, width, height }
}

#[test]
fn rectangles_know_their_edges() {
    let r = rect(2, 3, 10, 4);
    assert_eq!((r.right(), r.bottom()), (12, 7));
    assert!(r.contains(2, 3) && r.contains(11, 6) && !r.contains(12, 6) && !r.contains(11, 7));
    assert_eq!(r.line(5), rect(2, 5, 10, 1));
    assert_eq!(rect(u16::MAX, 0, 5, 0).right(), u16::MAX);
}

#[test]
fn labels_stand_apart_and_choices_stop_at_the_edge() {
    let tabs = tab_places(2, &vec![5, 3]);
    assert_eq!(tabs, vec![rect(2, 0, 7, 1), rect(11, 0, 5, 1)]);
    let choices = choice_places(0, &vec![3, 3, 3], 20);
    assert_eq!(choices, vec![rect(0, 0, 7, 1), rect(10, 0, 7, 1)]);
    assert!(note_fits(10, 5, 17) && !note_fits(10, 6, 17));
    assert_eq!(button_at_right(20, 6), 10);
    assert_eq!(gate_buttons(40, 6, 4), (20, 32));
}

#[test]
fn the_window_follows_the_cursor_and_stays_full() {
    assert_eq!(table_view(100, None, 0, 10), (0, 10));
    assert_eq!(table_view(100, Some(50), 0, 10), (41, 10));
    assert_eq!(table_view(100, Some(5), 30, 10), (5, 10));
    assert_eq!(table_view(100, None, 99, 10), (90, 10));
    assert_eq!(table_view(3, Some(2), 7, 10), (0, 3));
    let (first, visible) = table_view(40, Some(17), 3, 8);
    assert_eq!(table_view(40, Some(17), first, 8), (first, visible), "it settles");
}

#[test]
fn rows_keep_what_fits() {
    assert_eq!(facts_kept(&vec![10, 5, 5], 20), 3);
    assert_eq!(facts_kept(&vec![10, 5, 5], 19), 2);
    assert_eq!(facts_kept(&vec![30, 5], 19), 1, "the first never goes");
    assert_eq!(strung_kept(10, &vec![4, 4], 24), 2);
    assert_eq!(strung_kept(10, &vec![4, 4], 23), 1);
    assert_eq!(grid_place(rect(0, 0, 30, 0), 4), rect(10, 1, 9, 1));
    assert_eq!(wrap_places(&vec![20, 20, 20], 60)[0], (0, 0));
    assert_eq!(wrap_places(&vec![20, 20, 20], 60)[2].0, 1);
}

#[test]
fn rows_wear_their_state() {
    assert_eq!(tone_of(true, true, Tone::Dim), Tone::Selected);
    assert_eq!(tone_of(false, true, Tone::Dim), Tone::Bright);
    assert_eq!(tone_of(false, false, Tone::Dim), Tone::Dim);
    assert_eq!(box_tone(true, true), Tone::Bright);
    assert_eq!(box_tone(false, true), Tone::Accent);
    assert_eq!(box_tone(false, false), Tone::Dim);
}
