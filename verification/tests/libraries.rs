//! The libraries room.

use mstream_admin::backups::Pick;
use mstream_admin::hub::header_words;
use mstream_admin::layout::{Rect, Tone};
use mstream_admin::libraries::{handle_key, Act, Done, Lib, Modal, Op, Room};
use mstream_admin::libraries_view::{add_tip, card_words, footer_hint, page_words, path_box_height, places, remove_words, row_tones};
use mstream_admin::line::{Code, Key};
use mstream_admin::msg::{ApiError, Arg, Fill, Msg};
use mstream_admin::outside::host_of;
use mstream_admin::paths::{derive_name, DirListing};
use mstream_admin::screen::Outcome;
use mstream_admin::text::{fmt_bytes, fmt_count};

fn phrase(key: &str) -> &'static str {
    match key {
        "admin.title" => "Libraries",
        "admin.role" => "admin",
        "admin.name_taken" => "already used by another library",
        "admin.name_empty" => "pick a name",
        "admin.add_failed" => "could not add %{name}",
        "admin.load_failed" => "could not load the libraries",
        "admin.remove_failed" => "could not remove %{name}",
        "admin.gate_unauthorized" => "not signed in — run mstream-player login",
        "admin.gate_forbidden" => "the server wants an admin: %{err}",
        "admin.gate_locked" => "the admin panel is locked",
        "note.no_picker" => "no folder dialog here: %{why}",
        "note.browse_failed" => "could not list the folder: %{err}",
        "note.worker_gone" => "the worker is gone",
        "folders.add_card" => "Add a music folder",
        "folders.col_name" => "NAME",
        "folders.col_folder" => "FOLDER",
        "admin.col_symlinks" => "SYMLINKS",
        "folders.nothing_yet" => "(nothing added yet)",
        "admin.hint_rows" => "↑ ↓ select · b browse · t type a path · q quit",
        "admin.hint_selected" => "s symlinks · r remove · Esc deselect",
        "admin.hint_empty" => "b browse · t type a path · q quit",
        "admin.hint_name" => "type to edit · Enter add · Esc cancel",
        "admin.hint_remove" => "y remove · Esc keep",
        "admin.name_title" => "Name this library",
        "admin.name_folder" => "FOLDER",
        "admin.name_label" => "NAME",
        "admin.name_charset" => "letters, digits and dashes",
        "admin.name_permanent_1" => "The name is what apps see.",
        "admin.name_permanent_2" => "It can't be changed later.",
        "admin.name_add" => "Add folder ▸",
        "admin.remove_title" => "Remove %{name} from mStream?",
        "admin.remove_users" => "Users of %{name} lose it.",
        "admin.remove_files_stay" => "The files stay on disk.",
        "admin.remove_tracks" => "Its tracks leave the library.",
        "admin.remove_keep" => "◂ Keep it",
        "admin.remove_confirm" => "Remove  ",
        _ => panic!("no phrase for {key}"),
    }
}

fn error_words(e: &ApiError) -> String {
    match e {
        ApiError::Unauthorized => "unauthorized".to_string(),
        ApiError::Forbidden(m) | ApiError::NotFound(m) | ApiError::Network(m) => m.clone(),
        ApiError::Server { status, message } => format!("{status} {message}"),
        ApiError::Decode { endpoint, message } => format!("{endpoint}: {message}"),
    }
}

fn arg_words(a: &Arg) -> String {
    match a {
        Arg::Text(s) => s.clone(),
        Arg::Num(n) => n.to_string(),
        Arg::Nat(n) => n.to_string(),
        Arg::Count(n) => fmt_count(*n),
        Arg::TwoDigits(n) => format!("{n:02}"),
        Arg::Bytes(n) => fmt_bytes(*n),
        Arg::Ratio(a, b) => {
            let s = format!("{:.1}", *a as f64 / *b as f64);
            s.strip_suffix(".0").map(str::to_string).unwrap_or(s)
        }
        Arg::Phrase(m) => words(m),
    }
}

fn filled(key: &str, fills: &[&Fill]) -> String {
    let mut out = phrase(key).to_string();
    for f in fills {
        out = out.replace(&format!("%{{{}}}", f.name), &arg_words(&f.arg));
    }
    out
}

fn words(m: &Msg) -> String {
    match m {
        Msg::Raw(s) => s.clone(),
        Msg::Key(k) => phrase(k).to_string(),
        Msg::One(k, a) => filled(k, &[a]),
        Msg::Two(k, a, b) => filled(k, &[a, b]),
        Msg::Three(k, a, b, c) => filled(k, &[a, b, c]),
        Msg::Four(k, a, b, c, d) => filled(k, &[a, b, c, d]),
        Msg::Five(k, a, b, c, d, e) => filled(k, &[a, b, c, d, e]),
        Msg::Listed(k, i) => phrase(k).split(" · ").nth(*i as usize).unwrap_or("").to_string(),
        Msg::Failed(k, e) => format!("{}: {}", phrase(k), error_words(e)),
        Msg::FailedOn(k, f, e) => format!("{}: {}", filled(k, &[f]), error_words(e)),
        Msg::Both(a, b) => format!("{}{}", words(a), words(b)),
    }
}

fn key(code: Code) -> Key {
    Key { code, shift: false, ctrl: false, alt: false, sup: false, hyper: false, meta: false }
}

fn room(same_machine: bool) -> Room {
    Room::new(same_machine)
}

fn lib(name: &str, root: &str, follow_symlinks: bool) -> Lib {
    Lib { name: name.into(), root: root.into(), follow_symlinks }
}

fn seeded() -> Room {
    let mut room = room(false);
    room.libs = vec![lib("music", "/srv/music", false), lib("vinyl", "/Volumes/NAS/Vinyl Rips", true)];
    room
}

fn type_text(room: &mut Room, text: &str) {
    for c in text.chars() {
        handle_key(room, key(Code::Char(c)));
    }
}

/// The texts that the room shows, one to a line; a row's cells in one line,
/// at their columns.
fn draw(room: &mut Room) -> String {
    let mut out = String::new();
    let mut put = |line: String| {
        out.push_str(&line);
        out.push('\n');
    };
    put(words(&header_words(&host_of("http://home.mstream.example:3000".to_string()))));
    for k in page_words(room) {
        put(phrase(k).to_string());
    }
    let p = places(Rect { x: 2, y: 2, width: 96, height: 25 });
    let (first, visible) = room.rows_in_view(p.room as usize);
    for l in &room.libs[first..first + visible] {
        let gap = " ".repeat(p.path as usize - 2 - l.name.chars().count());
        let mark = if l.follow_symlinks { "[✓]" } else { "[ ]" };
        put(format!("{}{gap}{} {mark} [X]", l.name, l.root));
    }
    if let Modal::Remove(i) = room.modal {
        let (title, users) = remove_words(room, i);
        put(words(&title));
        put(words(&users));
    }
    if let Modal::Name(d) = &room.modal {
        put(d.directory.clone());
        put(d.name.value().to_string());
    }
    for k in card_words(room) {
        put(phrase(k).to_string());
    }
    put(phrase(footer_hint(room)).to_string());
    out
}

fn note(room: &Room) -> String {
    room.note.as_ref().map(|n| words(&n.msg)).unwrap_or_default()
}

#[test]
fn b_browses_the_server_unless_this_is_the_servers_machine() {
    let mut remote = room(false);
    handle_key(&mut remote, key(Code::Char('b')));
    assert_eq!(remote.queued, Some(Op::OpenBrowser("~".into())));
    let mut local = room(true);
    handle_key(&mut local, key(Code::Char('b')));
    assert_eq!(local.queued, Some(Op::PickNative));
    // No dialog on this machine: the room says so and falls through to the
    // server's browser.
    local.queued = None;
    local.apply(Done::Picked(Pick::Unavailable("no session bus".into())));
    assert!(note(&local).contains("no session bus"));
    assert_eq!(local.queued, Some(Op::OpenBrowser("~".into())));
}

#[test]
fn a_picked_folder_asks_for_its_name_and_the_gate_keeps_it_a_slug() {
    let mut room = room(true);
    room.apply(Done::Picked(Pick::Folder("/Volumes/NAS/Field Recordings 2024".into())));
    let Modal::Name(draft) = &room.modal else { panic!("the Name modal") };
    assert_eq!(draft.directory, "/Volumes/NAS/Field Recordings 2024");
    assert_eq!(draft.name.value(), "field-recordings-2024");
    // Uppercase folds, spaces and dots are dropped, dashes pass.
    type_text(&mut room, "X y.-Z");
    let Modal::Name(draft) = &room.modal else { panic!("still the Name modal") };
    assert_eq!(draft.name.value(), "field-recordings-2024xy-z");
    handle_key(&mut room, key(Code::Enter));
    assert_eq!(
        room.queued,
        Some(Op::Add {
            directory: "/Volumes/NAS/Field Recordings 2024".into(),
            vpath: "field-recordings-2024xy-z".into(),
        })
    );
}

#[test]
fn empty_and_taken_names_are_refused_before_the_server_sees_them() {
    let mut room = seeded();
    room.open_name("/mnt/music".into());
    handle_key(&mut room, key(Code::Enter));
    let Modal::Name(draft) = &room.modal else { panic!("the Name modal") };
    assert_eq!(draft.error.as_ref().map(words).as_deref(), Some("already used by another library"));
    assert!(room.queued.is_none());
    for _ in 0..5 {
        handle_key(&mut room, key(Code::Backspace));
    }
    handle_key(&mut room, key(Code::Enter));
    let Modal::Name(draft) = &room.modal else { panic!("the Name modal") };
    assert_eq!(draft.error.as_ref().map(words).as_deref(), Some("pick a name"));
    assert!(room.queued.is_none());
}

#[test]
fn adding_reloads_and_reveals_the_row_while_a_refusal_keeps_the_modal() {
    let mut room = seeded();
    room.open_name("/mnt/podcasts".into());
    handle_key(&mut room, key(Code::Enter));
    assert!(matches!(room.queued, Some(Op::Add { .. })));
    room.queued = None;
    room.apply(Done::Added {
        vpath: "podcasts".into(),
        result: Err(ApiError::Server { status: 500, message: "EACCES".into() }),
    });
    let Modal::Name(draft) = &room.modal else { panic!("a refusal keeps the modal") };
    assert!(draft.error.as_ref().is_some_and(|e| words(e).contains("EACCES")), "{:?}", draft.error);
    room.apply(Done::Added { vpath: "podcasts".into(), result: Ok(()) });
    assert!(matches!(room.modal, Modal::Closed));
    assert_eq!(room.queued, Some(Op::Load));
    let mut libs = vec![];
    for l in &room.libs {
        libs.push(lib(&l.name, &l.root, l.follow_symlinks));
    }
    libs.push(lib("podcasts", "/mnt/podcasts", false));
    room.apply(Done::Loaded(Ok(libs)));
    assert_eq!(room.reveal, Some(2), "the new row is revealed, not selected");
    assert_eq!(room.sel, None);
}

#[test]
fn remove_is_gated_and_symlinks_toggle_from_the_cursor_row() {
    let mut room = seeded();
    // Nothing selected: r does nothing, Esc leaves.
    assert!(handle_key(&mut room, key(Code::Char('r'))).is_none());
    assert!(matches!(room.modal, Modal::Closed));
    assert!(matches!(handle_key(&mut room, key(Code::Esc)), Some(Outcome::Quit)));
    handle_key(&mut room, key(Code::Down));
    assert_eq!(room.sel, Some(0));
    handle_key(&mut room, key(Code::Char('r')));
    assert!(matches!(room.modal, Modal::Remove(0)));
    // Enter is the safe choice.
    handle_key(&mut room, key(Code::Enter));
    assert!(matches!(room.modal, Modal::Closed));
    assert!(room.queued.is_none());
    handle_key(&mut room, key(Code::Char('r')));
    handle_key(&mut room, key(Code::Char('y')));
    assert_eq!(room.queued, Some(Op::Remove("music".into())));
    room.queued = None;
    room.apply(Done::Removed { vpath: "music".into(), result: Ok(()) });
    assert_eq!(room.queued, Some(Op::Load));
    room.queued = None;
    // s flips the cursor row's flag; the row wears it once the server agrees,
    // and only then.
    handle_key(&mut room, key(Code::Char('s')));
    assert_eq!(room.queued, Some(Op::Symlinks { vpath: "music".into(), on: true }));
    assert!(!room.libs[0].follow_symlinks);
    room.apply(Done::Symlinks { vpath: "music".into(), on: true, result: Ok(()) });
    assert!(room.libs[0].follow_symlinks);
    // Esc stows the cursor; a second Esc leaves.
    assert!(handle_key(&mut room, key(Code::Esc)).is_none());
    assert_eq!(room.sel, None);
}

#[test]
fn the_path_modal_completes_against_the_server_and_ends_in_the_name_modal() {
    let mut room = room(false);
    handle_key(&mut room, key(Code::Char('t')));
    assert!(matches!(room.modal, Modal::PathEntry(_)));
    assert!(room.queued.is_none(), "an empty input suggests nothing");
    type_text(&mut room, "/srv/m");
    assert_eq!(room.queued, Some(Op::Complete("/srv/".into())));
    room.queued = None;
    room.apply(Done::Completed {
        dir: "/srv/".into(),
        listing: Ok(DirListing {
            path: "/srv".into(),
            directories: vec!["media".into(), "music".into(), "www".into()],
        }),
    });
    let Modal::PathEntry(draft) = &room.modal else { panic!("the path modal") };
    assert_eq!(draft.suggestions(), vec!["media".to_string(), "music".to_string()]);
    // Tab cannot extend past the common prefix, so it starts cycling; Enter
    // takes the text as typed.
    handle_key(&mut room, key(Code::Tab));
    let Modal::PathEntry(draft) = &room.modal else { panic!("the path modal") };
    assert_eq!(draft.sel, Some(0));
    handle_key(&mut room, key(Code::Tab));
    let Modal::PathEntry(draft) = &room.modal else { panic!("the path modal") };
    assert_eq!(draft.text.value(), "/srv/media/");
    handle_key(&mut room, key(Code::Enter));
    let Modal::Name(draft) = &room.modal else { panic!("the Name modal") };
    assert_eq!(draft.directory, "/srv/media/");
    assert_eq!(draft.name.value(), "media");
}

#[test]
fn a_waiting_call_is_not_lost_to_a_listing() {
    let mut room = seeded();
    // A listing runs; a newer one waits, and then the removal does.
    room.queued = Some(Op::Complete("/srv/".into()));
    assert_eq!(room.dispatch_queued(), Some(Op::Complete("/srv/".into())));
    room.queued = Some(Op::Complete("/srv/media/".into()));
    assert_eq!(room.dispatch_queued(), None);
    room.queued = Some(Op::Remove("music".into()));
    assert_eq!(room.dispatch_queued(), None);
    let answer = |dir: &str| Done::Completed { dir: dir.into(), listing: Err("gone".into()) };
    room.apply(answer("/srv/"));
    assert_eq!(room.dispatch_queued(), Some(Op::Remove("music".into())));
    room.apply(Done::Removed { vpath: "music".into(), result: Err(ApiError::Unauthorized) });
    assert!(room.busy.is_none(), "a listing for suggestions is quiet");
    assert_eq!(room.dispatch_queued(), Some(Op::Complete("/srv/media/".into())));
    // Of two listings that wait, the newest is asked for.
    room.queued = Some(Op::Complete("/a/".into()));
    assert_eq!(room.dispatch_queued(), None);
    room.queued = Some(Op::Complete("/b/".into()));
    room.apply(answer("/srv/media/"));
    assert_eq!(room.dispatch_queued(), Some(Op::Complete("/b/".into())));
    room.apply(answer("/b/"));
    assert_eq!(room.dispatch_queued(), None);
    // Nor does typing a path push the call aside.
    room.queued = Some(Op::Remove("music".into()));
    handle_key(&mut room, key(Code::Char('t')));
    type_text(&mut room, "/srv/m");
    assert_eq!(room.dispatch_queued(), Some(Op::Remove("music".into())));
    room.apply(Done::Removed { vpath: "music".into(), result: Err(ApiError::Unauthorized) });
    assert_eq!(room.dispatch_queued(), Some(Op::Complete("/srv/".into())));
}

#[test]
fn the_room_starts_on_a_clean_slate() {
    let room = mstream_admin::libraries::start(true);
    assert_eq!(room.queued, Some(Op::Load));
    assert!(room.same_machine && room.libs.is_empty() && !room.in_flight);
    assert!(room.reveal.is_none() && room.reveal_name.is_none() && room.pending_complete.is_none());
    assert!(room.tscroll == 0 && room.sel_anchor.is_none());
}

#[test]
fn load_errors_name_the_gate_that_bit() {
    let mut room = room(false);
    room.apply(Done::Loaded(Err(ApiError::Unauthorized)));
    assert!(room.note.as_ref().is_some_and(|n| n.error) && note(&room).contains("login"));
    room.apply(Done::Loaded(Err(ApiError::Forbidden("ip not allowed".into()))));
    assert!(note(&room).contains("admin") && note(&room).contains("ip not allowed"));
    room.apply(Done::Loaded(Err(ApiError::Server { status: 405, message: String::new() })));
    assert!(note(&room).contains("locked"));
}

#[test]
fn the_room_draws_the_kit_table_and_names_only_what_works() {
    let mut room = seeded();
    let frame = draw(&mut room);
    assert!(frame.contains("Libraries"), "{frame}");
    assert!(frame.contains("home.mstream.example · admin"), "{frame}");
    assert!(frame.contains("Add a music folder"), "{frame}");
    assert!(frame.contains("NAME") && frame.contains("FOLDER") && frame.contains("SYMLINKS"), "{frame}");
    assert!(frame.contains("music           /srv/music"), "{frame}");
    assert!(frame.contains("[✓]") && frame.contains("[ ]") && frame.contains("[X]"), "{frame}");
    assert!(frame.contains("↑ ↓ select · b browse · t type a path · q quit"), "{frame}");
    assert!(!frame.contains("Scan now"), "no bottom bar");
    handle_key(&mut room, key(Code::Down));
    let frame = draw(&mut room);
    assert!(frame.contains("s symlinks · r remove · Esc deselect"), "{frame}");
    room.libs.clear();
    let frame = draw(&mut room);
    assert!(frame.contains("(nothing added yet)"), "{frame}");
    assert!(frame.contains("b browse · t type a path · q quit"), "{frame}");
}

#[test]
fn the_name_and_remove_modals_draw_their_one_fact() {
    let mut room = seeded();
    room.open_name("/Volumes/NAS/Field Recordings 2024".into());
    let frame = draw(&mut room);
    assert!(frame.contains("Name this library"), "{frame}");
    assert!(frame.contains("field-recordings-2024"), "{frame}");
    assert!(frame.contains("can't be changed later"), "{frame}");
    assert!(frame.contains("Add folder ▸"), "{frame}");
    assert!(frame.contains("type to edit · Enter add · Esc cancel"), "{frame}");
    room.modal = Modal::Remove(1);
    let frame = draw(&mut room);
    assert!(frame.contains("Remove vinyl from mStream?"), "{frame}");
    assert!(frame.contains("stay on disk"), "{frame}");
    assert!(frame.contains("◂ Keep it") && frame.contains("Remove  "), "{frame}");
    assert!(frame.contains("y remove · Esc keep"), "{frame}");
}

#[test]
fn every_failure_says_what_failed() {
    let mut room = seeded();
    room.apply(Done::Removed { vpath: "music".into(), result: Err(ApiError::NotFound("gone".into())) });
    assert_eq!(note(&room), "could not remove music: gone");
    room.apply(Done::Browsed(Err("denied".into())));
    assert_eq!(note(&room), "could not list the folder: denied");
    room.send_failed();
    assert_eq!(note(&room), "the worker is gone");
    assert!(!room.in_flight);
}

#[test]
fn a_click_acts_on_its_own_row_and_a_missing_row_on_none() {
    let mut room = seeded();
    room.act(Act::ToggleSymlinks(1));
    assert_eq!(room.queued, Some(Op::Symlinks { vpath: "vinyl".into(), on: false }));
    let mut room = seeded();
    room.act(Act::RemoveAt(7));
    assert!(matches!(room.modal, Modal::Closed));
    assert!(room.queued.is_none());
    assert_eq!(add_tip(&room), "admin.tip_add_server");
    assert_eq!(add_tip(&Room::new(true)), "admin.tip_add_native");
}

#[test]
fn the_rows_fit_and_wear_their_colours() {
    let p = places(Rect { x: 2, y: 2, width: 96, height: 25 });
    assert_eq!((p.path, p.path_width, p.links, p.remove), (18, 66, 86, 95));
    assert_eq!((p.rows_y, p.room), (8, 19));
    let l = lib("vinyl", "/v", true);
    assert_eq!(row_tones(&l, false, false, false), (Tone::Plain, Tone::Fine, Tone::Dim));
    assert_eq!(row_tones(&l, true, true, true), (Tone::Selected, Tone::Selected, Tone::Danger));
    assert_eq!((path_box_height(0), path_box_height(4), path_box_height(40)), (7, 11, 13));
}

#[test]
fn a_revealed_row_scrolls_into_view_once() {
    let mut room = seeded();
    room.libs = (0..30).map(|i| lib(&format!("l{i}"), "/x", false)).collect();
    room.reveal = Some(25);
    assert_eq!(room.rows_in_view(10), (16, 10));
    assert_eq!(room.reveal, None);
    room.tscroll = 3;
    assert_eq!(room.rows_in_view(10), (3, 10), "the wheel is left alone");
    room.sel = Some(0);
    assert_eq!(room.rows_in_view(10), (0, 10), "a moved cursor is followed");
}

#[test]
fn a_name_comes_from_the_folders_last_part() {
    assert_eq!(derive_name("/mnt/My Music!"), "my-music");
    assert_eq!(derive_name("C:\\Users\\me\\Vinyl Rips\\"), "vinyl-rips");
}
