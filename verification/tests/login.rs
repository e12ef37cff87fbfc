//! The sign-in page, what is remembered of a session, and the server's home.

use mstream_admin::home::{home_ref, join_home, ServerHome};
use mstream_admin::hub::{after_sign_in, answer, chrome, fits, header_words, needs_sign_in, room_column, status_line, AdminArgs, AfterSignIn, Answer, Event, Mouse, RoomCmd};
use mstream_admin::layout::{Rect, Tone};
use mstream_admin::libraries_view::{can_press, field_text, sign_in_places, SIGN_IN_MIN_H, SIGN_IN_MIN_W};
use mstream_admin::line::{Code, Key};
use mstream_admin::login::{remember, start, token_for, Config, Credentials, Field, LoginResponse, SignIn};
use mstream_admin::msg::{gate_message, ApiError, Arg, Msg, Note};
use mstream_admin::outside::host_of;
use mstream_admin::screen::Outcome;

fn phrase(key: &str) -> &'static str {
    match key {
        "admin.signin_need_username" => "enter a username",
        "admin.signin_need_password" => "enter a password",
        "admin.signin_busy" => "signing in…",
        "admin.signin_rejected" => "the server refused the sign-in — check the username and password",
        "admin.signin_failed" => "could not sign in",
        "admin.signin_title" => "Sign in",
        "admin.role" => "admin",
        "login.field_username" => "USERNAME",
        "login.field_password" => "PASSWORD",
        _ => panic!("no phrase for {key}"),
    }
}

fn error_words(e: &ApiError) -> String {
    match e {
        ApiError::Unauthorized => "unauthorized".to_string(),
        ApiError::Forbidden(m) | ApiError::NotFound(m) | ApiError::Network(m) => m.clone(),
        ApiError::Server { status, message } => format!("{status} {message}"),
        ApiError::Decode { endpoint, message } => format!("{endpoint}: {message}"),
    }
}

fn words(m: &Msg) -> String {
    match m {
        Msg::Raw(s) => s.clone(),
        Msg::Key(k) => phrase(k).to_string(),
        Msg::Failed(k, e) => format!("{}: {}", phrase(k), error_words(e)),
        Msg::Both(a, b) => format!("{}{}", words(a), words(b)),
        _ => panic!("unexpected {m:?}"),
    }
}

fn page() -> SignIn {
    start("http://home.mstream.example:3000".to_string())
}

fn key(code: Code) -> Key {
    Key { code, shift: false, ctrl: false, alt: false, sup: false, hyper: false, meta: false }
}

fn type_text(page: &mut SignIn, text: &str) {
    for c in text.chars() {
        page.key(key(Code::Char(c)));
    }
}

fn note(page: &SignIn) -> String {
    page.note.as_ref().map(|n| words(&n.msg)).unwrap_or_default()
}

/// The texts that the page shows, one to a line.
fn draw(page: &SignIn) -> String {
    let mut out = String::new();
    let host = host_of(page.server.clone());
    for line in [
        phrase("admin.signin_title").to_string(),
        words(&header_words(host.as_str())),
        phrase("login.field_username").to_string(),
        field_text(page, Field::Username),
        phrase("login.field_password").to_string(),
        field_text(page, Field::Password),
    ] {
        out.push_str(&line);
        out.push('\n');
    }
    out
}

#[test]
fn enter_asks_for_the_username_then_the_password_before_calling_anyone() {
    let mut p = page();
    p.key(key(Code::Enter));
    assert_eq!(note(&p), "enter a username");
    assert!(!p.queued && !p.in_flight, "nothing was sent");
    type_text(&mut p, "alice");
    p.key(key(Code::Enter));
    assert_eq!(note(&p), "enter a password");
    assert_eq!(p.field, Field::Password, "focus moves to the empty field");
    type_text(&mut p, "hunter2");
    p.key(key(Code::Enter));
    assert!(p.queued, "a filled form queues the call");
    assert_eq!(p.busy.as_ref().map(words).as_deref(), Some("signing in…"));
    assert!(note(&p).is_empty(), "the note clears once the form passes");
}

#[test]
fn tab_switches_fields_and_the_password_draws_masked() {
    let mut p = page();
    type_text(&mut p, "alice");
    p.key(key(Code::Tab));
    assert_eq!(p.field, Field::Password);
    type_text(&mut p, "s3cret");
    let frame = draw(&p);
    assert!(frame.contains("alice"), "{frame}");
    assert!(frame.contains("••••••"), "{frame}");
    assert!(!frame.contains("s3cret"), "the password never draws in clear:\n{frame}");
    assert!(frame.contains("Sign in"), "{frame}");
    assert!(frame.contains("home.mstream.example"), "the host is named:\n{frame}");
    assert!(frame.contains("USERNAME") && frame.contains("PASSWORD"), "{frame}");
    p.key(key(Code::BackTab));
    assert_eq!(p.field, Field::Username);
}

#[test]
fn a_rejected_sign_in_keeps_the_name_clears_the_password_and_says_so() {
    let mut p = page();
    type_text(&mut p, "alice");
    p.key(key(Code::Tab));
    type_text(&mut p, "wrong");
    p.key(key(Code::Enter));
    p.apply(Err(ApiError::Unauthorized));
    assert_eq!(p.username.value(), "alice");
    assert_eq!(p.password.value(), "");
    assert_eq!(p.field, Field::Password);
    assert!(note(&p).contains("check the username and password"), "{}", note(&p));
    assert!(p.session().is_none() && p.finished().is_none());
    assert!(p.busy.is_none(), "the busy line clears");
}

#[test]
fn a_successful_sign_in_ends_the_page_with_the_session() {
    let mut p = page();
    type_text(&mut p, " alice ");
    p.key(key(Code::Tab));
    type_text(&mut p, "hunter2");
    p.key(key(Code::Enter));
    p.apply(Ok(LoginResponse { token: "tok".into(), vpaths: vec![] }));
    assert_eq!(p.session(), Some(("alice".to_string(), "tok".to_string())), "trimmed name");
    assert!(matches!(p.finished(), Some(Outcome::Quit)));
    assert!(p.busy.is_none() && note(&p).is_empty());
}

#[test]
fn a_failure_that_is_not_a_refusal_is_reported_with_its_cause() {
    let mut p = page();
    p.apply(Err(ApiError::Network("connection refused".into())));
    let n = note(&p);
    assert!(n.starts_with("could not sign in") && n.contains("connection refused"), "{n}");
    assert!(p.session().is_none());
}

#[test]
fn esc_leaves_without_a_session() {
    let mut p = page();
    assert!(matches!(p.key(key(Code::Esc)), Some(Outcome::Quit)));
    assert!(p.session().is_none() && p.finished().is_none());
}

#[test]
fn remember_keeps_the_token_and_the_server_entry() {
    let (cfg, creds) = remember(
        Ok(Config { servers: vec![] }),
        Ok(Credentials { tokens: vec![] }),
        "http://home.mstream.example:3000/",
        "alice",
        "tok",
    )
    .unwrap();
    assert_eq!(
        token_for(&creds, "http://home.mstream.example:3000"),
        Some("tok".to_string()),
        "found under the slash-insensitive key the rooms resolve with"
    );
    assert_eq!(cfg.servers[0].username.as_deref(), Some("alice"));
}

#[test]
fn a_home_reference_is_the_tilde_alone_or_before_a_separator() {
    assert!(home_ref("~"));
    assert!(home_ref("~/"));
    assert!(home_ref("~/Music"));
    assert!(home_ref("~\\Music"));
    assert!(!home_ref("~music"), "a folder called ~music");
    assert!(!home_ref("/srv/~"));
    assert!(!home_ref(""));
}

#[test]
fn a_home_reference_is_rooted_at_the_servers_home_in_its_own_separator() {
    assert_eq!(join_home("/home/me", "~"), "/home/me");
    assert_eq!(join_home("/home/me", "~/"), "/home/me/");
    assert_eq!(join_home("/home/me/", "~/Music"), "/home/me/Music");
    assert_eq!(join_home("C:\\Users\\me", "~\\Music"), "C:\\Users\\me\\Music");
    assert_eq!(
        join_home("C:\\Users\\me\\", "~/Music/2024"),
        "C:\\Users\\me\\Music\\2024",
        "typed unix-style at a Windows server"
    );
    assert_eq!(join_home("/", "~/x"), "/x", "a root as the home keeps one separator");
}

#[test]
fn a_file_that_failed_to_load_is_never_overwritten() {
    let bad = remember(Err("broken config".into()), Ok(Credentials { tokens: vec![] }), "http://a", "u", "t");
    assert_eq!(bad.err().as_deref(), Some("broken config"));
    let bad = remember(Ok(Config { servers: vec![] }), Err("broken credentials".into()), "http://a", "u", "t");
    assert_eq!(bad.err().as_deref(), Some("broken credentials"));
}

#[test]
fn remembering_again_replaces_and_leaves_the_others() {
    let (cfg, creds) =
        remember(Ok(Config { servers: vec![] }), Ok(Credentials { tokens: vec![] }), "http://a/", "ann", "one").unwrap();
    let (cfg, creds) = remember(Ok(cfg), Ok(creds), "http://b", "bob", "two").unwrap();
    let (cfg, creds) = remember(Ok(cfg), Ok(creds), "http://a", "eve", "three").unwrap();
    assert_eq!(cfg.servers.len(), 2);
    assert_eq!(cfg.servers[0].username.as_deref(), Some("eve"));
    assert_eq!(token_for(&creds, "http://a//").as_deref(), Some("three"));
    assert_eq!(token_for(&creds, "http://b").as_deref(), Some("two"));
    assert_eq!(token_for(&creds, "http://c"), None);
}

#[test]
fn one_attempt_runs_at_a_time() {
    let mut p = page();
    assert!(can_press(&p));
    type_text(&mut p, "alice");
    p.key(key(Code::Tab));
    type_text(&mut p, "pw");
    p.key(key(Code::Enter));
    assert!(!can_press(&p));
    assert_eq!(p.dispatch_queued(), Some(("alice".to_string(), "pw".to_string())));
    p.key(key(Code::Enter));
    assert_eq!(p.dispatch_queued(), None, "the first is still out");
    assert!(p.in_flight && !p.queued);
}

#[test]
fn the_home_is_asked_for_once() {
    let mut home = ServerHome::new();
    assert_eq!(home.expand("/srv/x", None).unwrap().ok().as_deref(), Some("/srv/x"));
    assert!(home.expand("~/x", None).is_none(), "asks for a listing");
    let e = home.expand("~/x", Some(Err(ApiError::Unauthorized)));
    assert!(matches!(e, Some(Err(ApiError::Unauthorized))));
    let e = home.expand("~/x", Some(Ok(String::new())));
    assert!(matches!(e, Some(Err(ApiError::Decode { .. }))), "a listing that names no path");
    let got = home.expand("~/x", Some(Ok("/home/me".into()))).unwrap().ok();
    assert_eq!(got.as_deref(), Some("/home/me/x"));
    assert_eq!(home.expand("~", None).unwrap().ok().as_deref(), Some("/home/me"), "known from now on");
}

#[test]
fn the_host_is_the_addresss_or_the_address_itself() {
    assert_eq!(host_of("http://home.mstream.example:3000/x".to_string()), "home.mstream.example");
    assert_eq!(host_of("not an address".to_string()), "not an address");
}

#[test]
fn the_gates_have_their_own_sentences() {
    assert_eq!(gate_message(ApiError::Unauthorized, "x"), Msg::Key("admin.gate_unauthorized"));
    let forbidden = gate_message(ApiError::Forbidden("no".into()), "x");
    assert!(matches!(&forbidden, Msg::One("admin.gate_forbidden", f) if f.name == "err" && f.arg == Arg::Text("no".into())));
    let locked = gate_message(ApiError::Server { status: 405, message: "locked".into() }, "x");
    assert_eq!(locked, Msg::Key("admin.gate_locked"));
    let other = gate_message(ApiError::Server { status: 500, message: "oops".into() }, "admin.signin_failed");
    assert_eq!(words(&other), "could not sign in: 500 oops");
    let gone = gate_message(ApiError::NotFound("gone".into()), "admin.signin_failed");
    assert_eq!(words(&gone), "could not sign in: gone");
    let odd = ApiError::Decode { endpoint: "e".into(), message: "m".into() };
    assert_eq!(words(&gate_message(odd, "admin.signin_failed")), "could not sign in: e: m");
}

#[test]
fn the_hub_signs_in_only_where_nobody_is() {
    assert!(needs_sign_in(&Err(ApiError::Unauthorized)));
    assert!(!needs_sign_in(&Ok(())));
    assert!(!needs_sign_in(&Err(ApiError::Forbidden("x".into()))));
    assert!(!needs_sign_in(&Err(ApiError::Network("down".into()))));
    assert_eq!(after_sign_in(3, None), AfterSignIn::Leave(3));
    assert_eq!(after_sign_in(0, None), AfterSignIn::Leave(0));
    let who = Some(("alice".to_string(), "tok".to_string()));
    assert_eq!(
        after_sign_in(0, who),
        AfterSignIn::Enter { username: "alice".into(), token: "tok".into() }
    );
}

#[test]
fn the_libraries_open_where_no_room_is_named() {
    let args = AdminArgs { server: None, token: None, same_machine: false, room: None };
    assert_eq!(args.room_to_open(), RoomCmd::Libraries);
    let args = AdminArgs { server: None, token: None, same_machine: false, room: Some(RoomCmd::Backups) };
    assert_eq!(args.room_to_open(), RoomCmd::Backups);
}

#[test]
fn ctrl_c_is_the_loops_own() {
    let c = key(Code::Char('c'));
    assert_eq!(answer(Event::Key { key: c, press: true }), Answer::Press(c));
    let quit = Key { ctrl: true, ..c };
    assert_eq!(answer(Event::Key { key: quit, press: true }), Answer::Quit);
    assert_eq!(answer(Event::Key { key: quit, press: false }), Answer::Nothing);
    let at = |mouse| answer(Event::Mouse { mouse, x: 4, y: 5 });
    assert_eq!(at(Mouse::LeftDown), Answer::Click { x: 4, y: 5 });
    assert_eq!(at(Mouse::OtherDown), Answer::Nothing);
    assert_eq!(at(Mouse::Moved), Answer::Point { x: 4, y: 5 });
    assert_eq!(at(Mouse::Drag), Answer::Pull { x: 4, y: 5 });
    assert_eq!(at(Mouse::Up), Answer::Release);
    assert_eq!(at(Mouse::ScrollUp), Answer::Wheel { up: true, x: 4, y: 5 });
    assert_eq!(at(Mouse::ScrollDown), Answer::Wheel { up: false, x: 4, y: 5 });
    assert_eq!(answer(Event::Other), Answer::Nothing);
}

#[test]
fn the_chrome_keeps_to_the_edges_and_busy_wins() {
    let area = Rect { x: 0, y: 0, width: 100, height: 30 };
    assert!(fits(area, SIGN_IN_MIN_W, SIGN_IN_MIN_H));
    assert!(!fits(Rect { width: 57, ..area }, SIGN_IN_MIN_W, SIGN_IN_MIN_H));
    let c = chrome(area);
    assert_eq!(c.header, Rect { x: 2, y: 0, width: 96, height: 1 });
    assert_eq!((c.status.y, c.tips.y), (28, 29));
    assert_eq!(room_column(area), Rect { x: 2, y: 2, width: 96, height: 25 });
    let err = Some(Note { msg: Msg::Key("a"), error: true });
    let plain = Some(Note { msg: Msg::Key("b"), error: false });
    let busy = Some(Msg::Key("c"));
    assert_eq!(status_line(&err, &None), Some((&Msg::Key("a"), Tone::Gold)));
    assert_eq!(status_line(&plain, &None), Some((&Msg::Key("b"), Tone::Dim)));
    assert_eq!(status_line(&err, &busy), Some((&Msg::Key("c"), Tone::Accent)));
    assert_eq!(status_line(&None, &None), None);
}

#[test]
fn the_sign_in_page_is_centred() {
    let p = sign_in_places(Rect { x: 0, y: 0, width: 100, height: 30 });
    assert_eq!((p.x, p.width, p.fields_y), (28, 44, 6));
    assert_eq!(p.words, Rect { x: 13, y: 3, width: 74, height: 2 });
}
