//! The sign-in page: asks once for a name and a password, and keeps the
//! session the server issues.

use tui_input::Input;
use vstd::prelude::*;

use crate::line::{blank, edit, Code, Key};
use crate::msg::{ApiError, Msg, Note};
use crate::screen::Outcome;
use crate::text::{chars_of, same, text_of, trim};

verus! {

use crate::line::{after_key, input_value, is_blank, key_changes};
use crate::msg::error;
use crate::text::trimmed;

/// The two fields, in Tab order.
#[derive(Clone, Copy, Debug, PartialEq, Eq, Structural)]
pub enum Field {
    Username,
    Password,
}

#[derive(Clone, Copy, Debug, PartialEq, Eq, Structural)]
pub enum Act {
    Focus(Field),
    SignIn,
}

/// What a sign-in is answered.
#[derive(Debug, PartialEq)]
pub struct LoginResponse {
    pub token: String,
    pub vpaths: Vec<String>,
}

/// The page. [`SignIn::session`] after the loop says whether it signed in.
pub struct SignIn {
    pub server: String,
    pub username: Input,
    pub password: Input,
    pub field: Field,
    pub note: Option<Note>,
    pub busy: Option<Msg>,
    /// An attempt asked for, not handed out yet.
    pub queued: bool,
    pub in_flight: bool,
    /// The name and the token, once the server signed the page in.
    pub session: Option<(String, String)>,
}

/// The field that is not this one.
pub open spec fn other(field: Field) -> Field {
    match field {
        Field::Username => Field::Password,
        Field::Password => Field::Username,
    }
}

/// What Enter or the button makes of the page: nothing while an attempt is
/// queued or running, a request for what is missing, or one attempt.
pub open spec fn submitted(pre: SignIn) -> SignIn {
    if pre.queued || pre.in_flight {
        pre
    } else if trimmed(input_value(pre.username)).len() == 0 {
        SignIn { field: Field::Username, note: error(Msg::Key("admin.signin_need_username")), ..pre }
    } else if input_value(pre.password).len() == 0 {
        SignIn { field: Field::Password, note: error(Msg::Key("admin.signin_need_password")), ..pre }
    } else {
        SignIn { note: None, queued: true, busy: Some(Msg::Key("admin.signin_busy")), ..pre }
    }
}

/// What an answer makes of the page.
pub open spec fn applied(pre: SignIn, done: Result<LoginResponse, ApiError>, post: SignIn) -> bool {
    let m = SignIn { in_flight: false, busy: None, ..pre };
    match done {
        Ok(resp) => {
            &&& post == (SignIn { note: None, session: post.session, ..m })
            &&& post.session matches Some(s) && s.0@ == trimmed(input_value(pre.username)) && s.1 == resp.token
        },
        Err(ApiError::Unauthorized) => {
            &&& post == (SignIn {
                password: post.password,
                field: Field::Password,
                note: error(Msg::Key("admin.signin_rejected")),
                ..m
            })
            &&& is_blank(post.password)
        },
        Err(e) => post == (SignIn { note: error(Msg::Failed("admin.signin_failed", e)), ..m }),
    }
}

/// What a key makes of the page, and whether it ends it.
pub open spec fn keyed(pre: SignIn, key: Key, post: SignIn, out: Option<Outcome>) -> bool {
    match key.code {
        Code::Esc => post == pre && out == Some(Outcome::Quit),
        Code::Enter => post == submitted(pre) && out is None,
        Code::Tab | Code::BackTab | Code::Down | Code::Up => out is None && post == (SignIn {
            field: other(pre.field),
            ..pre
        }),
        _ => out is None && match pre.field {
            Field::Username => {
                &&& post == (SignIn { username: post.username, ..pre })
                &&& after_key(pre.username, key, post.username, key_changes(pre.username, key))
            },
            Field::Password => {
                &&& post == (SignIn { password: post.password, ..pre })
                &&& after_key(pre.password, key, post.password, key_changes(pre.password, key))
            },
        },
    }
}

impl SignIn {
    pub fn new(server: String) -> (page: SignIn)
        ensures
            page.server == server,
            is_blank(page.username),
            is_blank(page.password),
            page.field == Field::Username,
            page.note is None,
            page.busy is None,
            !page.queued,
            !page.in_flight,
            page.session is None,
    {
        SignIn {
            server,
            username: blank(),
            password: blank(),
            field: Field::Username,
            note: None,
            busy: None,
            queued: false,
            in_flight: false,
            session: None,
        }
    }

    /// The name and the token, once the server signed the page in.
    pub fn session(&self) -> (r: Option<(String, String)>)
        ensures
            r == self.session,
    {
        match &self.session {
            Some(s) => Some((s.0.clone(), s.1.clone())),
            None => None,
        }
    }

    /// Signed in: the loop ends.
    pub fn finished(&self) -> (r: Option<Outcome>)
        ensures
            r == (if self.session is Some { Some(Outcome::Quit) } else { None }),
    {
        if self.session.is_some() {
            Some(Outcome::Quit)
        } else {
            None
        }
    }

    pub fn act(&mut self, act: Act) -> (out: Option<Outcome>)
        ensures
            out is None,
            *final(self) == (match act {
                Act::Focus(field) => SignIn { field, ..*old(self) },
                Act::SignIn => submitted(*old(self)),
            }),
    {
        match act {
            Act::Focus(field) => {
                self.field = field;
            },
            Act::SignIn => self.submit(),
        }
        None
    }

    /// Enter or the button: the two empty fields are asked for, then one attempt.
    fn submit(&mut self)
        ensures
            *final(self) == submitted(*old(self)),
    {
        if self.queued || self.in_flight {
            return;
        }
        if trim(self.username.value()).as_str().is_empty() {
            self.field = Field::Username;
            self.note = Some(Note { msg: Msg::Key("admin.signin_need_username"), error: true });
            return;
        }
        if self.password.value().is_empty() {
            self.field = Field::Password;
            self.note = Some(Note { msg: Msg::Key("admin.signin_need_password"), error: true });
            return;
        }
        self.note = None;
        self.queued = true;
        self.busy = Some(Msg::Key("admin.signin_busy"));
    }

    /// Hands out the attempt that was asked for: the trimmed name, and the
    /// password as typed.
    pub fn dispatch_queued(&mut self) -> (r: Option<(String, String)>)
        ensures
            if old(self).queued && !old(self).in_flight {
                &&& *final(self) == (SignIn { queued: false, in_flight: true, ..*old(self) })
                &&& r matches Some(who) && who.0@ == trimmed(input_value(old(self).username)) && who.1@ == input_value(
                    old(self).password,
                )
            } else {
                *final(self) == *old(self) && r is None
            },
            r is Some <==> old(self).queued && !old(self).in_flight,
            r is Some ==> final(self).in_flight && !final(self).queued,
    {
        if !self.queued || self.in_flight {
            return None;
        }
        self.queued = false;
        self.in_flight = true;
        Some((trim(self.username.value()), self.password.value().to_owned()))
    }

    /// Folds the answer back into the page. After a refusal the name stays and
    /// the password goes.
    pub fn apply(&mut self, done: Result<LoginResponse, ApiError>)
        ensures
            applied(*old(self), done, *final(self)),
    {
        self.in_flight = false;
        self.busy = None;
        match done {
            Ok(resp) => {
                self.note = None;
                self.session = Some((trim(self.username.value()), resp.token));
            },
            Err(ApiError::Unauthorized) => {
                self.password = blank();
                self.field = Field::Password;
                self.note = Some(Note { msg: Msg::Key("admin.signin_rejected"), error: true });
            },
            Err(e) => {
                self.note = Some(Note { msg: Msg::Failed("admin.signin_failed", e), error: true });
            },
        }
    }

    /// A key press: the focused field's line editor takes what the page does
    /// not.
    pub fn key(&mut self, key: Key) -> (out: Option<Outcome>)
        ensures
            keyed(*old(self), key, *final(self), out),
    {
        match key.code {
            Code::Esc => return Some(Outcome::Quit),
            Code::Enter => return self.act(Act::SignIn),
            Code::Tab | Code::BackTab | Code::Down | Code::Up => {
                self.field = match self.field {
                    Field::Username => Field::Password,
                    Field::Password => Field::Username,
                };
            },
            _ => {
                match self.field {
                    Field::Username => {
                        edit(&mut self.username, key);
                    },
                    Field::Password => {
                        edit(&mut self.password, key);
                    },
                }
            },
        }
        None
    }
}

/// The page, empty.
pub fn start(server: String) -> (page: SignIn)
    ensures
        page.server == server,
        is_blank(page.username) && is_blank(page.password),
        page.field == Field::Username,
        page.note is None && page.busy is None && !page.queued && !page.in_flight && page.session is None,
{
    SignIn::new(server)
}

/// However often a sign-in is asked for, one attempt runs: asking while one is
/// queued or running changes nothing.
pub proof fn never_signs_in_twice(page: SignIn)
    requires
        page.queued || page.in_flight,
    ensures
        submitted(page) == page,
{
}

/// An attempt is queued only with a name and a password typed.
pub proof fn an_attempt_has_both_fields(page: SignIn)
    requires
        !page.queued,
        submitted(page).queued,
    ensures
        trimmed(input_value(page.username)).len() > 0,
        input_value(page.password).len() > 0,
{
}

// ── Keeping the session ──────────────────────────────────────────────────

/// A server the player knows, and who signs in to it.
pub struct ServerEntry {
    pub url: String,
    pub username: Option<String>,
}

pub struct Config {
    pub servers: Vec<ServerEntry>,
}

/// A server's token.
pub struct Token {
    pub url: String,
    pub token: String,
}

pub struct Credentials {
    pub tokens: Vec<Token>,
}

/// A server's address without the slashes it may end with.
pub open spec fn address(url: Seq<char>) -> Seq<char>
    decreases url.len(),
{
    if url.len() > 0 && url.last() == '/' {
        address(url.drop_last())
    } else {
        url
    }
}

/// The place of the first entry for a server.
pub open spec fn entry_at(servers: Seq<ServerEntry>, key: Seq<char>) -> Option<int>
    decreases servers.len(),
{
    if servers.len() == 0 {
        None
    } else {
        match entry_at(servers.drop_last(), key) {
            Some(i) => Some(i),
            None => if address(servers.last().url@) == key {
                Some(servers.len() - 1)
            } else {
                None
            },
        }
    }
}

/// The place of the first token for a server.
pub open spec fn token_at(tokens: Seq<Token>, key: Seq<char>) -> Option<int>
    decreases tokens.len(),
{
    if tokens.len() == 0 {
        None
    } else {
        match token_at(tokens.drop_last(), key) {
            Some(i) => Some(i),
            None => if address(tokens.last().url@) == key {
                Some(tokens.len() - 1)
            } else {
                None
            },
        }
    }
}

/// The servers once one was signed in to: its entry has the name, a new one
/// comes last.
pub open spec fn server_touched(pre: Seq<ServerEntry>, server: Seq<char>, username: Seq<char>, post: Seq<ServerEntry>) -> bool {
    match entry_at(pre, address(server)) {
        Some(i) => {
            &&& post.len() == pre.len()
            &&& 0 <= i < pre.len()
            &&& forall|k: int| 0 <= k < pre.len() && k != i ==> post[k] == pre[k]
            &&& post[i] == (ServerEntry { username: post[i].username, ..pre[i] })
            &&& post[i].username matches Some(n) && n@ == username
        },
        None => {
            &&& post.len() == pre.len() + 1
            &&& post.drop_last() == pre
            &&& post.last().url@ == address(server)
            &&& post.last().username matches Some(n) && n@ == username
        },
    }
}

/// The tokens once a server issued one: its own is replaced, a new one comes
/// last, every other stays.
pub open spec fn token_stored(pre: Seq<Token>, server: Seq<char>, token: Seq<char>, post: Seq<Token>) -> bool {
    match token_at(pre, address(server)) {
        Some(i) => {
            &&& post.len() == pre.len()
            &&& 0 <= i < pre.len()
            &&& forall|k: int| 0 <= k < pre.len() && k != i ==> post[k] == pre[k]
            &&& post[i].url == pre[i].url
            &&& post[i].token@ == token
        },
        None => {
            &&& post.len() == pre.len() + 1
            &&& post.drop_last() == pre
            &&& post.last().url@ == address(server)
            &&& post.last().token@ == token
        },
    }
}

fn address_of(url: &str) -> (out: String)
    ensures
        out@ == address(url@),
{
    let cs = chars_of(url);
    let mut n: usize = cs.len();
    proof {
        assert(cs@.take(n as int) =~= cs@);
    }
    while n > 0 && cs[n - 1] == '/'
        invariant
            n <= cs@.len(),
            address(cs@.take(n as int)) == address(cs@),
        decreases n,
    {
        proof {
            assert(cs@.take(n as int).drop_last() =~= cs@.take(n - 1));
        }
        n -= 1;
    }
    proof {
        if n > 0 {
            assert(cs@.take(n as int).last() == cs@[n - 1]);
        }
        assert(cs@.subrange(0, n as int) =~= cs@.take(n as int));
    }
    text_of(&cs, 0, n)
}

proof fn entry_found_early(servers: Seq<ServerEntry>, key: Seq<char>, n: int)
    requires
        0 <= n <= servers.len(),
        entry_at(servers.take(n), key) is Some,
    ensures
        entry_at(servers, key) == entry_at(servers.take(n), key),
    decreases servers.len() - n,
{
    if n < servers.len() {
        assert(servers.take(n + 1).drop_last() =~= servers.take(n));
        entry_found_early(servers, key, n + 1);
    } else {
        assert(servers.take(n) =~= servers);
    }
}

proof fn token_found_early(tokens: Seq<Token>, key: Seq<char>, n: int)
    requires
        0 <= n <= tokens.len(),
        token_at(tokens.take(n), key) is Some,
    ensures
        token_at(tokens, key) == token_at(tokens.take(n), key),
    decreases tokens.len() - n,
{
    if n < tokens.len() {
        assert(tokens.take(n + 1).drop_last() =~= tokens.take(n));
        token_found_early(tokens, key, n + 1);
    } else {
        assert(tokens.take(n) =~= tokens);
    }
}

fn find_token(tokens: &Vec<Token>, server: &str) -> (r: Option<usize>)
    ensures
        match token_at(tokens@, address(server@)) {
            Some(i) => r is Some && r->0 == i && 0 <= i < tokens@.len(),
            None => r is None,
        },
{
    let key = address_of(server);
    let mut i: usize = 0;
    while i < tokens.len()
        invariant
            i <= tokens@.len(),
            key@ == address(server@),
            token_at(tokens@.take(i as int), key@) is None,
        decreases tokens@.len() - i,
    {
        proof {
            assert(tokens@.take(i + 1).drop_last() =~= tokens@.take(i as int));
        }
        if same(address_of(tokens[i].url.as_str()).as_str(), key.as_str()) {
            proof {
                token_found_early(tokens@, key@, i + 1);
            }
            return Some(i);
        }
        i += 1;
    }
    proof {
        assert(tokens@.take(i as int) =~= tokens@);
    }
    None
}

fn find_entry(servers: &Vec<ServerEntry>, server: &str) -> (r: Option<usize>)
    ensures
        match entry_at(servers@, address(server@)) {
            Some(i) => r is Some && r->0 == i && 0 <= i < servers@.len(),
            None => r is None,
        },
{
    let key = address_of(server);
    let mut i: usize = 0;
    while i < servers.len()
        invariant
            i <= servers@.len(),
            key@ == address(server@),
            entry_at(servers@.take(i as int), key@) is None,
        decreases servers@.len() - i,
    {
        proof {
            assert(servers@.take(i + 1).drop_last() =~= servers@.take(i as int));
        }
        if same(address_of(servers[i].url.as_str()).as_str(), key.as_str()) {
            proof {
                entry_found_early(servers@, key@, i + 1);
            }
            return Some(i);
        }
        i += 1;
    }
    proof {
        assert(servers@.take(i as int) =~= servers@);
    }
    None
}

/// The token kept for a server, whatever slashes its address ends with.
pub fn token_for(creds: &Credentials, server: &str) -> (r: Option<String>)
    ensures
        match token_at(creds.tokens@, address(server@)) {
            Some(i) => r == Some(creds.tokens@[i].token),
            None => r is None,
        },
{
    match find_token(&creds.tokens, server) {
        Some(i) => Some(creds.tokens[i].token.clone()),
        None => None,
    }
}

/// Keeps the session: the server's entry with its name, and the token. Takes
/// both files as they loaded and gives both to save. A file that failed to
/// load is never overwritten: its error comes back, and nothing to save.
pub fn remember(
    cfg: Result<Config, String>,
    creds: Result<Credentials, String>,
    server: &str,
    username: &str,
    token: &str,
) -> (r: Result<(Config, Credentials), String>)
    ensures
        match (cfg, creds) {
            (Err(e), _) => r == Err::<(Config, Credentials), String>(e),
            (Ok(_), Err(e)) => r == Err::<(Config, Credentials), String>(e),
            (Ok(c), Ok(k)) => r matches Ok(saved) && server_touched(c.servers@, server@, username@, saved.0.servers@)
                && token_stored(k.tokens@, server@, token@, saved.1.tokens@),
        },
{
    let mut cfg = match cfg {
        Ok(cfg) => cfg,
        Err(e) => return Err(e),
    };
    let mut creds = match creds {
        Ok(creds) => creds,
        Err(e) => return Err(e),
    };
    let ghost servers = cfg.servers@;
    let ghost tokens = creds.tokens@;
    match find_entry(&cfg.servers, server) {
        Some(i) => {
            cfg.servers[i].username = Some(username.to_owned());
        },
        None => {
            cfg.servers.push(ServerEntry { url: address_of(server), username: Some(username.to_owned()) });
            proof {
                assert(cfg.servers@.drop_last() =~= servers);
            }
        },
    }
    match find_token(&creds.tokens, server) {
        Some(i) => {
            creds.tokens[i].token = token.to_owned();
        },
        None => {
            creds.tokens.push(Token { url: address_of(server), token: token.to_owned() });
            proof {
                assert(creds.tokens@.drop_last() =~= tokens);
            }
        },
    }
    Ok((cfg, creds))
}

proof fn address_is_bare(url: Seq<char>)
    ensures
        address(address(url)) == address(url),
    decreases url.len(),
{
    if url.len() > 0 && url.last() == '/' {
        address_is_bare(url.drop_last());
    }
}

proof fn found_token_is_the_servers(tokens: Seq<Token>, key: Seq<char>)
    ensures
        token_at(tokens, key) matches Some(i) ==> 0 <= i < tokens.len() && address(tokens[i].url@) == key,
    decreases tokens.len(),
{
    if tokens.len() > 0 {
        found_token_is_the_servers(tokens.drop_last(), key);
    }
}

proof fn same_addresses_same_place(a: Seq<Token>, b: Seq<Token>, key: Seq<char>)
    requires
        a.len() == b.len(),
        forall|k: int| 0 <= k < a.len() ==> address((#[trigger] a[k]).url@) == address(b[k].url@),
    ensures
        token_at(a, key) == token_at(b, key),
    decreases a.len(),
{
    if a.len() > 0 {
        assert(a.last() == a[a.len() - 1]);
        assert forall|k: int| 0 <= k < a.drop_last().len() implies address((#[trigger] a.drop_last()[k]).url@) == address(
            b.drop_last()[k].url@,
        ) by {
            assert(a.drop_last()[k] == a[k]);
        }
        same_addresses_same_place(a.drop_last(), b.drop_last(), key);
    }
}

/// What is remembered is found again, under every spelling of the server's
/// address that differs in its last slashes, and no other server's token
/// changes.
pub proof fn remembered_tokens_are_found(
    pre: Seq<Token>,
    server: Seq<char>,
    token: Seq<char>,
    post: Seq<Token>,
    asked: Seq<char>,
)
    requires
        token_stored(pre, server, token, post),
    ensures
        address(asked) == address(server) ==> (token_at(post, address(asked)) matches Some(i) && post[i].token@ == token),
        address(asked) != address(server) ==> match token_at(pre, address(asked)) {
            Some(i) => token_at(post, address(asked)) == Some(i) && post[i] == pre[i],
            None => token_at(post, address(asked)) is None,
        },
{
    let key = address(server);
    let q = address(asked);
    found_token_is_the_servers(pre, key);
    found_token_is_the_servers(pre, q);
    address_is_bare(server);
    match token_at(pre, key) {
        Some(i) => {
            same_addresses_same_place(post, pre, key);
            same_addresses_same_place(post, pre, q);
        },
        None => {
            assert(post.drop_last() == pre);
        },
    }
}

// ── What signing in keeps ────────────────────────────────────────────────

/// The page signs in as who typed the name, with the token that the server gave.
pub proof fn the_session_is_the_servers(pre: SignIn, resp: LoginResponse, post: SignIn)
    requires
        applied(pre, Ok(resp), post),
    ensures
        post.session matches Some((name, token)) && name@ == trimmed(input_value(pre.username)) && token == resp.token,
        post.note is None && post.busy is None && !post.in_flight,
{
}

/// A refused sign-in keeps the name and drops the password; any other failure
/// keeps both. None of them is a session.
pub proof fn a_refusal_drops_the_password(pre: SignIn, e: ApiError, post: SignIn)
    requires
        applied(pre, Err(e), post),
    ensures
        post.session == pre.session,
        post.username == pre.username,
        e is Unauthorized ==> input_value(post.password).len() == 0 && post.field == Field::Password,
        !(e is Unauthorized) ==> post.password == pre.password && post.field == pre.field && (post.note matches Some(
            Note { msg: Msg::Failed(_, why), error },
        ) && why == e),
        post.note is Some && post.note->0.error,
{
}

/// What is typed goes into the field with the focus, and leaves the other alone;
/// the focus goes to the other field and back.
pub proof fn typing_reaches_one_field(pre: SignIn, key: Key, post: SignIn, out: Option<Outcome>)
    requires
        keyed(pre, key, post, out),
        key.code is Char,
    ensures
        pre.field == Field::Username ==> post.password == pre.password,
        pre.field == Field::Password ==> post.username == pre.username,
        post.field == pre.field,
        other(other(pre.field)) == pre.field && other(pre.field) != pre.field,
        out is None,
{
}

/// What is missing is asked for, where it is missing: the name before the
/// password.
pub proof fn what_is_missing_is_asked_for(page: SignIn)
    requires
        !page.queued && !page.in_flight,
    ensures
        trimmed(input_value(page.username)).len() == 0 ==> submitted(page).field == Field::Username && !submitted(page).queued,
        trimmed(input_value(page.username)).len() > 0 && input_value(page.password).len() == 0 ==> submitted(page).field
            == Field::Password && !submitted(page).queued,
        trimmed(input_value(page.username)).len() > 0 && input_value(page.password).len() > 0 ==> submitted(page).queued,
        submitted(page).username == page.username && submitted(page).password == page.password,
{
}

/// A server's address is the same with any number of slashes behind it, and has
/// none itself.
pub proof fn last_slashes_do_not_matter(url: Seq<char>)
    ensures
        address(url.push('/')) == address(url),
        address(url).len() > 0 ==> address(url).last() != '/',
        url.len() > 0 && url.last() != '/' ==> address(url) == url,
        address(url).len() <= url.len() && address(url) == url.take(address(url).len() as int),
    decreases url.len(),
{
    assert(url.push('/').drop_last() =~= url);
    if url.len() > 0 && url.last() == '/' {
        last_slashes_do_not_matter(url.drop_last());
        assert(url.take(address(url).len() as int) =~= url.drop_last().take(address(url).len() as int));
    } else {
        assert(url.take(url.len() as int) =~= url);
    }
}

proof fn found_entry_is_the_servers(servers: Seq<ServerEntry>, key: Seq<char>)
    ensures
        entry_at(servers, key) matches Some(i) ==> 0 <= i < servers.len() && address(servers[i].url@) == key,
    decreases servers.len(),
{
    if servers.len() > 0 {
        found_entry_is_the_servers(servers.drop_last(), key);
    }
}

/// The server that was signed in to is listed with the name that signed in, and
/// every other server stays as it was, in its place.
pub proof fn the_server_is_remembered(pre: Seq<ServerEntry>, server: Seq<char>, username: Seq<char>, post: Seq<ServerEntry>)
    requires
        server_touched(pre, server, username, post),
    ensures
        exists|i: int|
            0 <= i < post.len() && address((#[trigger] post[i]).url@) == address(server) && (post[i].username matches Some(n) && n@
                == username),
        pre.len() <= post.len(),
        forall|k: int|
            0 <= k < pre.len() && address((#[trigger] pre[k]).url@) != address(server) ==> post[k] == pre[k],
        forall|k: int| 0 <= k < pre.len() ==> (#[trigger] post[k]).url == pre[k].url,
{
    found_entry_is_the_servers(pre, address(server));
    address_is_bare(server);
    match entry_at(pre, address(server)) {
        Some(i) => {
            assert(address(post[i].url@) == address(server));
        },
        None => {
            assert(post[post.len() - 1] == post.last());
            assert forall|k: int| 0 <= k < pre.len() implies post[k] == pre[k] by {
                assert(post.drop_last()[k] == post[k]);
            }
        },
    }
}

/// The keys that move between the fields move and nothing else, and Esc alone leaves.
pub proof fn moving_between_the_fields(pre: SignIn, key: Key, post: SignIn, out: Option<Outcome>)
    requires
        keyed(pre, key, post, out),
    ensures
        out is Some <==> key.code == Code::Esc,
        key.code == Code::Esc ==> post == pre,
        key.code == Code::Tab || key.code == Code::BackTab || key.code == Code::Down || key.code == Code::Up ==> post.field != pre.field
            && post.username == pre.username && post.password == pre.password && post.queued == pre.queued,
{
}

} // verus!
