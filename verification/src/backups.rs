//! The Backups room: each library's copies on other drives.
//!
//! The room is a state machine. A key or a click changes it and may queue one
//! call; [`Room::dispatch_queued`] hands the queued call out while none is
//! running; [`Room::apply`] folds an answer back in. Removing a destination is
//! gated, and the warning's safe choice is the one on Enter.

use tui_input::Input;
use vstd::prelude::*;

use crate::line::{blank, edit, Code, Key};
use crate::msg::{ApiError, Arg, Fill, Msg, Note};
use crate::paths::{join_server_path, parent_server_path, Browse, DirListing};
use crate::screen::{
    clamp_row, cursor_down, cursor_up, keep_cursor, next_choice, previous_choice, scroll, Outcome,
};
use crate::text::{
    copy_texts, decimal, is_control, join, printable, read_number, same, same_texts, split_trimmed, trim,
};

verus! {

use crate::line::{after_key, all_of, holds, input_value, is_blank, key_changes, stays_of_a_kind};
use crate::msg::{error, one, remark, says};
use crate::paths::{above, below};
use crate::screen::{after, before, kept, row_down, row_up, scrolled, within};
use crate::text::{control, dec, decimals_are_digits, is_digit, is_text, join_with, number_upto, printed, split_on, texts, trimmed, trimmed_parts};

/// The server's caps.
pub const MAX_THROTTLE_MS: u32 = 60_000;

pub const MAX_GLOBS: usize = 64;

/// How many runs the history asks for.
pub const HISTORY_LIMIT: u32 = 50;

/// The room's cadences, in milliseconds: with a run in flight or tasks
/// queued, and otherwise.
pub const POLL_ACTIVE: u64 = 2_000;

pub const POLL_IDLE: u64 = 5_000;

// ── What the server says ─────────────────────────────────────────────────

#[derive(Debug, PartialEq)]
pub struct BackupRun {
    pub id: i64,
    pub started_at: String,
    pub finished_at: Option<String>,
    pub status: String,
    pub trigger_reason: Option<String>,
    pub files_copied: u64,
    pub files_unchanged: u64,
    pub files_trashed: u64,
    pub bytes_copied: u64,
    pub error_message: Option<String>,
}

impl Clone for BackupRun {
    fn clone(&self) -> (r: Self)
        ensures
            r == *self,
    {
        BackupRun {
            id: self.id,
            started_at: self.started_at.clone(),
            finished_at: self.finished_at.clone(),
            status: self.status.clone(),
            trigger_reason: self.trigger_reason.clone(),
            files_copied: self.files_copied,
            files_unchanged: self.files_unchanged,
            files_trashed: self.files_trashed,
            bytes_copied: self.bytes_copied,
            error_message: self.error_message.clone(),
        }
    }
}

#[derive(Debug, PartialEq)]
pub struct BackupDestination {
    pub id: i64,
    pub library_id: i64,
    pub library_name: String,
    pub dest_path: String,
    pub trigger_type: String,
    pub daily_at_hour: Option<u32>,
    pub retention_days: u32,
    pub enabled: bool,
    pub inter_file_delay_ms: u32,
    pub exclude_globs: Vec<String>,
    pub last_run: Option<BackupRun>,
    pub created_at: String,
}

/// Two destinations that agree in everything.
pub open spec fn same_dest(a: BackupDestination, b: BackupDestination) -> bool {
    a == (BackupDestination { exclude_globs: a.exclude_globs, ..b }) && a.exclude_globs@ == b.exclude_globs@
}

impl Clone for BackupDestination {
    fn clone(&self) -> (r: Self)
        ensures
            same_dest(r, *self),
    {
        BackupDestination {
            id: self.id,
            library_id: self.library_id,
            library_name: self.library_name.clone(),
            dest_path: self.dest_path.clone(),
            trigger_type: self.trigger_type.clone(),
            daily_at_hour: self.daily_at_hour,
            retention_days: self.retention_days,
            enabled: self.enabled,
            inter_file_delay_ms: self.inter_file_delay_ms,
            exclude_globs: copy_texts(&self.exclude_globs),
            last_run: self.last_run.clone(),
            created_at: self.created_at.clone(),
        }
    }
}

/// The run in flight.
#[derive(Debug, PartialEq)]
pub struct ActiveBackup {
    pub destination_id: i64,
    pub library_name: Option<String>,
    pub dest_path: Option<String>,
    pub trigger_reason: Option<String>,
    pub started_at: Option<String>,
    pub files_copied: u64,
    pub files_unchanged: u64,
    pub files_trashed: u64,
    pub bytes_copied: u64,
    pub expected_files: Option<u64>,
}

#[derive(Debug, PartialEq)]
pub struct BackupStatus {
    pub active: Option<ActiveBackup>,
    pub queue_length: u64,
}

/// What saving a path would say.
#[derive(Debug, PartialEq)]
pub struct PathCheck {
    pub ok: bool,
    pub errors: Vec<String>,
    pub warnings: Vec<String>,
}

/// A destination to add. Patterns left out follow the server's defaults.
#[derive(Debug, PartialEq)]
pub struct NewBackupDestination {
    pub library_id: i64,
    pub dest_path: String,
    pub trigger_type: String,
    pub daily_at_hour: Option<u32>,
    pub retention_days: u32,
    pub inter_file_delay_ms: u32,
    pub exclude_globs: Option<Vec<String>>,
}

/// What to change of a destination: only what is given.
#[derive(Debug, PartialEq)]
pub struct BackupPatch {
    pub dest_path: Option<String>,
    pub trigger_type: Option<String>,
    pub daily_at_hour: Option<Option<u32>>,
    pub retention_days: Option<u32>,
    pub inter_file_delay_ms: Option<u32>,
    pub exclude_globs: Option<Option<Vec<String>>>,
    pub enabled: Option<bool>,
}

/// What a run request was answered.
#[derive(Debug, PartialEq)]
pub struct RunAnswer {
    pub status: String,
}

/// What a folder dialog was answered.
#[derive(Debug, PartialEq)]
pub enum Pick {
    Folder(String),
    Cancelled,
    Unavailable(String),
}

// ── The form ─────────────────────────────────────────────────────────────

#[derive(Clone, Copy, Debug, PartialEq, Eq, Structural)]
pub enum Trigger {
    AfterScan,
    Daily,
    Manual,
}

/// The server's word for a trigger.
pub open spec fn trigger_word(t: Trigger) -> Seq<char> {
    match t {
        Trigger::AfterScan => "after-scan"@,
        Trigger::Daily => "daily"@,
        Trigger::Manual => "manual"@,
    }
}

/// A trigger by its place in the list.
pub open spec fn trigger_at(i: int) -> Trigger {
    if i <= 0 {
        Trigger::AfterScan
    } else if i == 1 {
        Trigger::Daily
    } else {
        Trigger::Manual
    }
}

/// A trigger's place in the list.
pub open spec fn trigger_index(t: Trigger) -> int {
    match t {
        Trigger::AfterScan => 0,
        Trigger::Daily => 1,
        Trigger::Manual => 2,
    }
}

impl Trigger {
    pub fn as_str(self) -> (s: &'static str)
        ensures
            s@ == trigger_word(self),
    {
        match self {
            Trigger::AfterScan => "after-scan",
            Trigger::Daily => "daily",
            Trigger::Manual => "manual",
        }
    }

    /// The trigger a word names; anything unknown runs after a scan.
    pub fn parse(s: &str) -> (t: Trigger)
        ensures
            t == (if s@ == "daily"@ {
                Trigger::Daily
            } else if s@ == "manual"@ {
                Trigger::Manual
            } else {
                Trigger::AfterScan
            }),
    {
        if same(s, "daily") {
            Trigger::Daily
        } else if same(s, "manual") {
            Trigger::Manual
        } else {
            Trigger::AfterScan
        }
    }

    /// The trigger's name in the form.
    pub fn label(self) -> (key: &'static str)
        ensures
            key == (match self {
                Trigger::AfterScan => "bak.trig_after_scan",
                Trigger::Daily => "bak.trig_daily",
                Trigger::Manual => "bak.trig_manual",
            }),
    {
        match self {
            Trigger::AfterScan => "bak.trig_after_scan",
            Trigger::Daily => "bak.trig_daily",
            Trigger::Manual => "bak.trig_manual",
        }
    }

    /// What the trigger does, in words.
    pub fn description(self) -> (key: &'static str)
        ensures
            key == (match self {
                Trigger::AfterScan => "bak.trig_after_scan_desc",
                Trigger::Daily => "bak.trig_daily_desc",
                Trigger::Manual => "bak.trig_manual_desc",
            }),
    {
        match self {
            Trigger::AfterScan => "bak.trig_after_scan_desc",
            Trigger::Daily => "bak.trig_daily_desc",
            Trigger::Manual => "bak.trig_manual_desc",
        }
    }

    fn place(self) -> (i: usize)
        ensures
            i == trigger_index(self),
            i < 3,
    {
        match self {
            Trigger::AfterScan => 0,
            Trigger::Daily => 1,
            Trigger::Manual => 2,
        }
    }

    fn at(i: usize) -> (t: Trigger)
        ensures
            t == trigger_at(i as int),
    {
        if i == 0 {
            Trigger::AfterScan
        } else if i == 1 {
            Trigger::Daily
        } else {
            Trigger::Manual
        }
    }
}

/// Sending a trigger's word and reading it back gives the trigger.
pub proof fn trigger_words_read_back(t: Trigger)
    ensures
        trigger_word(t) == "daily"@ <==> t == Trigger::Daily,
        trigger_word(t) == "manual"@ <==> t == Trigger::Manual,
        trigger_at(trigger_index(t)) == t,
{
    reveal_strlit("after-scan");
    reveal_strlit("daily");
    reveal_strlit("manual");
    assert("after-scan"@.len() == 10 && "daily"@.len() == 5 && "manual"@.len() == 6);
}

/// One field of the form.
#[derive(Clone, Copy, Debug, PartialEq, Eq, Structural)]
pub enum Field {
    Library,
    Trigger,
    Dest,
    Retention,
    Throttle,
    Hour,
    Excludes,
}

/// The add and edit forms — one shape.
pub struct Form {
    /// The destination being edited; none while adding.
    pub editing: Option<i64>,
    /// Adding: the choice among the room's libraries.
    pub library: usize,
    pub library_name: String,
    pub library_id: i64,
    pub trigger: Trigger,
    pub dest: Input,
    pub retention: Input,
    pub throttle: Input,
    pub hour: Input,
    /// Comma-separated patterns.
    pub excludes: Input,
    /// Editing: the patterns go back to following the defaults.
    pub excludes_reset: bool,
    /// Editing: the row as loaded, to send only what changed.
    pub original: Option<BackupDestination>,
    /// The server's answer for `checked_for`, when it has one.
    pub check: Option<PathCheck>,
    pub checked_for: String,
    /// The focused field's place in [`Form::fields`].
    pub focus: usize,
    pub error: Option<Msg>,
}

/// The patterns of a list as the form shows them.
pub open spec fn patterns_text(globs: Seq<String>) -> Seq<char> {
    join_with(texts(globs), ", "@)
}

/// The form for a new destination.
pub open spec fn is_add_form(f: Form, libraries: Seq<(String, i64)>, defaults: Seq<String>) -> bool {
    &&& f.editing is None
    &&& f.library == 0
    &&& libraries.len() > 0 ==> f.library_name == libraries[0].0 && f.library_id == libraries[0].1
    &&& libraries.len() == 0 ==> f.library_name@ == Seq::<char>::empty() && f.library_id == 0
    &&& f.trigger == Trigger::AfterScan
    &&& is_blank(f.dest)
    &&& holds(f.retention, "30"@)
    &&& holds(f.throttle, "0"@)
    &&& holds(f.hour, "3"@)
    &&& holds(f.excludes, patterns_text(defaults))
    &&& !f.excludes_reset
    &&& f.original is None
    &&& f.check is None
    &&& f.checked_for@ == Seq::<char>::empty()
    &&& f.focus == 0
    &&& f.error is None
}

/// The form for a destination that exists.
pub open spec fn is_edit_form(f: Form, d: BackupDestination) -> bool {
    &&& f.editing == Some(d.id)
    &&& f.library == 0
    &&& f.library_name@ == printed(d.library_name@, 64)
    &&& f.library_id == d.library_id
    &&& f.trigger == (if d.trigger_type@ == "daily"@ {
        Trigger::Daily
    } else if d.trigger_type@ == "manual"@ {
        Trigger::Manual
    } else {
        Trigger::AfterScan
    })
    &&& holds(f.dest, d.dest_path@)
    &&& holds(f.retention, dec(d.retention_days as nat))
    &&& holds(f.throttle, dec(d.inter_file_delay_ms as nat))
    &&& holds(f.hour, dec(if d.daily_at_hour is Some { d.daily_at_hour->0 as nat } else { 3 }))
    &&& holds(f.excludes, patterns_text(d.exclude_globs@))
    &&& !f.excludes_reset
    &&& f.original is Some && same_dest(f.original->0, d)
    &&& f.check is None
    &&& f.checked_for@ == Seq::<char>::empty()
    &&& f.focus == 0
    &&& f.error is None
}

/// The numbers of a form.
pub struct Numbers {
    pub retention: u32,
    pub throttle: u32,
    pub hour: Option<u32>,
}

impl Form {
    /// The fields in Tab order: the library only while adding, the hour only
    /// for a daily trigger.
    pub open spec fn field_list(self) -> Seq<Field> {
        (if self.editing is None { seq![Field::Library] } else { Seq::empty() })
            + seq![Field::Trigger, Field::Dest, Field::Retention, Field::Throttle]
            + (if self.trigger == Trigger::Daily { seq![Field::Hour] } else { Seq::empty() })
            + seq![Field::Excludes]
    }

    /// The field that has the focus.
    pub open spec fn focused_field(self) -> Field {
        self.field_list()[within(self.focus as int, self.field_list().len() as int)]
    }

    /// The line editor of a field that has one.
    pub open spec fn input(self, field: Field) -> Option<Input> {
        match field {
            Field::Dest => Some(self.dest),
            Field::Retention => Some(self.retention),
            Field::Throttle => Some(self.throttle),
            Field::Hour => Some(self.hour),
            Field::Excludes => Some(self.excludes),
            _ => None,
        }
    }

    /// The form with another line in a field.
    pub open spec fn with_input(self, field: Field, input: Input) -> Form {
        match field {
            Field::Dest => Form { dest: input, ..self },
            Field::Retention => Form { retention: input, ..self },
            Field::Throttle => Form { throttle: input, ..self },
            Field::Hour => Form { hour: input, ..self },
            Field::Excludes => Form { excludes: input, ..self },
            _ => self,
        }
    }

    /// The destination path as it would be sent.
    pub open spec fn path(self) -> Seq<char> {
        trimmed(input_value(self.dest))
    }

    /// The patterns as they would be sent: trimmed, empties dropped.
    pub open spec fn patterns(self) -> Seq<Seq<char>> {
        trimmed_parts(split_on(input_value(self.excludes), ','))
    }

    pub open spec fn retention_value(self) -> Option<nat> {
        number_upto(trimmed(input_value(self.retention)), u32::MAX as nat)
    }

    pub open spec fn throttle_value(self) -> Option<nat> {
        number_upto(trimmed(input_value(self.throttle)), MAX_THROTTLE_MS as nat)
    }

    pub open spec fn hour_value(self) -> Option<nat> {
        number_upto(trimmed(input_value(self.hour)), 23)
    }

    /// Which number is wrong, if one is.
    pub open spec fn wrong_number(self) -> Option<&'static str> {
        if self.retention_value() is None {
            Some("bak.err_retention")
        } else if self.throttle_value() is None {
            Some("bak.err_throttle")
        } else if self.trigger == Trigger::Daily && self.hour_value() is None {
            Some("bak.err_hour")
        } else {
            None
        }
    }

    /// The hour as it would be sent.
    pub open spec fn hour_sent(self) -> Option<u32> {
        if self.trigger == Trigger::Daily {
            Some(self.hour_value()->0 as u32)
        } else {
            None
        }
    }

    /// The form for a new destination.
    pub fn add(libraries: &Vec<(String, i64)>, defaults: &Vec<String>) -> (f: Form)
        ensures
            is_add_form(f, libraries@, defaults@),
    {
        let (library_name, library_id): (String, i64) = if libraries.len() > 0 {
            (libraries[0].0.clone(), libraries[0].1)
        } else {
            (String::new(), 0)
        };
        Form {
            editing: None,
            library: 0,
            library_name,
            library_id,
            trigger: Trigger::AfterScan,
            dest: blank(),
            retention: Input::new("30".to_owned()),
            throttle: Input::new("0".to_owned()),
            hour: Input::new("3".to_owned()),
            excludes: Input::new(join(defaults, ", ")),
            excludes_reset: false,
            original: None,
            check: None,
            checked_for: String::new(),
            focus: 0,
            error: None,
        }
    }

    /// The form for a destination that exists.
    pub fn edit(d: &BackupDestination) -> (f: Form)
        ensures
            is_edit_form(f, *d),
    {
        Form {
            editing: Some(d.id),
            library: 0,
            library_name: printable(d.library_name.as_str(), 64),
            library_id: d.library_id,
            trigger: Trigger::parse(d.trigger_type.as_str()),
            dest: Input::new(d.dest_path.clone()),
            retention: Input::new(decimal(d.retention_days as u64)),
            throttle: Input::new(decimal(d.inter_file_delay_ms as u64)),
            hour: Input::new(
                decimal(
                    match d.daily_at_hour {
                        Some(h) => h as u64,
                        None => 3,
                    },
                ),
            ),
            excludes: Input::new(join(&d.exclude_globs, ", ")),
            excludes_reset: false,
            original: Some(d.clone()),
            check: None,
            checked_for: String::new(),
            focus: 0,
            error: None,
        }
    }

    /// The fields in Tab order.
    pub fn fields(&self) -> (out: Vec<Field>)
        ensures
            out@ == self.field_list(),
            out@.len() >= 5,
    {
        let mut out: Vec<Field> = Vec::new();
        if self.editing.is_none() {
            out.push(Field::Library);
        }
        out.push(Field::Trigger);
        out.push(Field::Dest);
        out.push(Field::Retention);
        out.push(Field::Throttle);
        if self.trigger == Trigger::Daily {
            out.push(Field::Hour);
        }
        out.push(Field::Excludes);
        proof {
            assert(out@ =~= self.field_list());
        }
        out
    }

    /// The field that has the focus.
    pub fn focused(&self) -> (field: Field)
        ensures
            field == self.focused_field(),
    {
        let fields = self.fields();
        fields[clamp_row(self.focus, fields.len())]
    }

    /// The patterns as the server takes them: trimmed, empties dropped.
    pub fn globs(&self) -> (out: Vec<String>)
        ensures
            texts(out@) == self.patterns(),
    {
        split_trimmed(self.excludes.value(), ',')
    }

    /// The numbers, or which one is wrong.
    pub fn numbers(&self) -> (r: Result<Numbers, Msg>)
        ensures
            match self.wrong_number() {
                Some(key) => r == Err::<Numbers, Msg>(Msg::Key(key)),
                None => r matches Ok(n) && n.retention == self.retention_value()->0 && n.throttle == self.throttle_value()->0
                    && n.hour == self.hour_sent(),
            },
    {
        let retention = match read_number(trim(self.retention.value()).as_str(), u32::MAX as u64) {
            Some(n) => n as u32,
            None => return Err(Msg::Key("bak.err_retention")),
        };
        let throttle = match read_number(trim(self.throttle.value()).as_str(), MAX_THROTTLE_MS as u64) {
            Some(n) => n as u32,
            None => return Err(Msg::Key("bak.err_throttle")),
        };
        let hour: Option<u32> = if self.trigger == Trigger::Daily {
            match read_number(trim(self.hour.value()).as_str(), 23) {
                Some(n) => Some(n as u32),
                None => return Err(Msg::Key("bak.err_hour")),
            }
        } else {
            None
        };
        Ok(Numbers { retention, throttle, hour })
    }

    /// Hands a key to a field's line editor; whether the text changed.
    fn type_into(&mut self, field: Field, key: Key) -> (changed: bool)
        ensures
            match old(self).input(field) {
                Some(i) => final(self).input(field) is Some && after_key(i, key, final(self).input(field)->0, changed)
                    && *final(self) == old(self).with_input(field, final(self).input(field)->0),
                None => *final(self) == *old(self) && !changed,
            },
    {
        match field {
            Field::Dest => edit(&mut self.dest, key),
            Field::Retention => edit(&mut self.retention, key),
            Field::Throttle => edit(&mut self.throttle, key),
            Field::Hour => edit(&mut self.hour, key),
            Field::Excludes => edit(&mut self.excludes, key),
            _ => false,
        }
    }

    /// How many characters a field holds.
    fn length_of(&self, field: Field) -> (n: usize)
        ensures
            n == (match self.input(field) {
                Some(i) => input_value(i).len(),
                None => 0,
            }),
    {
        match field {
            Field::Dest => self.dest.value().unicode_len(),
            Field::Retention => self.retention.value().unicode_len(),
            Field::Throttle => self.throttle.value().unicode_len(),
            Field::Hour => self.hour.value().unicode_len(),
            Field::Excludes => self.excludes.value().unicode_len(),
            _ => 0,
        }
    }
}

// ── The room ─────────────────────────────────────────────────────────────

pub enum Modal {
    Closed,
    Form(Box<Form>),
    /// The server's folder browser, opened from the form's destination field;
    /// the form waits underneath.
    Browser { browse: Browse, form: Box<Form> },
    History { dest: Box<BackupDestination>, runs: Vec<BackupRun>, loaded: bool, sel: usize },
    Remove(i64),
}

/// Everything a click can mean.
#[derive(Clone, Copy, Debug, PartialEq)]
pub enum Act {
    Add,
    Select(usize),
    OpenHistory(i64),
    RunNow(i64),
    Edit(i64),
    ToggleEnabled(i64),
    Remove(i64),
    RemoveConfirm,
    RemoveCancel,
    FormFocus(usize),
    /// A choice by click: the field's place and the option.
    FormPick(usize, usize),
    FormBrowse,
    FormResetExcludes,
    FormSubmit,
    FormCancel,
    BrowseRow(usize),
    BrowseEnter,
    BrowseUp,
    BrowseChoose,
    BrowseCancel,
    HistoryPick(usize),
    HistoryClose,
    TableScroll(i8),
    TableScrollTo(usize),
    Quit,
}

/// What a patch was for.
#[derive(Clone, Copy, Debug, PartialEq, Eq, Structural)]
pub enum Did {
    Saved,
    Enabled(bool),
}

/// A call to the server, with everything it needs.
#[derive(Debug, PartialEq)]
pub enum Op {
    /// The destinations, the live status, and the libraries.
    Load,
    /// The server's default patterns.
    Platform,
    Check { library_id: i64, dest: String, exclude_dest_id: Option<i64> },
    Add(NewBackupDestination),
    Patch { id: i64, patch: BackupPatch, what: Did },
    Remove(i64),
    Run(i64),
    History(i64),
    PickNative,
    Browse(String),
}

/// What a load comes back as. The libraries are best-effort.
#[derive(Debug, PartialEq)]
pub struct Loaded {
    pub dests: Vec<BackupDestination>,
    pub status: BackupStatus,
    pub libraries: Option<Vec<(String, i64)>>,
}

/// What a call comes back as. A refused check and a failed listing bring the
/// error's words.
#[allow(inconsistent_fields)]
pub enum Done {
    Loaded(Result<Loaded, ApiError>),
    Platform(Result<Vec<String>, ApiError>),
    Checked { dest: String, result: Result<PathCheck, String> },
    Added(Result<(), ApiError>),
    Patched { id: i64, what: Did, result: Result<(), ApiError> },
    Removed(Result<(), ApiError>),
    Ran(Result<RunAnswer, ApiError>),
    History { id: i64, result: Result<Vec<BackupRun>, ApiError> },
    Picked(Pick),
    Browsed(Result<DirListing, String>),
}

pub struct Room {
    /// The terminal shares the server's disk: the system's folder dialog picks
    /// the destination.
    pub same_machine: bool,
    pub dests: Vec<BackupDestination>,
    /// The first load has answered.
    pub loaded: bool,
    pub status: BackupStatus,
    /// The libraries, for the add form.
    pub libraries: Vec<(String, i64)>,
    /// The server's default patterns.
    pub defaults: Vec<String>,
    /// The cursor, once there is one.
    pub sel: Option<usize>,
    pub modal: Modal,
    pub note: Option<Note>,
    pub busy: Option<Msg>,
    pub queued: Option<Op>,
    pub in_flight: bool,
    /// A path check that was asked for while another call ran.
    pub pending_check: Option<Op>,
    pub tscroll: usize,
    pub sel_anchor: Option<usize>,
    /// When the list was last asked for, in milliseconds.
    pub last_load: Option<u64>,
}

/// The place of the first destination with an id.
pub open spec fn find(dests: Seq<BackupDestination>, id: i64) -> Option<int>
    decreases dests.len(),
{
    if dests.len() == 0 {
        None
    } else {
        match find(dests.drop_last(), id) {
            Some(i) => Some(i),
            None => if dests.last().id == id {
                Some(dests.len() - 1)
            } else {
                None
            },
        }
    }
}

/// A destination that is found is in the list, with the id asked for.
pub proof fn found_is_there(dests: Seq<BackupDestination>, id: i64)
    ensures
        find(dests, id) matches Some(i) ==> 0 <= i < dests.len() && dests[i].id == id,
    decreases dests.len(),
{
    if dests.len() > 0 {
        found_is_there(dests.drop_last(), id);
    }
}

impl Room {
    /// The room with a call queued and its busy line.
    pub open spec fn calling(self, op: Op, busy: Msg) -> Room {
        Room { queued: Some(op), busy: Some(busy), ..self }
    }

    /// The room with a message on the status line.
    pub open spec fn saying(self, note: Option<Note>) -> Room {
        Room { note, ..self }
    }

    /// The destination an id names.
    pub open spec fn dest_of(self, id: i64) -> Option<BackupDestination> {
        match find(self.dests@, id) {
            Some(i) => Some(self.dests@[i]),
            None => None,
        }
    }

    /// The destination under the cursor.
    pub open spec fn cursor_dest(self) -> Option<BackupDestination> {
        match self.sel {
            Some(s) => if s < self.dests@.len() {
                Some(self.dests@[s as int])
            } else {
                None
            },
            None => None,
        }
    }

    pub fn new(same_machine: bool) -> (room: Room)
        ensures
            room.same_machine == same_machine,
            room.dests@.len() == 0,
            !room.loaded,
            room.status == (BackupStatus { active: None, queue_length: 0 }),
            room.libraries@.len() == 0,
            room.defaults@.len() == 0,
            room.sel is None,
            room.modal is Closed,
            room.note == remark(Msg::Key("bak.beta_note")),
            room.busy is None,
            room.queued is None,
            !room.in_flight,
            room.pending_check is None,
            room.tscroll == 0,
            room.sel_anchor is None,
            room.last_load is None,
    {
        Room {
            same_machine,
            dests: Vec::new(),
            loaded: false,
            status: BackupStatus { active: None, queue_length: 0 },
            libraries: Vec::new(),
            defaults: Vec::new(),
            sel: None,
            modal: Modal::Closed,
            note: Some(Note { msg: Msg::Key("bak.beta_note"), error: false }),
            busy: None,
            queued: None,
            in_flight: false,
            pending_check: None,
            tscroll: 0,
            sel_anchor: None,
            last_load: None,
        }
    }

    fn queue(&mut self, op: Op, busy: Msg)
        ensures
            *final(self) == old(self).calling(op, busy),
    {
        self.queued = Some(op);
        self.busy = Some(busy);
    }

    /// Asks for the list again, with a busy line or quietly.
    pub fn reload(&mut self, loud: bool)
        ensures
            *final(self) == (if loud {
                old(self).calling(Op::Load, Msg::Key("bak.busy_loading"))
            } else {
                Room { queued: Some(Op::Load), ..*old(self) }
            }),
    {
        if loud {
            self.queue(Op::Load, Msg::Key("bak.busy_loading"));
        } else {
            self.queued = Some(Op::Load);
        }
    }

    /// The place of the destination an id names.
    fn position(&self, id: i64) -> (r: Option<usize>)
        ensures
            match find(self.dests@, id) {
                Some(i) => r is Some && r->0 == i && 0 <= i < self.dests@.len(),
                None => r is None,
            },
    {
        let mut i: usize = 0;
        while i < self.dests.len()
            invariant
                i <= self.dests@.len(),
                find(self.dests@.take(i as int), id) is None,
            decreases self.dests@.len() - i,
        {
            proof {
                assert(self.dests@.take(i + 1).drop_last() =~= self.dests@.take(i as int));
            }
            if self.dests[i].id == id {
                proof {
                    found_early(self.dests@, id, i + 1);
                }
                return Some(i);
            }
            i += 1;
        }
        proof {
            assert(self.dests@.take(i as int) =~= self.dests@);
        }
        None
    }

    /// The destination an id names.
    pub fn dest(&self, id: i64) -> (r: Option<&BackupDestination>)
        ensures
            match self.dest_of(id) {
                Some(d) => r == Some(&d),
                None => r is None,
            },
    {
        match self.position(id) {
            Some(i) => Some(&self.dests[i]),
            None => None,
        }
    }

    /// The destination under the cursor.
    pub fn selected(&self) -> (r: Option<&BackupDestination>)
        ensures
            match self.cursor_dest() {
                Some(d) => r == Some(&d),
                None => r is None,
            },
    {
        match self.sel {
            Some(s) => if s < self.dests.len() {
                Some(&self.dests[s])
            } else {
                None
            },
            None => None,
        }
    }

    /// The destination that a run is in flight for.
    pub fn running_id(&self) -> (r: Option<i64>)
        ensures
            r == (match self.status.active {
                Some(a) => Some(a.destination_id),
                None => None,
            }),
    {
        match &self.status.active {
            Some(a) => Some(a.destination_id),
            None => None,
        }
    }
}

/// What is found in a part of the list is found in the list.
proof fn found_early(dests: Seq<BackupDestination>, id: i64, n: int)
    requires
        0 <= n <= dests.len(),
        find(dests.take(n), id) is Some,
    ensures
        find(dests, id) == find(dests.take(n), id),
    decreases dests.len() - n,
{
    if n < dests.len() {
        assert(dests.take(n + 1).drop_last() =~= dests.take(n));
        found_early(dests, id, n + 1);
    } else {
        assert(dests.take(n) =~= dests);
    }
}

// ── What input does ──────────────────────────────────────────────────────

/// The check that a form's path asks for.
pub open spec fn is_check(op: Op, f: Form) -> bool {
    op matches Op::Check { library_id, dest, exclude_dest_id } && library_id == f.library_id && dest@ == f.path()
        && exclude_dest_id == f.editing
}

/// Whether a form has a path to check.
pub open spec fn checkable(f: Form) -> bool {
    f.path().len() > 0 && f.library_id != 0
}

/// The queues after a form's path was asked about: a check on its way at once,
/// or kept for when the running call has answered. Only the newest is kept.
pub open spec fn asks(pre: Room, f: Form, post: Room) -> bool {
    if !checkable(f) {
        post.queued == pre.queued && post.pending_check == pre.pending_check
    } else if pre.in_flight {
        post.queued == pre.queued && post.pending_check is Some && is_check(post.pending_check->0, f)
    } else {
        post.pending_check == pre.pending_check && post.queued is Some && is_check(post.queued->0, f)
    }
}

/// A room that differs from another in its modal and its queues alone.
pub open spec fn only_modal_and_queues(pre: Room, post: Room) -> bool {
    post == (Room { modal: post.modal, queued: post.queued, pending_check: post.pending_check, ..pre })
}

/// A room with another form in its modal, and nothing else changed.
pub open spec fn only_form(pre: Room, post: Room) -> bool {
    post == (Room { modal: post.modal, ..pre }) && post.modal is Form
}

/// What asking about the form's path makes of the room: a blank path forgets
/// what the server said.
pub open spec fn path_asked(pre: Room, post: Room) -> bool {
    match pre.modal {
        Modal::Form(f) => {
            &&& only_modal_and_queues(pre, post)
            &&& asks(pre, *f, post)
            &&& post.modal matches Modal::Form(g) && if checkable(*f) {
                g == f
            } else {
                *g == (Form { check: None, checked_for: g.checked_for, ..*f }) && g.checked_for@ == Seq::<char>::empty()
            }
        },
        _ => post == pre,
    }
}

/// What choosing an option of a field makes of the room.
pub open spec fn option_picked(pre: Room, field: Field, option: usize, post: Room) -> bool {
    match pre.modal {
        Modal::Form(f) => match field {
            Field::Library => if pre.libraries@.len() == 0 {
                post == pre
            } else {
                let i = within(option as int, pre.libraries@.len() as int);
                let chosen = Form {
                    library: i as usize,
                    library_name: pre.libraries@[i].0,
                    library_id: pre.libraries@[i].1,
                    check: None,
                    ..*f
                };
                &&& only_modal_and_queues(pre, post)
                &&& asks(pre, chosen, post)
                &&& post.modal matches Modal::Form(g) && if checkable(chosen) {
                    *g == chosen
                } else {
                    *g == (Form { checked_for: g.checked_for, ..chosen }) && g.checked_for@ == Seq::<char>::empty()
                }
            },
            Field::Trigger => only_form(pre, post) && *(post.modal->Form_0) == (Form {
                trigger: trigger_at(option as int),
                ..*f
            }),
            _ => post == pre,
        },
        _ => post == pre,
    }
}

/// What browsing for the destination makes of the room: the system's dialog
/// where the terminal shares the server's disk, the server's browser at the
/// typed path or at home otherwise.
pub open spec fn browse_started(pre: Room, post: Room) -> bool {
    match pre.modal {
        Modal::Form(f) => if pre.same_machine {
            post == pre.calling(Op::PickNative, Msg::Key("admin.busy_picker"))
        } else {
            &&& post == (Room { queued: post.queued, busy: Some(Msg::Key("busy.listing")), ..pre })
            &&& post.queued matches Some(Op::Browse(p)) && p@ == (if f.path().len() > 0 { f.path() } else { "~"@ })
        },
        _ => post == pre,
    }
}

impl Room {
    /// Asks the server what saving the form's path would say — quietly, and
    /// only the newest ask counts.
    fn check_path(&mut self)
        ensures
            path_asked(*old(self), *final(self)),
    {
        let in_flight = self.in_flight;
        let mut ask: Option<Op> = None;
        if let Modal::Form(f) = &mut self.modal {
            let dest = trim(f.dest.value());
            if dest.as_str().is_empty() || f.library_id == 0 {
                f.check = None;
                f.checked_for = String::new();
            } else {
                ask = Some(Op::Check { library_id: f.library_id, dest, exclude_dest_id: f.editing });
            }
        }
        if ask.is_some() {
            if in_flight {
                self.pending_check = ask;
            } else {
                self.queued = ask;
            }
        }
    }

    /// Chooses an option of a radio field.
    fn pick_option(&mut self, field: Field, option: usize)
        ensures
            option_picked(*old(self), field, option, *final(self)),
    {
        if let Field::Library = field {
            if self.libraries.len() == 0 {
                return;
            }
            let i: usize = clamp_row(option, self.libraries.len());
            let name = self.libraries[i].0.clone();
            let id: i64 = self.libraries[i].1;
            let mut on_form = false;
            if let Modal::Form(f) = &mut self.modal {
                f.library = i;
                f.library_name = name;
                f.library_id = id;
                f.check = None;
                on_form = true;
            }
            if on_form {
                self.check_path();
            }
        } else if let Field::Trigger = field {
            if let Modal::Form(f) = &mut self.modal {
                f.trigger = Trigger::at(option);
            }
        }
    }

    /// Browses for the destination.
    fn start_browse(&mut self)
        ensures
            browse_started(*old(self), *final(self)),
    {
        let start: Option<String> = match &self.modal {
            Modal::Form(f) => {
                let typed = trim(f.dest.value());
                if typed.as_str().is_empty() {
                    Some("~".to_owned())
                } else {
                    Some(typed)
                }
            },
            _ => None,
        };
        if let Some(path) = start {
            if self.same_machine {
                self.queue(Op::PickNative, Msg::Key("admin.busy_picker"));
            } else {
                self.queue(Op::Browse(path), Msg::Key("busy.listing"));
            }
        }
    }
}

/// Why a form is refused before the server sees it.
pub enum Refusal {
    /// By this sentence.
    Says(Msg),
    /// By what the server said of this very path.
    Server(Seq<char>),
}

/// The refusals that need no server, the first that applies.
pub open spec fn refusal(f: Form) -> Option<Refusal> {
    if f.path().len() == 0 {
        Some(Refusal::Says(Msg::Key("bak.err_dest")))
    } else if f.wrong_number() is Some {
        Some(Refusal::Says(Msg::Key(f.wrong_number()->0)))
    } else if f.patterns().len() > MAX_GLOBS {
        Some(Refusal::Says(one("bak.err_globs", "max", Arg::Num(MAX_GLOBS as i64))))
    } else if f.check is Some && f.checked_for@ == f.path() && f.check->0.errors@.len() > 0 {
        Some(Refusal::Server(join_with(texts(f.check->0.errors@), " · "@)))
    } else {
        None
    }
}

/// The destination that a form adds. Untouched patterns are left out, so that
/// the row keeps following the server's defaults.
pub open spec fn is_added(n: NewBackupDestination, f: Form, defaults: Seq<String>) -> bool {
    &&& n.library_id == f.library_id
    &&& n.dest_path@ == f.path()
    &&& n.trigger_type@ == trigger_word(f.trigger)
    &&& n.daily_at_hour == f.hour_sent()
    &&& n.retention_days == f.retention_value()->0
    &&& n.inter_file_delay_ms == f.throttle_value()->0
    &&& if f.patterns() == texts(defaults) {
        n.exclude_globs is None
    } else {
        n.exclude_globs matches Some(v) && texts(v@) == f.patterns()
    }
}

/// The patch that a form sends for the row it was opened on: only what
/// changed, the patterns as nothing where they were put back to the defaults.
pub open spec fn is_patch(p: BackupPatch, f: Form, orig: BackupDestination) -> bool {
    &&& is_text(p.dest_path, if f.path() != orig.dest_path@ { Some(f.path()) } else { None })
    &&& is_text(
        p.trigger_type,
        if trigger_word(f.trigger) != orig.trigger_type@ { Some(trigger_word(f.trigger)) } else { None },
    )
    &&& p.daily_at_hour == (if f.hour_sent() != orig.daily_at_hour && (f.trigger == Trigger::Daily
        || orig.daily_at_hour is Some) {
        Some(f.hour_sent())
    } else {
        None
    })
    &&& p.retention_days == (if f.retention_value()->0 != orig.retention_days {
        Some(f.retention_value()->0 as u32)
    } else {
        None
    })
    &&& p.inter_file_delay_ms == (if f.throttle_value()->0 != orig.inter_file_delay_ms {
        Some(f.throttle_value()->0 as u32)
    } else {
        None
    })
    &&& if f.excludes_reset {
        p.exclude_globs == Some(None::<Vec<String>>)
    } else if f.patterns() != texts(orig.exclude_globs@) {
        p.exclude_globs matches Some(Some(v)) && texts(v@) == f.patterns()
    } else {
        p.exclude_globs is None
    }
    &&& p.enabled is None
}

/// A patch that changes nothing.
pub open spec fn changes_nothing(p: BackupPatch) -> bool {
    p.dest_path is None && p.trigger_type is None && p.daily_at_hour is None && p.retention_days is None
        && p.inter_file_delay_ms is None && p.exclude_globs is None && p.enabled is None
}

/// Whether a form is as its row was loaded.
pub open spec fn unchanged(f: Form, orig: BackupDestination) -> bool {
    &&& f.path() == orig.dest_path@
    &&& trigger_word(f.trigger) == orig.trigger_type@
    &&& f.hour_sent() == orig.daily_at_hour
    &&& f.retention_value()->0 == orig.retention_days
    &&& f.throttle_value()->0 == orig.inter_file_delay_ms
    &&& !f.excludes_reset
    &&& f.patterns() == texts(orig.exclude_globs@)
}

/// What submitting the form makes of the room: a refusal stays on the form and
/// sends nothing; a new destination is added; of one that exists only what
/// changed is sent, and where nothing did the form just closes.
pub open spec fn submitted(pre: Room, post: Room) -> bool {
    match pre.modal {
        Modal::Form(f) => match refusal(*f) {
            Some(why) => {
                &&& only_form(pre, post)
                &&& *(post.modal->Form_0) == (Form { error: post.modal->Form_0.error, ..*f })
                &&& match why {
                    Refusal::Says(msg) => post.modal->Form_0.error == Some(msg),
                    Refusal::Server(words) => post.modal->Form_0.error matches Some(Msg::Raw(s)) && s@ == words,
                }
            },
            None => match f.original {
                None => {
                    &&& post == (Room {
                        modal: post.modal,
                        queued: post.queued,
                        busy: Some(Msg::Key("bak.busy_adding")),
                        ..pre
                    })
                    &&& post.modal matches Modal::Form(g) && *g == (Form { error: None, ..*f })
                    &&& post.queued matches Some(Op::Add(n)) && is_added(n, *f, pre.defaults@)
                },
                Some(orig) => if unchanged(*f, orig) {
                    post == (Room { modal: Modal::Closed, ..pre })
                } else {
                    &&& post == (Room {
                        modal: post.modal,
                        queued: post.queued,
                        busy: Some(Msg::Key("bak.busy_saving")),
                        ..pre
                    })
                    &&& post.modal matches Modal::Form(g) && *g == (Form { error: None, ..*f })
                    &&& post.queued matches Some(Op::Patch { id, patch, what }) && id == orig.id && what == Did::Saved
                        && is_patch(patch, *f, orig)
                },
            },
        },
        _ => post == pre,
    }
}

/// The patch for a row, from the form's values.
fn make_patch(f: &Form, orig: &BackupDestination, dest: String, n: &Numbers, globs: Vec<String>) -> (p: BackupPatch)
    requires
        dest@ == f.path(),
        f.wrong_number() is None,
        n.retention == f.retention_value()->0,
        n.throttle == f.throttle_value()->0,
        n.hour == f.hour_sent(),
        texts(globs@) == f.patterns(),
    ensures
        is_patch(p, *f, *orig),
        changes_nothing(p) <==> unchanged(*f, *orig),
{
    let word = f.trigger.as_str();
    BackupPatch {
        dest_path: if !same(dest.as_str(), orig.dest_path.as_str()) { Some(dest) } else { None },
        trigger_type: if !same(word, orig.trigger_type.as_str()) { Some(word.to_owned()) } else { None },
        daily_at_hour: if n.hour != orig.daily_at_hour && (f.trigger == Trigger::Daily || orig.daily_at_hour.is_some()) {
            Some(n.hour)
        } else {
            None
        },
        retention_days: if n.retention != orig.retention_days { Some(n.retention) } else { None },
        inter_file_delay_ms: if n.throttle != orig.inter_file_delay_ms { Some(n.throttle) } else { None },
        exclude_globs: if f.excludes_reset {
            Some(None)
        } else if !same_texts(&globs, &orig.exclude_globs) {
            Some(Some(globs))
        } else {
            None
        },
        enabled: None,
    }
}

fn patch_is_empty(p: &BackupPatch) -> (r: bool)
    ensures
        r == changes_nothing(*p),
{
    p.dest_path.is_none() && p.trigger_type.is_none() && p.daily_at_hour.is_none() && p.retention_days.is_none()
        && p.inter_file_delay_ms.is_none() && p.exclude_globs.is_none() && p.enabled.is_none()
}

/// The refusal of a form, as the form shows it.
fn refuse(f: &Form) -> (r: Option<Msg>)
    ensures
        match refusal(*f) {
            Some(Refusal::Says(msg)) => r == Some(msg),
            Some(Refusal::Server(words)) => r matches Some(Msg::Raw(s)) && s@ == words,
            None => r is None,
        },
{
    let dest = trim(f.dest.value());
    if dest.as_str().is_empty() {
        return Some(Msg::Key("bak.err_dest"));
    }
    if let Err(msg) = f.numbers() {
        return Some(msg);
    }
    let globs = f.globs();
    proof {
        assert(texts(globs@).len() == globs@.len());
    }
    if globs.len() > MAX_GLOBS {
        return Some(Msg::One("bak.err_globs", Fill { name: "max", arg: Arg::Num(MAX_GLOBS as i64) }));
    }
    if let Some(check) = &f.check {
        if same(f.checked_for.as_str(), dest.as_str()) && check.errors.len() > 0 {
            return Some(Msg::Raw(join(&check.errors, " · ")));
        }
    }
    None
}

impl Room {
    /// Sends the form — after the refusals that need no server.
    fn submit_form(&mut self)
        ensures
            submitted(*old(self), *final(self)),
    {
        let mut call: Option<(Op, Msg)> = None;
        let mut close = false;
        if let Modal::Form(f) = &mut self.modal {
            if let Some(why) = refuse(f) {
                f.error = Some(why);
                return;
            }
            let dest = trim(f.dest.value());
            let globs = f.globs();
            if let Ok(n) = f.numbers() {
                match &f.original {
                    None => {
                        let exclude_globs = if same_texts(&globs, &self.defaults) { None } else { Some(globs) };
                        let new = NewBackupDestination {
                            library_id: f.library_id,
                            dest_path: dest,
                            trigger_type: f.trigger.as_str().to_owned(),
                            daily_at_hour: n.hour,
                            retention_days: n.retention,
                            inter_file_delay_ms: n.throttle,
                            exclude_globs,
                        };
                        call = Some((Op::Add(new), Msg::Key("bak.busy_adding")));
                    },
                    Some(orig) => {
                        let patch = make_patch(f, orig, dest, &n, globs);
                        if patch_is_empty(&patch) {
                            close = true;
                        } else {
                            call = Some((Op::Patch { id: orig.id, patch, what: Did::Saved }, Msg::Key("bak.busy_saving")));
                        }
                    },
                }
            }
            f.error = None;
        }
        if close {
            self.modal = Modal::Closed;
        }
        if let Some((op, busy)) = call {
            self.queue(op, busy);
        }
    }
}

/// A browser at another row.
pub open spec fn browsing(browse: Browse, sel: int, form: Box<Form>) -> Modal {
    Modal::Browser { browse: Browse { sel: sel as usize, ..browse }, form }
}

/// What an action makes of the room, and whether it ends it.
pub open spec fn acted(pre: Room, act: Act, post: Room, out: Option<Outcome>) -> bool {
    &&& out == (if act == Act::Quit { Some(Outcome::Quit) } else { None })
    &&& match act {
        Act::Add => if pre.libraries@.len() == 0 {
            post == pre.saying(error(Msg::Key("bak.no_libraries")))
        } else {
            only_form(pre, post) && is_add_form(*(post.modal->Form_0), pre.libraries@, pre.defaults@)
        },
        Act::Select(i) => post == (if i < pre.dests@.len() { Room { sel: Some(i), ..pre } } else { pre }),
        Act::OpenHistory(id) => match pre.dest_of(id) {
            Some(d) => {
                &&& post == (Room {
                    modal: post.modal,
                    queued: Some(Op::History(id)),
                    busy: Some(Msg::Key("bak.busy_history")),
                    ..pre
                })
                &&& post.modal matches Modal::History { dest, runs, loaded, sel } && same_dest(*dest, d) && runs@.len() == 0
                    && !loaded && sel == 0
            },
            None => post == pre,
        },
        Act::RunNow(id) => match pre.dest_of(id) {
            Some(d) => if !d.enabled {
                post == pre.saying(error(Msg::Key("bak.run_disabled")))
            } else {
                &&& post == (Room { queued: Some(Op::Run(id)), busy: post.busy, ..pre })
                &&& post.busy matches Some(msg) && says(msg, "bak.busy_run", "name", printed(d.library_name@, 64))
            },
            None => post == pre,
        },
        Act::Edit(id) => match pre.dest_of(id) {
            Some(d) => {
                &&& only_modal_and_queues(pre, post)
                &&& post.modal matches Modal::Form(f) && is_edit_form(*f, d) && asks(pre, *f, post)
            },
            None => post == pre,
        },
        Act::ToggleEnabled(id) => match pre.dest_of(id) {
            Some(d) => post == pre.calling(
                Op::Patch {
                    id,
                    patch: BackupPatch {
                        dest_path: None,
                        trigger_type: None,
                        daily_at_hour: None,
                        retention_days: None,
                        inter_file_delay_ms: None,
                        exclude_globs: None,
                        enabled: Some(!d.enabled),
                    },
                    what: Did::Enabled(!d.enabled),
                },
                Msg::Key("bak.busy_saving"),
            ),
            None => post == pre,
        },
        Act::Remove(id) => post == (if pre.dest_of(id) is Some { Room { modal: Modal::Remove(id), ..pre } } else { pre }),
        Act::RemoveConfirm => match pre.modal {
            Modal::Remove(id) => post == (Room { modal: Modal::Closed, ..pre }).calling(
                Op::Remove(id),
                Msg::Key("bak.busy_removing"),
            ),
            _ => post == pre,
        },
        Act::RemoveCancel | Act::FormCancel | Act::HistoryClose => post == (Room { modal: Modal::Closed, ..pre }),
        Act::FormFocus(i) => match pre.modal {
            Modal::Form(f) => only_form(pre, post) && *(post.modal->Form_0) == (Form {
                focus: within(i as int, f.field_list().len() as int) as usize,
                ..*f
            }),
            _ => post == pre,
        },
        Act::FormPick(at, option) => match pre.modal {
            Modal::Form(f) => if at < f.field_list().len() {
                option_picked(
                    Room { modal: Modal::Form(Box::new(Form { focus: at, ..*f })), ..pre },
                    f.field_list()[at as int],
                    option,
                    post,
                )
            } else {
                post == pre
            },
            _ => post == pre,
        },
        Act::FormBrowse => browse_started(pre, post),
        Act::FormResetExcludes => match pre.modal {
            Modal::Form(f) => {
                &&& only_form(pre, post)
                &&& *(post.modal->Form_0) == (Form {
                    excludes: post.modal->Form_0.excludes,
                    excludes_reset: f.editing is Some,
                    error: None,
                    ..*f
                })
                &&& holds(post.modal->Form_0.excludes, patterns_text(pre.defaults@))
            },
            _ => post == pre,
        },
        Act::FormSubmit => submitted(pre, post),
        Act::BrowseRow(i) => match pre.modal {
            Modal::Browser { browse, form } => post == (Room {
                modal: browsing(browse, within(i as int, browse.dirs@.len() as int), form),
                ..pre
            }),
            _ => post == pre,
        },
        Act::BrowseEnter => match pre.modal {
            Modal::Browser { browse, form } => if browse.sel < browse.dirs@.len() {
                &&& post == (Room { queued: post.queued, busy: Some(Msg::Key("busy.listing")), ..pre })
                &&& post.queued matches Some(Op::Browse(p)) && p@ == below(
                    browse.path@,
                    browse.dirs@[browse.sel as int]@,
                )
            } else {
                post == pre
            },
            _ => post == pre,
        },
        Act::BrowseUp => match pre.modal {
            Modal::Browser { browse, form } => match above(browse.path@) {
                Some(up) => {
                    &&& post == (Room { queued: post.queued, busy: Some(Msg::Key("busy.listing")), ..pre })
                    &&& post.queued matches Some(Op::Browse(p)) && p@ == up
                },
                None => post == pre,
            },
            _ => post == pre,
        },
        Act::BrowseChoose => match pre.modal {
            Modal::Browser { browse, form } => {
                &&& only_modal_and_queues(pre, post)
                &&& post.modal matches Modal::Form(f) && holds(f.dest, browse.path@) && asks(pre, *f, post) && if checkable(
                    *f,
                ) {
                    *f == (Form { dest: f.dest, ..*form })
                } else {
                    *f == (Form { dest: f.dest, check: None, checked_for: f.checked_for, ..*form }) && f.checked_for@
                        == Seq::<char>::empty()
                }
            },
            _ => post == pre,
        },
        Act::BrowseCancel => match pre.modal {
            Modal::Browser { browse, form } => post == (Room { modal: Modal::Form(form), ..pre }),
            _ => post == pre,
        },
        Act::HistoryPick(i) => match pre.modal {
            Modal::History { dest, runs, loaded, sel } => post == (Room {
                modal: Modal::History { dest, runs, loaded, sel: within(i as int, runs@.len() as int) as usize },
                ..pre
            }),
            _ => post == pre,
        },
        Act::TableScroll(delta) => post == (Room { tscroll: scrolled(pre.tscroll, delta < 0), ..pre }),
        Act::TableScrollTo(pos) => post == (Room { tscroll: pos, ..pre }),
        Act::Quit => post == pre,
    }
}

impl Room {
    /// The modal, taken out of the room.
    fn take_modal(&mut self) -> (m: Modal)
        ensures
            m == old(self).modal,
            *final(self) == (Room { modal: Modal::Closed, ..*old(self) }),
    {
        let mut m = Modal::Closed;
        std::mem::swap(&mut self.modal, &mut m);
        m
    }

    /// The actions of the form.
    fn act_on_form(&mut self, act: Act)
        requires
            act is FormFocus || act is FormPick || act is FormBrowse || act is FormResetExcludes || act is FormSubmit,
        ensures
            acted(*old(self), act, *final(self), None),
    {
        match act {
            Act::FormFocus(i) => {
                if let Modal::Form(f) = &mut self.modal {
                    let n: usize = f.fields().len();
                    f.focus = clamp_row(i, n);
                }
            },
            Act::FormPick(at, option) => {
                let mut field: Option<Field> = None;
                if let Modal::Form(f) = &mut self.modal {
                    let fields = f.fields();
                    if at < fields.len() {
                        f.focus = at;
                        field = Some(fields[at]);
                    }
                }
                if let Some(field) = field {
                    self.pick_option(field, option);
                }
            },
            Act::FormBrowse => self.start_browse(),
            Act::FormResetExcludes => {
                if let Modal::Form(f) = &mut self.modal {
                    f.excludes = Input::new(join(&self.defaults, ", "));
                    f.excludes_reset = f.editing.is_some();
                    f.error = None;
                }
            },
            Act::FormSubmit => self.submit_form(),
            _ => {},
        }
    }

    /// The actions of the folder browser.
    fn act_in_browser(&mut self, act: Act)
        requires
            act is BrowseRow || act is BrowseEnter || act is BrowseUp || act is BrowseChoose || act is BrowseCancel,
        ensures
            acted(*old(self), act, *final(self), None),
    {
        match act {
            Act::BrowseRow(i) => {
                if let Modal::Browser { browse, form } = &mut self.modal {
                    browse.sel = clamp_row(i, browse.dirs.len());
                }
            },
            Act::BrowseEnter => {
                let mut to: Option<String> = None;
                if let Modal::Browser { browse, form } = &self.modal {
                    if browse.sel < browse.dirs.len() {
                        to = Some(join_server_path(browse.path.as_str(), browse.dirs[browse.sel].as_str()));
                    }
                }
                if let Some(to) = to {
                    self.queue(Op::Browse(to), Msg::Key("busy.listing"));
                }
            },
            Act::BrowseUp => {
                let mut to: Option<String> = None;
                if let Modal::Browser { browse, form } = &self.modal {
                    to = parent_server_path(browse.path.as_str());
                }
                if let Some(to) = to {
                    self.queue(Op::Browse(to), Msg::Key("busy.listing"));
                }
            },
            Act::BrowseChoose => {
                match self.take_modal() {
                    Modal::Browser { browse, form } => {
                        let mut form = form;
                        form.dest = Input::new(browse.path);
                        self.modal = Modal::Form(form);
                        self.check_path();
                    },
                    other => {
                        self.modal = other;
                    },
                }
            },
            Act::BrowseCancel => {
                match self.take_modal() {
                    Modal::Browser { browse, form } => {
                        self.modal = Modal::Form(form);
                    },
                    other => {
                        self.modal = other;
                    },
                }
            },
            _ => {},
        }
    }

    /// A click, or the action behind a key.
    pub fn act(&mut self, act: Act) -> (out: Option<Outcome>)
        ensures
            acted(*old(self), act, *final(self), out),
    {
        match act {
            Act::Add => {
                if self.libraries.len() == 0 {
                    self.note = Some(Note { msg: Msg::Key("bak.no_libraries"), error: true });
                } else {
                    let form = Form::add(&self.libraries, &self.defaults);
                    self.modal = Modal::Form(Box::new(form));
                }
            },
            Act::Select(i) => {
                if i < self.dests.len() {
                    self.sel = Some(i);
                }
            },
            Act::OpenHistory(id) => {
                if let Some(i) = self.position(id) {
                    let dest = self.dests[i].clone();
                    self.modal = Modal::History { dest: Box::new(dest), runs: Vec::new(), loaded: false, sel: 0 };
                    self.queue(Op::History(id), Msg::Key("bak.busy_history"));
                }
            },
            Act::RunNow(id) => {
                if let Some(i) = self.position(id) {
                    if !self.dests[i].enabled {
                        self.note = Some(Note { msg: Msg::Key("bak.run_disabled"), error: true });
                    } else {
                        let name = printable(self.dests[i].library_name.as_str(), 64);
                        self.queue(Op::Run(id), Msg::One("bak.busy_run", Fill { name: "name", arg: Arg::Text(name) }));
                    }
                }
            },
            Act::Edit(id) => {
                if let Some(i) = self.position(id) {
                    let form = Form::edit(&self.dests[i]);
                    self.modal = Modal::Form(Box::new(form));
                    self.check_path();
                }
            },
            Act::ToggleEnabled(id) => {
                if let Some(i) = self.position(id) {
                    let on = !self.dests[i].enabled;
                    let patch = BackupPatch {
                        dest_path: None,
                        trigger_type: None,
                        daily_at_hour: None,
                        retention_days: None,
                        inter_file_delay_ms: None,
                        exclude_globs: None,
                        enabled: Some(on),
                    };
                    self.queue(Op::Patch { id, patch, what: Did::Enabled(on) }, Msg::Key("bak.busy_saving"));
                }
            },
            Act::Remove(id) => {
                if self.position(id).is_some() {
                    self.modal = Modal::Remove(id);
                }
            },
            Act::RemoveConfirm => {
                if let Modal::Remove(id) = &self.modal {
                    let id: i64 = *id;
                    self.modal = Modal::Closed;
                    self.queue(Op::Remove(id), Msg::Key("bak.busy_removing"));
                }
            },
            Act::RemoveCancel | Act::FormCancel | Act::HistoryClose => {
                self.modal = Modal::Closed;
            },
            Act::FormFocus(_) | Act::FormPick(_, _) | Act::FormBrowse | Act::FormResetExcludes | Act::FormSubmit => {
                self.act_on_form(act);
            },
            Act::BrowseRow(_) | Act::BrowseEnter | Act::BrowseUp | Act::BrowseChoose | Act::BrowseCancel => {
                self.act_in_browser(act);
            },
            Act::HistoryPick(i) => {
                if let Modal::History { dest, runs, loaded, sel } = &mut self.modal {
                    *sel = clamp_row(i, runs.len());
                }
            },
            Act::TableScroll(delta) => {
                self.tscroll = scroll(self.tscroll, delta < 0);
            },
            Act::TableScrollTo(pos) => {
                self.tscroll = pos;
            },
            Act::Quit => return Some(Outcome::Quit),
        }
        None
    }
}

// ── What an answer does ──────────────────────────────────────────────────

/// The room once a call has answered, before the answer is looked at: a check
/// that waited is up next.
pub open spec fn settled(pre: Room) -> Room {
    Room {
        in_flight: false,
        busy: None,
        queued: if pre.pending_check is Some { pre.pending_check } else { pre.queued },
        pending_check: None,
        ..pre
    }
}

/// What an answer makes of the settled room.
pub open spec fn applied(m: Room, done: Done, post: Room) -> bool {
    match done {
        Done::Loaded(Ok(l)) => post == (Room {
            loaded: true,
            dests: l.dests,
            status: l.status,
            libraries: match l.libraries {
                Some(libs) => libs,
                None => m.libraries,
            },
            sel: kept(m.sel, l.dests@.len() as int),
            ..m
        }),
        Done::Loaded(Err(e)) => post == m.saying(error(crate::msg::gate(e, "bak.load_failed"))),
        Done::Platform(Ok(d)) => {
            &&& post == (Room {
                modal: post.modal,
                defaults: d,
                queued: if m.loaded { m.queued } else { Some(Op::Load) },
                busy: if m.loaded { m.busy } else { Some(Msg::Key("bak.busy_loading")) },
                ..m
            })
            &&& match m.modal {
                Modal::Form(f) => if f.editing is None && input_value(f.excludes) == patterns_text(m.defaults@) {
                    post.modal matches Modal::Form(g) && *g == (Form { excludes: g.excludes, ..*f }) && holds(
                        g.excludes,
                        patterns_text(d@),
                    )
                } else {
                    post.modal == m.modal
                },
                _ => post.modal == m.modal,
            }
        },
        Done::Platform(Err(_)) => post == (if m.loaded {
            m
        } else {
            m.calling(Op::Load, Msg::Key("bak.busy_loading"))
        }),
        Done::Checked { dest, result } => match m.modal {
            Modal::Form(f) => if f.path() == dest@ {
                &&& only_form(m, post)
                &&& *(post.modal->Form_0) == (Form { check: post.modal->Form_0.check, checked_for: dest, ..*f })
                &&& match result {
                    Ok(check) => post.modal->Form_0.check == Some(check),
                    Err(words) => post.modal->Form_0.check matches Some(c) && !c.ok && c.errors@ == seq![words]
                        && c.warnings@.len() == 0,
                }
            } else {
                post == m
            },
            _ => post == m,
        },
        Done::Added(Ok(_)) => post == (Room {
            modal: Modal::Closed,
            note: remark(Msg::Key("bak.done_added")),
            queued: Some(Op::Load),
            ..m
        }),
        Done::Added(Err(e)) => failed(m, "bak.fail_add", e, true, post),
        Done::Patched { id, what, result } => match result {
            Ok(_) => match what {
                Did::Saved => post == (Room {
                    modal: Modal::Closed,
                    note: remark(Msg::Key("bak.done_saved")),
                    queued: Some(Op::Load),
                    ..m
                }),
                Did::Enabled(on) => {
                    &&& post == (Room {
                        dests: post.dests,
                        note: remark(Msg::Key(if on { "bak.done_on" } else { "bak.done_off" })),
                        queued: Some(Op::Load),
                        ..m
                    })
                    &&& post.dests@ == (match find(m.dests@, id) {
                        Some(i) => m.dests@.update(i, BackupDestination { enabled: on, ..m.dests@[i] }),
                        None => m.dests@,
                    })
                },
            },
            Err(e) => match what {
                Did::Saved => failed(m, "bak.fail_save", e, true, post),
                Did::Enabled(_) => failed(m, "bak.fail_toggle", e, false, post),
            },
        },
        Done::Removed(Ok(_)) => post == (Room {
            note: remark(Msg::Key("bak.done_removed")),
            queued: Some(Op::Load),
            ..m
        }),
        Done::Removed(Err(e)) => failed(m, "bak.fail_remove", e, false, post),
        Done::Ran(Ok(answer)) => post == (Room {
            note: if answer.status@ == "skipped"@ {
                error(Msg::Key("bak.run_skipped"))
            } else {
                remark(Msg::Key("bak.run_started"))
            },
            queued: Some(Op::Load),
            ..m
        }),
        Done::Ran(Err(e)) => failed(m, "bak.fail_run", e, false, post),
        Done::History { id, result } => match m.modal {
            Modal::History { dest, runs, loaded, sel } => if dest.id == id {
                match result {
                    Ok(list) => post == (Room { modal: Modal::History { dest, runs: list, loaded: true, sel }, ..m }),
                    Err(e) => post == (Room { modal: Modal::History { dest, runs, loaded: true, sel }, ..m }).saying(
                        error(Msg::Failed("bak.fail_history", e)),
                    ),
                }
            } else {
                post == m
            },
            _ => post == m,
        },
        Done::Picked(Pick::Folder(path)) => match m.modal {
            Modal::Form(form) => {
                &&& only_modal_and_queues(m, post)
                &&& post.modal matches Modal::Form(f) && holds(f.dest, path@) && asks(m, *f, post) && if checkable(*f) {
                    *f == (Form { dest: f.dest, ..*form })
                } else {
                    *f == (Form { dest: f.dest, check: None, checked_for: f.checked_for, ..*form }) && f.checked_for@
                        == Seq::<char>::empty()
                }
            },
            _ => post == m,
        },
        Done::Picked(Pick::Cancelled) => post == m,
        Done::Picked(Pick::Unavailable(why)) => {
            &&& post == (Room {
                note: remark(one("note.no_picker", "why", Arg::Text(why))),
                queued: post.queued,
                busy: Some(Msg::Key("busy.listing")),
                ..m
            })
            &&& post.queued matches Some(Op::Browse(p)) && p@ == "~"@
        },
        Done::Browsed(Ok(listing)) => {
            let browse = Browse { path: listing.path, dirs: listing.directories, sel: 0 };
            match m.modal {
                Modal::Form(form) => post == (Room { modal: Modal::Browser { browse, form }, ..m }),
                Modal::Browser { browse: _, form } => post == (Room { modal: Modal::Browser { browse, form }, ..m }),
                _ => post == m,
            }
        },
        Done::Browsed(Err(words)) => post == m.saying(error(one("note.browse_failed", "err", Arg::Text(words)))),
    }
}

/// A failed call: on the form, where the form is what it was for and is still
/// open, on the status line otherwise.
pub open spec fn failed(m: Room, what: &'static str, e: ApiError, of_form: bool, post: Room) -> bool {
    match m.modal {
        Modal::Form(f) => if of_form {
            only_form(m, post) && *(post.modal->Form_0) == (Form { error: Some(Msg::Failed(what, e)), ..*f })
        } else {
            post == m.saying(error(Msg::Failed(what, e)))
        },
        _ => post == m.saying(error(Msg::Failed(what, e))),
    }
}

impl Room {
    fn fail(&mut self, what: &'static str, e: ApiError)
        ensures
            *final(self) == old(self).saying(error(Msg::Failed(what, e))),
    {
        self.note = Some(Note { msg: Msg::Failed(what, e), error: true });
    }

    fn fail_form(&mut self, what: &'static str, e: ApiError)
        ensures
            failed(*old(self), what, e, true, *final(self)),
    {
        if let Modal::Form(f) = &mut self.modal {
            f.error = Some(Msg::Failed(what, e));
        } else {
            self.fail(what, e);
        }
    }

    /// A folder that was picked goes into the form.
    fn take_folder(&mut self, path: String)
        ensures
            applied(*old(self), Done::Picked(Pick::Folder(path)), *final(self)),
    {
        let mut on_form = false;
        if let Modal::Form(f) = &mut self.modal {
            f.dest = Input::new(path);
            on_form = true;
        }
        if on_form {
            self.check_path();
        }
    }

    /// The server's default patterns arrived: a form opened before them, and
    /// not typed into, gets them now.
    fn take_defaults(&mut self, defaults: Vec<String>)
        ensures
            applied(*old(self), Done::Platform(Ok(defaults)), *final(self)),
    {
        let ours = join(&self.defaults, ", ");
        if let Modal::Form(f) = &mut self.modal {
            if f.editing.is_none() && same(f.excludes.value(), ours.as_str()) {
                f.excludes = Input::new(join(&defaults, ", "));
            }
        }
        self.defaults = defaults;
        if !self.loaded {
            self.reload(true);
        }
    }

    /// A listing opens the browser, or moves it.
    fn take_listing(&mut self, listing: DirListing)
        ensures
            applied(*old(self), Done::Browsed(Ok(listing)), *final(self)),
    {
        let browse = Browse { path: listing.path, dirs: listing.directories, sel: 0 };
        match self.take_modal() {
            Modal::Form(form) => {
                self.modal = Modal::Browser { browse, form };
            },
            Modal::Browser { browse: _, form } => {
                self.modal = Modal::Browser { browse, form };
            },
            other => {
                self.modal = other;
            },
        }
    }

    /// What the server said of a path, where it is still the form's path.
    fn take_check(&mut self, dest: String, result: Result<PathCheck, String>)
        ensures
            applied(*old(self), Done::Checked { dest, result }, *final(self)),
    {
        if let Modal::Form(f) = &mut self.modal {
            let typed = trim(f.dest.value());
            if same(typed.as_str(), dest.as_str()) {
                f.check = Some(
                    match result {
                        Ok(check) => check,
                        Err(words) => {
                            let mut errors: Vec<String> = Vec::new();
                            errors.push(words);
                            PathCheck { ok: false, errors, warnings: Vec::new() }
                        },
                    },
                );
                f.checked_for = dest;
            }
        }
    }

    /// The runs of a destination, where its history is still open.
    fn take_history(&mut self, id: i64, result: Result<Vec<BackupRun>, ApiError>)
        ensures
            applied(*old(self), Done::History { id, result }, *final(self)),
    {
        let mut failure: Option<ApiError> = None;
        if let Modal::History { dest, runs, loaded, sel } = &mut self.modal {
            if dest.id == id {
                *loaded = true;
                match result {
                    Ok(list) => {
                        *runs = list;
                    },
                    Err(e) => {
                        failure = Some(e);
                    },
                }
            }
        }
        if let Some(e) = failure {
            self.fail("bak.fail_history", e);
        }
    }

    /// A saved patch, or a row switched on or off.
    fn take_patched(&mut self, id: i64, what: Did, result: Result<(), ApiError>)
        ensures
            applied(*old(self), Done::Patched { id, what, result }, *final(self)),
    {
        match result {
            Ok(_) => {
                match what {
                    Did::Saved => {
                        self.modal = Modal::Closed;
                        self.note = Some(Note { msg: Msg::Key("bak.done_saved"), error: false });
                    },
                    Did::Enabled(on) => {
                        if let Some(i) = self.position(id) {
                            self.dests[i].enabled = on;
                        }
                        self.note = Some(Note { msg: Msg::Key(if on { "bak.done_on" } else { "bak.done_off" }), error: false });
                    },
                }
                self.reload(false);
            },
            Err(e) => {
                match what {
                    Did::Saved => self.fail_form("bak.fail_save", e),
                    Did::Enabled(_) => self.fail("bak.fail_toggle", e),
                }
            },
        }
    }

    /// Folds one answer back into the state.
    pub fn apply(&mut self, done: Done)
        ensures
            applied(settled(*old(self)), done, *final(self)),
    {
        self.in_flight = false;
        self.busy = None;
        let waiting = self.pending_check.take();
        if waiting.is_some() {
            self.queued = waiting;
        }
        match done {
            Done::Loaded(Ok(l)) => {
                self.loaded = true;
                self.sel = keep_cursor(self.sel, l.dests.len());
                self.dests = l.dests;
                self.status = l.status;
                if let Some(libs) = l.libraries {
                    self.libraries = libs;
                }
            },
            Done::Loaded(Err(e)) => {
                self.note = Some(Note { msg: crate::msg::gate_message(e, "bak.load_failed"), error: true });
            },
            Done::Platform(Ok(d)) => self.take_defaults(d),
            Done::Platform(Err(_)) => {
                if !self.loaded {
                    self.reload(true);
                }
            },
            Done::Checked { dest, result } => self.take_check(dest, result),
            Done::Added(Ok(_)) => {
                self.modal = Modal::Closed;
                self.note = Some(Note { msg: Msg::Key("bak.done_added"), error: false });
                self.reload(false);
            },
            Done::Added(Err(e)) => self.fail_form("bak.fail_add", e),
            Done::Patched { id, what, result } => self.take_patched(id, what, result),
            Done::Removed(Ok(_)) => {
                self.note = Some(Note { msg: Msg::Key("bak.done_removed"), error: false });
                self.reload(false);
            },
            Done::Removed(Err(e)) => self.fail("bak.fail_remove", e),
            Done::Ran(Ok(answer)) => {
                self.note = if same(answer.status.as_str(), "skipped") {
                    Some(Note { msg: Msg::Key("bak.run_skipped"), error: true })
                } else {
                    Some(Note { msg: Msg::Key("bak.run_started"), error: false })
                };
                self.reload(false);
            },
            Done::Ran(Err(e)) => self.fail("bak.fail_run", e),
            Done::History { id, result } => self.take_history(id, result),
            Done::Picked(Pick::Folder(path)) => self.take_folder(path),
            Done::Picked(Pick::Cancelled) => {},
            Done::Picked(Pick::Unavailable(why)) => {
                self.note = Some(Note { msg: Msg::One("note.no_picker", Fill { name: "why", arg: Arg::Text(why) }), error: false });
                self.queue(Op::Browse("~".to_owned()), Msg::Key("busy.listing"));
            },
            Done::Browsed(Ok(listing)) => self.take_listing(listing),
            Done::Browsed(Err(words)) => {
                self.note = Some(
                    Note { msg: Msg::One("note.browse_failed", Fill { name: "err", arg: Arg::Text(words) }), error: true },
                );
            },
        }
    }

    /// Hands out the queued call, while none is running; a check that comes up
    /// meanwhile waits for its turn. `now` is in milliseconds.
    pub fn dispatch_queued(&mut self, now: u64) -> (op: Option<Op>)
        ensures
            old(self).in_flight ==> op is None && *final(self) == (match old(self).queued {
                Some(Op::Check { library_id, dest, exclude_dest_id }) => Room {
                    pending_check: old(self).queued,
                    queued: None,
                    ..*old(self)
                },
                _ => *old(self),
            }),
            !old(self).in_flight ==> op == old(self).queued && *final(self) == (match old(self).queued {
                Some(called) => Room {
                    queued: None,
                    in_flight: true,
                    last_load: if called is Load { Some(now) } else { old(self).last_load },
                    ..*old(self)
                },
                None => *old(self),
            }),
            op is Some <==> !old(self).in_flight && old(self).queued is Some,
            op is Some ==> op == old(self).queued && final(self).in_flight && final(self).queued is None,
    {
        if self.in_flight {
            let check = match &self.queued {
                Some(Op::Check { .. }) => true,
                _ => false,
            };
            if check {
                self.pending_check = self.queued.take();
            }
            return None;
        }
        let op = self.queued.take();
        if let Some(called) = &op {
            self.in_flight = true;
            if let Op::Load = called {
                self.last_load = Some(now);
            }
        }
        op
    }

    /// A call could not be handed to the worker.
    pub fn send_failed(&mut self)
        ensures
            *final(self) == (Room { in_flight: false, note: error(Msg::Key("note.worker_gone")), ..*old(self) }),
    {
        self.in_flight = false;
        self.note = Some(Note { msg: Msg::Key("note.worker_gone"), error: true });
    }

    /// The worker is gone.
    pub fn worker_gone(&mut self)
        ensures
            *final(self) == old(self).saying(error(Msg::Key("note.worker_gone"))),
    {
        self.note = Some(Note { msg: Msg::Key("note.worker_gone"), error: true });
    }

    /// How long between two polls.
    pub open spec fn cadence(self) -> u64 {
        if self.status.active is Some || self.status.queue_length > 0 { POLL_ACTIVE } else { POLL_IDLE }
    }

    /// Whether the list is due to be asked for again.
    pub open spec fn due(self, now: u64) -> bool {
        &&& self.loaded
        &&& !self.in_flight
        &&& self.queued is None
        &&& self.last_load matches Some(t) ==> now - t >= self.cadence()
    }

    /// The poll, quiet: never on top of a call already queued or running.
    pub fn tick(&mut self, now: u64)
        ensures
            *final(self) == (if old(self).due(now) { Room { queued: Some(Op::Load), ..*old(self) } } else { *old(self) }),
    {
        let every: u64 = if self.status.active.is_some() || self.status.queue_length > 0 { POLL_ACTIVE } else { POLL_IDLE };
        let late = match self.last_load {
            Some(t) => now >= t && now - t >= every,
            None => true,
        };
        if self.loaded && !self.in_flight && self.queued.is_none() && late {
            self.reload(false);
        }
    }

    /// The wheel scrolls the table, while no modal covers it.
    pub fn wheel(&mut self, up: bool)
        ensures
            *final(self) == (if old(self).modal is Closed {
                Room { tscroll: scrolled(old(self).tscroll, up), ..*old(self) }
            } else {
                *old(self)
            }),
    {
        if let Modal::Closed = self.modal {
            self.tscroll = scroll(self.tscroll, up);
        }
    }
}

/// The room, loading: the server's defaults first, then the list.
pub fn start(same_machine: bool) -> (room: Room)
    ensures
        room.queued == Some(Op::Platform),
        room.busy == Some(Msg::Key("bak.busy_loading")),
        room.same_machine == same_machine,
        room.dests@.len() == 0 && !room.loaded && room.libraries@.len() == 0 && room.defaults@.len() == 0,
        room.sel is None && room.modal is Closed && !room.in_flight && room.pending_check is None,
        room.note == remark(Msg::Key("bak.beta_note")),
        room.status == (BackupStatus { active: None, queue_length: 0 }),
        room.tscroll == 0 && room.sel_anchor is None && room.last_load is None,
{
    let mut room = Room::new(same_machine);
    room.queue(Op::Platform, Msg::Key("bak.busy_loading"));
    room
}

// ── Keys ─────────────────────────────────────────────────────────────────

/// A field that takes a number.
pub open spec fn numeric(field: Field) -> bool {
    field == Field::Retention || field == Field::Throttle || field == Field::Hour
}

/// How many characters may be typed into a field.
pub open spec fn capacity(field: Field) -> int {
    if numeric(field) { 6 } else { 4096 }
}

/// Whether a field turns a character away: digits alone in the numbers, no
/// control characters elsewhere, nothing once it is full.
pub open spec fn turned_away(f: Form, field: Field, c: char) -> bool {
    ||| numeric(field) && !is_digit(c)
    ||| !numeric(field) && control(c)
    ||| f.input(field) is Some && input_value(f.input(field)->0).len() >= capacity(field)
}

/// The form after a change of a field's text: its error is gone, and typed
/// patterns are no longer the defaults.
pub open spec fn retyped(f: Form, field: Field, input: Input) -> Form {
    Form {
        error: None,
        excludes_reset: f.excludes_reset && field != Field::Excludes,
        ..f.with_input(field, input)
    }
}

/// What typing into the focused field makes of the room.
pub open spec fn typed_in(pre: Room, f: Form, key: Key, post: Room) -> bool {
    let field = f.focused_field();
    if f.input(field) is None || (key.code matches Code::Char(c) && turned_away(f, field, c)) {
        post == pre
    } else {
        let changed = key_changes(f.input(field)->0, key);
        &&& post.modal is Form
        &&& {
            let input = post.modal->Form_0.input(field)->0;
            let form = if changed { retyped(f, field, input) } else { f.with_input(field, input) };
            let room = Room { modal: Modal::Form(Box::new(form)), ..pre };
            &&& after_key(f.input(field)->0, key, input, changed)
            &&& if changed && field == Field::Dest { path_asked(room, post) } else { post == room }
        }
    }
}

/// What a key makes of a room with its form open.
pub open spec fn form_keyed(pre: Room, f: Form, key: Key, post: Room, out: Option<Outcome>) -> bool {
    let n = f.field_list().len() as int;
    let field = f.focused_field();
    let radio = field == Field::Library || field == Field::Trigger;
    let count = if field == Field::Library { pre.libraries@.len() as int } else { 3 };
    let current = if field == Field::Library { f.library as int } else { trigger_index(f.trigger) };
    match key.code {
        Code::Esc => acted(pre, Act::FormCancel, post, out),
        Code::Enter => acted(pre, Act::FormSubmit, post, out),
        Code::Tab | Code::Down => out is None && only_form(pre, post) && *(post.modal->Form_0) == (Form {
            focus: after(f.focus as int, n) as usize,
            ..f
        }),
        Code::BackTab | Code::Up => out is None && only_form(pre, post) && *(post.modal->Form_0) == (Form {
            focus: before(f.focus as int, n) as usize,
            ..f
        }),
        Code::Left | Code::Right => out is None && if !radio {
            typed_in(pre, f, key, post)
        } else if count == 0 {
            post == pre
        } else if key.code == Code::Left {
            option_picked(pre, field, before(current, count) as usize, post)
        } else {
            option_picked(pre, field, after(current, count) as usize, post)
        },
        Code::Char(c) => if c == 'b' && key.ctrl {
            acted(pre, Act::FormBrowse, post, out)
        } else if c == 'p' && key.ctrl {
            acted(pre, Act::FormResetExcludes, post, out)
        } else if c == ' ' && radio {
            out is None && if count == 0 {
                post == pre
            } else {
                option_picked(pre, field, after(current, count) as usize, post)
            }
        } else {
            out is None && typed_in(pre, f, key, post)
        },
        _ => out is None && typed_in(pre, f, key, post),
    }
}

/// An action on the destination under the cursor, if there is one.
pub open spec fn on_cursor(pre: Room, act: spec_fn(i64) -> Act, post: Room, out: Option<Outcome>) -> bool {
    match pre.cursor_dest() {
        Some(d) => acted(pre, act(d.id), post, out),
        None => post == pre && out is None,
    }
}

/// What a key makes of a room with no modal.
pub open spec fn table_keyed(pre: Room, key: Key, post: Room, out: Option<Outcome>) -> bool {
    let n = pre.dests@.len() as int;
    match key.code {
        Code::Up => out is None && post == (if n > 0 { Room { sel: row_up(pre.sel, n), ..pre } } else { pre }),
        Code::Down => out is None && post == (if n > 0 { Room { sel: row_down(pre.sel, n), ..pre } } else { pre }),
        Code::Esc => if pre.sel is Some {
            out is None && post == (Room { sel: None, ..pre })
        } else {
            acted(pre, Act::Quit, post, out)
        },
        Code::Enter => on_cursor(pre, |id: i64| Act::OpenHistory(id), post, out),
        Code::Delete => on_cursor(pre, |id: i64| Act::Remove(id), post, out),
        Code::Char(c) => if c == 'h' {
            on_cursor(pre, |id: i64| Act::OpenHistory(id), post, out)
        } else if c == 'n' {
            on_cursor(pre, |id: i64| Act::RunNow(id), post, out)
        } else if c == 'e' {
            on_cursor(pre, |id: i64| Act::Edit(id), post, out)
        } else if c == 's' || c == ' ' {
            on_cursor(pre, |id: i64| Act::ToggleEnabled(id), post, out)
        } else if c == 'r' {
            on_cursor(pre, |id: i64| Act::Remove(id), post, out)
        } else if c == 'a' {
            acted(pre, Act::Add, post, out)
        } else if c == 'q' {
            acted(pre, Act::Quit, post, out)
        } else {
            post == pre && out is None
        },
        _ => post == pre && out is None,
    }
}

/// What a key makes of the room, and whether it ends it.
pub open spec fn keyed(pre: Room, key: Key, post: Room, out: Option<Outcome>) -> bool {
    match pre.modal {
        Modal::Closed => table_keyed(pre, key, post, out),
        Modal::Form(f) => form_keyed(pre, *f, key, post, out),
        Modal::Browser { browse, form } => match key.code {
            Code::Esc => acted(pre, Act::BrowseCancel, post, out),
            Code::Up => out is None && post == (Room {
                modal: browsing(browse, if browse.sel > 0 { browse.sel - 1 } else { 0 }, form),
                ..pre
            }),
            Code::Down => out is None && post == (Room {
                modal: browsing(browse, within(browse.sel + 1, browse.dirs@.len() as int), form),
                ..pre
            }),
            Code::Enter | Code::Right => acted(pre, Act::BrowseEnter, post, out),
            Code::Left | Code::Backspace => acted(pre, Act::BrowseUp, post, out),
            Code::Char(c) => if c == 'a' {
                acted(pre, Act::BrowseChoose, post, out)
            } else {
                post == pre && out is None
            },
            _ => post == pre && out is None,
        },
        Modal::History { dest, runs, loaded, sel } => match key.code {
            Code::Esc | Code::Enter => acted(pre, Act::HistoryClose, post, out),
            Code::Up => out is None && post == (Room {
                modal: Modal::History { dest, runs, loaded, sel: if sel > 0 { (sel - 1) as usize } else { 0 } },
                ..pre
            }),
            Code::Down => out is None && post == (Room {
                modal: Modal::History { dest, runs, loaded, sel: within(sel + 1, runs@.len() as int) as usize },
                ..pre
            }),
            _ => post == pre && out is None,
        },
        Modal::Remove(_) => match key.code {
            Code::Esc | Code::Enter => acted(pre, Act::RemoveCancel, post, out),
            Code::Char(c) => if c == 'y' {
                acted(pre, Act::RemoveConfirm, post, out)
            } else if c == 'n' {
                acted(pre, Act::RemoveCancel, post, out)
            } else {
                post == pre && out is None
            },
            _ => post == pre && out is None,
        },
    }
}

/// Whether a field turns a character away.
fn turns_away(f: &Form, field: Field, c: char) -> (r: bool)
    ensures
        r == turned_away(*f, field, c),
{
    let number = match field {
        Field::Retention | Field::Throttle | Field::Hour => true,
        _ => false,
    };
    let lines = match field {
        Field::Library | Field::Trigger => false,
        _ => true,
    };
    let allowed = if number { '0' <= c && c <= '9' } else { !is_control(c) };
    let max: usize = if number { 6 } else { 4096 };
    !allowed || (lines && f.length_of(field) >= max)
}

/// The line below the one at `sel` of `n`.
fn below_row(sel: usize, n: usize) -> (r: usize)
    ensures
        r == within(sel + 1, n as int),
{
    if n > 0 && sel < n - 1 {
        sel + 1
    } else if n > 0 {
        n - 1
    } else {
        0
    }
}

fn form_type(room: &mut Room, key: Key)
    requires
        old(room).modal is Form,
    ensures
        typed_in(*old(room), *(old(room).modal->Form_0), key, *final(room)),
{
    let mut ask = false;
    if let Modal::Form(f) = &mut room.modal {
        let field = f.focused();
        match field {
            Field::Library | Field::Trigger => return,
            _ => {},
        }
        if let Code::Char(c) = key.code {
            if turns_away(f, field, c) {
                return;
            }
        }
        let changed = f.type_into(field, key);
        if changed {
            f.error = None;
            if let Field::Excludes = field {
                f.excludes_reset = false;
            }
            if let Field::Dest = field {
                ask = true;
            }
        }
    }
    if ask {
        room.check_path();
    }
}

fn form_step(room: &mut Room, field: Field, forward: bool)
    requires
        old(room).modal is Form,
        field == old(room).modal->Form_0.focused_field(),
        field == Field::Library || field == Field::Trigger,
    ensures
        ({
            let f = *(old(room).modal->Form_0);
            let count = if field == Field::Library { old(room).libraries@.len() as int } else { 3 };
            let current = if field == Field::Library { f.library as int } else { trigger_index(f.trigger) };
            if count == 0 {
                *final(room) == *old(room)
            } else {
                option_picked(
                    *old(room),
                    field,
                    (if forward { after(current, count) } else { before(current, count) }) as usize,
                    *final(room),
                )
            }
        }),
{
    let library = match field {
        Field::Library => true,
        _ => false,
    };
    let count: usize = if library { room.libraries.len() } else { 3 };
    if count == 0 {
        return;
    }
    let mut current: usize = 0;
    if let Modal::Form(f) = &room.modal {
        current = if library { f.library } else { f.trigger.place() };
    }
    let next: usize = if forward { next_choice(current, count) } else { previous_choice(current, count) };
    room.pick_option(field, next);
}

fn form_key(room: &mut Room, key: Key) -> (out: Option<Outcome>)
    requires
        old(room).modal is Form,
    ensures
        form_keyed(*old(room), *(old(room).modal->Form_0), key, *final(room), out),
{
    let mut field = Field::Dest;
    if let Modal::Form(f) = &room.modal {
        field = f.focused();
    }
    let radio = match field {
        Field::Library | Field::Trigger => true,
        _ => false,
    };
    match key.code {
        Code::Esc => room.act(Act::FormCancel),
        Code::Enter => room.act(Act::FormSubmit),
        Code::Tab | Code::Down => {
            if let Modal::Form(f) = &mut room.modal {
                let n: usize = f.fields().len();
                f.focus = next_choice(f.focus, n);
            }
            None
        },
        Code::BackTab | Code::Up => {
            if let Modal::Form(f) = &mut room.modal {
                let n: usize = f.fields().len();
                f.focus = previous_choice(f.focus, n);
            }
            None
        },
        Code::Left => {
            if radio {
                form_step(room, field, false);
            } else {
                form_type(room, key);
            }
            None
        },
        Code::Right => {
            if radio {
                form_step(room, field, true);
            } else {
                form_type(room, key);
            }
            None
        },
        Code::Char(c) => {
            if c == 'b' && key.ctrl {
                room.act(Act::FormBrowse)
            } else if c == 'p' && key.ctrl {
                room.act(Act::FormResetExcludes)
            } else if c == ' ' && radio {
                form_step(room, field, true);
                None
            } else {
                form_type(room, key);
                None
            }
        },
        _ => {
            form_type(room, key);
            None
        },
    }
}

fn table_key(room: &mut Room, key: Key) -> (out: Option<Outcome>)
    ensures
        table_keyed(*old(room), key, *final(room), out),
{
    let n: usize = room.dests.len();
    let id: Option<i64> = match room.selected() {
        Some(d) => Some(d.id),
        None => None,
    };
    match key.code {
        Code::Up => {
            if n > 0 {
                room.sel = cursor_up(room.sel, n);
            }
            None
        },
        Code::Down => {
            if n > 0 {
                room.sel = cursor_down(room.sel, n);
            }
            None
        },
        Code::Esc => {
            if room.sel.is_some() {
                room.sel = None;
                None
            } else {
                room.act(Act::Quit)
            }
        },
        Code::Enter => match id {
            Some(id) => room.act(Act::OpenHistory(id)),
            None => None,
        },
        Code::Delete => match id {
            Some(id) => room.act(Act::Remove(id)),
            None => None,
        },
        Code::Char(c) => {
            if c == 'a' {
                return room.act(Act::Add);
            }
            if c == 'q' {
                return room.act(Act::Quit);
            }
            match id {
                Some(id) => {
                    if c == 'h' {
                        room.act(Act::OpenHistory(id))
                    } else if c == 'n' {
                        room.act(Act::RunNow(id))
                    } else if c == 'e' {
                        room.act(Act::Edit(id))
                    } else if c == 's' || c == ' ' {
                        room.act(Act::ToggleEnabled(id))
                    } else if c == 'r' {
                        room.act(Act::Remove(id))
                    } else {
                        None
                    }
                },
                None => None,
            }
        },
        _ => None,
    }
}

/// A key press.
pub fn handle_key(room: &mut Room, key: Key) -> (out: Option<Outcome>)
    ensures
        keyed(*old(room), key, *final(room), out),
{
    match &mut room.modal {
        Modal::Closed => table_key(room, key),
        Modal::Form(_) => form_key(room, key),
        Modal::Browser { browse, form } => match key.code {
            Code::Esc => room.act(Act::BrowseCancel),
            Code::Up => {
                browse.sel = if browse.sel > 0 { browse.sel - 1 } else { 0 };
                None
            },
            Code::Down => {
                browse.sel = below_row(browse.sel, browse.dirs.len());
                None
            },
            Code::Enter | Code::Right => room.act(Act::BrowseEnter),
            Code::Left | Code::Backspace => room.act(Act::BrowseUp),
            Code::Char(c) => if c == 'a' {
                room.act(Act::BrowseChoose)
            } else {
                None
            },
            _ => None,
        },
        Modal::History { dest, runs, loaded, sel } => match key.code {
            Code::Esc | Code::Enter => room.act(Act::HistoryClose),
            Code::Up => {
                *sel = if *sel > 0 { *sel - 1 } else { 0 };
                None
            },
            Code::Down => {
                *sel = below_row(*sel, runs.len());
                None
            },
            _ => None,
        },
        Modal::Remove(_) => match key.code {
            Code::Esc | Code::Enter => room.act(Act::RemoveCancel),
            Code::Char(c) => if c == 'y' {
                room.act(Act::RemoveConfirm)
            } else if c == 'n' {
                room.act(Act::RemoveCancel)
            } else {
                None
            },
            _ => None,
        },
    }
}

// ── Laws ─────────────────────────────────────────────────────────────────

/// Enter and Esc are the safe choice on the warning: they close it, and the queue
/// stays as it was.
pub proof fn the_gate_is_safe_on_enter(pre: Room, key: Key, post: Room, out: Option<Outcome>)
    requires
        pre.modal is Remove,
        key.code == Code::Enter || key.code == Code::Esc,
        keyed(pre, key, post, out),
    ensures
        post == (Room { modal: Modal::Closed, ..pre }),
        out is None,
{
}

/// A removal is queued only from the warning, for the destination that the warning
/// names, and only by `y`.
pub proof fn removal_needs_the_gate(pre: Room, key: Key, post: Room, out: Option<Outcome>, id: i64)
    requires
        keyed(pre, key, post, out),
        post.queued == Some(Op::Remove(id)),
        pre.queued != post.queued,
    ensures
        pre.modal == Modal::Remove(id),
        key.code == Code::Char('y'),
{
}

/// No action but the warning's own confirmation queues a removal.
pub proof fn removal_needs_the_confirmation(pre: Room, act: Act, post: Room, out: Option<Outcome>, id: i64)
    requires
        acted(pre, act, post, out),
        post.queued == Some(Op::Remove(id)),
        pre.queued != post.queued,
    ensures
        act == Act::RemoveConfirm,
        pre.modal == Modal::Remove(id),
{
}

/// After a load the cursor is on a row that exists, or nowhere.
pub proof fn the_cursor_stays_on_a_row(m: Room, l: Loaded, post: Room)
    requires
        applied(m, Done::Loaded(Ok(l)), post),
    ensures
        post.sel matches Some(s) ==> s < post.dests@.len(),
{
}

/// Only the newest path check counts: an answer for any other path than the
/// form's own changes nothing.
pub proof fn stale_checks_are_dropped(m: Room, f: Form, dest: String, result: Result<PathCheck, String>, post: Room)
    requires
        m.modal == Modal::Form(Box::new(f)),
        f.path() != dest@,
        applied(m, Done::Checked { dest, result }, post),
    ensures
        post == m,
{
}

/// A patch is empty exactly when the form is as its row was loaded.
pub proof fn an_empty_patch_means_no_change(p: BackupPatch, f: Form, orig: BackupDestination)
    requires
        is_patch(p, f, orig),
    ensures
        changes_nothing(p) <==> unchanged(f, orig),
{
}

/// The number fields of a form hold digits alone.
pub open spec fn digits_only(f: Form) -> bool {
    let kind = |c: char| is_digit(c);
    all_of(f.retention, kind) && all_of(f.throttle, kind) && all_of(f.hour, kind)
}

/// A form opens with digits alone in its number fields.
pub proof fn forms_open_with_digits(f: Form, libraries: Seq<(String, i64)>, defaults: Seq<String>, d: BackupDestination)
    requires
        is_add_form(f, libraries, defaults) || is_edit_form(f, d),
    ensures
        digits_only(f),
{
    reveal_strlit("30");
    reveal_strlit("0");
    reveal_strlit("3");
    decimals_are_digits(d.retention_days as nat);
    decimals_are_digits(d.inter_file_delay_ms as nat);
    decimals_are_digits(if d.daily_at_hour is Some { d.daily_at_hour->0 as nat } else { 3 });
}

/// No key brings anything but a digit into a number field.
pub proof fn numbers_stay_digits(pre: Room, f: Form, key: Key, post: Room, out: Option<Outcome>)
    requires
        pre.modal == Modal::Form(Box::new(f)),
        digits_only(f),
        keyed(pre, key, post, out),
    ensures
        post.modal matches Modal::Form(g) ==> digits_only(*g),
{
    let field = f.focused_field();
    let kind = |c: char| is_digit(c);
    if f.input(field) is Some && numeric(field) && post.modal is Form {
        let i = f.input(field)->0;
        let j = post.modal->Form_0.input(field)->0;
        let changed = key_changes(i, key);
        if after_key(i, key, j, changed) && (key.code matches Code::Char(c) ==> is_digit(c)) {
            stays_of_a_kind(i, key, j, changed, kind);
        }
    }
}

} // verus!
