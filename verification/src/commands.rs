//! The two commands, each as a machine that decides and never acts: it is
//! told what happened outside (an `Event`) and says what to do next (an
//! `Action`), until it says how the process is to end.

use crate::credentials::{
    config_text, loaded, request_text, response_token, token_endpoint, token_text,
    Auth0M2MCredentials, CredentialSet, FetchError, FetchFault, ParseError, ParseFault, Token,
    TokenText,
};
use crate::json::parsed_object;
use crate::prompt::{
    confirm, confirm_line, confirm_text, is_yes, prompt_label, prompt_labels, prompt_line,
    prompt_text, AbortSignal,
};
use crate::store::{
    adjoined, config_file, config_name, display, path_bytes, path_text, HomePath, HomePathError,
};
use crate::text::{join2, join4, trimmed};
use std::path::PathBuf;
use vstd::prelude::*;
use vstd::string::*;

verus! {

/// Why a command failed.
pub enum AppFault {
    Home,
    Confirm { detail: Seq<char> },
    Prompt { detail: Seq<char> },
    CreateDir { path: Seq<char>, detail: Seq<char> },
    Encode { path: Seq<char> },
    Write { path: Seq<char>, detail: Seq<char> },
    Unregistered { path: Seq<char> },
    Read { path: Seq<char>, detail: Seq<char> },
    Parse { path: Seq<char>, cause: ParseFault },
    Fetch { fault: FetchFault },
    Output,
    Unexpected,
}

/// A command failed. `path` is the path concerned as it is shown to the
/// user, `detail` what the outside reported.
#[derive(Debug)]
pub enum AppError {
    /// The user's home directory is unknown.
    Home,
    /// The answer to the confirmation could not be read.
    Confirm { detail: String },
    /// An answer to one of the four questions could not be read.
    Prompt { detail: String },
    /// The application's directory could not be created.
    CreateDir { path: String, detail: String },
    /// The credential set could not be written as JSON.
    Encode { path: String, detail: String },
    /// The file could not be written.
    Write { path: String, detail: String },
    /// The application has no directory: it was never set up.
    Unregistered { path: String },
    /// The file could not be read.
    Read { path: String, detail: String },
    /// The file holds no credential set.
    Parse { path: String, cause: ParseError },
    /// No token was obtained.
    Fetch { error: FetchError },
    /// The token could not be written as JSON.
    Output { detail: String },
    /// The machine was told of something that it had not asked for.
    Unexpected,
}

impl View for AppError {
    type V = AppFault;

    open spec fn view(&self) -> AppFault {
        match self {
            AppError::Home => AppFault::Home,
            AppError::Confirm { detail } => AppFault::Confirm { detail: detail@ },
            AppError::Prompt { detail } => AppFault::Prompt { detail: detail@ },
            AppError::CreateDir { path, detail } => AppFault::CreateDir {
                path: path@,
                detail: detail@,
            },
            AppError::Encode { path, .. } => AppFault::Encode { path: path@ },
            AppError::Write { path, detail } => AppFault::Write { path: path@, detail: detail@ },
            AppError::Unregistered { path } => AppFault::Unregistered { path: path@ },
            AppError::Read { path, detail } => AppFault::Read { path: path@, detail: detail@ },
            AppError::Parse { path, cause } => AppFault::Parse { path: path@, cause: cause@ },
            AppError::Fetch { error } => AppFault::Fetch { fault: error@ },
            AppError::Output { .. } => AppFault::Output,
            AppError::Unexpected => AppFault::Unexpected,
        }
    }
}

/// How a command ended, as a value of the model.
pub enum OutcomeView {
    Success { output: Seq<u8> },
    Aborted,
    Failure { fault: AppFault },
}

/// The status with which the process ends.
pub open spec fn exit_status(outcome: OutcomeView) -> int {
    if outcome is Success {
        0
    } else {
        1
    }
}

/// How a command ended.
pub enum Outcome {
    /// The command did its work; `output` is for the standard output.
    Success { output: Vec<u8> },
    /// The operator declined to go on.
    Aborted,
    /// The command failed.
    Failure { error: AppError },
}

impl View for Outcome {
    type V = OutcomeView;

    open spec fn view(&self) -> OutcomeView {
        match self {
            Outcome::Success { output } => OutcomeView::Success { output: output@ },
            Outcome::Aborted => OutcomeView::Aborted,
            Outcome::Failure { error } => OutcomeView::Failure { fault: error@ },
        }
    }
}

/// What happened outside, as a value of the model.
pub enum EventView {
    Begin,
    Home { root: Option<Seq<u8>> },
    Exists { found: bool },
    Line { answer: Seq<char> },
    Done,
    Contents { bytes: Seq<u8> },
    Response { status: u16, body: Seq<u8> },
    Failed { detail: Seq<char> },
}

/// What happened outside since the machine last spoke.
pub enum Event {
    /// Nothing yet: the command starts.
    Begin,
    /// The root directory was looked for.
    Home { root: Result<HomePath, HomePathError> },
    /// A path was examined.
    Exists { found: bool },
    /// The operator typed a line.
    Line { answer: String },
    /// The directory was created, or the file written.
    Done,
    /// The file was read.
    Contents { bytes: Vec<u8> },
    /// The identity provider answered.
    Response { status: u16, body: Vec<u8> },
    /// What the machine asked for could not be done.
    Failed { detail: String },
}

impl View for Event {
    type V = EventView;

    open spec fn view(&self) -> EventView {
        match self {
            Event::Begin => EventView::Begin,
            Event::Home { root } => EventView::Home {
                root: match root {
                    Ok(home) => Some(home@),
                    Err(_) => None,
                },
            },
            Event::Exists { found } => EventView::Exists { found: *found },
            Event::Line { answer } => EventView::Line { answer: answer@ },
            Event::Done => EventView::Done,
            Event::Contents { bytes } => EventView::Contents { bytes: bytes@ },
            Event::Response { status, body } => EventView::Response {
                status: *status,
                body: body@,
            },
            Event::Failed { detail } => EventView::Failed { detail: detail@ },
        }
    }
}

/// What to do next, as a value of the model.
pub enum ActionView {
    FindHome,
    Probe { path: Seq<u8> },
    Ask { text: Seq<char> },
    CreateDir { path: Seq<u8> },
    WriteFile { path: Seq<u8>, contents: Seq<u8> },
    ReadFile { path: Seq<u8> },
    Post { url: Seq<char>, body: Seq<u8> },
    Exit { outcome: OutcomeView },
}

/// What the caller is to do next; it answers with the event named.
pub enum Action {
    /// Resolve the root directory; answer `Home`.
    FindHome,
    /// See whether `path` exists; answer `Exists`.
    Probe { path: PathBuf },
    /// Show `text`, flush, read a line; answer `Line` or `Failed`.
    Ask { text: String },
    /// Create the directory `path` and those above it; answer `Done` or
    /// `Failed`.
    CreateDir { path: PathBuf },
    /// Write `contents` to the file `path`, replacing what was there; answer
    /// `Done` or `Failed`.
    WriteFile { path: PathBuf, contents: Vec<u8> },
    /// Read the file `path`; answer `Contents` or `Failed`.
    ReadFile { path: PathBuf },
    /// Send `body` as JSON to `url` by POST; answer `Response` or `Failed`.
    Post { url: String, body: Vec<u8> },
    /// End the process as `outcome` says.
    Exit { outcome: Outcome },
}

impl View for Action {
    type V = ActionView;

    open spec fn view(&self) -> ActionView {
        match self {
            Action::FindHome => ActionView::FindHome,
            Action::Probe { path } => ActionView::Probe { path: path_bytes(*path) },
            Action::Ask { text } => ActionView::Ask { text: text@ },
            Action::CreateDir { path } => ActionView::CreateDir { path: path_bytes(*path) },
            Action::WriteFile { path, contents } => ActionView::WriteFile {
                path: path_bytes(*path),
                contents: contents@,
            },
            Action::ReadFile { path } => ActionView::ReadFile { path: path_bytes(*path) },
            Action::Post { url, body } => ActionView::Post { url: url@, body: body@ },
            Action::Exit { outcome } => ActionView::Exit { outcome: outcome@ },
        }
    }
}

impl AppError {
    /// What `message` says: the step that failed, the path it concerned, and
    /// what was reported of the failure.
    pub open spec fn text(&self) -> Seq<char> {
        match self {
            AppError::Home => "Home path not found: Could not find home dir."@,
            AppError::Confirm { detail } => "Failed during confirm: "@ + detail@,
            AppError::Prompt { detail } => "Read from prompt failed: "@ + detail@,
            AppError::CreateDir { path, detail } => "Create dir "@ + path@ + " failed: "@
                + detail@,
            AppError::Encode { path, detail } => "Write to "@ + path@ + " failed: "@ + detail@,
            AppError::Write { path, detail } => "Write to "@ + path@ + " failed: "@ + detail@,
            AppError::Unregistered { path } => path@ + " does not exist."@,
            AppError::Read { path, detail } => "Could not load json config file "@ + path@
                + ": "@ + detail@,
            AppError::Parse { path, cause } => "Could not load json config file "@ + path@
                + ": "@ + cause.text(),
            AppError::Fetch { error } => "Failed to fetch token: "@ + error.text(),
            AppError::Output { detail } => "Could not write the token: "@ + detail@,
            AppError::Unexpected => "Unexpected event."@,
        }
    }

    /// What to tell the user.
    pub fn message(&self) -> (r: String)
        ensures
            r@ == self.text(),
    {
        match self {
            AppError::Home => String::from_str("Home path not found: Could not find home dir."),
            AppError::Confirm { detail } => join2("Failed during confirm: ", detail.as_str()),
            AppError::Prompt { detail } => join2("Read from prompt failed: ", detail.as_str()),
            AppError::CreateDir { path, detail } => join4(
                "Create dir ",
                path.as_str(),
                " failed: ",
                detail.as_str(),
            ),
            AppError::Encode { path, detail } => join4(
                "Write to ",
                path.as_str(),
                " failed: ",
                detail.as_str(),
            ),
            AppError::Write { path, detail } => join4(
                "Write to ",
                path.as_str(),
                " failed: ",
                detail.as_str(),
            ),
            AppError::Unregistered { path } => join2(path.as_str(), " does not exist."),
            AppError::Read { path, detail } => join4(
                "Could not load json config file ",
                path.as_str(),
                ": ",
                detail.as_str(),
            ),
            AppError::Parse { path, cause } => join4(
                "Could not load json config file ",
                path.as_str(),
                ": ",
                cause.message().as_str(),
            ),
            AppError::Fetch { error } => join2("Failed to fetch token: ", error.message().as_str()),
            AppError::Output { detail } => join2("Could not write the token: ", detail.as_str()),
            AppError::Unexpected => String::from_str("Unexpected event."),
        }
    }
}

impl Outcome {
    /// The status with which the process ends: 0 after success, 1 otherwise.
    pub fn exit_code(&self) -> (r: i32)
        ensures
            r == exit_status(self@),
    {
        match self {
            Outcome::Success { .. } => 0,
            _ => 1,
        }
    }

    /// What to print on the error stream before the process ends: nothing
    /// after success, `Aborting.` and no more where the operator declined,
    /// the error's message after a failure.
    pub fn complaint(&self) -> (r: Option<String>)
        ensures
            match self {
                Outcome::Success { .. } => r is None,
                Outcome::Aborted => r matches Some(text) && text@ == "Aborting."@,
                Outcome::Failure { error } => r matches Some(text) && text@ == error.text(),
            },
    {
        match self {
            Outcome::Success { .. } => None,
            Outcome::Aborted => Some((AbortSignal {  }).message()),
            Outcome::Failure { error } => Some(error.message()),
        }
    }
}

/// Where the command `new` stands, as a value of the model.
pub enum NewView {
    Start { app: Seq<char> },
    Resolving { app: Seq<char> },
    Probing { dir: Seq<u8> },
    Confirming { dir: Seq<u8> },
    Asking { dir: Seq<u8>, answers: Seq<Seq<char>> },
    CreatingDir { dir: Seq<u8>, record: CredentialSet },
    Writing { file: Seq<u8> },
    Finished,
}

/// Where the command `new` stands: what it has asked for and what it knows
/// by now.
pub enum NewState {
    /// Nothing has been done for the application `app`.
    Start { app: String },
    /// The root directory is being looked for.
    Resolving { app: String },
    /// The application's directory `dir` is being examined.
    Probing { dir: PathBuf },
    /// The directory exists, and the operator is asked whether to go on.
    Confirming { dir: PathBuf },
    /// The operator is being asked; `answers` holds the lines typed so far.
    Asking { dir: PathBuf, answers: Vec<String> },
    /// All four answers are in, and the directory is being created.
    CreatingDir { dir: PathBuf, record: Auth0M2MCredentials },
    /// The file is being written.
    Writing { file: PathBuf },
    /// The command has ended.
    Finished,
}

impl View for NewState {
    type V = NewView;

    open spec fn view(&self) -> NewView {
        match self {
            NewState::Start { app } => NewView::Start { app: app@ },
            NewState::Resolving { app } => NewView::Resolving { app: app@ },
            NewState::Probing { dir } => NewView::Probing { dir: path_bytes(*dir) },
            NewState::Confirming { dir } => NewView::Confirming { dir: path_bytes(*dir) },
            NewState::Asking { dir, answers } => NewView::Asking {
                dir: path_bytes(*dir),
                answers: answers.deep_view(),
            },
            NewState::CreatingDir { dir, record } => NewView::CreatingDir {
                dir: path_bytes(*dir),
                record: record@,
            },
            NewState::Writing { file } => NewView::Writing { file: path_bytes(*file) },
            NewState::Finished => NewView::Finished,
        }
    }
}

/// The warning shown before an existing credential set is overwritten.
pub open spec fn overwrite_warning(path: Seq<char>) -> Seq<char> {
    path + " already exists. Continuing will overwrite your config."@
}

/// The credential set made of four answers, in the order of the questions.
pub open spec fn collected(answers: Seq<Seq<char>>) -> CredentialSet {
    CredentialSet {
        client_id: trimmed(answers[0]),
        client_secret: trimmed(answers[1]),
        audience: trimmed(answers[2]),
        domain: trimmed(answers[3]),
    }
}

/// The action that ends the process with the failure `fault`.
pub open spec fn halt(fault: AppFault) -> ActionView {
    ActionView::Exit { outcome: OutcomeView::Failure { fault } }
}

/// The action that asks question number `k`.
pub open spec fn question(k: int) -> ActionView {
    ActionView::Ask { text: prompt_line(prompt_labels()[k]) }
}

/// What `new` does next. It looks for the root, examines the application's
/// directory, asks before it overwrites one, asks the four questions in
/// their order, creates the directory and writes the file. A refusal ends it
/// as aborted, a failure outside as failed, both before anything more is
/// done; so does a credential set that cannot be written as JSON, once the
/// directory is there.
pub open spec fn new_step(state: NewView, event: EventView) -> (NewView, ActionView) {
    match state {
        NewView::Start { app } => match event {
            EventView::Begin => (NewView::Resolving { app }, ActionView::FindHome),
            _ => (NewView::Finished, halt(AppFault::Unexpected)),
        },
        NewView::Resolving { app } => match event {
            EventView::Home { root: Some(root) } => {
                let dir = adjoined(root, app);
                (NewView::Probing { dir }, ActionView::Probe { path: dir })
            },
            EventView::Home { root: None } => (NewView::Finished, halt(AppFault::Home)),
            _ => (NewView::Finished, halt(AppFault::Unexpected)),
        },
        NewView::Probing { dir } => match event {
            EventView::Exists { found } => if found {
                (
                    NewView::Confirming { dir },
                    ActionView::Ask { text: confirm_line(overwrite_warning(path_text(dir))) },
                )
            } else {
                (NewView::Asking { dir, answers: Seq::empty() }, question(0))
            },
            _ => (NewView::Finished, halt(AppFault::Unexpected)),
        },
        NewView::Confirming { dir } => match event {
            EventView::Line { answer } => if is_yes(answer) {
                (NewView::Asking { dir, answers: Seq::empty() }, question(0))
            } else {
                (NewView::Finished, ActionView::Exit { outcome: OutcomeView::Aborted })
            },
            EventView::Failed { detail } => (
                NewView::Finished,
                halt(AppFault::Confirm { detail }),
            ),
            _ => (NewView::Finished, halt(AppFault::Unexpected)),
        },
        NewView::Asking { dir, answers } => match event {
            EventView::Line { answer } => if answers.len() < 3 {
                (
                    NewView::Asking { dir, answers: answers.push(answer) },
                    question(answers.len() as int + 1),
                )
            } else if answers.len() == 3 {
                (
                    NewView::CreatingDir { dir, record: collected(answers.push(answer)) },
                    ActionView::CreateDir { path: dir },
                )
            } else {
                (NewView::Finished, halt(AppFault::Unexpected))
            },
            EventView::Failed { detail } => (NewView::Finished, halt(AppFault::Prompt { detail })),
            _ => (NewView::Finished, halt(AppFault::Unexpected)),
        },
        NewView::CreatingDir { dir, record } => match event {
            EventView::Done => {
                let file = adjoined(dir, config_name());
                match config_text(record) {
                    Some(contents) => (
                        NewView::Writing { file },
                        ActionView::WriteFile { path: file, contents },
                    ),
                    None => (
                        NewView::Finished,
                        halt(AppFault::Encode { path: path_text(file) }),
                    ),
                }
            },
            EventView::Failed { detail } => (
                NewView::Finished,
                halt(AppFault::CreateDir { path: path_text(dir), detail }),
            ),
            _ => (NewView::Finished, halt(AppFault::Unexpected)),
        },
        NewView::Writing { file } => match event {
            EventView::Done => (
                NewView::Finished,
                ActionView::Exit { outcome: OutcomeView::Success { output: Seq::empty() } },
            ),
            EventView::Failed { detail } => (
                NewView::Finished,
                halt(AppFault::Write { path: path_text(file), detail }),
            ),
            _ => (NewView::Finished, halt(AppFault::Unexpected)),
        },
        NewView::Finished => (NewView::Finished, halt(AppFault::Unexpected)),
    }
}

fn fail(error: AppError) -> (r: Action)
    ensures
        r@ == halt(error@),
{
    Action::Exit { outcome: Outcome::Failure { error } }
}

fn ask(k: usize) -> (r: Action)
    requires
        k < 4,
    ensures
        r@ == question(k as int),
{
    match prompt_label(k) {
        Some(label) => Action::Ask { text: prompt_text(label) },
        None => Action::Ask { text: String::new() },
    }
}

fn begin_asking(dir: PathBuf) -> (r: (NewState, Action))
    ensures
        r.0@ == (NewView::Asking { dir: path_bytes(dir), answers: Seq::empty() }),
        r.1@ == question(0),
{
    let answers: Vec<String> = Vec::new();
    assert(answers.deep_view() =~= Seq::<Seq<char>>::empty());
    (NewState::Asking { dir, answers }, ask(0))
}

fn new_resolving(app: String, event: Event) -> (r: (NewState, Action))
    ensures
        (r.0@, r.1@) == new_step(NewView::Resolving { app: app@ }, event@),
{
    match event {
        Event::Home { root: Ok(home) } => {
            let dir = home.app_dir(app.as_str());
            let path = dir.clone();
            (NewState::Probing { dir }, Action::Probe { path })
        },
        Event::Home { root: Err(_) } => (NewState::Finished, fail(AppError::Home)),
        _ => (NewState::Finished, fail(AppError::Unexpected)),
    }
}

fn new_probing(dir: PathBuf, event: Event) -> (r: (NewState, Action))
    ensures
        (r.0@, r.1@) == new_step(NewView::Probing { dir: path_bytes(dir) }, event@),
{
    match event {
        Event::Exists { found } => if found {
            let shown = display(&dir);
            let warning = join2(
                shown.as_str(),
                " already exists. Continuing will overwrite your config.",
            );
            let text = confirm_text(warning.as_str());
            (NewState::Confirming { dir }, Action::Ask { text })
        } else {
            begin_asking(dir)
        },
        _ => (NewState::Finished, fail(AppError::Unexpected)),
    }
}

fn new_confirming(dir: PathBuf, event: Event) -> (r: (NewState, Action))
    ensures
        (r.0@, r.1@) == new_step(NewView::Confirming { dir: path_bytes(dir) }, event@),
{
    match event {
        Event::Line { answer } => match confirm(answer.as_str()) {
            Ok(_) => begin_asking(dir),
            Err(_) => (NewState::Finished, Action::Exit { outcome: Outcome::Aborted }),
        },
        Event::Failed { detail } => (NewState::Finished, fail(AppError::Confirm { detail })),
        _ => (NewState::Finished, fail(AppError::Unexpected)),
    }
}

fn new_asking(dir: PathBuf, answers: Vec<String>, event: Event) -> (r: (NewState, Action))
    ensures
        (r.0@, r.1@) == new_step(
            NewView::Asking { dir: path_bytes(dir), answers: answers.deep_view() },
            event@,
        ),
{
    match event {
        Event::Line { answer } => {
            let n = answers.len();
            let ghost before = answers.deep_view();
            if n < 3 {
                let mut answers = answers;
                answers.push(answer);
                assert(answers.deep_view() =~= before.push(answer@));
                (NewState::Asking { dir, answers }, ask(n + 1))
            } else if n == 3 {
                assert(before[0] == answers[0]@);
                assert(before[1] == answers[1]@);
                assert(before[2] == answers[2]@);
                let record = Auth0M2MCredentials::from_prompt(
                    answers[0].as_str(),
                    answers[1].as_str(),
                    answers[2].as_str(),
                    answer.as_str(),
                );
                let path = dir.clone();
                (NewState::CreatingDir { dir, record }, Action::CreateDir { path })
            } else {
                (NewState::Finished, fail(AppError::Unexpected))
            }
        },
        Event::Failed { detail } => (NewState::Finished, fail(AppError::Prompt { detail })),
        _ => (NewState::Finished, fail(AppError::Unexpected)),
    }
}

fn new_creating_dir(dir: PathBuf, record: Auth0M2MCredentials, event: Event) -> (r: (
    NewState,
    Action,
))
    ensures
        (r.0@, r.1@) == new_step(
            NewView::CreatingDir { dir: path_bytes(dir), record: record@ },
            event@,
        ),
{
    match event {
        Event::Done => {
            let file = config_file(&dir);
            match record.to_json() {
                Ok(contents) => {
                    let path = file.clone();
                    (NewState::Writing { file }, Action::WriteFile { path, contents })
                },
                Err(e) => (
                    NewState::Finished,
                    fail(AppError::Encode { path: display(&file), detail: e.detail }),
                ),
            }
        },
        Event::Failed { detail } => (
            NewState::Finished,
            fail(AppError::CreateDir { path: display(&dir), detail }),
        ),
        _ => (NewState::Finished, fail(AppError::Unexpected)),
    }
}

fn new_writing(file: PathBuf, event: Event) -> (r: (NewState, Action))
    ensures
        (r.0@, r.1@) == new_step(NewView::Writing { file: path_bytes(file) }, event@),
{
    match event {
        Event::Done => (
            NewState::Finished,
            Action::Exit { outcome: Outcome::Success { output: Vec::new() } },
        ),
        Event::Failed { detail } => (
            NewState::Finished,
            fail(AppError::Write { path: display(&file), detail }),
        ),
        _ => (NewState::Finished, fail(AppError::Unexpected)),
    }
}

/// One step of the command `new`: from where it stands and what happened
/// outside to where it stands then and what to do next.
pub fn execute_new(state: NewState, event: Event) -> (r: (NewState, Action))
    ensures
        (r.0@, r.1@) == new_step(state@, event@),
{
    match state {
        NewState::Start { app } => match event {
            Event::Begin => (NewState::Resolving { app }, Action::FindHome),
            _ => (NewState::Finished, fail(AppError::Unexpected)),
        },
        NewState::Resolving { app } => new_resolving(app, event),
        NewState::Probing { dir } => new_probing(dir, event),
        NewState::Confirming { dir } => new_confirming(dir, event),
        NewState::Asking { dir, answers } => new_asking(dir, answers, event),
        NewState::CreatingDir { dir, record } => new_creating_dir(dir, record, event),
        NewState::Writing { file } => new_writing(file, event),
        NewState::Finished => (NewState::Finished, fail(AppError::Unexpected)),
    }
}

/// Where the command `login` stands, as a value of the model.
pub enum LoginView {
    Start { app: Seq<char> },
    Resolving { app: Seq<char> },
    Probing { dir: Seq<u8> },
    Reading { file: Seq<u8> },
    Posting,
    Finished,
}

/// Where the command `login` stands.
pub enum LoginState {
    /// Nothing has been done for the application `app`.
    Start { app: String },
    /// The root directory is being looked for.
    Resolving { app: String },
    /// The application's directory `dir` is being examined.
    Probing { dir: PathBuf },
    /// The file `file` is being read.
    Reading { file: PathBuf },
    /// The token request is under way.
    Posting,
    /// The command has ended.
    Finished,
}

impl View for LoginState {
    type V = LoginView;

    open spec fn view(&self) -> LoginView {
        match self {
            LoginState::Start { app } => LoginView::Start { app: app@ },
            LoginState::Resolving { app } => LoginView::Resolving { app: app@ },
            LoginState::Probing { dir } => LoginView::Probing { dir: path_bytes(*dir) },
            LoginState::Reading { file } => LoginView::Reading { file: path_bytes(*file) },
            LoginState::Posting => LoginView::Posting,
            LoginState::Finished => LoginView::Finished,
        }
    }
}

/// What `login` prints after success: the token as a compact JSON object, and
/// a line end; `None` where the object cannot be written.
pub open spec fn token_line(token: TokenText) -> Option<Seq<u8>> {
    match token_text(token) {
        Some(object) => Some(object.push(0x0Au8)),
        None => None,
    }
}

/// What `login` does next. It looks for the root and examines the
/// application's directory. Without the directory it fails at once, naming
/// the path, and asks for nothing more. Otherwise it reads the file, sends
/// the credential set that the file holds to the token endpoint of its
/// domain, and prints the token that comes back. A request or a token that
/// cannot be written as JSON ends it as failed.
pub open spec fn login_step(state: LoginView, event: EventView) -> (LoginView, ActionView) {
    match state {
        LoginView::Start { app } => match event {
            EventView::Begin => (LoginView::Resolving { app }, ActionView::FindHome),
            _ => (LoginView::Finished, halt(AppFault::Unexpected)),
        },
        LoginView::Resolving { app } => match event {
            EventView::Home { root: Some(root) } => {
                let dir = adjoined(root, app);
                (LoginView::Probing { dir }, ActionView::Probe { path: dir })
            },
            EventView::Home { root: None } => (LoginView::Finished, halt(AppFault::Home)),
            _ => (LoginView::Finished, halt(AppFault::Unexpected)),
        },
        LoginView::Probing { dir } => match event {
            EventView::Exists { found } => if found {
                let file = adjoined(dir, config_name());
                (LoginView::Reading { file }, ActionView::ReadFile { path: file })
            } else {
                (LoginView::Finished, halt(AppFault::Unregistered { path: path_text(dir) }))
            },
            _ => (LoginView::Finished, halt(AppFault::Unexpected)),
        },
        LoginView::Reading { file } => match event {
            EventView::Contents { bytes } => match loaded(parsed_object(bytes)) {
                Ok(record) => match request_text(record) {
                    Some(body) => (
                        LoginView::Posting,
                        ActionView::Post { url: token_endpoint(record.domain), body },
                    ),
                    None => (
                        LoginView::Finished,
                        halt(AppFault::Fetch { fault: FetchFault::Request }),
                    ),
                },
                Err(cause) => (
                    LoginView::Finished,
                    halt(AppFault::Parse { path: path_text(file), cause }),
                ),
            },
            EventView::Failed { detail } => (
                LoginView::Finished,
                halt(AppFault::Read { path: path_text(file), detail }),
            ),
            _ => (LoginView::Finished, halt(AppFault::Unexpected)),
        },
        LoginView::Posting => match event {
            EventView::Response { status, body } => match response_token(
                status,
                parsed_object(body),
            ) {
                Ok(token) => match token_line(token) {
                    Some(output) => (
                        LoginView::Finished,
                        ActionView::Exit { outcome: OutcomeView::Success { output } },
                    ),
                    None => (LoginView::Finished, halt(AppFault::Output)),
                },
                Err(fault) => (LoginView::Finished, halt(AppFault::Fetch { fault })),
            },
            EventView::Failed { detail } => (
                LoginView::Finished,
                halt(AppFault::Fetch { fault: FetchFault::Transport }),
            ),
            _ => (LoginView::Finished, halt(AppFault::Unexpected)),
        },
        LoginView::Finished => (LoginView::Finished, halt(AppFault::Unexpected)),
    }
}

fn login_resolving(app: String, event: Event) -> (r: (LoginState, Action))
    ensures
        (r.0@, r.1@) == login_step(LoginView::Resolving { app: app@ }, event@),
{
    match event {
        Event::Home { root: Ok(home) } => {
            let dir = home.app_dir(app.as_str());
            let path = dir.clone();
            (LoginState::Probing { dir }, Action::Probe { path })
        },
        Event::Home { root: Err(_) } => (LoginState::Finished, fail(AppError::Home)),
        _ => (LoginState::Finished, fail(AppError::Unexpected)),
    }
}

fn login_probing(dir: PathBuf, event: Event) -> (r: (LoginState, Action))
    ensures
        (r.0@, r.1@) == login_step(LoginView::Probing { dir: path_bytes(dir) }, event@),
{
    match event {
        Event::Exists { found } => if found {
            let file = config_file(&dir);
            let path = file.clone();
            (LoginState::Reading { file }, Action::ReadFile { path })
        } else {
            (LoginState::Finished, fail(AppError::Unregistered { path: display(&dir) }))
        },
        _ => (LoginState::Finished, fail(AppError::Unexpected)),
    }
}

fn login_reading(file: PathBuf, event: Event) -> (r: (LoginState, Action))
    ensures
        (r.0@, r.1@) == login_step(LoginView::Reading { file: path_bytes(file) }, event@),
{
    match event {
        Event::Contents { bytes } => match Auth0M2MCredentials::from_json(bytes.as_slice()) {
            Ok(record) => match record.request_body() {
                Ok(body) => (LoginState::Posting, Action::Post { url: record.token_url(), body }),
                Err(e) => (
                    LoginState::Finished,
                    fail(AppError::Fetch { error: FetchError::Request { detail: e.detail } }),
                ),
            },
            Err(cause) => (
                LoginState::Finished,
                fail(AppError::Parse { path: display(&file), cause }),
            ),
        },
        Event::Failed { detail } => (
            LoginState::Finished,
            fail(AppError::Read { path: display(&file), detail }),
        ),
        _ => (LoginState::Finished, fail(AppError::Unexpected)),
    }
}

fn login_posting(event: Event) -> (r: (LoginState, Action))
    ensures
        (r.0@, r.1@) == login_step(LoginView::Posting, event@),
{
    match event {
        Event::Response { status, body } => match Token::from_response(status, body.as_slice()) {
            Ok(token) => match token.to_json() {
                Ok(object) => {
                    let mut output = object;
                    output.push(0x0Au8);
                    (LoginState::Finished, Action::Exit { outcome: Outcome::Success { output } })
                },
                Err(e) => (LoginState::Finished, fail(AppError::Output { detail: e.detail })),
            },
            Err(error) => (LoginState::Finished, fail(AppError::Fetch { error })),
        },
        Event::Failed { detail } => (
            LoginState::Finished,
            fail(AppError::Fetch { error: FetchError::Transport { detail } }),
        ),
        _ => (LoginState::Finished, fail(AppError::Unexpected)),
    }
}

/// One step of the command `login`: from where it stands and what happened
/// outside to where it stands then and what to do next.
pub fn execute_login(state: LoginState, event: Event) -> (r: (LoginState, Action))
    ensures
        (r.0@, r.1@) == login_step(state@, event@),
{
    match state {
        LoginState::Start { app } => match event {
            Event::Begin => (LoginState::Resolving { app }, Action::FindHome),
            _ => (LoginState::Finished, fail(AppError::Unexpected)),
        },
        LoginState::Resolving { app } => login_resolving(app, event),
        LoginState::Probing { dir } => login_probing(dir, event),
        LoginState::Reading { file } => login_reading(file, event),
        LoginState::Posting => login_posting(event),
        LoginState::Finished => (LoginState::Finished, fail(AppError::Unexpected)),
    }
}

/// Where `new` stands once the first `n` of four answers are in, counted
/// from the first question.
pub open spec fn new_after_answers(dir: Seq<u8>, answers: Seq<Seq<char>>, n: int) -> NewView
    recommends
        answers.len() == 4,
        0 <= n <= 4,
{
    if n < 4 {
        NewView::Asking { dir, answers: answers.take(n) }
    } else {
        NewView::CreatingDir { dir, record: collected(answers) }
    }
}

/// Each answer moves `new` on by one question, and the fourth makes the
/// credential set: each of its four texts is the answer to its question
/// without the whitespace around it, with nothing else changed.
pub proof fn lemma_new_collects_answers(dir: Seq<u8>, answers: Seq<Seq<char>>, n: int)
    requires
        answers.len() == 4,
        0 <= n < 4,
    ensures
        new_step(new_after_answers(dir, answers, n), EventView::Line { answer: answers[n] }).0
            == new_after_answers(dir, answers, n + 1),
        n < 3 ==> new_step(
            new_after_answers(dir, answers, n),
            EventView::Line { answer: answers[n] },
        ).1 == question(n + 1),
        n == 3 ==> new_step(
            new_after_answers(dir, answers, n),
            EventView::Line { answer: answers[n] },
        ).1 == (ActionView::CreateDir { path: dir }),
{
    let so_far = answers.take(n);
    assert(so_far.push(answers[n]) =~= answers.take(n + 1));
    assert(answers.take(4) =~= answers);
}

/// An answer to the confirmation that is no yes ends `new` there and then:
/// the process is to end as aborted, with a status other than 0.
pub proof fn lemma_new_declined_aborts(dir: Seq<u8>, answer: Seq<char>)
    requires
        !is_yes(answer),
    ensures
        new_step(NewView::Confirming { dir }, EventView::Line { answer }) == (
            NewView::Finished,
            ActionView::Exit { outcome: OutcomeView::Aborted },
        ),
        exit_status(OutcomeView::Aborted) != 0,
{
}

/// `login` for an application without a directory fails at once, with a
/// status other than 0 and an error that names the directory.
pub proof fn lemma_login_unregistered_fails(dir: Seq<u8>)
    ensures
        login_step(LoginView::Probing { dir }, EventView::Exists { found: false }) == (
            LoginView::Finished,
            halt(AppFault::Unregistered { path: path_text(dir) }),
        ),
        exit_status(OutcomeView::Failure { fault: AppFault::Unregistered { path: path_text(dir) } })
            != 0,
{
}

/// `login` sends a request only when it has just read a file that holds a
/// credential set, and then to the token endpoint of that set's domain.
pub proof fn lemma_login_posts_what_it_read(state: LoginView, event: EventView)
    requires
        login_step(state, event).1 is Post,
    ensures
        state is Reading,
        event matches EventView::Contents { bytes } && loaded(parsed_object(bytes)) matches Ok(
            record,
        ) && request_text(record) matches Some(body) && login_step(state, event).1 == (
            ActionView::Post { url: token_endpoint(record.domain), body }
        ),
{
}

} // verus!
