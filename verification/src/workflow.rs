//! What a command asks its driver to do, and what the driver reports back.
//!
//! The `dev` and `build` commands alternate work on the machine (running
//! programs, touching files, reading the environment) with decisions.  The
//! decisions live in step machines: each step takes the report of the last
//! request and yields the next [`Action`].
use vstd::prelude::*;
use crate::error::{Error, ErrorView, opt_text};

verus! {

/// A `--config` argument: a JSON string or the path of a JSON, JSON5 or TOML
/// file to merge with the default configuration.
#[derive(Debug, Clone, PartialEq, Eq)]
pub struct ConfigValue(pub String);

/// The values of a list of configuration arguments.
pub open spec fn configs_view(c: Seq<ConfigValue>) -> Seq<Seq<char>> {
    Seq::new(c.len(), |i: int| c[i].0@)
}

/// The values of a list of strings.
pub open spec fn texts(c: Seq<String>) -> Seq<Seq<char>> {
    Seq::new(c.len(), |i: int| c[i]@)
}

/// A copy of a list of configuration arguments.
pub fn copy_configs(c: &Vec<ConfigValue>) -> (r: Vec<ConfigValue>)
    ensures
        configs_view(r@) == configs_view(c@),
{
    let mut r: Vec<ConfigValue> = Vec::new();
    for i in 0..c.len()
        invariant
            r.len() == i,
            forall|j: int| 0 <= j < i ==> #[trigger] r@[j].0@ == c@[j].0@,
    {
        r.push(ConfigValue(c[i].0.clone()));
    }
    assert(configs_view(r@) =~= configs_view(c@));
    r
}

/// What the resolved configuration tells about the app.
#[derive(Debug, Clone, PartialEq, Eq)]
pub struct AppInfo {
    /// The bundle identifier.
    pub identifier: String,
    /// The name of the Rust library the app builds.
    pub lib_name: String,
    /// The root directory of the app project, as its path is written.
    pub root_dir: String,
    /// The parent of that directory (`Path::parent`), when it has one.
    pub root_parent: Option<String>,
}

pub struct AppView {
    pub identifier: Seq<char>,
    pub lib_name: Seq<char>,
    pub root_dir: Seq<char>,
    pub root_parent: Option<Seq<char>>,
}

impl View for AppInfo {
    type V = AppView;

    open spec fn view(&self) -> AppView {
        AppView {
            identifier: self.identifier@,
            lib_name: self.lib_name@,
            root_dir: self.root_dir@,
            root_parent: opt_text(self.root_parent),
        }
    }
}

/// Work that a command hands to its driver. Paths are given as they are
/// written.
#[derive(Debug, PartialEq, Eq)]
pub enum Request {
    /// Resolve the app paths, load the configuration for the target with the
    /// given `--config` values, and resolve the app; answered by `Resolved`
    /// or `Failed`.
    ResolveConfig { target_triple: String, config: Vec<ConfigValue> },
    /// Make `dir` the current directory; answered by `Done` or `IoFailed`.
    EnterDirectory { dir: String },
    /// Make sure the OpenHarmony project of the app at `root_dir` is
    /// initialized; answered by `Done` or `Failed`.
    EnsureInit { root_dir: String, ci: bool },
    /// Print a line to standard output or standard error; answered by `Done`.
    Print { text: String, to_stderr: bool },
    /// Run a program and wait for it; answered by `Exited` or, when it could
    /// not be started, `IoFailed`.
    Run { program: String, args: Vec<String>, cwd: Option<String> },
    /// Whether a path exists; answered by `Exists`.
    Exists { path: String },
    /// Create a directory and its parents; answered by `Done` or `IoFailed`.
    CreateDirAll { path: String },
    /// Copy a file; answered by `Done` or `IoFailed`.
    Copy { from: String, to: String },
    /// Read an environment variable; answered by `Env`.
    EnvText { name: String },
    /// Whether a program is found on the search path; answered by `Found`.
    Which { program: String },
}

/// What the driver reports back.
#[derive(Debug, PartialEq, Eq)]
pub enum Event {
    Resolved { app: AppInfo, tauri_dir: String },
    Failed(Error),
    Done,
    /// An operation on the machine failed: its error as `Display` shows it
    /// (`message`) and as `Debug` shows it (`detail`).
    IoFailed { message: String, detail: String },
    Exited { success: bool },
    Exists(bool),
    /// The variable's value, or the reason there is none as `Debug` shows it.
    Env(Result<String, String>),
    Found(bool),
}

/// What a step yields.
#[derive(Debug, PartialEq, Eq)]
pub enum Action {
    /// Perform this request and report back.
    Request(Request),
    /// The command cannot go on: stop the process with this message.
    Abort(String),
    /// The command failed.
    Fail(Error),
    /// The build succeeded and produced the package at this path.
    Built(String),
    /// The app was built, installed and started on the device.
    Deployed,
}

pub enum RequestView {
    ResolveConfig { target_triple: Seq<char>, config: Seq<Seq<char>> },
    EnterDirectory { dir: Seq<char> },
    EnsureInit { root_dir: Seq<char>, ci: bool },
    Print { text: Seq<char>, to_stderr: bool },
    Run { program: Seq<char>, args: Seq<Seq<char>>, cwd: Option<Seq<char>> },
    Exists { path: Seq<char> },
    CreateDirAll { path: Seq<char> },
    Copy { from: Seq<char>, to: Seq<char> },
    EnvText { name: Seq<char> },
    Which { program: Seq<char> },
}

pub enum EventView {
    Resolved { app: AppView, tauri_dir: Seq<char> },
    Failed(ErrorView),
    Done,
    IoFailed { message: Seq<char>, detail: Seq<char> },
    Exited { success: bool },
    Exists(bool),
    Env(Result<Seq<char>, Seq<char>>),
    Found(bool),
}

pub enum ActionView {
    Request(RequestView),
    Abort(Seq<char>),
    Fail(ErrorView),
    Built(Seq<char>),
    Deployed,
}

impl View for Request {
    type V = RequestView;

    open spec fn view(&self) -> RequestView {
        match self {
            Request::ResolveConfig { target_triple, config } => RequestView::ResolveConfig {
                target_triple: target_triple@,
                config: configs_view(config@),
            },
            Request::EnterDirectory { dir } => RequestView::EnterDirectory { dir: dir@ },
            Request::EnsureInit { root_dir, ci } => RequestView::EnsureInit {
                root_dir: root_dir@,
                ci: *ci,
            },
            Request::Print { text, to_stderr } => RequestView::Print {
                text: text@,
                to_stderr: *to_stderr,
            },
            Request::Run { program, args, cwd } => RequestView::Run {
                program: program@,
                args: texts(args@),
                cwd: opt_text(*cwd),
            },
            Request::Exists { path } => RequestView::Exists { path: path@ },
            Request::CreateDirAll { path } => RequestView::CreateDirAll { path: path@ },
            Request::Copy { from, to } => RequestView::Copy { from: from@, to: to@ },
            Request::EnvText { name } => RequestView::EnvText { name: name@ },
            Request::Which { program } => RequestView::Which { program: program@ },
        }
    }
}

impl View for Event {
    type V = EventView;

    open spec fn view(&self) -> EventView {
        match self {
            Event::Resolved { app, tauri_dir } => EventView::Resolved {
                app: app@,
                tauri_dir: tauri_dir@,
            },
            Event::Failed(e) => EventView::Failed(e@),
            Event::Done => EventView::Done,
            Event::IoFailed { message, detail } => EventView::IoFailed {
                message: message@,
                detail: detail@,
            },
            Event::Exited { success } => EventView::Exited { success: *success },
            Event::Exists(b) => EventView::Exists(*b),
            Event::Env(v) => EventView::Env(
                match v {
                    Ok(t) => Ok(t@),
                    Err(m) => Err(m@),
                },
            ),
            Event::Found(b) => EventView::Found(*b),
        }
    }
}

impl View for Action {
    type V = ActionView;

    open spec fn view(&self) -> ActionView {
        match self {
            Action::Request(r) => ActionView::Request(r@),
            Action::Abort(m) => ActionView::Abort(m@),
            Action::Fail(e) => ActionView::Fail(e@),
            Action::Built(p) => ActionView::Built(p@),
            Action::Deployed => ActionView::Deployed,
        }
    }
}

/// The kinds of report that answer a request.
#[derive(Clone, Copy, Debug, PartialEq, Eq, Structural)]
pub enum Answer {
    /// `Resolved` or `Failed`.
    Resolution,
    /// `Done` or `Failed`.
    Outcome,
    /// `Done` or `IoFailed`.
    IoOutcome,
    /// `Done`.
    Ack,
    /// `Exited` or `IoFailed`.
    Exit,
    /// `Exists`.
    Existence,
    /// `Env`.
    EnvText,
    /// `Found`.
    Search,
    /// Nothing: the command is over.
    Nothing,
}

/// Whether `e` is a report of kind `k`.
pub open spec fn answers(k: Answer, e: EventView) -> bool {
    match k {
        Answer::Resolution => e is Resolved || e is Failed,
        Answer::Outcome => e is Done || e is Failed,
        Answer::IoOutcome => e is Done || e is IoFailed,
        Answer::Ack => e is Done,
        Answer::Exit => e is Exited || e is IoFailed,
        Answer::Existence => e is Exists,
        Answer::EnvText => e is Env,
        Answer::Search => e is Found,
        Answer::Nothing => false,
    }
}

/// The kind of report that answers what an action asks for.
pub open spec fn expected_answer(a: ActionView) -> Answer {
    match a {
        ActionView::Request(r) => match r {
            RequestView::ResolveConfig { .. } => Answer::Resolution,
            RequestView::EnterDirectory { .. } => Answer::IoOutcome,
            RequestView::EnsureInit { .. } => Answer::Outcome,
            RequestView::Print { .. } => Answer::Ack,
            RequestView::Run { .. } => Answer::Exit,
            RequestView::Exists { .. } => Answer::Existence,
            RequestView::CreateDirAll { .. } => Answer::IoOutcome,
            RequestView::Copy { .. } => Answer::IoOutcome,
            RequestView::EnvText { .. } => Answer::EnvText,
            RequestView::Which { .. } => Answer::Search,
        },
        _ => Answer::Nothing,
    }
}

/// Whether `e` is a report of kind `k`.
pub fn answers_exec(k: Answer, e: &Event) -> (r: bool)
    ensures
        r == answers(k, e@),
{
    match k {
        Answer::Resolution => matches!(e, Event::Resolved { .. } | Event::Failed(_)),
        Answer::Outcome => matches!(e, Event::Done | Event::Failed(_)),
        Answer::IoOutcome => matches!(e, Event::Done | Event::IoFailed { .. }),
        Answer::Ack => matches!(e, Event::Done),
        Answer::Exit => matches!(e, Event::Exited { .. } | Event::IoFailed { .. }),
        Answer::Existence => matches!(e, Event::Exists(_)),
        Answer::EnvText => matches!(e, Event::Env(_)),
        Answer::Search => matches!(e, Event::Found(_)),
        Answer::Nothing => false,
    }
}

} // verus!
