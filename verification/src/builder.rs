//! `build`: build the app for OpenHarmony and package it with hvigor.
use vstd::prelude::*;
use crate::error::{Error, ErrorView};
use crate::noise::NoiseLevel;
use crate::paths::{push_text, join_text};
use crate::workflow::{ConfigValue, configs_view, texts, copy_configs, AppInfo, AppView, Request, RequestView, Event, EventView, Action, ActionView, Answer, answers, answers_exec, expected_answer};
use crate::error::opt_text;

verus! {

/// The Rust target that OpenHarmony devices run.
pub open spec fn ohos_triple() -> Seq<char> {
    "aarch64-unknown-linux-ohos"@
}

/// Options of the `build` command.
#[derive(Debug, Clone, PartialEq, Eq)]
pub struct Options {
    /// Builds with the debug flag
    pub debug: bool,
    /// List of cargo features to activate
    pub features: Option<Vec<String>>,
    /// JSON strings or paths to JSON, JSON5 or TOML files to merge with the default configuration file
    pub config: Vec<ConfigValue>,
    /// Skip prompting for values
    pub ci: bool,
    /// Command line arguments passed to the runner.
    pub args: Vec<String>,
}

/// The value of the options of the `build` and `dev` commands.
#[verifier::ext_equal]
pub struct OptionsView {
    pub debug: bool,
    pub features: Option<Seq<Seq<char>>>,
    pub config: Seq<Seq<char>>,
    pub ci: bool,
    pub args: Seq<Seq<char>>,
}

pub open spec fn opt_texts(f: Option<Vec<String>>) -> Option<Seq<Seq<char>>> {
    match f {
        Some(v) => Some(texts(v@)),
        None => None,
    }
}

impl View for Options {
    type V = OptionsView;

    open spec fn view(&self) -> OptionsView {
        OptionsView {
            debug: self.debug,
            features: opt_texts(self.features),
            config: configs_view(self.config@),
            ci: self.ci,
            args: texts(self.args@),
        }
    }
}

/// The options of the general build command, as the OpenHarmony options fill them.
#[derive(Debug, Clone, PartialEq, Eq)]
pub struct BuildOptions {
    pub runner: Option<String>,
    pub debug: bool,
    pub target: Option<String>,
    pub features: Vec<String>,
    pub bundles: Option<Vec<String>>,
    pub no_bundle: bool,
    pub config: Vec<ConfigValue>,
    pub args: Vec<String>,
    pub ci: bool,
    pub skip_stapling: bool,
    pub ignore_version_mismatches: bool,
    pub no_sign: bool,
}

/// The general build options for these options: no runner, target or
/// bundles, features default to none, and every other switch is off.
pub fn into_build_options(options: Options) -> (b: BuildOptions)
    ensures
        b.runner is None,
        b.debug == options.debug,
        b.target is None,
        texts(b.features@) == match options.features {
            Some(f) => texts(f@),
            None => Seq::<Seq<char>>::empty(),
        },
        b.bundles is None,
        !b.no_bundle,
        configs_view(b.config@) == configs_view(options.config@),
        texts(b.args@) == texts(options.args@),
        b.ci == options.ci,
        !b.skip_stapling,
        !b.ignore_version_mismatches,
        !b.no_sign,
{
    let features = match options.features {
        Some(f) => f,
        None => {
            let e: Vec<String> = Vec::new();
            assert(texts(e@) =~= Seq::<Seq<char>>::empty());
            e
        },
    };
    BuildOptions {
        runner: None,
        debug: options.debug,
        target: None,
        features,
        bundles: None,
        no_bundle: false,
        config: options.config,
        args: options.args,
        ci: options.ci,
        skip_stapling: false,
        ignore_version_mismatches: false,
        no_sign: false,
    }
}

/// Where a build stands: each stage waits for the report of one request.
#[derive(Clone, Copy, Debug, PartialEq, Eq, Structural)]
pub enum BuildStage {
    AwaitConfig,
    EnterTauriDir,
    EnsureInit,
    AnnounceCargo,
    Cargo,
    ProbeRoot,
    ProbeParent,
    CheckDir,
    MakeLibDir,
    ProbeLib,
    ProbeWorkspaceLib,
    CopyLib,
    AnnounceLibCopy,
    SdkHome,
    ProbeRuntime,
    CopyRuntime,
    AnnounceRuntime,
    CmdTools,
    ProbeHvigorw,
    Which,
    AnnounceHvigor,
    Hvigor,
    Finished,
}

/// The order of the stages.
pub open spec fn build_rank(s: BuildStage) -> int {
    match s {
        BuildStage::AwaitConfig => 0,
        BuildStage::EnterTauriDir => 1,
        BuildStage::EnsureInit => 2,
        BuildStage::AnnounceCargo => 3,
        BuildStage::Cargo => 4,
        BuildStage::ProbeRoot => 5,
        BuildStage::ProbeParent => 6,
        BuildStage::CheckDir => 7,
        BuildStage::MakeLibDir => 8,
        BuildStage::ProbeLib => 9,
        BuildStage::ProbeWorkspaceLib => 10,
        BuildStage::CopyLib => 11,
        BuildStage::AnnounceLibCopy => 12,
        BuildStage::SdkHome => 13,
        BuildStage::ProbeRuntime => 14,
        BuildStage::CopyRuntime => 15,
        BuildStage::AnnounceRuntime => 16,
        BuildStage::CmdTools => 17,
        BuildStage::ProbeHvigorw => 18,
        BuildStage::Which => 19,
        BuildStage::AnnounceHvigor => 20,
        BuildStage::Hvigor => 21,
        BuildStage::Finished => 22,
    }
}

/// The kind of report each stage waits for.
pub open spec fn build_wants(s: BuildStage) -> Answer {
    match s {
        BuildStage::AwaitConfig => Answer::Resolution,
        BuildStage::EnterTauriDir => Answer::IoOutcome,
        BuildStage::EnsureInit => Answer::Outcome,
        BuildStage::AnnounceCargo => Answer::Ack,
        BuildStage::Cargo => Answer::Exit,
        BuildStage::ProbeRoot => Answer::Existence,
        BuildStage::ProbeParent => Answer::Existence,
        BuildStage::CheckDir => Answer::Existence,
        BuildStage::MakeLibDir => Answer::IoOutcome,
        BuildStage::ProbeLib => Answer::Existence,
        BuildStage::ProbeWorkspaceLib => Answer::Existence,
        BuildStage::CopyLib => Answer::IoOutcome,
        BuildStage::AnnounceLibCopy => Answer::Ack,
        BuildStage::SdkHome => Answer::EnvText,
        BuildStage::ProbeRuntime => Answer::Existence,
        BuildStage::CopyRuntime => Answer::IoOutcome,
        BuildStage::AnnounceRuntime => Answer::Ack,
        BuildStage::CmdTools => Answer::EnvText,
        BuildStage::ProbeHvigorw => Answer::Existence,
        BuildStage::Which => Answer::Search,
        BuildStage::AnnounceHvigor => Answer::Ack,
        BuildStage::Hvigor => Answer::Exit,
        BuildStage::Finished => Answer::Nothing,
    }
}

/// The value of a build in progress. Paths are held as they are written.
#[verifier::ext_equal]
pub struct BuildState {
    pub stage: BuildStage,
    pub options: OptionsView,
    pub noise_level: NoiseLevel,
    /// The app, once the configuration is resolved.
    pub app: AppView,
    /// The directory of the Tauri project (`src-tauri`).
    pub tauri_dir: Seq<char>,
    /// The OpenHarmony project directory being looked for, then the one used.
    pub project_dir: Seq<char>,
    /// The Rust library that is copied into the project.
    pub lib_source: Seq<char>,
    /// The value of `OHOS_BASE_SDK_HOME`.
    pub sdk_base: Seq<char>,
    /// Where `OHOS_CMD_TOOLS` puts hvigorw.
    pub hvigorw: Seq<char>,
    /// The hvigor program that is run.
    pub program: Seq<char>,
}

/// Where the native libraries go in the OpenHarmony project.
pub open spec fn lib_dest(s: BuildState) -> Seq<char> {
    push_text(s.project_dir, "entry/libs/arm64-v8a"@)
}

/// The file name of the Rust shared library.
pub open spec fn lib_file(s: BuildState) -> Seq<char> {
    "lib"@ + s.app.lib_name + ".so"@
}

/// Where cargo puts the library.
pub open spec fn lib_primary(s: BuildState) -> Seq<char> {
    push_text(push_text(s.tauri_dir, "target/aarch64-unknown-linux-ohos/release"@), lib_file(s))
}

/// Where cargo puts the library when the app is part of a larger workspace.
pub open spec fn lib_workspace(s: BuildState) -> Seq<char> {
    push_text(push_text(s.tauri_dir, "../../../target/aarch64-unknown-linux-ohos/release"@), lib_file(s))
}

/// Where the C++ runtime is in the OpenHarmony SDK.
pub open spec fn runtime_source(s: BuildState) -> Seq<char> {
    s.sdk_base + "/18/native/llvm/lib/aarch64-linux-ohos/c++/libc++_shared.so"@
}

/// The package that hvigor produces.
pub open spec fn hap_path(s: BuildState) -> Seq<char> {
    push_text(s.project_dir, "entry/build/default/outputs/default/entry-default-signed.hap"@)
}

pub open spec fn ask(r: RequestView) -> ActionView {
    ActionView::Request(r)
}

pub open spec fn say(text: Seq<char>) -> ActionView {
    ActionView::Request(RequestView::Print { text, to_stderr: false })
}

pub open spec fn generic_failure(text: Seq<char>) -> ActionView {
    ActionView::Fail(ErrorView::Generic(text))
}

pub open spec fn at(s: BuildState, stage: BuildStage) -> BuildState {
    BuildState { stage, ..s }
}

pub open spec fn empty_app() -> AppView {
    AppView { identifier: Seq::empty(), lib_name: Seq::empty(), root_dir: Seq::empty(), root_parent: None }
}

/// A build that has not resolved its configuration yet.
pub open spec fn build_initial(options: OptionsView, noise_level: NoiseLevel) -> BuildState {
    BuildState {
        stage: BuildStage::AwaitConfig,
        options,
        noise_level,
        app: empty_app(),
        tauri_dir: Seq::empty(),
        project_dir: Seq::empty(),
        lib_source: Seq::empty(),
        sdk_base: Seq::empty(),
        hvigorw: Seq::empty(),
        program: Seq::empty(),
    }
}

/// `build` starts by resolving the configuration for the OpenHarmony target.
pub open spec fn build_start(options: OptionsView, noise_level: NoiseLevel) -> (BuildState, ActionView) {
    (
        build_initial(options, noise_level),
        ask(RequestView::ResolveConfig { target_triple: ohos_triple(), config: options.config }),
    )
}

/// Once the app is resolved, the build enters the Tauri directory.
pub open spec fn build_resolved(
    options: OptionsView,
    noise_level: NoiseLevel,
    app: AppView,
    tauri_dir: Seq<char>,
) -> (BuildState, ActionView) {
    (
        BuildState {
            stage: BuildStage::EnterTauriDir,
            app,
            tauri_dir,
            ..build_initial(options, noise_level)
        },
        ask(RequestView::EnterDirectory { dir: tauri_dir }),
    )
}

/// Whether a build in state `s` takes the report `e`.
pub open spec fn build_accepts(s: BuildState, e: EventView) -> bool {
    answers(build_wants(s.stage), e)
}

/// One step of a build: the state after report `e`, and what to do next.
pub open spec fn build_next(s: BuildState, e: EventView) -> (BuildState, ActionView) {
    let done = at(s, BuildStage::Finished);
    let unexpected = (s, ActionView::Abort(Seq::empty()));
    match s.stage {
        BuildStage::AwaitConfig => match e {
            EventView::Failed(err) => (done, ActionView::Fail(err)),
            EventView::Resolved { app, tauri_dir } => build_resolved(
                s.options,
                s.noise_level,
                app,
                tauri_dir,
            ),
            _ => unexpected,
        },
        BuildStage::EnterTauriDir => match e {
            EventView::Done => (
                at(s, BuildStage::EnsureInit),
                ask(RequestView::EnsureInit { root_dir: s.app.root_dir, ci: s.options.ci }),
            ),
            EventView::IoFailed { detail, .. } => (
                done,
                ActionView::Abort("failed to set current directory to Tauri directory: "@ + detail),
            ),
            _ => unexpected,
        },
        BuildStage::EnsureInit => match e {
            EventView::Done => (at(s, BuildStage::AnnounceCargo), say("Running cargo build..."@)),
            EventView::Failed(err) => (done, ActionView::Fail(err)),
            _ => unexpected,
        },
        BuildStage::AnnounceCargo => match e {
            EventView::Done => (
                at(s, BuildStage::Cargo),
                ask(
                    RequestView::Run {
                        program: "cargo"@,
                        args: seq!["build"@, "--target"@, ohos_triple(), "--release"@],
                        cwd: None,
                    },
                ),
            ),
            _ => unexpected,
        },
        BuildStage::Cargo => match e {
            EventView::IoFailed { detail, .. } => (
                done,
                ActionView::Abort("Failed to execute cargo build: "@ + detail),
            ),
            EventView::Exited { success } => if success {
                let d = push_text(s.app.root_dir, "openharmony"@);
                (
                    BuildState { stage: BuildStage::ProbeRoot, project_dir: d, ..s },
                    ask(RequestView::Exists { path: d }),
                )
            } else {
                (done, generic_failure("Cargo build failed"@))
            },
            _ => unexpected,
        },
        BuildStage::ProbeRoot => match e {
            EventView::Exists(found) => if found {
                (at(s, BuildStage::CheckDir), ask(RequestView::Exists { path: s.project_dir }))
            } else {
                match s.app.root_parent {
                    Some(p) => {
                        let d = push_text(p, "openharmony"@);
                        (
                            BuildState { stage: BuildStage::ProbeParent, project_dir: d, ..s },
                            ask(RequestView::Exists { path: d }),
                        )
                    },
                    None => (
                        at(s, BuildStage::CheckDir),
                        ask(RequestView::Exists { path: s.project_dir }),
                    ),
                }
            },
            _ => unexpected,
        },
        BuildStage::ProbeParent => match e {
            EventView::Exists(found) => if found {
                (at(s, BuildStage::CheckDir), ask(RequestView::Exists { path: s.project_dir }))
            } else {
                let d = push_text(s.app.root_dir, "gen/openharmony"@);
                (
                    BuildState { stage: BuildStage::CheckDir, project_dir: d, ..s },
                    ask(RequestView::Exists { path: d }),
                )
            },
            _ => unexpected,
        },
        BuildStage::CheckDir => match e {
            EventView::Exists(found) => if found {
                (at(s, BuildStage::MakeLibDir), ask(RequestView::CreateDirAll { path: lib_dest(s) }))
            } else {
                (done, generic_failure("OpenHarmony project directory not found at "@ + s.project_dir))
            },
            _ => unexpected,
        },
        BuildStage::MakeLibDir => match e {
            EventView::Done => (at(s, BuildStage::ProbeLib), ask(RequestView::Exists { path: lib_primary(s) })),
            EventView::IoFailed { detail, .. } => (
                done,
                ActionView::Abort("Failed to create libs directory: "@ + detail),
            ),
            _ => unexpected,
        },
        BuildStage::ProbeLib => match e {
            EventView::Exists(found) => if found {
                (
                    BuildState { stage: BuildStage::CopyLib, lib_source: lib_primary(s), ..s },
                    ask(RequestView::Copy { from: lib_primary(s), to: push_text(lib_dest(s), lib_file(s)) }),
                )
            } else {
                (
                    at(s, BuildStage::ProbeWorkspaceLib),
                    ask(RequestView::Exists { path: lib_workspace(s) }),
                )
            },
            _ => unexpected,
        },
        BuildStage::ProbeWorkspaceLib => match e {
            EventView::Exists(found) => {
                let src = if found { lib_workspace(s) } else { lib_primary(s) };
                (
                    BuildState { stage: BuildStage::CopyLib, lib_source: src, ..s },
                    ask(RequestView::Copy { from: src, to: push_text(lib_dest(s), lib_file(s)) }),
                )
            },
            _ => unexpected,
        },
        BuildStage::CopyLib => match e {
            EventView::Done => (
                at(s, BuildStage::AnnounceLibCopy),
                say("Copied "@ + s.lib_source + " to "@ + lib_dest(s)),
            ),
            EventView::IoFailed { message, .. } => (done, generic_failure("Failed to copy lib: "@ + message)),
            _ => unexpected,
        },
        BuildStage::AnnounceLibCopy => match e {
            EventView::Done => (
                at(s, BuildStage::SdkHome),
                ask(RequestView::EnvText { name: "OHOS_BASE_SDK_HOME"@ }),
            ),
            _ => unexpected,
        },
        BuildStage::SdkHome => match e {
            EventView::Env(v) => match v {
                Ok(base) => {
                    let s2 = BuildState { stage: BuildStage::ProbeRuntime, sdk_base: base, ..s };
                    (s2, ask(RequestView::Exists { path: runtime_source(s2) }))
                },
                Err(why) => (done, ActionView::Abort("OHOS_BASE_SDK_HOME not set: "@ + why)),
            },
            _ => unexpected,
        },
        BuildStage::ProbeRuntime => match e {
            EventView::Exists(found) => if found {
                (
                    at(s, BuildStage::CopyRuntime),
                    ask(
                        RequestView::Copy {
                            from: runtime_source(s),
                            to: push_text(lib_dest(s), "libc++_shared.so"@),
                        },
                    ),
                )
            } else {
                (
                    at(s, BuildStage::AnnounceRuntime),
                    ask(
                        RequestView::Print {
                            text: "Warning: libc++_shared.so not found at "@ + runtime_source(s)
                                + ". Skipping copy."@,
                            to_stderr: true,
                        },
                    ),
                )
            },
            _ => unexpected,
        },
        BuildStage::CopyRuntime => match e {
            EventView::Done => (
                at(s, BuildStage::AnnounceRuntime),
                say("Copied libc++_shared.so to "@ + lib_dest(s)),
            ),
            EventView::IoFailed { detail, .. } => (
                done,
                ActionView::Abort("Failed to copy libc++_shared.so: "@ + detail),
            ),
            _ => unexpected,
        },
        BuildStage::AnnounceRuntime => match e {
            EventView::Done => (
                at(s, BuildStage::CmdTools),
                ask(RequestView::EnvText { name: "OHOS_CMD_TOOLS"@ }),
            ),
            _ => unexpected,
        },
        BuildStage::CmdTools => match e {
            EventView::Env(v) => match v {
                Ok(p) => {
                    let h = push_text(p, "bin/hvigorw"@);
                    (
                        BuildState { stage: BuildStage::ProbeHvigorw, hvigorw: h, ..s },
                        ask(RequestView::Exists { path: h }),
                    )
                },
                Err(_) => (at(s, BuildStage::Which), ask(RequestView::Which { program: "hvigorw"@ })),
            },
            _ => unexpected,
        },
        BuildStage::ProbeHvigorw => match e {
            EventView::Exists(found) => if found {
                (
                    BuildState { stage: BuildStage::AnnounceHvigor, program: s.hvigorw, ..s },
                    say("Running "@ + s.hvigorw + " assembleHap..."@),
                )
            } else {
                (at(s, BuildStage::Which), ask(RequestView::Which { program: "hvigorw"@ }))
            },
            _ => unexpected,
        },
        BuildStage::Which => match e {
            EventView::Found(found) => if found {
                (
                    BuildState { stage: BuildStage::AnnounceHvigor, program: "hvigorw"@, ..s },
                    say("Running "@ + "hvigorw"@ + " assembleHap..."@),
                )
            } else {
                (
                    done,
                    generic_failure(
                        "hvigorw not found. Please set OHOS_CMD_TOOLS or add hvigorw to your PATH."@,
                    ),
                )
            },
            _ => unexpected,
        },
        BuildStage::AnnounceHvigor => match e {
            EventView::Done => (
                at(s, BuildStage::Hvigor),
                ask(
                    RequestView::Run {
                        program: s.program,
                        args: seq!["assembleHap"@],
                        cwd: Some(s.project_dir),
                    },
                ),
            ),
            _ => unexpected,
        },
        BuildStage::Hvigor => match e {
            EventView::IoFailed { detail, .. } => (
                done,
                ActionView::Abort("Failed to execute hvigorw: "@ + detail),
            ),
            EventView::Exited { success } => if success {
                (done, ActionView::Built(hap_path(s)))
            } else {
                (done, generic_failure("OpenHarmony build failed"@))
            },
            _ => unexpected,
        },
        BuildStage::Finished => unexpected,
    }
}

/// A build of the app for OpenHarmony, between steps.
pub struct BuildSession {
    stage: BuildStage,
    options: Options,
    noise_level: NoiseLevel,
    app: AppInfo,
    tauri_dir: String,
    project_dir: String,
    lib_source: String,
    sdk_base: String,
    hvigorw: String,
    program: String,
}

impl View for BuildSession {
    type V = BuildState;

    closed spec fn view(&self) -> BuildState {
        BuildState {
            stage: self.stage,
            options: self.options@,
            noise_level: self.noise_level,
            app: self.app@,
            tauri_dir: self.tauri_dir@,
            project_dir: self.project_dir@,
            lib_source: self.lib_source@,
            sdk_base: self.sdk_base@,
            hvigorw: self.hvigorw@,
            program: self.program@,
        }
    }
}

fn lit(t: &str) -> (r: String)
    ensures
        r@ == t@,
{
    String::from_str(t)
}

fn print_action(text: String) -> (a: Action)
    ensures
        a@ == say(text@),
{
    Action::Request(Request::Print { text, to_stderr: false })
}

fn generic_fail(text: String) -> (a: Action)
    ensures
        a@ == generic_failure(text@),
{
    Action::Fail(Error::GenericError(text))
}

fn exists_action(path: &String) -> (a: Action)
    ensures
        a@ == ask(RequestView::Exists { path: path@ }),
{
    Action::Request(Request::Exists { path: path.clone() })
}

/// The text `prefix` followed by `rest`.
fn prefixed(prefix: &str, rest: &String) -> (r: String)
    ensures
        r@ == prefix@ + rest@,
{
    let mut t = String::from_str(prefix);
    t.append(rest.as_str());
    t
}

fn triple() -> (r: String)
    ensures
        r@ == ohos_triple(),
{
    String::from_str("aarch64-unknown-linux-ohos")
}

impl BuildSession {
    fn lib_dest(&self) -> (r: String)
        ensures
            r@ == lib_dest(self@),
    {
        join_text(self.project_dir.as_str(), "entry/libs/arm64-v8a")
    }

    fn lib_file(&self) -> (r: String)
        ensures
            r@ == lib_file(self@),
    {
        let mut t = String::from_str("lib");
        t.append(self.app.lib_name.as_str());
        t.append(".so");
        t
    }

    fn lib_target(&self) -> (r: String)
        ensures
            r@ == push_text(lib_dest(self@), lib_file(self@)),
    {
        let d = self.lib_dest();
        let f = self.lib_file();
        join_text(d.as_str(), f.as_str())
    }

    fn lib_primary(&self) -> (r: String)
        ensures
            r@ == lib_primary(self@),
    {
        let d = join_text(self.tauri_dir.as_str(), "target/aarch64-unknown-linux-ohos/release");
        let f = self.lib_file();
        join_text(d.as_str(), f.as_str())
    }

    fn lib_workspace(&self) -> (r: String)
        ensures
            r@ == lib_workspace(self@),
    {
        let d = join_text(self.tauri_dir.as_str(), "../../../target/aarch64-unknown-linux-ohos/release");
        let f = self.lib_file();
        join_text(d.as_str(), f.as_str())
    }

    fn runtime_source(&self) -> (r: String)
        ensures
            r@ == runtime_source(self@),
    {
        let mut t = self.sdk_base.clone();
        t.append("/18/native/llvm/lib/aarch64-linux-ohos/c++/libc++_shared.so");
        t
    }

    fn hap_path(&self) -> (r: String)
        ensures
            r@ == hap_path(self@),
    {
        join_text(self.project_dir.as_str(), "entry/build/default/outputs/default/entry-default-signed.hap")
    }

    /// The kind of report this build waits for.
    pub fn wants(&self) -> (k: Answer)
        ensures
            k == build_wants(self@.stage),
    {
        match self.stage {
            BuildStage::AwaitConfig => Answer::Resolution,
            BuildStage::EnterTauriDir => Answer::IoOutcome,
            BuildStage::EnsureInit => Answer::Outcome,
            BuildStage::AnnounceCargo => Answer::Ack,
            BuildStage::Cargo => Answer::Exit,
            BuildStage::ProbeRoot => Answer::Existence,
            BuildStage::ProbeParent => Answer::Existence,
            BuildStage::CheckDir => Answer::Existence,
            BuildStage::MakeLibDir => Answer::IoOutcome,
            BuildStage::ProbeLib => Answer::Existence,
            BuildStage::ProbeWorkspaceLib => Answer::Existence,
            BuildStage::CopyLib => Answer::IoOutcome,
            BuildStage::AnnounceLibCopy => Answer::Ack,
            BuildStage::SdkHome => Answer::EnvText,
            BuildStage::ProbeRuntime => Answer::Existence,
            BuildStage::CopyRuntime => Answer::IoOutcome,
            BuildStage::AnnounceRuntime => Answer::Ack,
            BuildStage::CmdTools => Answer::EnvText,
            BuildStage::ProbeHvigorw => Answer::Existence,
            BuildStage::Which => Answer::Search,
            BuildStage::AnnounceHvigor => Answer::Ack,
            BuildStage::Hvigor => Answer::Exit,
            BuildStage::Finished => Answer::Nothing,
        }
    }

    /// Whether this build takes the report `e` now.
    pub fn accepts(&self, e: &Event) -> (r: bool)
        ensures
            r == build_accepts(self@, e@),
    {
        answers_exec(self.wants(), e)
    }

    fn finish(&mut self)
        ensures
            final(self)@ == at(old(self)@, BuildStage::Finished),
    {
        self.stage = BuildStage::Finished;
    }

    /// One step of the build: takes the report of the last request and
    /// yields what to do next.
    pub fn step(&mut self, event: Event) -> (a: Action)
        requires
            build_accepts(old(self)@, event@),
        ensures
            final(self)@ == build_next(old(self)@, event@).0,
            a@ == build_next(old(self)@, event@).1,
    {
        match self.stage {
            BuildStage::AwaitConfig => match event {
                Event::Failed(err) => {
                    self.finish();
                    Action::Fail(err)
                },
                Event::Resolved { app, tauri_dir } => {
                    let action = Action::Request(Request::EnterDirectory { dir: tauri_dir.clone() });
                    self.stage = BuildStage::EnterTauriDir;
                    self.app = app;
                    self.tauri_dir = tauri_dir;
                    self.project_dir = String::new();
                    self.lib_source = String::new();
                    self.sdk_base = String::new();
                    self.hvigorw = String::new();
                    self.program = String::new();
                    action
                },
                _ => {
                    proof { assert(false); }
                    Action::Abort(String::new())
                },
            },
            BuildStage::EnterTauriDir => match event {
                Event::Done => {
                    self.stage = BuildStage::EnsureInit;
                    Action::Request(Request::EnsureInit { root_dir: self.app.root_dir.clone(), ci: self.options.ci })
                },
                Event::IoFailed { detail, .. } => {
                    self.finish();
                    Action::Abort(prefixed("failed to set current directory to Tauri directory: ", &detail))
                },
                _ => {
                    proof { assert(false); }
                    Action::Abort(String::new())
                },
            },
            BuildStage::EnsureInit => match event {
                Event::Done => {
                    self.stage = BuildStage::AnnounceCargo;
                    print_action(lit("Running cargo build..."))
                },
                Event::Failed(err) => {
                    self.finish();
                    Action::Fail(err)
                },
                _ => {
                    proof { assert(false); }
                    Action::Abort(String::new())
                },
            },
            BuildStage::AnnounceCargo => {
                self.stage = BuildStage::Cargo;
                let mut args: Vec<String> = Vec::new();
                args.push(lit("build"));
                args.push(lit("--target"));
                args.push(triple());
                args.push(lit("--release"));
                assert(texts(args@) =~= seq!["build"@, "--target"@, ohos_triple(), "--release"@]);
                Action::Request(Request::Run { program: lit("cargo"), args, cwd: None })
            },
            BuildStage::Cargo => match event {
                Event::IoFailed { detail, .. } => {
                    self.finish();
                    Action::Abort(prefixed("Failed to execute cargo build: ", &detail))
                },
                Event::Exited { success } => {
                    if success {
                        let d = join_text(self.app.root_dir.as_str(), "openharmony");
                        let a = exists_action(&d);
                        self.project_dir = d;
                        self.stage = BuildStage::ProbeRoot;
                        a
                    } else {
                        self.finish();
                        generic_fail(lit("Cargo build failed"))
                    }
                },
                _ => {
                    proof { assert(false); }
                    Action::Abort(String::new())
                },
            },
            BuildStage::ProbeRoot => match event {
                Event::Exists(found) => {
                    if found {
                        self.stage = BuildStage::CheckDir;
                        exists_action(&self.project_dir)
                    } else {
                        match &self.app.root_parent {
                            Some(p) => {
                                let d = join_text(p.as_str(), "openharmony");
                                let a = exists_action(&d);
                                self.project_dir = d;
                                self.stage = BuildStage::ProbeParent;
                                a
                            },
                            None => {
                                self.stage = BuildStage::CheckDir;
                                exists_action(&self.project_dir)
                            },
                        }
                    }
                },
                _ => {
                    proof { assert(false); }
                    Action::Abort(String::new())
                },
            },
            BuildStage::ProbeParent => match event {
                Event::Exists(found) => {
                    if found {
                        self.stage = BuildStage::CheckDir;
                        exists_action(&self.project_dir)
                    } else {
                        let d = join_text(self.app.root_dir.as_str(), "gen/openharmony");
                        let a = exists_action(&d);
                        self.project_dir = d;
                        self.stage = BuildStage::CheckDir;
                        a
                    }
                },
                _ => {
                    proof { assert(false); }
                    Action::Abort(String::new())
                },
            },
            BuildStage::CheckDir => match event {
                Event::Exists(found) => {
                    if found {
                        self.stage = BuildStage::MakeLibDir;
                        Action::Request(Request::CreateDirAll { path: self.lib_dest() })
                    } else {
                        self.finish();
                        generic_fail(prefixed("OpenHarmony project directory not found at ", &self.project_dir))
                    }
                },
                _ => {
                    proof { assert(false); }
                    Action::Abort(String::new())
                },
            },
            BuildStage::MakeLibDir => match event {
                Event::Done => {
                    self.stage = BuildStage::ProbeLib;
                    let p = self.lib_primary();
                    exists_action(&p)
                },
                Event::IoFailed { detail, .. } => {
                    self.finish();
                    Action::Abort(prefixed("Failed to create libs directory: ", &detail))
                },
                _ => {
                    proof { assert(false); }
                    Action::Abort(String::new())
                },
            },
            BuildStage::ProbeLib => match event {
                Event::Exists(found) => {
                    if found {
                        let src = self.lib_primary();
                        let to = self.lib_target();
                        let a = Action::Request(Request::Copy { from: src.clone(), to });
                        self.lib_source = src;
                        self.stage = BuildStage::CopyLib;
                        a
                    } else {
                        self.stage = BuildStage::ProbeWorkspaceLib;
                        let w = self.lib_workspace();
                        exists_action(&w)
                    }
                },
                _ => {
                    proof { assert(false); }
                    Action::Abort(String::new())
                },
            },
            BuildStage::ProbeWorkspaceLib => match event {
                Event::Exists(found) => {
                    let src = if found { self.lib_workspace() } else { self.lib_primary() };
                    let to = self.lib_target();
                    let a = Action::Request(Request::Copy { from: src.clone(), to });
                    self.lib_source = src;
                    self.stage = BuildStage::CopyLib;
                    a
                },
                _ => {
                    proof { assert(false); }
                    Action::Abort(String::new())
                },
            },
            BuildStage::CopyLib => match event {
                Event::Done => {
                    let mut t = lit("Copied ");
                    t.append(self.lib_source.as_str());
                    t.append(" to ");
                    let to = self.lib_dest();
                    t.append(to.as_str());
                    self.stage = BuildStage::AnnounceLibCopy;
                    print_action(t)
                },
                Event::IoFailed { message, .. } => {
                    self.finish();
                    generic_fail(prefixed("Failed to copy lib: ", &message))
                },
                _ => {
                    proof { assert(false); }
                    Action::Abort(String::new())
                },
            },
            BuildStage::AnnounceLibCopy => {
                self.stage = BuildStage::SdkHome;
                Action::Request(Request::EnvText { name: lit("OHOS_BASE_SDK_HOME") })
            },
            BuildStage::SdkHome => match event {
                Event::Env(v) => match v {
                    Ok(base) => {
                        self.sdk_base = base;
                        self.stage = BuildStage::ProbeRuntime;
                        let src = self.runtime_source();
                        exists_action(&src)
                    },
                    Err(why) => {
                        self.finish();
                        Action::Abort(prefixed("OHOS_BASE_SDK_HOME not set: ", &why))
                    },
                },
                _ => {
                    proof { assert(false); }
                    Action::Abort(String::new())
                },
            },
            BuildStage::ProbeRuntime => match event {
                Event::Exists(found) => {
                    if found {
                        let d = self.lib_dest();
                        let to = join_text(d.as_str(), "libc++_shared.so");
                        self.stage = BuildStage::CopyRuntime;
                        Action::Request(Request::Copy { from: self.runtime_source(), to })
                    } else {
                        let mut t = lit("Warning: libc++_shared.so not found at ");
                        let src = self.runtime_source();
                        t.append(src.as_str());
                        t.append(". Skipping copy.");
                        self.stage = BuildStage::AnnounceRuntime;
                        Action::Request(Request::Print { text: t, to_stderr: true })
                    }
                },
                _ => {
                    proof { assert(false); }
                    Action::Abort(String::new())
                },
            },
            BuildStage::CopyRuntime => match event {
                Event::Done => {
                    let shown = self.lib_dest();
                    self.stage = BuildStage::AnnounceRuntime;
                    print_action(prefixed("Copied libc++_shared.so to ", &shown))
                },
                Event::IoFailed { detail, .. } => {
                    self.finish();
                    Action::Abort(prefixed("Failed to copy libc++_shared.so: ", &detail))
                },
                _ => {
                    proof { assert(false); }
                    Action::Abort(String::new())
                },
            },
            BuildStage::AnnounceRuntime => {
                self.stage = BuildStage::CmdTools;
                Action::Request(Request::EnvText { name: lit("OHOS_CMD_TOOLS") })
            },
            BuildStage::CmdTools => match event {
                Event::Env(v) => match v {
                    Ok(p) => {
                        let h = join_text(p.as_str(), "bin/hvigorw");
                        let a = exists_action(&h);
                        self.hvigorw = h;
                        self.stage = BuildStage::ProbeHvigorw;
                        a
                    },
                    Err(_) => {
                        self.stage = BuildStage::Which;
                        Action::Request(Request::Which { program: lit("hvigorw") })
                    },
                },
                _ => {
                    proof { assert(false); }
                    Action::Abort(String::new())
                },
            },
            BuildStage::ProbeHvigorw => match event {
                Event::Exists(found) => {
                    if found {
                        let prog = self.hvigorw.clone();
                        let mut t = lit("Running ");
                        t.append(prog.as_str());
                        t.append(" assembleHap...");
                        self.program = prog;
                        self.stage = BuildStage::AnnounceHvigor;
                        print_action(t)
                    } else {
                        self.stage = BuildStage::Which;
                        Action::Request(Request::Which { program: lit("hvigorw") })
                    }
                },
                _ => {
                    proof { assert(false); }
                    Action::Abort(String::new())
                },
            },
            BuildStage::Which => match event {
                Event::Found(found) => {
                    if found {
                        let prog = lit("hvigorw");
                        let mut t = lit("Running ");
                        t.append(prog.as_str());
                        t.append(" assembleHap...");
                        self.program = prog;
                        self.stage = BuildStage::AnnounceHvigor;
                        print_action(t)
                    } else {
                        self.finish();
                        generic_fail(lit("hvigorw not found. Please set OHOS_CMD_TOOLS or add hvigorw to your PATH."))
                    }
                },
                _ => {
                    proof { assert(false); }
                    Action::Abort(String::new())
                },
            },
            BuildStage::AnnounceHvigor => {
                self.stage = BuildStage::Hvigor;
                let mut args: Vec<String> = Vec::new();
                args.push(lit("assembleHap"));
                assert(texts(args@) =~= seq!["assembleHap"@]);
                Action::Request(Request::Run {
                    program: self.program.clone(),
                    args,
                    cwd: Some(self.project_dir.clone()),
                })
            },
            BuildStage::Hvigor => match event {
                Event::IoFailed { detail, .. } => {
                    self.finish();
                    Action::Abort(prefixed("Failed to execute hvigorw: ", &detail))
                },
                Event::Exited { success } => {
                    if success {
                        let hap = self.hap_path();
                        self.finish();
                        Action::Built(hap)
                    } else {
                        self.finish();
                        generic_fail(lit("OpenHarmony build failed"))
                    }
                },
                _ => {
                    proof { assert(false); }
                    Action::Abort(String::new())
                },
            },
            BuildStage::Finished => {
                proof { assert(false); }
                Action::Abort(String::new())
            },
        }
    }
}

/// Starts `build`: the first request resolves the configuration for the
/// OpenHarmony target with the `--config` values of `options`.
pub fn command(options: Options, noise_level: NoiseLevel) -> (r: (BuildSession, Action))
    ensures
        r.0@ == build_start(options@, noise_level).0,
        r.1@ == build_start(options@, noise_level).1,
{
    let action = Action::Request(Request::ResolveConfig {
        target_triple: triple(),
        config: copy_configs(&options.config),
    });
    let session = BuildSession {
        stage: BuildStage::AwaitConfig,
        options,
        noise_level,
        app: AppInfo {
            identifier: String::new(),
            lib_name: String::new(),
            root_dir: String::new(),
            root_parent: None,
        },
        tauri_dir: String::new(),
        project_dir: String::new(),
        lib_source: String::new(),
        sdk_base: String::new(),
        hvigorw: String::new(),
        program: String::new(),
    };
    (session, action)
}

/// Continues a build whose configuration is already resolved: the first
/// request enters the Tauri directory.
pub fn run(options: Options, noise_level: NoiseLevel, app: AppInfo, tauri_dir: String) -> (r: (BuildSession, Action))
    ensures
        r.0@ == build_resolved(options@, noise_level, app@, tauri_dir@).0,
        r.1@ == build_resolved(options@, noise_level, app@, tauri_dir@).1,
{
    let action = Action::Request(Request::EnterDirectory { dir: tauri_dir.clone() });
    let session = BuildSession {
        stage: BuildStage::EnterTauriDir,
        options,
        noise_level,
        app,
        tauri_dir,
        project_dir: String::new(),
        lib_source: String::new(),
        sdk_base: String::new(),
        hvigorw: String::new(),
        program: String::new(),
    };
    (session, action)
}

/// The three places where the OpenHarmony project is looked for: beside the
/// app sources, beside the app root, and in the app's `gen` directory.
pub open spec fn project_dir_candidate(app: AppView, dir: Seq<char>) -> bool {
    ||| dir == push_text(app.root_dir, "openharmony"@)
    ||| (app.root_parent matches Some(p) && dir == push_text(p, "openharmony"@))
    ||| dir == push_text(app.root_dir, "gen/openharmony"@)
}

/// What holds of a build at every stage.
pub open spec fn build_wf(s: BuildState) -> bool {
    &&& s.stage == BuildStage::ProbeRoot ==> s.project_dir == push_text(s.app.root_dir, "openharmony"@)
    &&& s.stage == BuildStage::ProbeParent ==> (s.app.root_parent matches Some(p) && s.project_dir
        == push_text(p, "openharmony"@))
    &&& build_rank(BuildStage::ProbeRoot) < build_rank(s.stage) < build_rank(BuildStage::Finished) ==>
        project_dir_candidate(s.app, s.project_dir)
    &&& build_rank(BuildStage::ProbeWorkspaceLib) < build_rank(s.stage) < build_rank(BuildStage::Finished) ==> (s.lib_source == lib_primary(s)
        || s.lib_source == lib_workspace(s))
    &&& build_rank(BuildStage::Which) < build_rank(s.stage) < build_rank(BuildStage::Finished) ==> (s.program == "hvigorw"@ || s.program
        == s.hvigorw)
}

/// A build starts, and continues after its configuration is resolved, in a
/// state where its invariant holds.
pub proof fn build_starts_well(
    options: OptionsView,
    noise_level: NoiseLevel,
    app: AppView,
    tauri_dir: Seq<char>,
)
    ensures
        build_wf(build_start(options, noise_level).0),
        build_wf(build_resolved(options, noise_level, app, tauri_dir).0),
{
}

/// Every step keeps the build invariant: the project directory used is
/// always one of the three places looked at, the library copied is the one
/// cargo built for OpenHarmony (in the app or in its workspace), and the
/// hvigor that runs is the one under `OHOS_CMD_TOOLS` or the one on the
/// search path.
pub proof fn build_step_keeps_wf(s: BuildState, e: EventView)
    requires
        build_wf(s),
        build_accepts(s, e),
    ensures
        build_wf(build_next(s, e).0),
{
}

/// Every report a build takes moves it strictly forward through its stages,
/// so it ends after a bounded number of steps; a step that ends it (with a
/// package, a failure or an abort) leaves it finished, and a finished build
/// takes no more reports.
pub proof fn build_moves_forward(s: BuildState, e: EventView)
    requires
        build_accepts(s, e),
    ensures
        build_rank(build_next(s, e).0.stage) > build_rank(s.stage),
        !(build_next(s, e).1 is Request) <==> build_next(s, e).0.stage == BuildStage::Finished,
        forall|e2: EventView|
            build_next(s, e).0.stage == BuildStage::Finished ==> !build_accepts(build_next(s, e).0, e2),
{
}

/// What a build asks for is always answered by the kind of report its next
/// stage waits for.
pub proof fn build_asks_what_it_waits_for(s: BuildState, e: EventView)
    requires
        build_accepts(s, e),
        build_next(s, e).1 is Request,
    ensures
        expected_answer(build_next(s, e).1) == build_wants(build_next(s, e).0.stage),
{
}

/// A build succeeds only when hvigor exits successfully, and then with the
/// signed package inside the project directory it used, which is one of the
/// three places looked at.
pub proof fn build_output_location(s: BuildState, e: EventView)
    requires
        build_wf(s),
        build_accepts(s, e),
        build_next(s, e).1 is Built,
    ensures
        s.stage == BuildStage::Hvigor,
        e == (EventView::Exited { success: true }),
        build_next(s, e).1 == ActionView::Built(hap_path(s)),
        project_dir_candidate(s.app, s.project_dir),
{
}

/// Once the configuration is resolved the app stays the same, and so do
/// the options the build was started with.
pub proof fn build_keeps_app(s: BuildState, e: EventView)
    requires
        build_accepts(s, e),
        s.stage != BuildStage::AwaitConfig,
    ensures
        build_next(s, e).0.app == s.app,
        build_next(s, e).0.tauri_dir == s.tauri_dir,
        build_next(s, e).0.options == s.options,
{
}


/// A successful build yields the signed package inside the project
/// directory that hvigor ran in: the `Run` request that starts hvigor has
/// that directory as its working directory, and the package a successful
/// hvigor run yields is that same directory joined with
/// `entry/build/default/outputs/default/entry-default-signed.hap`.
pub proof fn build_package_is_in_hvigor_dir(s: BuildState, e: EventView)
    requires
        build_accepts(s, e),
        build_next(s, e).1 is Built,
    ensures
        build_next(s, e).1 == ActionView::Built(
            push_text(s.project_dir, "entry/build/default/outputs/default/entry-default-signed.hap"@),
        ),
        s.stage == BuildStage::Hvigor,
{
}

/// The two steps that run hvigor: announcing it leads to a `Run` request
/// whose working directory is the project directory, and when that run
/// succeeds the build yields the signed package inside exactly that
/// working directory.
pub proof fn hvigor_run_and_package_agree(s: BuildState)
    requires
        s.stage == BuildStage::AnnounceHvigor,
    ensures
        ({
            let (s1, a1) = build_next(s, EventView::Done);
            let (s2, a2) = build_next(s1, EventView::Exited { success: true });
            &&& a1 matches ActionView::Request(RequestView::Run { cwd: Some(dir), .. })
            &&& a1 matches ActionView::Request(RequestView::Run { cwd: Some(dir), .. }) ==> a2
                == ActionView::Built(
                push_text(dir, "entry/build/default/outputs/default/entry-default-signed.hap"@),
            )
        }),
{
}

} // verus!
