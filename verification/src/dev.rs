//! `dev`: build the app, install it on the connected device, start it and
//! follow its log.
use vstd::prelude::*;
use crate::builder::{self, BuildSession, BuildStage, BuildState, OptionsView, build_initial, build_next, build_accepts, ohos_triple, say, build_wf, build_rank, hap_path, project_dir_candidate, build_step_keeps_wf, build_moves_forward, build_keeps_app, build_output_location, build_asks_what_it_waits_for};
use crate::error::{Error, ErrorView};
use crate::noise::NoiseLevel;
use crate::workflow::{ConfigValue, configs_view, texts, Request, RequestView, Event, EventView, Action, ActionView, answers, Answer, expected_answer};

verus! {

/// Options of the `dev` command.
#[derive(Debug, Clone, PartialEq, Eq)]
pub struct Options {
    /// Builds with the debug flag
    pub debug: bool,
    /// List of cargo features to activate
    pub features: Option<Vec<String>>,
    /// JSON strings or paths to JSON, JSON5 or TOML files to merge with the default configuration file
    pub config: Vec<ConfigValue>,
    /// Skip prompting for values
    pub ci: bool,
    /// Command line arguments passed to the runner.
    pub args: Vec<String>,
}

impl View for Options {
    type V = OptionsView;

    open spec fn view(&self) -> OptionsView {
        OptionsView {
            debug: self.debug,
            features: builder::opt_texts(self.features),
            config: configs_view(self.config@),
            ci: self.ci,
            args: texts(self.args@),
        }
    }
}

/// The shell script that installs the package, clears the device log,
/// starts the app's entry ability, finds its process and follows its log.
pub open spec fn deploy_script(hap: Seq<char>, identifier: Seq<char>, grep: Seq<char>) -> Seq<char> {
    "\nhdc install "@ + hap + " && \\\nhdc shell hilog -r && \\\nhdc shell aa start -a EntryAbility -b "@
        + identifier + " && \\\npid=$(timeout 0.5 hdc track-jpid | awk '$2==\""@ + identifier
        + "\"{print $1}') && \\\nhdc shell hilog -P \"$pid\""@ + grep
}

/// The device script for a package, a bundle identifier and a log filter.
pub fn deploy_command(hap: &str, identifier: &str, grep: &str) -> (r: String)
    ensures
        r@ == deploy_script(hap@, identifier@, grep@),
{
    let mut t = String::from_str("\nhdc install ");
    t.append(hap);
    t.append(" && \\\nhdc shell hilog -r && \\\nhdc shell aa start -a EntryAbility -b ");
    t.append(identifier);
    t.append(" && \\\npid=$(timeout 0.5 hdc track-jpid | awk '$2==\"");
    t.append(identifier);
    t.append("\"{print $1}') && \\\nhdc shell hilog -P \"$pid\"");
    t.append(grep);
    t
}

/// Where a `dev` run stands.
#[derive(Clone, Copy, Debug, PartialEq, Eq, Structural)]
pub enum DevStage {
    /// Resolving the configuration and building the package.
    Building,
    /// The package is built; announcing the deployment.
    AnnounceDeploy,
    /// The device script runs.
    Deploying,
    Finished,
}

/// The value of a `dev` run in progress.
#[verifier::ext_equal]
pub struct DevState {
    pub stage: DevStage,
    /// The bundle identifier of the app, once resolved.
    pub identifier: Seq<char>,
    /// The package, once built, as its path is displayed.
    pub hap: Seq<char>,
    /// The build that `dev` runs first.
    pub build: BuildState,
}

/// `dev` starts as a build does: by resolving the configuration for the
/// OpenHarmony target.
pub open spec fn dev_start(options: OptionsView, noise_level: NoiseLevel) -> (DevState, ActionView) {
    (
        DevState {
            stage: DevStage::Building,
            identifier: Seq::empty(),
            hap: Seq::empty(),
            build: build_initial(options, noise_level),
        },
        ActionView::Request(RequestView::ResolveConfig { target_triple: ohos_triple(), config: options.config }),
    )
}

/// Whether a `dev` run in state `s` takes the report `e`.
pub open spec fn dev_accepts(s: DevState, e: EventView) -> bool {
    match s.stage {
        DevStage::Building => build_accepts(s.build, e),
        DevStage::AnnounceDeploy => answers(Answer::Ack, e),
        DevStage::Deploying => answers(Answer::Exit, e),
        DevStage::Finished => false,
    }
}

/// One step of `dev`: while building, the build decides; a built package is
/// installed and started with the device script; a failed or aborted build
/// ends `dev` the same way.
pub open spec fn dev_next(s: DevState, e: EventView) -> (DevState, ActionView) {
    match s.stage {
        DevStage::Building => {
            let (b, a) = build_next(s.build, e);
            let identifier = match e {
                EventView::Resolved { app, .. } => app.identifier,
                _ => s.identifier,
            };
            let s2 = DevState { identifier, build: b, ..s };
            match a {
                ActionView::Built(p) => (
                    DevState { stage: DevStage::AnnounceDeploy, hap: p, ..s2 },
                    say("Deploying and running OpenHarmony project..."@),
                ),
                ActionView::Request(_) => (s2, a),
                _ => (DevState { stage: DevStage::Finished, ..s2 }, a),
            }
        },
        DevStage::AnnounceDeploy => (
            DevState { stage: DevStage::Deploying, ..s },
            ActionView::Request(
                RequestView::Run {
                    program: "sh"@,
                    args: seq!["-c"@, deploy_script(s.hap, s.identifier, Seq::empty())],
                    cwd: None,
                },
            ),
        ),
        DevStage::Deploying => {
            let done = DevState { stage: DevStage::Finished, ..s };
            match e {
                EventView::IoFailed { detail, .. } => (
                    done,
                    ActionView::Abort("Failed to execute device command: "@ + detail),
                ),
                EventView::Exited { success } => if success {
                    (done, ActionView::Deployed)
                } else {
                    (done, ActionView::Fail(ErrorView::Generic("Device command failed"@)))
                },
                _ => (s, ActionView::Abort(Seq::empty())),
            }
        },
        DevStage::Finished => (s, ActionView::Abort(Seq::empty())),
    }
}

/// A `dev` run, between steps.
pub struct DevSession {
    stage: DevStage,
    identifier: String,
    hap: String,
    build: BuildSession,
}

impl View for DevSession {
    type V = DevState;

    closed spec fn view(&self) -> DevState {
        DevState { stage: self.stage, identifier: self.identifier@, hap: self.hap@, build: self.build@ }
    }
}

/// The build options that `dev` builds with: the same switches, features,
/// configuration and runner arguments.
pub fn build_options(options: Options) -> (b: builder::Options)
    ensures
        b@ == options@,
{
    builder::Options {
        debug: options.debug,
        features: options.features,
        config: options.config,
        ci: options.ci,
        args: options.args,
    }
}

/// Starts `dev`.
pub fn command(options: Options, noise_level: NoiseLevel) -> (r: (DevSession, Action))
    ensures
        r.0@ == dev_start(options@, noise_level).0,
        r.1@ == dev_start(options@, noise_level).1,
        r.1@ == ActionView::Request(
            RequestView::ResolveConfig {
                target_triple: "aarch64-unknown-linux-ohos"@,
                config: configs_view(options.config@),
            },
        ),
{
    let (build, action) = builder::command(build_options(options), noise_level);
    (DevSession { stage: DevStage::Building, identifier: String::new(), hap: String::new(), build }, action)
}

impl DevSession {
    /// Whether this run takes the report `e` now.
    pub fn accepts(&self, e: &Event) -> (r: bool)
        ensures
            r == dev_accepts(self@, e@),
    {
        match self.stage {
            DevStage::Building => self.build.accepts(e),
            DevStage::AnnounceDeploy => matches!(e, Event::Done),
            DevStage::Deploying => matches!(e, Event::Exited { .. } | Event::IoFailed { .. }),
            DevStage::Finished => false,
        }
    }

    /// One step of `dev`: takes the report of the last request and yields
    /// what to do next.
    pub fn step(&mut self, event: Event) -> (a: Action)
        requires
            dev_accepts(old(self)@, event@),
        ensures
            final(self)@ == dev_next(old(self)@, event@).0,
            a@ == dev_next(old(self)@, event@).1,
    {
        match self.stage {
            DevStage::Building => {
                let identifier = match &event {
                    Event::Resolved { app, .. } => Some(app.identifier.clone()),
                    _ => None,
                };
                let a = self.build.step(event);
                match identifier {
                    Some(id) => self.identifier = id,
                    None => {},
                }
                match a {
                    Action::Built(p) => {
                        self.hap = p;
                        self.stage = DevStage::AnnounceDeploy;
                        Action::Request(Request::Print {
                            text: String::from_str("Deploying and running OpenHarmony project..."),
                            to_stderr: false,
                        })
                    },
                    Action::Request(r) => Action::Request(r),
                    other => {
                        self.stage = DevStage::Finished;
                        other
                    },
                }
            },
            DevStage::AnnounceDeploy => {
                self.stage = DevStage::Deploying;
                let mut args: Vec<String> = Vec::new();
                args.push(String::from_str("-c"));
                args.push(deploy_command(self.hap.as_str(), self.identifier.as_str(), ""));
                proof {
                    reveal_strlit("");
                }
                assert(texts(args@) =~= seq!["-c"@, deploy_script(self.hap@, self.identifier@, Seq::empty())]);
                Action::Request(Request::Run { program: String::from_str("sh"), args, cwd: None })
            },
            DevStage::Deploying => {
                self.stage = DevStage::Finished;
                match event {
                    Event::IoFailed { detail, .. } => {
                        let mut t = String::from_str("Failed to execute device command: ");
                        t.append(detail.as_str());
                        Action::Abort(t)
                    },
                    Event::Exited { success } => {
                        if success {
                            Action::Deployed
                        } else {
                            Action::Fail(Error::GenericError(String::from_str("Device command failed")))
                        }
                    },
                    _ => {
                        proof { assert(false); }
                        Action::Abort(String::new())
                    },
                }
            },
            DevStage::Finished => {
                proof { assert(false); }
                Action::Abort(String::new())
            },
        }
    }
}

/// What holds of a `dev` run at every stage: while building, the build's
/// invariant holds and the identifier is the resolved app's; once the
/// package is built, it is the signed package of the project directory the
/// build used.
pub open spec fn dev_wf(s: DevState) -> bool {
    &&& s.stage == DevStage::Building ==> {
        &&& build_wf(s.build)
        &&& s.build.stage != BuildStage::Finished
        &&& s.build.stage != BuildStage::AwaitConfig ==> s.identifier == s.build.app.identifier
    }
    &&& (s.stage == DevStage::AnnounceDeploy || s.stage == DevStage::Deploying) ==> {
        &&& s.identifier == s.build.app.identifier
        &&& s.hap == hap_path(s.build)
        &&& project_dir_candidate(s.build.app, s.build.project_dir)
    }
}

/// A `dev` run starts in a state where its invariant holds.
pub proof fn dev_starts_well(options: OptionsView, noise_level: NoiseLevel)
    ensures
        dev_wf(dev_start(options, noise_level).0),
{
}

/// Every step keeps the invariant of `dev`.
pub proof fn dev_step_keeps_wf(s: DevState, e: EventView)
    requires
        dev_wf(s),
        dev_accepts(s, e),
    ensures
        dev_wf(dev_next(s, e).0),
{
    if s.stage == DevStage::Building {
        build_step_keeps_wf(s.build, e);
        build_moves_forward(s.build, e);
        if s.build.stage != BuildStage::AwaitConfig {
            build_keeps_app(s.build, e);
        }
        if build_next(s.build, e).1 is Built {
            build_output_location(s.build, e);
        }
    }
}

/// `dev` announces the deployment only right after its build succeeded:
/// hvigor exited successfully and the build yielded its signed package.
pub proof fn dev_deploys_only_after_build(s: DevState, e: EventView)
    requires
        dev_accepts(s, e),
        s.stage != DevStage::AnnounceDeploy,
        dev_next(s, e).0.stage == DevStage::AnnounceDeploy,
    ensures
        s.stage == DevStage::Building,
        s.build.stage == BuildStage::Hvigor,
        e == (EventView::Exited { success: true }),
        build_next(s.build, e).1 == ActionView::Built(hap_path(s.build)),
        dev_next(s, e).0.hap == hap_path(s.build),
{
}

/// The device script that `dev` runs installs the package its build made and
/// starts the app by its resolved bundle identifier.
pub proof fn dev_deploys_built_package(s: DevState, e: EventView)
    requires
        dev_wf(s),
        dev_accepts(s, e),
        s.stage == DevStage::AnnounceDeploy,
    ensures
        dev_next(s, e).1 == ActionView::Request(
            RequestView::Run {
                program: "sh"@,
                args: seq![
                    "-c"@,
                    deploy_script(hap_path(s.build), s.build.app.identifier, Seq::empty()),
                ],
                cwd: None,
            },
        ),
{
}

/// `dev` fails or aborts exactly when and as its build does.
pub proof fn dev_fails_as_build_fails(s: DevState, e: EventView)
    requires
        s.stage == DevStage::Building,
        dev_accepts(s, e),
        build_next(s.build, e).1 is Fail || build_next(s.build, e).1 is Abort,
    ensures
        dev_next(s, e).1 == build_next(s.build, e).1,
        dev_next(s, e).0.stage == DevStage::Finished,
{
}

/// How far a `dev` run has come.
pub open spec fn dev_progress(s: DevState) -> int {
    match s.stage {
        DevStage::Building => build_rank(s.build.stage),
        DevStage::AnnounceDeploy => 23,
        DevStage::Deploying => 24,
        DevStage::Finished => 25,
    }
}

/// Every report a `dev` run takes moves it strictly forward; a finished run
/// takes no more reports.
pub proof fn dev_moves_forward(s: DevState, e: EventView)
    requires
        dev_accepts(s, e),
    ensures
        dev_progress(dev_next(s, e).0) > dev_progress(s),
        forall|e2: EventView|
            dev_next(s, e).0.stage == DevStage::Finished ==> !dev_accepts(dev_next(s, e).0, e2),
{
    if s.stage == DevStage::Building {
        build_moves_forward(s.build, e);
    }
}

/// What `dev` asks for is always answered by the kind of report it waits
/// for next.
pub proof fn dev_asks_what_it_waits_for(s: DevState, e: EventView, e2: EventView)
    requires
        dev_accepts(s, e),
        dev_next(s, e).1 is Request,
    ensures
        dev_accepts(dev_next(s, e).0, e2) == answers(expected_answer(dev_next(s, e).1), e2),
{
    if s.stage == DevStage::Building && build_next(s.build, e).1 is Request {
        build_asks_what_it_waits_for(s.build, e);
    }
}


/// `dev` starts exactly as `build` does with the same options: by resolving
/// the configuration for `aarch64-unknown-linux-ohos` with all of the
/// user's `--config` values, in order.
pub proof fn dev_resolves_with_user_config(options: OptionsView, noise_level: NoiseLevel)
    ensures
        dev_start(options, noise_level).1 == ActionView::Request(
            RequestView::ResolveConfig { target_triple: "aarch64-unknown-linux-ohos"@, config: options.config },
        ),
        dev_start(options, noise_level).1 == builder::build_start(options, noise_level).1,
        dev_start(options, noise_level).0.build == builder::build_start(options, noise_level).0,
{
}

} // verus!
