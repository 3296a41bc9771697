use openharmony_cli::builder::{self, BuildSession, Options};
use openharmony_cli::error::Error;
use openharmony_cli::noise::NoiseLevel;
use openharmony_cli::workflow::{Action, AppInfo, ConfigValue, Event, Request};

fn t(s: &str) -> String {
    s.to_string()
}

fn args(parts: &[&str]) -> Vec<String> {
    parts.iter().map(|s| s.to_string()).collect()
}

fn io(message: &str, detail: &str) -> Event {
    Event::IoFailed { message: message.to_string(), detail: detail.to_string() }
}

fn options() -> Options {
    Options {
        debug: false,
        features: None,
        config: vec![ConfigValue("{\"identifier\":\"com.x\"}".to_string())],
        ci: true,
        args: vec![],
    }
}

fn app() -> AppInfo {
    AppInfo {
        identifier: "com.example.demo".to_string(),
        lib_name: "demo_lib".to_string(),
        root_dir: t("/work/demo"),
        root_parent: Some(t("/work")),
    }
}

fn tauri() -> String {
    t("/work/demo/src-tauri")
}

fn req(a: Action) -> Request {
    match a {
        Action::Request(r) => r,
        other => panic!("expected a request, got {:?}", other),
    }
}

fn printed(a: Action) -> String {
    match req(a) {
        Request::Print { text, to_stderr: false } => text,
        other => panic!("expected a print, got {:?}", other),
    }
}

/// Runs a build from a resolved configuration through the cargo build.
fn through_cargo() -> BuildSession {
    let (mut s, a) = builder::run(options(), NoiseLevel::Polite, app(), tauri());
    assert_eq!(req(a), Request::EnterDirectory { dir: tauri() });
    let a = s.step(Event::Done);
    assert_eq!(req(a), Request::EnsureInit { root_dir: t("/work/demo"), ci: true });
    let a = s.step(Event::Done);
    assert_eq!(printed(a), "Running cargo build...");
    let a = s.step(Event::Done);
    assert_eq!(
        req(a),
        Request::Run {
            program: "cargo".to_string(),
            args: args(&["build", "--target", "aarch64-unknown-linux-ohos", "--release"]),
            cwd: None,
        }
    );
    s
}

/// Continues from the cargo build through the library copy, with the
/// project beside the app sources and the library where cargo put it.
fn through_lib_copy() -> BuildSession {
    let mut s = through_cargo();
    let a = s.step(Event::Exited { success: true });
    assert_eq!(req(a), Request::Exists { path: t("/work/demo/openharmony") });
    let a = s.step(Event::Exists(true));
    assert_eq!(req(a), Request::Exists { path: t("/work/demo/openharmony") });
    let a = s.step(Event::Exists(true));
    assert_eq!(
        req(a),
        Request::CreateDirAll { path: t("/work/demo/openharmony/entry/libs/arm64-v8a") }
    );
    let a = s.step(Event::Done);
    let primary = t("/work/demo/src-tauri/target/aarch64-unknown-linux-ohos/release/libdemo_lib.so");
    assert_eq!(req(a), Request::Exists { path: primary.clone() });
    let a = s.step(Event::Exists(true));
    assert_eq!(
        req(a),
        Request::Copy {
            from: primary,
            to: t("/work/demo/openharmony/entry/libs/arm64-v8a/libdemo_lib.so"),
        }
    );
    let a = s.step(Event::Done);
    assert_eq!(
        printed(a),
        "Copied /work/demo/src-tauri/target/aarch64-unknown-linux-ohos/release/libdemo_lib.so to /work/demo/openharmony/entry/libs/arm64-v8a"
    );
    s
}

#[test]
fn build_command_starts_by_resolving_config() {
    let (s, a) = builder::command(options(), NoiseLevel::LoudAndProud);
    assert_eq!(
        req(a),
        Request::ResolveConfig {
            target_triple: "aarch64-unknown-linux-ohos".to_string(),
            config: vec![ConfigValue("{\"identifier\":\"com.x\"}".to_string())],
        }
    );
    assert!(s.accepts(&Event::Failed(Error::Step("no config".to_string()))));
    assert!(!s.accepts(&Event::Done));
}

#[test]
fn build_config_failure_is_the_build_failure() {
    let (mut s, _) = builder::command(options(), NoiseLevel::Polite);
    let a = s.step(Event::Failed(Error::Step("bad config".to_string())));
    assert_eq!(a, Action::Fail(Error::Step("bad config".to_string())));
    assert!(!s.accepts(&Event::Done));
}

#[test]
fn build_resolved_config_enters_tauri_dir() {
    let (mut s, _) = builder::command(options(), NoiseLevel::Polite);
    let a = s.step(Event::Resolved { app: app(), tauri_dir: tauri() });
    assert_eq!(req(a), Request::EnterDirectory { dir: tauri() });
}

#[test]
fn build_cargo_failure() {
    let mut s = through_cargo();
    let a = s.step(Event::Exited { success: false });
    assert_eq!(a, Action::Fail(Error::GenericError("Cargo build failed".to_string())));
}

#[test]
fn build_cargo_not_started_aborts() {
    let mut s = through_cargo();
    let a = s.step(io("No such file", "Os { code: 2 }"));
    assert_eq!(a, Action::Abort("Failed to execute cargo build: Os { code: 2 }".to_string()));
}

#[test]
fn build_init_failure() {
    let (mut s, _) = builder::run(options(), NoiseLevel::Polite, app(), tauri());
    s.step(Event::Done);
    let a = s.step(Event::Failed(Error::Step("init failed".to_string())));
    assert_eq!(a, Action::Fail(Error::Step("init failed".to_string())));
}

#[test]
fn build_enter_dir_failure_aborts() {
    let (mut s, _) = builder::run(options(), NoiseLevel::Polite, app(), tauri());
    let a = s.step(io("denied", "Os { code: 13 }"));
    assert_eq!(
        a,
        Action::Abort("failed to set current directory to Tauri directory: Os { code: 13 }".to_string())
    );
}

#[test]
fn build_project_beside_root_then_gen() {
    let mut s = through_cargo();
    s.step(Event::Exited { success: true });
    let a = s.step(Event::Exists(false));
    assert_eq!(req(a), Request::Exists { path: t("/work/openharmony") });
    let a = s.step(Event::Exists(false));
    assert_eq!(req(a), Request::Exists { path: t("/work/demo/gen/openharmony") });
    let a = s.step(Event::Exists(false));
    assert_eq!(
        a,
        Action::Fail(Error::GenericError(
            "OpenHarmony project directory not found at /work/demo/gen/openharmony".to_string()
        ))
    );
}

#[test]
fn build_project_beside_parent() {
    let mut s = through_cargo();
    s.step(Event::Exited { success: true });
    s.step(Event::Exists(false));
    let a = s.step(Event::Exists(true));
    assert_eq!(req(a), Request::Exists { path: t("/work/openharmony") });
    let a = s.step(Event::Exists(true));
    assert_eq!(
        req(a),
        Request::CreateDirAll { path: t("/work/openharmony/entry/libs/arm64-v8a") }
    );
}

#[test]
fn build_root_without_parent_checks_root_again() {
    let mut a_root = app();
    a_root.root_dir = t("/");
    a_root.root_parent = None;
    let (mut s, _) = builder::run(options(), NoiseLevel::Polite, a_root, tauri());
    s.step(Event::Done);
    s.step(Event::Done);
    s.step(Event::Done);
    let a = s.step(Event::Exited { success: true });
    assert_eq!(req(a), Request::Exists { path: t("/openharmony") });
    let a = s.step(Event::Exists(false));
    assert_eq!(req(a), Request::Exists { path: t("/openharmony") });
    let a = s.step(Event::Exists(false));
    assert_eq!(
        a,
        Action::Fail(Error::GenericError("OpenHarmony project directory not found at /openharmony".to_string()))
    );
}

#[test]
fn build_lib_dir_failure_aborts() {
    let mut s = through_cargo();
    s.step(Event::Exited { success: true });
    s.step(Event::Exists(true));
    s.step(Event::Exists(true));
    let a = s.step(io("read-only", "Os { code: 30 }"));
    assert_eq!(a, Action::Abort("Failed to create libs directory: Os { code: 30 }".to_string()));
}

#[test]
fn build_workspace_library_fallback() {
    let mut s = through_cargo();
    s.step(Event::Exited { success: true });
    s.step(Event::Exists(true));
    s.step(Event::Exists(true));
    s.step(Event::Done);
    let a = s.step(Event::Exists(false));
    let workspace = t("/work/demo/src-tauri/../../../target/aarch64-unknown-linux-ohos/release/libdemo_lib.so");
    assert_eq!(req(a), Request::Exists { path: workspace.clone() });
    let a = s.step(Event::Exists(true));
    match req(a) {
        Request::Copy { from, .. } => assert_eq!(from, workspace),
        other => panic!("{:?}", other),
    }
}

#[test]
fn build_keeps_primary_library_when_workspace_missing() {
    let mut s = through_cargo();
    s.step(Event::Exited { success: true });
    s.step(Event::Exists(true));
    s.step(Event::Exists(true));
    s.step(Event::Done);
    s.step(Event::Exists(false));
    let a = s.step(Event::Exists(false));
    match req(a) {
        Request::Copy { from, .. } => assert_eq!(
            from,
            t("/work/demo/src-tauri/target/aarch64-unknown-linux-ohos/release/libdemo_lib.so")
        ),
        other => panic!("{:?}", other),
    }
}

#[test]
fn build_library_copy_failure() {
    let mut s = through_cargo();
    s.step(Event::Exited { success: true });
    s.step(Event::Exists(true));
    s.step(Event::Exists(true));
    s.step(Event::Done);
    s.step(Event::Exists(true));
    let a = s.step(io("disk full", "Os { code: 28 }"));
    assert_eq!(a, Action::Fail(Error::GenericError("Failed to copy lib: disk full".to_string())));
}

#[test]
fn build_without_sdk_home_aborts() {
    let mut s = through_lib_copy();
    let a = s.step(Event::Done);
    assert_eq!(req(a), Request::EnvText { name: "OHOS_BASE_SDK_HOME".to_string() });
    let a = s.step(Event::Env(Err("NotPresent".to_string())));
    assert_eq!(a, Action::Abort("OHOS_BASE_SDK_HOME not set: NotPresent".to_string()));
}

/// From the copied library through the hvigor announcement, with the C++
/// runtime present and hvigorw under `OHOS_CMD_TOOLS`.
#[test]
fn build_full_success() {
    let mut s = through_lib_copy();
    s.step(Event::Done);
    let a = s.step(Event::Env(Ok("/sdk".to_string())));
    let runtime = "/sdk/18/native/llvm/lib/aarch64-linux-ohos/c++/libc++_shared.so".to_string();
    assert_eq!(req(a), Request::Exists { path: runtime.clone() });
    let a = s.step(Event::Exists(true));
    assert_eq!(
        req(a),
        Request::Copy { from: runtime, to: t("/work/demo/openharmony/entry/libs/arm64-v8a/libc++_shared.so") }
    );
    let a = s.step(Event::Done);
    assert_eq!(printed(a), "Copied libc++_shared.so to /work/demo/openharmony/entry/libs/arm64-v8a");
    let a = s.step(Event::Done);
    assert_eq!(req(a), Request::EnvText { name: "OHOS_CMD_TOOLS".to_string() });
    let a = s.step(Event::Env(Ok(t("/tools"))));
    assert_eq!(req(a), Request::Exists { path: t("/tools/bin/hvigorw") });
    let a = s.step(Event::Exists(true));
    assert_eq!(printed(a), "Running /tools/bin/hvigorw assembleHap...");
    let a = s.step(Event::Done);
    assert_eq!(
        req(a),
        Request::Run {
            program: "/tools/bin/hvigorw".to_string(),
            args: args(&["assembleHap"]),
            cwd: Some(t("/work/demo/openharmony")),
        }
    );
    let a = s.step(Event::Exited { success: true });
    assert_eq!(
        a,
        Action::Built(t("/work/demo/openharmony/entry/build/default/outputs/default/entry-default-signed.hap"))
    );
    assert!(!s.accepts(&Event::Done));
}

#[test]
fn build_runtime_missing_warns() {
    let mut s = through_lib_copy();
    s.step(Event::Done);
    s.step(Event::Env(Ok("/sdk".to_string())));
    let a = s.step(Event::Exists(false));
    assert_eq!(
        req(a),
        Request::Print {
            text: "Warning: libc++_shared.so not found at /sdk/18/native/llvm/lib/aarch64-linux-ohos/c++/libc++_shared.so. Skipping copy.".to_string(),
            to_stderr: true,
        }
    );
    let a = s.step(Event::Done);
    assert_eq!(req(a), Request::EnvText { name: "OHOS_CMD_TOOLS".to_string() });
}

#[test]
fn build_runtime_copy_failure_aborts() {
    let mut s = through_lib_copy();
    s.step(Event::Done);
    s.step(Event::Env(Ok("/sdk".to_string())));
    s.step(Event::Exists(true));
    let a = s.step(io("gone", "Os { code: 2 }"));
    assert_eq!(a, Action::Abort("Failed to copy libc++_shared.so: Os { code: 2 }".to_string()));
}

fn to_hvigorw_search() -> BuildSession {
    let mut s = through_lib_copy();
    s.step(Event::Done);
    s.step(Event::Env(Ok("/sdk".to_string())));
    s.step(Event::Exists(false));
    s.step(Event::Done);
    s
}

#[test]
fn build_hvigorw_on_path() {
    let mut s = to_hvigorw_search();
    let a = s.step(Event::Env(Err(t("NotPresent"))));
    assert_eq!(req(a), Request::Which { program: "hvigorw".to_string() });
    let a = s.step(Event::Found(true));
    assert_eq!(printed(a), "Running hvigorw assembleHap...");
    let a = s.step(Event::Done);
    match req(a) {
        Request::Run { program, .. } => assert_eq!(program, "hvigorw"),
        other => panic!("{:?}", other),
    }
}

#[test]
fn build_cmd_tools_without_hvigorw_searches_path() {
    let mut s = to_hvigorw_search();
    s.step(Event::Env(Ok(t("/tools"))));
    let a = s.step(Event::Exists(false));
    assert_eq!(req(a), Request::Which { program: "hvigorw".to_string() });
}

#[test]
fn build_hvigorw_not_found() {
    let mut s = to_hvigorw_search();
    s.step(Event::Env(Err(t("NotPresent"))));
    let a = s.step(Event::Found(false));
    assert_eq!(
        a,
        Action::Fail(Error::GenericError(
            "hvigorw not found. Please set OHOS_CMD_TOOLS or add hvigorw to your PATH.".to_string()
        ))
    );
}

#[test]
fn build_hvigor_failure() {
    let mut s = to_hvigorw_search();
    s.step(Event::Env(Err(t("NotPresent"))));
    s.step(Event::Found(true));
    s.step(Event::Done);
    let a = s.step(Event::Exited { success: false });
    assert_eq!(a, Action::Fail(Error::GenericError("OpenHarmony build failed".to_string())));
}

#[test]
fn build_hvigor_not_started_aborts() {
    let mut s = to_hvigorw_search();
    s.step(Event::Env(Err(t("NotPresent"))));
    s.step(Event::Found(true));
    s.step(Event::Done);
    let a = s.step(io("no exec", "Os { code: 8 }"));
    assert_eq!(a, Action::Abort("Failed to execute hvigorw: Os { code: 8 }".to_string()));
}

#[test]
fn build_options_conversion() {
    let o = Options {
        debug: true,
        features: Some(vec!["a".to_string()]),
        config: vec![],
        ci: false,
        args: vec!["--x".to_string()],
    };
    let b = builder::into_build_options(o);
    assert_eq!(b.runner, None);
    assert!(b.debug);
    assert_eq!(b.target, None);
    assert_eq!(b.features, vec!["a".to_string()]);
    assert_eq!(b.bundles, None);
    assert!(!b.no_bundle && !b.ci && !b.skip_stapling && !b.ignore_version_mismatches && !b.no_sign);
    assert_eq!(b.args, vec!["--x".to_string()]);
    let none = builder::into_build_options(Options { features: None, ..options() });
    assert!(none.features.is_empty());
}

#[test]
fn build_paths_keep_their_written_form() {
    let mut a = app();
    a.root_dir = t("/work/./demo/");
    a.root_parent = Some(t("/work/."));
    let (mut s, _) = builder::run(options(), NoiseLevel::Polite, a, t("tauri//"));
    s.step(Event::Done);
    s.step(Event::Done);
    s.step(Event::Done);
    let r = s.step(Event::Exited { success: true });
    assert_eq!(req(r), Request::Exists { path: t("/work/./demo/openharmony") });
    let r = s.step(Event::Exists(false));
    assert_eq!(req(r), Request::Exists { path: t("/work/./openharmony") });
    let r = s.step(Event::Exists(false));
    assert_eq!(req(r), Request::Exists { path: t("/work/./demo/gen/openharmony") });
    s.step(Event::Exists(true));
    let r = s.step(Event::Done);
    assert_eq!(
        req(r),
        Request::Exists { path: t("tauri//target/aarch64-unknown-linux-ohos/release/libdemo_lib.so") }
    );
}

#[test]
fn build_cmd_tools_path_keeps_its_written_form() {
    let mut s = to_hvigorw_search();
    let r = s.step(Event::Env(Ok(t("a/./b"))));
    assert_eq!(req(r), Request::Exists { path: t("a/./b/bin/hvigorw") });
    let r = s.step(Event::Exists(true));
    assert_eq!(printed(r), "Running a/./b/bin/hvigorw assembleHap...");
}
