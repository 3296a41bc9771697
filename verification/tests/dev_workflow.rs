use openharmony_cli::cli::{self, Cli, Commands, InitOptions, Invocation, MobileTarget};
use openharmony_cli::dev::{self, Options};
use openharmony_cli::error::Error;
use openharmony_cli::noise::{noise_level, NoiseLevel};
use openharmony_cli::workflow::{Action, AppInfo, ConfigValue, Event, Request};
use openharmony_cli::builder;

fn options() -> Options {
    Options { debug: true, features: Some(vec!["f".to_string()]), config: vec![], ci: false, args: vec![] }
}

fn req(a: Action) -> Request {
    match a {
        Action::Request(r) => r,
        other => panic!("expected a request, got {:?}", other),
    }
}

/// The device script, written out as a raw string.
fn expected_script(hap: &str, id: &str) -> String {
    let grep_cmd = String::new();
    format!(
        r#"
hdc install {} && \
hdc shell hilog -r && \
hdc shell aa start -a EntryAbility -b {} && \
pid=$(timeout 0.5 hdc track-jpid | awk '$2=="{}"{{print $1}}') && \
hdc shell hilog -P "$pid"{}"#,
        hap, id, id, grep_cmd
    )
}

#[test]
fn deploy_command_matches_device_script() {
    let s = dev::deploy_command("/a/entry-default-signed.hap", "com.example.app", "");
    assert_eq!(s, expected_script("/a/entry-default-signed.hap", "com.example.app"));
    let g = dev::deploy_command("x.hap", "id", " | grep foo");
    assert!(g.ends_with("hdc shell hilog -P \"$pid\" | grep foo"));
}

/// Drives a dev run with every step succeeding; returns the run and the
/// action after the device script.
fn dev_run(device_ok: bool) -> Action {
    let (mut s, a) = dev::command(options(), NoiseLevel::Polite);
    assert_eq!(
        req(a),
        Request::ResolveConfig { target_triple: "aarch64-unknown-linux-ohos".to_string(), config: vec![] }
    );
    let app = AppInfo {
        identifier: "com.example.demo".to_string(),
        lib_name: "demo".to_string(),
        root_dir: "/w".to_string(),
        root_parent: Some("/".to_string()),
    };
    let mut a = s.step(Event::Resolved { app, tauri_dir: "/w/src-tauri".to_string() });
    let mut guard = 0;
    loop {
        guard += 1;
        assert!(guard < 60);
        let r = req(a);
        let ev = match r {
            Request::EnterDirectory { .. } | Request::EnsureInit { .. } => Event::Done,
            Request::Print { ref text, .. } if text == "Deploying and running OpenHarmony project..." => {
                Event::Done
            },
            Request::Print { .. } => Event::Done,
            Request::Run { ref program, ref args, .. } if program == "sh" => {
                assert_eq!(args.len(), 2);
                assert_eq!(args[0], "-c");
                assert_eq!(
                    args[1],
                    expected_script(
                        "/w/openharmony/entry/build/default/outputs/default/entry-default-signed.hap",
                        "com.example.demo"
                    )
                );
                let last = s.step(Event::Exited { success: device_ok });
                return last;
            },
            Request::Run { .. } => Event::Exited { success: true },
            Request::Exists { .. } => Event::Exists(true),
            Request::CreateDirAll { .. } | Request::Copy { .. } => Event::Done,
            Request::EnvText { ref name } if name == "OHOS_BASE_SDK_HOME" => Event::Env(Ok("/sdk".to_string())),
            Request::EnvText { .. } => Event::Env(Err("NotPresent".to_string())),
            Request::Which { .. } => Event::Found(true),
            other => panic!("unexpected {:?}", other),
        };
        assert!(s.accepts(&ev));
        a = s.step(ev);
    }
}

#[test]
fn dev_deploys_after_build() {
    assert_eq!(dev_run(true), Action::Deployed);
}

#[test]
fn dev_device_command_failure() {
    assert_eq!(dev_run(false), Action::Fail(Error::GenericError("Device command failed".to_string())));
}

#[test]
fn dev_build_failure_ends_dev() {
    let (mut s, _) = dev::command(options(), NoiseLevel::Polite);
    let app = AppInfo {
        identifier: "id".to_string(),
        lib_name: "l".to_string(),
        root_dir: "/w".to_string(),
        root_parent: Some("/".to_string()),
    };
    s.step(Event::Resolved { app, tauri_dir: "/w/src-tauri".to_string() });
    s.step(Event::Done);
    s.step(Event::Done);
    s.step(Event::Done);
    let a = s.step(Event::Exited { success: false });
    assert_eq!(a, Action::Fail(Error::GenericError("Cargo build failed".to_string())));
    assert!(!s.accepts(&Event::Done));
}

#[test]
fn dev_config_failure() {
    let (mut s, _) = dev::command(options(), NoiseLevel::Polite);
    let a = s.step(Event::Failed(Error::Step("no tauri.conf.json".to_string())));
    assert_eq!(a, Action::Fail(Error::Step("no tauri.conf.json".to_string())));
}

#[test]
fn dev_build_options_keep_switches() {
    let b = dev::build_options(options());
    assert_eq!(
        b,
        builder::Options { debug: true, features: Some(vec!["f".to_string()]), config: vec![], ci: false, args: vec![] }
    );
}

#[test]
fn noise_levels() {
    assert_eq!(noise_level(0), NoiseLevel::Polite);
    assert_eq!(noise_level(1), NoiseLevel::LoudAndProud);
    assert_eq!(noise_level(2), NoiseLevel::FranklyQuitePedantic);
    assert_eq!(noise_level(255), NoiseLevel::FranklyQuitePedantic);
}

#[test]
fn command_init_dispatch() {
    let cli = Cli {
        command: Commands::Init(InitOptions {
            ci: true,
            skip_targets_install: true,
            config: vec![ConfigValue("c.json".to_string())],
        }),
    };
    match cli::command(cli, 3) {
        Invocation::Init { target, ci, reinstall_deps, skip_targets_install, config } => {
            assert_eq!(target, MobileTarget::OpenHarmony);
            assert!(ci);
            assert!(!reinstall_deps);
            assert!(skip_targets_install);
            assert_eq!(config, vec![ConfigValue("c.json".to_string())]);
        },
        _ => panic!("expected init"),
    }
}

#[test]
fn command_dev_dispatch() {
    match cli::command(Cli { command: Commands::Dev(options()) }, 1) {
        Invocation::Dev { session, action } => {
            assert!(matches!(action, Action::Request(Request::ResolveConfig { .. })));
            assert!(session.accepts(&Event::Failed(Error::Step("x".to_string()))));
        },
        _ => panic!("expected dev"),
    }
}

#[test]
fn command_build_dispatch() {
    let o = builder::Options { debug: false, features: None, config: vec![], ci: false, args: vec![] };
    match cli::command(Cli { command: Commands::Build(o) }, 0) {
        Invocation::Build { action, .. } => {
            assert_eq!(
                action,
                Action::Request(Request::ResolveConfig {
                    target_triple: "aarch64-unknown-linux-ohos".to_string(),
                    config: vec![],
                })
            );
        },
        _ => panic!("expected build"),
    }
}

#[test]
fn dev_device_script_not_started_aborts() {
    let (mut s, _) = dev::command(options(), NoiseLevel::Polite);
    let app = AppInfo {
        identifier: "id".to_string(),
        lib_name: "l".to_string(),
        root_dir: "/w".to_string(),
        root_parent: Some("/".to_string()),
    };
    let mut a = s.step(Event::Resolved { app, tauri_dir: "/w/src-tauri".to_string() });
    loop {
        let ev = match req(a) {
            Request::Run { ref program, .. } if program == "sh" => break,
            Request::Run { .. } => Event::Exited { success: true },
            Request::Exists { .. } => Event::Exists(true),
            Request::EnvText { ref name } if name == "OHOS_BASE_SDK_HOME" => Event::Env(Ok("/sdk".to_string())),
            Request::EnvText { .. } => Event::Env(Err("NotPresent".to_string())),
            Request::Which { .. } => Event::Found(true),
            _ => Event::Done,
        };
        a = s.step(ev);
    }
    let last = s.step(Event::IoFailed { message: "not found".to_string(), detail: "NotFound".to_string() });
    assert_eq!(last, Action::Abort("Failed to execute device command: NotFound".to_string()));
}
