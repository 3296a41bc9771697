//! The `openharmony` command and its subcommands.
use vstd::prelude::*;
use crate::builder::{self, BuildSession, build_start};
use crate::dev::{self, DevSession, dev_start};
use crate::noise::{noise_for, noise_level};
use crate::workflow::{ConfigValue, configs_view, Action};

verus! {

/// The app of a cargo-mobile2 project; the library only carries it.
#[verifier::external_type_specification]
#[verifier::external_body]
pub struct ExApp(cargo_mobile2::config::app::App);

/// The Tauri configuration; the library only carries it.
#[verifier::external_type_specification]
#[verifier::external_body]
pub struct ExTauriConfig(tauri_utils::config::Config);

/// OpenHarmony commands
pub struct Cli {
    pub command: Commands,
}

/// Initialize OpenHarmony target in the project
#[derive(Debug)]
pub struct InitOptions {
    /// Skip prompting for values
    pub ci: bool,
    /// Skips installing rust toolchains via rustup
    pub skip_targets_install: bool,
    /// JSON strings or paths to JSON, JSON5 or TOML files to merge with the default configuration file
    pub config: Vec<ConfigValue>,
}

/// The subcommands.
pub enum Commands {
    Init(InitOptions),
    Dev(dev::Options),
    Build(builder::Options),
}

/// The mobile targets that these commands initialize.
#[derive(Clone, Copy, Debug, PartialEq, Eq, Structural)]
pub enum MobileTarget {
    OpenHarmony,
}

/// What a subcommand comes to.
pub enum Invocation {
    /// Resolve the app paths, then initialize the project for `target`.
    Init {
        target: MobileTarget,
        ci: bool,
        reinstall_deps: bool,
        skip_targets_install: bool,
        config: Vec<ConfigValue>,
    },
    /// A `dev` run and its first action.
    Dev { session: DevSession, action: Action },
    /// A `build` and its first action; the package path it ends with is not
    /// the command's result.
    Build { session: BuildSession, action: Action },
}

/// Dispatches a subcommand: `init` initializes the OpenHarmony target with
/// the given switches and never reinstalls dependencies; `dev` and `build`
/// start with the noise level that `verbosity` selects.
pub fn command(cli: Cli, verbosity: u8) -> (r: Invocation)
    ensures
        match cli.command {
            Commands::Init(o) => r matches Invocation::Init {
                target,
                ci,
                reinstall_deps,
                skip_targets_install,
                config,
            } && target == MobileTarget::OpenHarmony && ci == o.ci && !reinstall_deps
                && skip_targets_install == o.skip_targets_install && configs_view(config@)
                == configs_view(o.config@),
            Commands::Dev(o) => r matches Invocation::Dev { session, action } && session@ == dev_start(
                o@,
                noise_for(verbosity as u64),
            ).0 && action@ == dev_start(o@, noise_for(verbosity as u64)).1,
            Commands::Build(o) => r matches Invocation::Build { session, action } && session@
                == build_start(o@, noise_for(verbosity as u64)).0 && action@ == build_start(
                o@,
                noise_for(verbosity as u64),
            ).1,
        },
{
    let level = noise_level(verbosity);
    match cli.command {
        Commands::Init(options) => Invocation::Init {
            target: MobileTarget::OpenHarmony,
            ci: options.ci,
            reinstall_deps: false,
            skip_targets_install: options.skip_targets_install,
            config: options.config,
        },
        Commands::Dev(options) => {
            let (session, action) = dev::command(options, level);
            Invocation::Dev { session, action }
        },
        Commands::Build(options) => {
            let (session, action) = builder::command(options, level);
            Invocation::Build { session, action }
        },
    }
}

/// The OpenHarmony part of the mobile configuration: there is none yet, so
/// both parts are empty whatever the app, configuration and options.
pub fn get_config<O>(
    app: &cargo_mobile2::config::app::App,
    config: &tauri_utils::config::Config,
    features: Option<&Vec<String>>,
    cli_options: &O,
) -> (r: ((), ()))
    ensures
        r == ((), ()),
{
    ((), ())
}

} // verus!
