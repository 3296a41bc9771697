//! Verified core of the OpenHarmony commands of the Tauri command line:
//! argument dispatch, the `dev` and `build` workflows as step machines,
//! and the planning of the generated OpenHarmony project.
pub mod builder;
pub mod cli;
pub mod dev;
pub mod error;
pub mod noise;
pub mod paths;
pub mod project;
pub mod workflow;
