[package]
name = "openharmony_cli"
version = "0.1.0"
edition = "2021"
publish = false

[dependencies]
cargo-mobile2 = "=0.22.5"
clap = { version = "=4.6.7", features = ["derive", "env"] }
handlebars = "=6.4.4"
include_dir = "=0.7.4"
tauri-utils = "=2.10.2"
serde_json = "=1.0.154"
which = "=8.0.6"
