[package]
name = "heks"
version = "0.1.0"
edition = "2021"
publish = false

[dependencies]
clap = { version = "4", features = ["derive"] }
crossterm = "0.25"
env_logger = "0.10"
futures = "0.3"
home = "0.5"
itertools = "0.10"
log = "0.4"
log-panics = "2"
memmap2 = "0.5"
nix = "0.26"
once_cell = "1"
pastel = "0.9"
shell-words = "1"
tokio = { version = "1", features = ["macros", "rt", "signal", "time"] }
tui = "0.19"
