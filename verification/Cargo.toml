[package]
name = "diagnostic_report"
version = "0.1.0"
edition = "2021"
publish = false

[dependencies]
clap = { version = "4", features = ["derive"] }
log = "0.4"
lsp-types = "0.95"
miette = { version = "7", features = ["fancy"] }
owo-colors = { version = "4", features = ["supports-colors"] }
path-absolutize = "3"
pathdiff = "0.2"
pretty_env_logger = "0.5"
serde_json = "1"
textwrap = { version = "0.16", features = ["terminal_size"] }
