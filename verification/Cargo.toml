[package]
name = "crow"
version = "0.1.0"
edition = "2021"
publish = false

[dependencies]
anyhow = "1"
async-trait = "0.1"
clap = { version = "4", features = ["derive"] }
crossterm = { version = "0.28", features = ["event-stream"] }
dirs = "5"
futures = "0.3"
ignore = "0.4"
jsonschema = { version = "0.17", default-features = false }
nix = { version = "0.29", features = ["signal", "process"] }
ratatui = "0.29"
schemars = "0.8"
secrecy = "0.8"
serde = { version = "1", features = ["derive"] }
serde_json = "1"
sha2 = "0.10"
thiserror = "1"
tokio = { version = "1", features = ["full"] }
tokio-stream = "0.1"
tokio-util = "0.7"
toml = "0.8"
tracing = "0.1"
tui-textarea = "0.7"
ulid = "1"
unicode-width = "0.2"

[dev-dependencies]
tempfile = "3"
