[package]
name = "crossbundle"
version = "0.1.0"
edition = "2021"
publish = false

[dependencies]
anyhow = "=1.0.104"
apple-bundle = "=0.1.4"
cargo = "=0.66.0"
cargo-util = "=0.2.19"
clap = { version = "=3.2.25", features = ["derive"] }
itertools = "=0.10.5"
# Held back for cargo, which reaches it through toml_edit: later versions
# ask for a newer compiler than cargo 0.66 does.
kstring = "=2.0.2"
log = "=0.4.34"
serde = { version = "=1.0.229", features = ["derive"] }
tempfile = "=3.27.0"
