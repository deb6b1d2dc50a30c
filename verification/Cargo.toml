[package]
name = "term_session"
version = "0.1.0"
edition = "2021"
publish = false

[dependencies]
rustyline = "=12.0.0"
termion = "=1.5.6"
tokio = { version = "=1.54.1", features = ["sync", "rt", "rt-multi-thread", "macros", "io-util", "net"] }
tokio-util = "=0.7.20"

[dev-dependencies]
nix = { version = "=0.26.4", default-features = false }
