[package]
name = "metlink_notices"
version = "0.1.0"
edition = "2021"
publish = false

[dependencies]
chrono = { version = "0.4", default-features = false, features = ["std", "clock", "serde"] }
chrono-tz = "*"
regex = "1"
serde = { version = "1", features = ["derive"] }
serde_json = "1"
egg-mode = "*"
tokio = { version = "1", features = ["rt-multi-thread", "macros", "fs", "io-util"] }
reqwest = { version = "*", default-features = false }
csv = "1"
zip = { version = "*", default-features = false, features = ["deflate"] }
thiserror = "*"
log = "0.4"
env_logger = "*"
time = { version = "*", features = ["formatting", "parsing", "serde"] }
