[package]
name = "orca"
version = "0.1.0"
edition = "2021"
publish = false

[dependencies]
anyhow = "1"
chrono = "0.4"
clap = { version = "4", features = ["derive"] }
const_format = "0.2"
flate2 = "1"
libc = "0.2"
nix = { version = "*", features = ["event", "fs", "hostname", "ioctl", "mount", "process", "sched", "signal", "term", "user"] }
os_pipe = "1"
reqwest = { version = "*", features = ["blocking"] }
rm_rf = "*"
serde = { version = "1", features = ["derive"] }
serde_json = "1"
sha1 = "0.10"
tar = "0.4"
thiserror = "*"
toml = "*"
walkdir = "2"
