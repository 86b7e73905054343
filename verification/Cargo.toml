[package]
name = "shumai"
version = "0.1.0"
edition = "2021"
publish = false

[dependencies]
serde = { version = "1", features = ["derive"] }
serde_json = "1"
sysinfo = "0.30"
perf-event = "0.4"
pprof = { version = "0.14", features = ["flamegraph"] }
chrono = "0.4"
colored = "2"
toml = "0.8"
regex = "1"
ureq = "2"
