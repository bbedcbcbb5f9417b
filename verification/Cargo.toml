[package]
name = "scylla_pg"
version = "0.1.0"
edition = "2021"
publish = false

[dependencies]
async-trait = "=0.1.92"
chrono = { version = "=0.4.45", features = ["serde"] }
config = { version = "=0.15.27", default-features = false }
deadpool = "=0.13.1"
deadpool-postgres = "=0.14.2"
env_logger = "=0.11.11"
hdrhistogram = "7"
log = "=0.4.34"
rand = "=0.9.5"
serde = { version = "=1.0.229", features = ["derive"] }
serde_json = "=1.0.154"
tokio = { version = "=1.54.1", features = ["macros", "rt-multi-thread", "sync", "time"] }
tokio-postgres = { version = "=0.7.18", features = ["with-serde_json-1"] }
uuid = { version = "1", features = ["v4"] }
