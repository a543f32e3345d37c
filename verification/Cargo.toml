[package]
name = "ceremony"
version = "0.1.0"
edition = "2021"
publish = false

[dependencies]
chrono = { version = "0.4", features = ["serde"] }
ed25519-dalek = { version = "2", features = ["rand_core", "serde"] }
blake3 = { version = "1", default-features = false, features = ["std", "pure"] }
hex = "0.4"
rand = "0.8"
rand_core = "0.6"
bcs = "0.1"
serde = { version = "1", features = ["derive"] }
serde_json = "1"
anyhow = "1"
thiserror = "2"
tokio = { version = "1", features = ["rt-multi-thread", "macros", "sync", "time", "net", "fs"] }
reqwest = { version = "0.12", default-features = false, features = ["json"] }
hyper = { version = "1", features = ["server", "http1"] }
hyper-util = { version = "0.1", features = ["tokio"] }
http-body-util = "0.1"
bytes = "1"
clap = { version = "4", features = ["derive"] }
tracing = "0.1"
tracing-subscriber = { version = "0.3", features = ["env-filter"] }
sqlx = { version = "0.8", default-features = false, features = ["sqlite", "runtime-tokio", "chrono", "macros"] }
rayon = "1"
figment = { version = "0.10", features = ["toml", "env"] }
csv = "1"
urlencoding = "2"
ark-ec = "0.5"
ark-ff = "0.5"
ark-serialize = "0.5"
ark-bls12-381 = "0.5"
sha2 = "0.10"
