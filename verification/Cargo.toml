[package]
name = "nebula_tunes"
version = "0.1.0"
edition = "2021"
publish = false

[dependencies]
anyhow = "1"
async-fs = "2"
bms-rs = "*"
chardetng = "*"
clap = { version = "4", features = ["derive"] }
futures-lite = "2"
gametime = "*"
image = "*"
imageproc = "*"
num-traits = "0.2"
rodio = "*"
serde = { version = "1", features = ["derive"] }
toml = "*"
tracing = "0.1"
tracing-subscriber = { version = "0.3", features = ["env-filter"] }
