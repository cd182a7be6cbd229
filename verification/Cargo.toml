[package]
name = "quartz"
version = "0.1.0"
edition = "2021"
publish = false

[dependencies]
rand = "=0.8.8"
bytes = "=1.12.1"
anyhow = "=1.0.104"
parking_lot = "=0.12.5"
tokio = { version = "=1.54.1", features = ["sync", "rt", "rt-multi-thread", "macros", "time"] }
spin_sleep = "=1.3.3"
audiopus = "=0.2.0"
ogg-sys = "=0.0.9"
rocket = { version = "0.5", features = ["json"] }
reqwest = { version = "0.11", default-features = false, features = ["json"] }
symphonia = { version = "0.5", features = ["mp3"] }
samplerate = "0.2"
serde = { version = "1", features = ["derive"] }
dotenv = "0.15"
async-stream = "0.3"
either = "1"
tokio-stream = "0.1"
