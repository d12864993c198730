[package]
name = "dictum_core"
version = "0.1.0"
edition = "2021"
publish = false

[dependencies]
isolang = "=2.4.0"
whatlang = "=0.16.4"
raw-cpuid = "=11.6.0"
serde = { version = "=1.0.229", features = ["derive"] }
serde_json = "=1.0.154"
hound = "=3.5.1"
interprocess = "=2.4.7"
signal-hook = "=0.3.18"
log = "=0.4.35"
anyhow = "=1.0.104"
once_cell = "=1.21.4"
ash = "0.38"
tokio = { version = "1", features = ["time", "rt"] }
futures-util = "0.3"
reqwest = { version = "0.12", default-features = false, features = ["json", "stream", "rustls-tls"] }
hf-hub = { version = "0.4", default-features = false }
