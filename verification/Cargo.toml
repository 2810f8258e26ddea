[package]
name = "h2ping"
version = "0.1.0"
edition = "2021"
publish = false

[dependencies]
anyhow = "1"
clap = { version = "4", features = ["derive"] }
futures = "0.3"
h2 = "0.4"
humantime = "2"
pin-project-lite = "0.2"
rustls = "0.21"
tokio = { version = "1", features = ["rt-multi-thread", "macros", "net", "time", "io-util", "sync"] }
tokio-rustls = "0.24"
tokio-util = "0.7"
tracing = "0.1"
tracing-subscriber = "0.3"
webpki-roots = "0.25"
