[package]
name = "streamfinder"
version = "0.1.0"
edition = "2021"
publish = false

[dependencies]
axum = "*"
reqwest = { version = "*", default-features = false, features = ["json", "rustls-tls"] }
serde = { version = "*", features = ["derive"] }
time = { version = "*", features = ["parsing"] }
tokio = { version = "*", features = ["macros", "net", "rt-multi-thread", "signal"] }
toml = "*"
tower = { version = "*", features = ["limit", "load-shed", "timeout", "util"] }
unidirs = "*"
