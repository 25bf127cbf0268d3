[package]
name = "terralib"
version = "0.1.0"
edition = "2021"
publish = false

[dependencies]
jiff = { version = "0.2", features = ["serde"] }
rand = "0.9"
serde = { version = "1", features = ["derive"] }
serde_json = "1"
anyhow = "1"
log = "0.4"
axum = "*"
tokio = { version = "1", features = ["rt-multi-thread", "macros", "net"] }
clap = { version = "4", features = ["derive"] }
reqwest = { version = "*", default-features = false, features = ["json"] }
mdns-sd = "*"
stderrlog = "*"
embassy-executor = { version = "*", features = ["arch-std", "executor-thread"] }
embassy-futures = "*"
embassy-sync = "*"
embassy-time = { version = "*", features = ["std"] }
heapless = "*"
esp-idf-svc = "*"
esp-idf-hal = "*"
embedded-svc = "*"
sht3x = "*"
