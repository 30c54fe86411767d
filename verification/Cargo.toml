[package]
name = "aw_watcher_screenshot"
version = "0.1.0"
edition = "2021"
publish = false

[dependencies]
anyhow = "*"
chrono = "*"
crc32fast = "*"
directories = "*"
hostname = "*"
image = { version = "*", default-features = false, features = ["webp", "jpeg"] }
reqwest = { version = "*", default-features = false, features = ["blocking", "json"] }
rusqlite = { version = "*", features = ["bundled"] }
serde = { version = "*", features = ["derive"] }
serde_json = "*"
tokio = { version = "*", features = ["rt-multi-thread", "macros", "sync", "time", "signal"] }
tokio-util = "*"
toml = "*"
uuid = { version = "*", features = ["v7"] }
webp = "*"
xcap = "*"
