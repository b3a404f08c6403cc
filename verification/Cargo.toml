[package]
name = "channel_watch"
version = "0.1.0"
edition = "2021"
publish = false

[dependencies]
anyhow = "1"
eframe = { version = "0.19", features = ["persistence"] }
egui = "0.19"
egui_extras = { version = "0.19", features = ["image"] }
flume = "0.10"
image = { version = "0.24", default-features = false, features = ["jpeg", "png"] }
once_cell = "1"
reqwest = { version = "0.11", default-features = false, features = ["json", "rustls-tls"] }
serde = { version = "1", features = ["derive"] }
serde_json = "1"
simple_env_load = "*"
time = { version = "0.3", features = ["formatting", "local-offset", "macros", "parsing"] }
tokio = { version = "1", features = ["macros", "rt-multi-thread", "sync", "time"] }
tokio-stream = { version = "0.1", features = ["time"] }
