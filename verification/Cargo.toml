[package]
name = "rgl"
version = "0.1.0"
edition = "2021"
publish = false

[dependencies]
anyhow = "1"
clap = { version = "4", features = ["cargo"] }
dunce = "1"
log = "0.4"
notify = "6"
notify-debouncer-mini = "0.3"
paris = { version = "1.5", features = ["macros"] }
serde = { version = "1", features = ["derive"] }
serde_json = "1"
simplelog = { version = "0.12", features = ["paris"] }
