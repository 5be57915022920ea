[package]
name = "script_watch"
version = "0.1.0"
edition = "2021"
publish = false

[dependencies]
anyhow = "1"
clap = { version = "4", features = ["cargo"] }
clearscreen = "*"
permissions = "*"
tokio = { version = "1", features = ["macros", "rt-multi-thread"] }
watchexec = "*"
watchexec-events = "*"
watchexec-signals = "*"
