[package]
name = "bar_game"
version = "0.1.0"
edition = "2021"
publish = false

[dependencies]
anyhow = "=1.0.104"
bevy_ecs = "0.16"
kira = "=0.8.7"
tokio = { version = "=1.54.1", features = ["rt-multi-thread", "macros", "net", "sync", "io-util", "time"] }
tracing = "=0.1.44"
tracing-subscriber = { version = "=0.3.23", features = ["env-filter", "fmt"] }
