[package]
name = "platform_explorer"
version = "0.1.0"
edition = "2021"
publish = false

[dependencies]
clap = { version = "=4.6.7", features = ["derive"] }
crossterm = { version = "=0.27.0", features = ["event-stream"] }
futures = "=0.3.34"
tokio = { version = "=1.54.1", features = ["full"] }
toml = "=0.8.23"
tracing = "=0.1.44"
tracing-subscriber = { version = "=0.3.23", features = ["env-filter"] }
tui-realm-stdlib = "=1.3.2"
tuirealm = "=1.9.2"
