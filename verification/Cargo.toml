[package]
name = "daemon_core"
version = "0.1.0"
edition = "2021"
publish = false

[dependencies]
bloomfilter = "1"
serde = { version = "1", features = ["derive"] }
serde_json = "1"
sysinfo = "0.33"
axum = "0.8"
tokio = { version = "1", features = ["full"] }
tower-http = { version = "0.6", features = ["cors"] }
windows-service = "0.8"
dioxus = { version = "0.6", default-features = false, features = ["macro", "html", "hooks", "signals"] }
