[package]
name = "harm"
version = "0.1.0"
edition = "2021"
publish = false

[dependencies]
rusqlite = { version = "=0.38.0", features = ["bundled"] }
sea-query = "=1.0.2"
sea-query-rusqlite = "=0.8.0"
uuid = { version = "=1.29.0", features = ["v4"] }
serde = { version = "=1.0.229", features = ["derive"] }
snafu = "=0.9.2"
axum = "=0.8.9"
axum-login = "=0.18.0"
tower-sessions = { version = "=0.14.0", features = ["memory-store"] }
maud = { version = "=0.27.0", features = ["axum"] }
tokio = { version = "=1.54.1", features = ["full"] }
tower-http = { version = "=0.7.1", features = ["fs"] }
tower-livereload = "=0.10.3"
askama = "=0.16.1"
askama_web = { version = "=0.16.0", features = ["axum-0.8"] }
dotenvy = "=0.15.7"
log = "=0.4.35"
refinery = { version = "=0.10.0", features = ["rusqlite"] }
