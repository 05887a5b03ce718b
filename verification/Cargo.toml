[package]
name = "dirserver"
version = "0.1.0"
edition = "2021"
publish = false

[dependencies]
anyhow = "*"
axum = "*"
notify = "*"
notify-debouncer-full = "*"
rusqlite = { version = "*", features = ["bundled"] }
sha2 = "*"
tokio = { version = "*", features = ["macros", "net", "rt-multi-thread"] }
tower-http = { version = "*", features = ["fs"] }
tower-livereload = "*"
walkdir = "*"
