[package]
name = "sysinfo_web"
version = "0.1.0"
edition = "2021"
publish = false

[dependencies]
flate2 = "1"
serde = { version = "1", features = ["derive"] }
serde_json = "1"
sysinfo = "*"
hostname = "*"
warp = "0.3"
tokio = { version = "1", features = ["rt-multi-thread", "macros"] }
