[package]
name = "spin_login"
version = "0.1.0"
edition = "2021"
publish = false

[dependencies]
anyhow = "=1.0.104"
clap = { version = "=3.2.25", features = ["derive", "env"] }
dirs = "=4.0.0"
num_cpus = "=1.17.0"
rand = "=0.8.8"
rpassword = "=7.5.4"
serde = { version = "=1.0.229", features = ["derive"] }
serde_json = { version = "=1.0.154", features = ["preserve_order"] }
tokio = { version = "=1.54.1", features = ["fs", "time", "macros", "rt"] }
tracing = { version = "=0.1.44", features = ["log"] }
uuid = "=1.29.0"
