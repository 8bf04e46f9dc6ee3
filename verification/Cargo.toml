[package]
name = "anomaly_launcher"
version = "0.1.0"
edition = "2021"
publish = false

[dependencies]
md5 = "=0.7.0"
serde = { version = "=1.0.229", features = ["derive"] }
toml = "=0.8.23"
walkdir = "=2.5.0"
sys-locale = "=0.3.2"
sysinfo = "=0.29.11"
once_cell = "=1.21.4"
image = { version = "0.24", default-features = false, features = ["png", "ico"] }
rfd = "0.14"
winapi = { version = "0.3", features = ["processthreadsapi", "winbase", "winnt", "shellapi"] }
