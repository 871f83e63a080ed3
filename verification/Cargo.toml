[package]
name = "aura_update"
version = "2.2.7"
edition = "2021"
publish = false

[dependencies]
chrono = "=0.4.45"
rand = "=0.8.8"
qrcode = { version = "=0.14.1", default-features = false, features = ["svg"] }
serde = { version = "=1.0.229", features = ["derive"] }
serde_json = "=1.0.154"
tokio = { version = "=1.54.1", features = ["full"] }
sysinfo = "=0.32.1"
dirs = "=5.0.1"
open = "=5.4.5"
local-ip-address = "=0.6.13"
rayon = "=1.12.0"
reqwest = { version = "=0.12.28", default-features = false, features = ["json", "rustls-tls"] }
warp = { version = "=0.3.7", default-features = false }
image = { version = "=0.25.10", default-features = false, features = ["png", "jpeg"] }
winreg = "0.52"
