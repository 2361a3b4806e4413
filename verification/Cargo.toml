[package]
name = "goose"
version = "0.1.0"
edition = "2021"
publish = false

[dependencies]
anyhow = "1"
async-stream = "0.3"
async-trait = "0.1"
axum = "=0.8.9"
base64 = "=0.22.1"
chrono = { version = "=0.4.45", default-features = false, features = ["std", "clock"] }
clap = { version = "4", features = ["derive"] }
cliclack = "=0.5.7"
console = "=0.16.6"
flate2 = "1"
futures = "0.3"
ort = { version = "2.0.0-rc", default-features = false, features = ["std", "ndarray", "load-dynamic"] }
parakeet-rs = { version = "=0.4.4", default-features = false, features = ["load-dynamic"] }
reqwest = { version = "=0.12.28", default-features = false, features = ["json", "multipart", "stream", "rustls-tls"] }
rmcp = { version = "=3.8.0", features = ["server"] }
rustyline = "=19.0.0"
schemars = "1"
serde = { version = "1", features = ["derive"] }
serde_json = "1"
serde_yaml = "0.9"
symphonia = { version = "0.5", default-features = false, features = ["wav", "mkv", "pcm"] }
symphonia-adapter-libopus = "0.2"
tar = "0.4"
thiserror = "2"
tokio = { version = "1", features = ["full"] }
tokio-util = { version = "0.7", features = ["rt"] }
tracing = "0.1"
url = "=2.5.8"
webbrowser = "*"
