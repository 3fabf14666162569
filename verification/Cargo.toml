[package]
name = "moviebox_tui"
version = "0.1.7"
edition = "2021"
publish = false

[dependencies]
crossterm = "=0.29.0"
dirs = "=6.0.0"
image = { version = "=0.25.10", default-features = false, features = ["jpeg", "png", "webp"] }
md-5 = "=0.10.6"
ratatui = "=0.30.2"
ratatui-image = { version = "=11.1.0", default-features = false, features = ["crossterm"] }
reqwest = { version = "=0.12.28", default-features = false, features = ["json", "rustls-tls"] }
serde = { version = "=1.0.229", features = ["derive"] }
serde_json = "=1.0.154"
thiserror = "=2.0.21"
tokio = { version = "=1.54.1", features = ["full"] }
unicode-segmentation = "=1.13.3"
unicode-width = "=0.2.3"
url = "=2.5.8"
zip = { version = "7.4.0", default-features = false, features = ["deflate"] }
