[package]
name = "osutil"
version = "0.1.0"
edition = "2021"
publish = false

[dependencies]
base64 = "0.13"
clap = { version = "3", features = ["derive"] }
color-eyre = "0.6"
futures = "0.3"
regex = "1"
reqwest = { version = "0.11", default-features = false, features = ["json", "rustls-tls"] }
serde = { version = "1", features = ["derive"] }
serde-xml-rs = "0.5"
tokio = { version = "1", features = ["macros", "rt-multi-thread"] }
toml = "0.5"
xdg = "2"
