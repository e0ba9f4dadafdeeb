[package]
name = "arm_toolchain"
version = "0.1.0"
edition = "2021"
publish = false

[dependencies]
sha2 = "=0.11.0"
data-encoding = "=2.11.1"
camino = "=1.2.6"
zip = { version = "=8.6.0", default-features = false, features = ["deflate"] }
tar = "=0.4.46"
liblzma = "=0.4.8"
tokio = { version = "*", features = ["full"] }
tokio-util = "*"
reqwest = { version = "*", default-features = false, features = ["rustls-tls", "stream"] }
serde = { version = "*", features = ["derive"] }
serde_json = "*"
clap = { version = "*", features = ["derive"] }
indicatif = "*"
inquire = "*"
owo-colors = "*"
humansize = "*"
directories = "*"
trash = "*"
