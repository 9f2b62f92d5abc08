[package]
name = "iroh-live-cli"
version = "0.1.0"
edition = "2021"
publish = false

[dependencies]
bytesize = "*"
clap = { version = "4", default-features = false, features = ["derive", "std", "help", "usage", "error-context"] }
dirs = "*"
embedded-graphics = "0.8"
embedded-hal = "1"
iroh = { version = "*", default-features = false }
n0-error = "*"
n0-future = "*"
n0-watcher = "*"
postcard = { version = "1", features = ["use-std"] }
qrcode = { version = "0.14", default-features = false }
rand = "*"
rqrr = { version = "*", default-features = false }
serde = { version = "1", features = ["derive"] }
tokio = { version = "1", features = ["full"] }
tokio-util = "0.7"
toml = "*"
tracing = "0.1"
