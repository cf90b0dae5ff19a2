[package]
name = "ink_dap"
version = "0.1.0"
edition = "2021"
publish = false

[dependencies]
dap = "=0.4.1-alpha1"
serde = { version = "1", features = ["derive"] }
serde_json = "1"
tokio = { version = "1", features = ["sync", "rt-multi-thread", "time", "net"] }
crossbeam-channel = "*"
actix-web = { version = "4", default-features = false, features = ["macros"] }
reqwest = { version = "0.12", default-features = false }
polkavm = "*"
simple_logger = "*"
log = "*"
