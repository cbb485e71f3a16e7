[package]
name = "renewal_watcher"
version = "0.1.0"
edition = "2021"
publish = false

[dependencies]
subxt = "*"
subxt-signer = "*"
tokio = { version = "1", features = ["macros", "rt-multi-thread"] }
