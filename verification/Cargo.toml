[package]
name = "scrt_finance"
version = "0.1.0"
edition = "2021"
publish = false

[dependencies]
secret-cosmwasm-std = "0.10"
secret-cosmwasm-storage = "0.10"
secret-toolkit = { version = "0.2", default-features = false, features = ["crypto", "snip20", "storage", "utils"] }
schemars = "0.7"
serde = { version = "1.0", default-features = false, features = ["derive"] }

[dev-dependencies]
rand = "0.7"
