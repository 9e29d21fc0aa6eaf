[package]
name = "payable_asset_smart_contract"
version = "1.0.0"
edition = "2021"
publish = false

[dependencies]
cosmwasm-std = "1.0.0"
cosmwasm-storage = "1.0.0"
provwasm-std = "1.0.0"
schemars = "0.8"
semver = "1.0"
serde = { version = "1.0", default-features = false, features = ["derive"] }
thiserror = "1.0"
