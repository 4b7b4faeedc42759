[package]
name = "openapi_lib_generator"
version = "0.1.0"
edition = "2021"
publish = false

[dependencies]
cargo-make = "0.36"
cargo_toml = "0.15"
chrono = { version = "0.4", features = ["serde"] }
clap = { version = "4", features = ["derive"] }
fs-err = { version = "2", features = ["tokio"] }
futures = "0.3"
proc-macro2 = "1"
serde = { version = "1", features = ["derive"] }
serde_yaml = "0.9"
syn = "2"
thiserror = "1"
tokio = { version = "1", features = ["full"] }
toml = "0.7"
url = { version = "2", features = ["serde"] }
