[package]
name = "arachiver"
version = "0.1.0"
edition = "2021"
publish = false

[dependencies]
unicode-segmentation = "*"
btleplug = "*"
chrono = "*"
clap = "*"
color-eyre = "*"
csv = "*"
parquet = { version = "*", default-features = false, features = ["zstd"] }
thiserror = "*"
tokio = { version = "*", features = ["macros", "rt-multi-thread", "time"] }
tokio-stream = { version = "*", features = ["time"] }
uuid = "*"
