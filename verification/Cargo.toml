[package]
name = "windows-mtr"
version = "0.1.0"
edition = "2021"
publish = false

[dependencies]
anyhow = "1"
cargo_metadata = "0.18"
clap = { version = "4", features = ["derive"] }
hex = "0.4"
sha2 = "0.10"
thiserror = "1"
walkdir = "2"
which = "6"
xz2 = "0.1"
zip = { version = "0.6", default-features = false, features = ["deflate", "time"] }
