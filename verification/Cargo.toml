[package]
name = "save_sync"
version = "0.1.0"
edition = "2021"
publish = false

[dependencies]
twox-hash = "*"
zstd = "*"
tar = "*"
chrono = "*"
uuid = { version = "*", features = ["v4"] }
clap = "*"
diesel = { version = "*", features = ["sqlite", "r2d2"] }
libsqlite3-sys = { version = "*", features = ["bundled"] }
serde = { version = "*", features = ["derive"] }
toml = "*"
directories = "*"
anyhow = "*"
thiserror = "*"

[dev-dependencies]
rand = "*"
