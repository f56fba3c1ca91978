[package]
name = "astrashell"
version = "0.1.0"
edition = "2021"
publish = false

[dependencies]
libc = "0.2"
goblin = "*"
serde = { version = "1", features = ["derive"] }
serde_json = "1"
rmp-serde = "*"
toml = "*"
tokio = { version = "1", features = ["full"] }
clap = { version = "4", features = ["derive"] }
anyhow = "1"
flate2 = "1"
tar = "0.4"
xz2 = "*"
zstd = "*"
tracing = "0.1"
tracing-subscriber = { version = "0.3", features = ["env-filter"] }
async-trait = "*"
