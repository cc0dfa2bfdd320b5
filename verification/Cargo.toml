[package]
name = "rustica"
version = "0.1.0"
edition = "2021"
publish = false

[dependencies]
hex = "=0.4.3"
ring = "=0.17.14"
sshcerts = { version = "=0.15.4", default-features = false }
zstd = "=0.14.0"
lru = { version = "=0.18.5", default-features = false }
x509-parser = "=0.18.1"
rcgen = { version = "=0.11.3", features = ["x509-parser"] }
tonic = "=0.14.6"
serde = { version = "=1.0.229", features = ["derive"] }
toml = "=0.5.11"
clap = "=4.6.7"
tokio = { version = "=1.53.2", features = ["full"] }
crossbeam-channel = "=0.5.17"
async-trait = "=0.1.92"
