[package]
name = "codeql_extractor"
version = "0.1.0"
edition = "2021"
publish = false

[dependencies]
anyhow = "=1.0.104"
ghactions = { version = "=0.18.4", default-features = false, features = ["log", "macros", "toolcache-tarball", "toolcache-zip"] }
ghactions-core = { version = "=0.18.4", default-features = false, features = ["log", "macros"] }
ghastoolkit = "=0.12.2"
glob = "=0.3.4"
log = "=0.4.34"
octocrab = "=0.47.1"
reqwest = "0.12"
serde_json = "=1.0.151"
tokio = { version = "=1.53.2", features = ["full"] }
