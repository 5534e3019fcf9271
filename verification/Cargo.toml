[package]
name = "rattler"
version = "0.1.0"
edition = "2021"
publish = false

[dependencies]
bzip2 = "*"
chrono = { version = "0.4", default-features = false, features = ["std"] }
rattler_digest = "*"
reqwest = { version = "*", default-features = false, features = ["blocking"] }
serde = { version = "1", features = ["derive"] }
serde_json = "1"
serde_with = "*"
tar = "*"
thiserror = "*"
tracing = "*"
url = "2"
zip = { version = "*", default-features = false }
zstd = "*"
