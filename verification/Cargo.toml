[package]
name = "shaum"
version = "0.1.0"
edition = "2021"
publish = false

[dependencies]
chrono = { version = "0.4", default-features = false, features = ["std", "serde"] }
hijri_date = "*"
smallvec = { version = "1", features = ["serde"] }
serde = { version = "1", features = ["derive"] }
thiserror = "1"
maxminddb = "0.23"
reqwest = { version = "0.12", default-features = false, features = ["json"] }
