[package]
name = "squid_n_element"
version = "0.1.0"
edition = "2021"
publish = false

[dependencies]
smallvec = "1"
serde = { version = "1", features = ["derive"] }
bincode = "1"
thiserror = "1"
