[package]
name = "blist"
version = "0.1.0"
edition = "2021"
publish = false

[dependencies]
anyhow = "1"
base64 = "0.13"
chrono = { version = "0.4", default-features = false, features = ["clock", "std"] }
constant_time_eq = "0.1"
glob = "0.3"
rayon = "1"
serde_json = "1"
structopt = "0.3"
thiserror = "1"
zip = { version = "0.6", default-features = false, features = ["deflate"] }
