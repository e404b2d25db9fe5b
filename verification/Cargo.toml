[package]
name = "data_source"
version = "0.1.0"
edition = "2021"
publish = false

[dependencies]
tar = "*"
mime_guess = "*"
reqwest = { version = "*", default-features = false, features = ["blocking", "rustls-tls"] }
tokio = { version = "*", features = ["fs", "rt", "rt-multi-thread"] }
axum = "*"
tower = { version = "*", features = ["util"] }
futures-util = "*"
http-body-util = "*"
async-trait = "*"
log = "*"
thiserror = "*"
