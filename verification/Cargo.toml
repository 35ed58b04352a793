[package]
name = "laic"
version = "0.1.0"
edition = "2021"
publish = false

[dependencies]
arrow-array = "*"
arrow-ipc = "*"
prost = "*"
tokio = { version = "1", features = ["rt-multi-thread", "macros", "time", "io-util", "sync"] }
quinn = { version = "0.11", default-features = false, features = ["runtime-tokio", "rustls-ring"] }
rustls = { version = "0.23", default-features = false, features = ["ring", "std"] }
iceoryx2 = "*"

[dev-dependencies]
arrow-schema = "*"
