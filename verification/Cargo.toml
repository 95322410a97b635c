[package]
name = "sccache"
version = "0.1.0"
edition = "2021"
publish = false

[dependencies]
anyhow = "=1.0.104"
async-trait = "=0.1.92"
bincode = "=1.3.3"
byteorder = "=1.5.0"
bytes = "=1.12.1"
futures = "=0.3.34"
log = "=0.4.35"
opendal = { version = "=0.55.0", default-features = false, features = ["services-memory", "services-s3", "services-redis", "services-ghac"] }
serde = { version = "=1.0.229", features = ["derive"] }
tokio = { version = "=1.54.1", features = ["rt", "net", "io-util", "sync", "time"] }
uuid = { version = "=1.29.0", features = ["v4"] }

[dev-dependencies]
http = "=1.5.0"
