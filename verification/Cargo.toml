[package]
name = "minil"
version = "0.1.0"
edition = "2021"
publish = false

[dependencies]
bytes = "1"
tokio = { version = "1", default-features = false, features = ["io-util"] }
tokio-util = { version = "0.7", default-features = false, features = ["codec", "io"] }
futures = "0.3"
hex = "0.4"
md-5 = "0.10"
sha1 = "0.10"
sha2 = "0.10"
digest = "0.10"
crc-fast = "*"
infer = "*"
mime = "0.3"
mime_guess = "2"
urlencoding = "2"
url = "2"
uuid = { version = "1", features = ["v4"] }
log = "0.4"
tracing = { version = "0.1", features = ["log"] }
tracing-subscriber = { version = "0.3", features = ["env-filter", "json"] }
tracing-appender = "0.2"
serde = { version = "1", features = ["derive"] }
config = { version = "*", default-features = false }
indexmap = "2"
rand = "*"
rand_seeder = "*"
