[package]
name = "ztunnel_h2"
version = "0.1.0"
edition = "2021"
publish = false

[dependencies]
bytes = "1"
futures-util = "0.3"
h2 = "0.4"
http = "1"
rustls = { version = "0.23", default-features = false, features = ["ring", "std", "tls12"] }
tokio = { version = "1", features = ["io-util", "macros", "net", "rt", "sync", "time"] }
tokio-rustls = { version = "0.26", default-features = false, features = ["ring", "tls12"] }
tracing = "0.1"

[dev-dependencies]
rcgen = { version = "0.13", default-features = false, features = ["crypto", "ring"] }
