[package]
name = "andromeda_client"
version = "0.1.0"
edition = "2021"
publish = false

[dependencies]
directories = "=6.0.0"
futures-util = "=0.3.34"
hex = "=0.4.3"
iced = { version = "=0.14.0", default-features = false, features = ["tiny-skia", "tokio", "x11"] }
reqwest = { version = "=0.12.28", default-features = false, features = ["rustls-tls", "stream"] }
serde = { version = "=1.0.229", features = ["derive"] }
serde_json = "=1.0.154"
sha1 = "=0.10.7"
sha2 = "=0.10.9"
thiserror = "=2.0.21"
tokio = { version = "=1.54.1", features = ["fs", "io-util", "sync", "time", "macros", "rt-multi-thread", "net"] }
tokio-util = "=0.7.20"
tracing = "=0.1.44"
tracing-appender = "=0.2.5"
tracing-subscriber = { version = "=0.3.23", features = ["env-filter", "fmt"] }

[dev-dependencies]
tempfile = "=3.27.0"
