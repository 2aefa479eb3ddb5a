[package]
name = "iowatcherng_exporter"
version = "0.1.0"
edition = "2021"
publish = false

[dependencies]
clap = { version = "=4.6.7", features = ["derive"] }
metrics = "=0.21.1"
metrics-exporter-prometheus = "=0.12.2"
quinn = "=0.10.2"
rustls = { version = "=0.21.12", features = ["dangerous_configuration"] }
rustls-pemfile = "=1.0.4"
tokio = { version = "=1.53.2", features = ["rt-multi-thread", "macros", "io-util", "process", "signal"] }
