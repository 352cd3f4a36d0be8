[package]
name = "aien_benchmarks"
version = "0.2.0"
edition = "2021"
publish = false

[dependencies]
serde = { version = "1", features = ["derive"] }
serde_json = "1"
sha2 = "0.10"
clap = { version = "4", features = ["derive"] }
tokio = { version = "1", features = ["macros", "rt-multi-thread", "sync"] }
futures = "0.3"
reqwest = { version = "0.12", default-features = false, features = ["json", "stream"] }
chrono = { version = "0.4", default-features = false, features = ["clock", "std"] }
parking_lot = "0.12"
