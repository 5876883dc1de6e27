[package]
name = "gcop_rs"
version = "0.1.0"
edition = "2021"
publish = false

[dependencies]
chrono = "=0.4.45"
clap = { version = "=4.6.7", features = ["derive"] }
colored = "=3.1.1"
config = "=0.15.27"
dialoguer = { version = "=0.12.0", features = ["editor"] }
directories = "=6.0.0"
git2 = { version = "=0.21.0", default-features = false }
indicatif = "=0.18.6"
reqwest = { version = "=0.12.28", default-features = false, features = ["blocking", "json", "rustls-tls"] }
serde = { version = "=1.0.229", features = ["derive"] }
serde_json = "=1.0.151"
thiserror = "=2.0.21"
tracing = "=0.1.44"
tracing-subscriber = { version = "=0.3.23", features = ["env-filter"] }
which = "=8.0.6"
