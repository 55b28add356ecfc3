[package]
name = "ntske_core"
version = "0.1.0"
edition = "2021"
publish = false

[dependencies]
rustls = "=0.16.0"
crossbeam = "0.8"
mio = "=0.6.23"
slog = "2"

[dev-dependencies]
rcgen = "0.13"
