[package]
name = "host_isa"
version = "0.1.0"
edition = "2021"
publish = false

[dependencies]
anyhow = "=1.0.104"
clap = { version = "=4.6.7", features = ["derive"] }
cranelift-codegen = { version = "=0.135.5", features = ["all-native-arch"] }
file-per-thread-logger = "=0.2.0"
libc = "=0.2.190"
rayon = "=1.12.0"
target-lexicon = "=0.13.5"
tracing-subscriber = { version = "=0.3.23", features = ["env-filter"] }
wasmtime = { version = "=48.0.5", default-features = false, features = ["cranelift"] }
