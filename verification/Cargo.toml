[package]
name = "rmng"
version = "0.1.0"
edition = "2021"
publish = false

[dependencies]
serde = { version = "1", features = ["derive"] }
serde_json = "1"
chrono = { version = "0.4", default-features = false, features = ["clock", "std", "serde"] }
uuid = { version = "1", features = ["v4", "serde"] }
caps = "0.5"
toml = "0.8"
tokio = { version = "1", features = ["macros", "rt-multi-thread", "process", "io-util", "net", "time"] }
clap = { version = "4", features = ["derive"] }
seccompiler = { version = "0.4", features = ["json"] }
libc = "0.2"
nix = { version = "0.29", features = ["process"] }
jsonschema = { version = "*", default-features = false }
