[package]
name = "unpm"
version = "0.1.0"
edition = "2021"
publish = false

[dependencies]
bon = "*"
chrono = { version = "*", features = ["serde"] }
clap = { version = "*", features = ["derive"] }
clap_complete = { version = "*", features = ["unstable-dynamic"] }
color-print = "*"
dialoguer = "*"
directories = "*"
env_logger = "*"
log = "*"
package_json_schema = "*"
reqwest = { version = "*", default-features = false, features = ["blocking", "rustls-tls"] }
serde = { version = "*", features = ["derive"] }
serde_json = "*"
strum = { version = "*", features = ["derive"] }
thiserror = "*"
