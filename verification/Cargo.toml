[package]
name = "archivanima"
version = "0.1.0"
edition = "2021"
publish = false

[dependencies]
http-content-range = "=0.2.5"
html-escape = "=0.3.0"
urlencoding = "=2.1.3"
rocket = { version = "=0.5.2", features = ["json", "secrets"] }
sqlx = { version = "=0.7.4", default-features = false, features = ["postgres", "runtime-tokio"] }
tokio = { version = "=1.54.1", features = ["fs", "io-util", "rt-multi-thread"] }
serde = { version = "=1.0.229", features = ["derive"] }
clap = { version = "=4.6.7", features = ["derive"] }
log = "=0.4.34"
env_logger = "=0.11.11"
argon2 = "0.5"
bcrypt = "0.15"
base64 = "0.21"
rand = "0.8"
rpassword = "7"
