[package]
name = "knockknock"
version = "0.1.0"
edition = "2021"
publish = false

[dependencies]
bcrypt = "0.15"
rand = "0.8"
aes-gcm = "0.10"
pbkdf2 = { version = "0.12", default-features = false, features = ["hmac"] }
sha2 = "0.10"
chacha20 = "0.9"
getrandom = "0.2"
serde = { version = "1", features = ["derive"] }
serde_json = "1"
rustix = { version = "0.38", features = ["fs"] }
libc = "0.2"
dirs = "5"
lazy_static = "1"

[dev-dependencies]
tempfile = "3"
