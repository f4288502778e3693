[package]
name = "smartguard"
version = "0.1.0"
edition = "2021"
publish = false

[dependencies]
base64 = "0.22"
card-backend-pcsc = "0.5"
clap = { version = "4", features = ["derive"] }
futures-core = "0.3"
ipnet = "2"
iptrie = "0.8"
libc = "0.2"
openpgp-card = "0.5"
rand = "0.9"
rand_core = "0.9"
rpassword = "7"
secrecy = "0.8"
subtle = "2"
tai64 = "4"
thiserror = "2"
tokio = { version = "1", features = ["io-util", "macros", "net", "rt", "signal", "time"] }
