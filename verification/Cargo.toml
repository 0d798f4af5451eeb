[package]
name = "restaurant_pos"
version = "0.1.0"
edition = "2021"
publish = false

[dependencies]
anyhow = "1"
argon2 = "0.5"
chrono = "0.4"
dotenv = "0.15"
futures-util = "0.3"
genpdf = "0.2"
mongodb = { version = "3", features = ["sync"] }
parking_lot = "0.12"
password-hash = { version = "0.5", features = ["getrandom"] }
serde = { version = "1", features = ["derive"] }
serialport = { version = "4", default-features = false }
uuid = { version = "1", features = ["v4"] }
