[package]
name = "deur"
version = "0.1.0"
edition = "2021"
publish = false

[dependencies]
argon2rs = "=0.2.5"
rand = "=0.8.8"
rand_core = { version = "=0.6.4", features = ["getrandom"] }
chrono = "=0.4.45"
serde = { version = "=1.0.229", features = ["derive"] }
jsonwebtoken = "9"
rocket = { version = "0.5", features = ["json", "secrets"] }
rocket_cors = "0.6"
diesel = { version = "=1.4.8", features = ["postgres", "chrono", "r2d2"] }
dotenv = "=0.15.0"
maud = { version = "0.26", features = ["rocket"] }
sysfs_gpio = "=0.5.4"
